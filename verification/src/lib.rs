//! A verified scene-behavior pipeline: nodes carry raw structured metadata,
//! an extraction stage turns a recognized `z_rot` field into a typed rotation
//! behavior exactly once per node, a per-tick update stage issues one
//! incremental rotation of `rate * dt` for every rotating node, and a
//! diagnostic stage reports nodes whose metadata produced no behavior.

pub mod laws;
pub mod metadata;
pub mod scene;
pub mod stages;
