//! The three per-tick phases of the pipeline, and the tick that orders them:
//! extraction strictly first, then the behavior update and the diagnostic
//! scan over the extracted scene.
//!
//! The extraction stage examines each node's metadata blob at most once, ever:
//! a node is skipped for good once its `examined` marker is set, whether or
//! not the examination produced a behavior.

use vstd::prelude::*;

use crate::metadata::{parse_metadata, spec_parse, BehaviorDescriptor, MetadataError};
use crate::scene::{node_inv, NodeModel, Scene};

verus! {

/// The extraction stage still owes this node an examination: it carries a
/// metadata blob that has not been examined yet.
pub open spec fn needs_extraction(n: NodeModel) -> bool {
    !n.examined && n.meta is Some
}

/// The raw text of the node's metadata blob.
pub open spec fn meta_text(n: NodeModel) -> Seq<char> {
    match n.meta {
        Some(m) => m,
        None => Seq::empty(),
    }
}

/// Examining this node's metadata blob fails fatally.
pub open spec fn extraction_fails(n: NodeModel) -> bool {
    needs_extraction(n) && spec_parse(meta_text(n)) is Err
}

/// The error that examining this node's metadata blob raises.
pub open spec fn failure_kind(n: NodeModel) -> MetadataError {
    match spec_parse(meta_text(n)) {
        Err(e) => e,
        Ok(_) => MetadataError::MalformedMetadata,
    }
}

/// The node with its examined marker set and the given behavior attached.
pub open spec fn mark_examined(n: NodeModel, rate: Option<u64>) -> NodeModel {
    NodeModel { id: n.id, meta: n.meta, examined: true, rate }
}

/// What one pass of the extraction stage leaves of a node: an unexamined
/// blob is parsed, and a recognized rotation is attached; every other
/// outcome (no blob, already examined, unrecognized, fatal error) leaves the
/// behavior as it was, and any examination sets the marker.
pub open spec fn extracted(n: NodeModel) -> NodeModel {
    if needs_extraction(n) {
        match spec_parse(meta_text(n)) {
            Ok(BehaviorDescriptor::Rotation { rate_bits }) => mark_examined(n, Some(rate_bits)),
            _ => mark_examined(n, n.rate),
        }
    } else {
        n
    }
}

/// A fatal extraction failure, identifying the offending node and the raw
/// metadata text that could not be interpreted.
#[derive(Debug)]
pub struct ExtractionError {
    pub node_id: u64,
    pub raw: String,
    pub kind: MetadataError,
}

/// The extraction stage stopped at node `i`, the first fatally failing one:
/// nodes up to and including `i` were examined, the rest left untouched, and
/// the error identifies node `i`.
pub open spec fn reports_failure(
    pre: Seq<NodeModel>,
    post: Seq<NodeModel>,
    e: ExtractionError,
    i: int,
) -> bool {
    &&& 0 <= i < pre.len()
    &&& extraction_fails(pre[i])
    &&& forall|j: int| 0 <= j < i ==> !extraction_fails(#[trigger] pre[j])
    &&& e.node_id == pre[i].id
    &&& e.raw@ == meta_text(pre[i])
    &&& e.kind == failure_kind(pre[i])
    &&& post.len() == pre.len()
    &&& forall|j: int| 0 <= j <= i ==> post[j] == extracted(#[trigger] pre[j])
    &&& forall|j: int| i < j < pre.len() ==> post[j] == #[trigger] pre[j]
}

/// The instructions one behavior update pass issues for the scene: one
/// incremental rotation of `rate * dt` per node carrying a behavior, in node
/// order.
pub open spec fn spec_steps(s: Seq<NodeModel>, dt_bits: u64) -> Seq<RotationStep>
    decreases s.len(),
{
    if s.len() == 0 {
        Seq::empty()
    } else {
        let rest = spec_steps(s.drop_last(), dt_bits);
        match s.last().rate {
            Some(b) => rest.push(RotationStep { node_id: s.last().id, rate_bits: b, dt_bits }),
            None => rest,
        }
    }
}

/// The diagnostic stage flags this node: it carries a metadata blob but no
/// behavior.
pub open spec fn spec_flagged(n: NodeModel) -> bool {
    n.meta is Some && n.rate is None
}

/// The handles the diagnostic stage reports for the scene, in node order:
/// one per flagged node.
pub open spec fn spec_diagnostics(s: Seq<NodeModel>) -> Seq<u64>
    decreases s.len(),
{
    if s.len() == 0 {
        Seq::empty()
    } else {
        let rest = spec_diagnostics(s.drop_last());
        if spec_flagged(s.last()) {
            rest.push(s.last().id)
        } else {
            rest
        }
    }
}

/// One incremental rotation to apply to one node this tick: rotate the node
/// about the vertical axis by `rate * dt`, composed with its current
/// orientation. The rate (radians per second) and the tick's elapsed seconds
/// are doubles carried by bit pattern; the arithmetic itself is the
/// renderer's floating-point business.
#[derive(Clone, Copy, PartialEq, Eq, Structural, Debug)]
pub struct RotationStep {
    pub node_id: u64,
    pub rate_bits: u64,
    pub dt_bits: u64,
}

/// What one tick of the pipeline produced: the update stage's rotation
/// instructions and the diagnostic stage's flagged handles.
pub struct TickReport {
    pub steps: Vec<RotationStep>,
    pub flagged: Vec<u64>,
}

impl Scene {
    /// The extraction stage: examine every node whose metadata blob has not
    /// been examined yet, in node order, attaching a rotation behavior where
    /// the blob holds a numeric `z_rot` field. Fatally malformed metadata
    /// stops the pass at the offending node with an error naming it.
    pub fn extract_metadata(&mut self) -> (r: Result<(), ExtractionError>)
        requires
            old(self).wf(),
        ensures
            final(self).wf(),
            final(self).next_id == old(self).next_id,
            r is Ok <==> (forall|i: int|
                0 <= i < old(self)@.len() ==> !extraction_fails(#[trigger] old(self)@[i])),
            r is Ok ==> {
                &&& final(self)@.len() == old(self)@.len()
                &&& forall|i: int|
                    0 <= i < old(self)@.len() ==> final(self)@[i] == extracted(
                        #[trigger] old(self)@[i],
                    )
            },
            r matches Err(e) ==> exists|i: int| reports_failure(old(self)@, final(self)@, e, i),
    {
        let ghost pre = self@;
        let n = self.nodes.len();
        let mut i: usize = 0;
        while i < n
            invariant
                n == pre.len(),
                0 <= i <= n,
                self@.len() == pre.len(),
                self.next_id == old(self).next_id,
                old(self).wf(),
                pre == old(self)@,
                forall|j: int| 0 <= j < i ==> self@[j] == extracted(#[trigger] pre[j]),
                forall|j: int| 0 <= j < i ==> !extraction_fails(#[trigger] pre[j]),
                forall|j: int| i <= j < n ==> self@[j] == #[trigger] pre[j],
            decreases n - i,
        {
            if !self.nodes[i].examined {
                let parsed = match &self.nodes[i].meta {
                    Some(m) => Some(parse_metadata(m.as_str())),
                    None => None,
                };
                match parsed {
                    None => {},
                    Some(Ok(BehaviorDescriptor::Rotation { rate_bits })) => {
                        let node = &mut self.nodes[i];
                        node.examined = true;
                        node.rate = Some(rate_bits);
                        proof {
                            assert(self@[i as int] == extracted(pre[i as int]));
                        }
                    },
                    Some(Ok(BehaviorDescriptor::Unrecognized)) => {
                        let node = &mut self.nodes[i];
                        node.examined = true;
                        proof {
                            assert(self@[i as int] == extracted(pre[i as int]));
                        }
                    },
                    Some(Err(kind)) => {
                        let id = self.nodes[i].id;
                        let raw = match &self.nodes[i].meta {
                            Some(m) => m.clone(),
                            None => String::new(),
                        };
                        let node = &mut self.nodes[i];
                        node.examined = true;
                        let e = ExtractionError { node_id: id, raw, kind };
                        proof {
                            assert(self@[i as int] == extracted(pre[i as int]));
                            assert(reports_failure(pre, self@, e, i as int));
                            lemma_wf_preserved(pre, self@, old(self).next_id, i as int + 1);
                        }
                        return Err(e);
                    },
                }
            }
            i = i + 1;
        }
        proof {
            lemma_wf_preserved(pre, self@, old(self).next_id, n as int);
        }
        Ok(())
    }

    /// The behavior update stage: issue, for every node carrying a behavior,
    /// exactly one incremental rotation of its rate times the tick's elapsed
    /// time. Nodes without a behavior get none; the scene is not changed.
    pub fn update_steps(&self, dt_bits: u64) -> (r: Vec<RotationStep>)
        ensures
            r@ == spec_steps(self@, dt_bits),
    {
        let n = self.nodes.len();
        let mut out: Vec<RotationStep> = Vec::new();
        let mut i: usize = 0;
        while i < n
            invariant
                n == self@.len(),
                0 <= i <= n,
                out@ == spec_steps(self@.take(i as int), dt_bits),
            decreases n - i,
        {
            proof {
                lemma_steps_take_step(self@, dt_bits, i as int);
            }
            match self.nodes[i].rate {
                Some(b) => {
                    out.push(
                        RotationStep { node_id: self.nodes[i].id, rate_bits: b, dt_bits },
                    );
                },
                None => {},
            }
            i = i + 1;
        }
        proof {
            assert(self@.take(n as int) =~= self@);
        }
        out
    }

    /// The diagnostic stage: report, without changing anything, the handle of
    /// every node that carries a metadata blob but no behavior, in node
    /// order, one entry per such node.
    pub fn collect_diagnostics(&self) -> (r: Vec<u64>)
        ensures
            r@ == spec_diagnostics(self@),
    {
        let n = self.nodes.len();
        let mut out: Vec<u64> = Vec::new();
        let mut i: usize = 0;
        while i < n
            invariant
                n == self@.len(),
                0 <= i <= n,
                out@ == spec_diagnostics(self@.take(i as int)),
            decreases n - i,
        {
            proof {
                lemma_diagnostics_take_step(self@, i as int);
            }
            if self.nodes[i].meta.is_some() && self.nodes[i].rate.is_none() {
                out.push(self.nodes[i].id);
            }
            i = i + 1;
        }
        proof {
            assert(self@.take(n as int) =~= self@);
        }
        out
    }

    /// One full tick of the pipeline in its mandated order: the extraction
    /// stage runs first, and only over the scene it leaves do the behavior
    /// update and the diagnostic stage run. A fatal extraction failure aborts
    /// the tick before either of the latter two.
    pub fn run_tick(&mut self, dt_bits: u64) -> (r: Result<TickReport, ExtractionError>)
        requires
            old(self).wf(),
        ensures
            final(self).wf(),
            final(self).next_id == old(self).next_id,
            r is Ok <==> (forall|i: int|
                0 <= i < old(self)@.len() ==> !extraction_fails(#[trigger] old(self)@[i])),
            r matches Ok(rep) ==> {
                &&& final(self)@.len() == old(self)@.len()
                &&& forall|i: int|
                    0 <= i < old(self)@.len() ==> final(self)@[i] == extracted(
                        #[trigger] old(self)@[i],
                    )
                &&& rep.steps@ == spec_steps(final(self)@, dt_bits)
                &&& rep.flagged@ == spec_diagnostics(final(self)@)
            },
            r matches Err(e) ==> exists|i: int| reports_failure(old(self)@, final(self)@, e, i),
    {
        match self.extract_metadata() {
            Err(e) => Err(e),
            Ok(()) => {
                let steps = self.update_steps(dt_bits);
                let flagged = self.collect_diagnostics();
                Ok(TickReport { steps, flagged })
            },
        }
    }
}

/// Unfolds one step of `spec_steps` along a prefix of the scene.
proof fn lemma_steps_take_step(s: Seq<NodeModel>, dt_bits: u64, i: int)
    requires
        0 <= i < s.len(),
    ensures
        spec_steps(s.take(i + 1), dt_bits) == (match s[i].rate {
            Some(b) => spec_steps(s.take(i), dt_bits).push(
                RotationStep { node_id: s[i].id, rate_bits: b, dt_bits },
            ),
            None => spec_steps(s.take(i), dt_bits),
        }),
{
    assert(s.take(i + 1).drop_last() =~= s.take(i));
    assert(s.take(i + 1).last() == s[i]);
}

/// Unfolds one step of `spec_diagnostics` along a prefix of the scene.
proof fn lemma_diagnostics_take_step(s: Seq<NodeModel>, i: int)
    requires
        0 <= i < s.len(),
    ensures
        spec_diagnostics(s.take(i + 1)) == if spec_flagged(s[i]) {
            spec_diagnostics(s.take(i)).push(s[i].id)
        } else {
            spec_diagnostics(s.take(i))
        },
{
    assert(s.take(i + 1).drop_last() =~= s.take(i));
    assert(s.take(i + 1).last() == s[i]);
}

/// A scene whose first `upto` nodes one extraction pass has rewritten, the
/// rest untouched, is still well-formed (handles and blobs are preserved, and
/// `node_inv` survives extraction).
proof fn lemma_wf_preserved(pre: Seq<NodeModel>, post: Seq<NodeModel>, next_id: u64, upto: int)
    requires
        0 <= upto <= pre.len(),
        post.len() == pre.len(),
        forall|j: int| 0 <= j < upto ==> post[j] == extracted(#[trigger] pre[j]),
        forall|j: int| upto <= j < pre.len() ==> post[j] == #[trigger] pre[j],
        forall|i: int, j: int| 0 <= i < j < pre.len() ==> pre[i].id != pre[j].id,
        forall|i: int| 0 <= i < pre.len() ==> (#[trigger] pre[i]).id < next_id,
        forall|i: int| 0 <= i < pre.len() ==> node_inv(#[trigger] pre[i]),
    ensures
        forall|i: int, j: int| 0 <= i < j < post.len() ==> post[i].id != post[j].id,
        forall|i: int| 0 <= i < post.len() ==> (#[trigger] post[i]).id < next_id,
        forall|i: int| 0 <= i < post.len() ==> node_inv(#[trigger] post[i]),
{
    assert forall|i: int| 0 <= i < post.len() implies (#[trigger] post[i]).id == pre[i].id by {
        if i < upto {
            assert(post[i] == extracted(pre[i]));
        }
    }
    assert forall|i: int| 0 <= i < post.len() implies node_inv(#[trigger] post[i]) by {
        if i < upto {
            assert(post[i] == extracted(pre[i]));
            assert(node_inv(pre[i]));
        }
    }
}

} // verus!
