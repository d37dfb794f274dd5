//! The scene model: an arena of nodes, each carrying an optional metadata
//! blob, an examined marker, and an optional rotation behavior.
//!
//! The scene graph proper (hierarchy, transforms, rendering) is the
//! environment's business; this model holds exactly the state the pipeline's
//! contract speaks of. A node's identity is a `u64` handle issued by the
//! scene itself, so handles are unique by construction.

use vstd::prelude::*;

use crate::metadata::{spec_parse, BehaviorDescriptor, MetadataError};

verus! {

/// The mathematical view of one node.
pub struct NodeModel {
    /// The node's identity.
    pub id: u64,
    /// The raw text of the node's metadata blob, if it carries one.
    pub meta: Option<Seq<char>>,
    /// Whether the extraction stage has already examined this node's blob.
    pub examined: bool,
    /// The attached rotation behavior: the rate in radians per second, a
    /// double carried by bit pattern.
    pub rate: Option<u64>,
}

/// One node of the scene: a handle, an optional immutable metadata blob, the
/// processed marker, and the optional behavior component.
pub struct SceneNode {
    pub id: u64,
    pub meta: Option<String>,
    pub examined: bool,
    pub rate: Option<u64>,
}

impl View for SceneNode {
    type V = NodeModel;

    open spec fn view(&self) -> NodeModel {
        NodeModel {
            id: self.id,
            meta: match self.meta {
                Some(ref m) => Some(m@),
                None => None,
            },
            examined: self.examined,
            rate: self.rate,
        }
    }
}

/// A node is internally consistent: it carries a behavior exactly when its
/// metadata blob was examined and parsed into that very rotation.
pub open spec fn node_inv(n: NodeModel) -> bool {
    &&& (n.rate matches Some(b) ==> {
        &&& n.examined
        &&& n.meta matches Some(m) && spec_parse(m) == Ok::<BehaviorDescriptor, MetadataError>(
            BehaviorDescriptor::Rotation { rate_bits: b },
        )
    })
    &&& (match n.meta {
        Some(m) => match spec_parse(m) {
            Ok(BehaviorDescriptor::Rotation { rate_bits }) => n.examined ==> n.rate == Some(
                rate_bits,
            ),
            _ => true,
        },
        None => true,
    })
}

/// The scene's component storage, viewed as the sequence of its nodes'
/// models in spawn order.
pub struct Scene {
    pub nodes: Vec<SceneNode>,
    pub next_id: u64,
}

impl View for Scene {
    type V = Seq<NodeModel>;

    open spec fn view(&self) -> Seq<NodeModel> {
        self.nodes@.map_values(|n: SceneNode| n@)
    }
}

impl Scene {
    /// Well-formedness: handles are unique and below the issue counter, and
    /// every node satisfies `node_inv`.
    pub open spec fn wf(&self) -> bool {
        &&& forall|i: int, j: int|
            0 <= i < j < self@.len() ==> self@[i].id != self@[j].id
        &&& forall|i: int| 0 <= i < self@.len() ==> (#[trigger] self@[i]).id < self.next_id
        &&& forall|i: int| 0 <= i < self@.len() ==> node_inv(#[trigger] self@[i])
    }

    /// An empty scene.
    pub fn new() -> (r: Scene)
        ensures
            r.wf(),
            r@.len() == 0,
            r.next_id == 0,
    {
        Scene { nodes: Vec::new(), next_id: 0 }
    }

    /// The number of nodes.
    pub fn node_count(&self) -> (r: usize)
        ensures
            r == self@.len(),
    {
        self.nodes.len()
    }

    /// Whether a further node can still be issued a fresh handle.
    pub fn can_spawn(&self) -> (r: bool)
        ensures
            r == (self.next_id < u64::MAX),
    {
        self.next_id < u64::MAX
    }

    /// Add one node to the scene, with an optional metadata blob, and return
    /// its handle. The node starts unexamined and without a behavior.
    pub fn spawn(&mut self, meta: Option<String>) -> (id: u64)
        requires
            old(self).wf(),
            old(self).next_id < u64::MAX,
        ensures
            final(self).wf(),
            id == old(self).next_id,
            final(self).next_id == old(self).next_id + 1,
            final(self)@.len() == old(self)@.len() + 1,
            forall|i: int| 0 <= i < old(self)@.len() ==> final(self)@[i] == old(self)@[i],
            final(self)@.last() == (NodeModel {
                id,
                meta: match meta {
                    Some(ref m) => Some(m@),
                    None => None,
                },
                examined: false,
                rate: None,
            }),
    {
        let id = self.next_id;
        let ghost prev = self@;
        self.nodes.push(SceneNode { id, meta, examined: false, rate: None });
        self.next_id = self.next_id + 1;
        proof {
            assert(self@.len() == prev.len() + 1);
            assert(forall|i: int| 0 <= i < prev.len() ==> self@[i] == prev[i]);
            assert(self@[prev.len() as int] == self@.last());
            assert forall|i: int| 0 <= i < self@.len() implies node_inv(#[trigger] self@[i])
                && self@[i].id < self.next_id by {
                if i < prev.len() {
                    assert(self@[i] == prev[i]);
                }
            }
            assert forall|i: int, j: int|
                0 <= i < j < self@.len() implies self@[i].id != self@[j].id by {
                if j < prev.len() {
                    assert(self@[i] == prev[i]);
                    assert(self@[j] == prev[j]);
                } else {
                    assert(self@[i] == prev[i]);
                    assert(self@[j].id == id);
                }
            }
        }
        id
    }

    /// Remove the node with the given handle, if the scene holds one,
    /// shifting the nodes after it forward; its components go with it.
    /// Returns whether a node was removed.
    pub fn despawn(&mut self, id: u64) -> (r: bool)
        requires
            old(self).wf(),
        ensures
            final(self).wf(),
            final(self).next_id == old(self).next_id,
            r == (exists|i: int|
                0 <= i < old(self)@.len() && (#[trigger] old(self)@[i]).id == id),
            r ==> exists|i: int|
                {
                    &&& 0 <= i < old(self)@.len()
                    &&& (#[trigger] old(self)@[i]).id == id
                    &&& final(self)@ == old(self)@.remove(i)
                },
            !r ==> final(self)@ == old(self)@,
    {
        let ghost pre = self@;
        let n = self.nodes.len();
        let mut i: usize = 0;
        while i < n
            invariant
                n == pre.len(),
                0 <= i <= n,
                self@ == pre,
                pre == old(self)@,
                self.next_id == old(self).next_id,
                old(self).wf(),
                forall|j: int| 0 <= j < i ==> (#[trigger] pre[j]).id != id,
            decreases n - i,
        {
            if self.nodes[i].id == id {
                proof {
                    assert(pre[i as int].id == id);
                }
                self.nodes.remove(i);
                proof {
                    old(self).nodes@.remove_ensures(i as int);
                    pre.remove_ensures(i as int);
                    assert(self@ =~= pre.remove(i as int));
                    assert forall|p: int|
                        0 <= p < self@.len() implies #[trigger] self@[p] == (if p < i {
                            pre[p]
                        } else {
                            pre[p + 1]
                        }) by {}
                    assert((i as int) < pre.len() && pre[i as int].id == id && self@
                        == pre.remove(i as int));
                }
                return true;
            }
            i = i + 1;
        }
        false
    }

    /// The handle of the node at position `i`.
    pub fn node_id(&self, i: usize) -> (r: u64)
        requires
            i < self@.len(),
        ensures
            r == self@[i as int].id,
    {
        self.nodes[i].id
    }

    /// Whether the node at position `i` carries a metadata blob.
    pub fn has_metadata(&self, i: usize) -> (r: bool)
        requires
            i < self@.len(),
        ensures
            r == (self@[i as int].meta is Some),
    {
        self.nodes[i].meta.is_some()
    }

    /// Whether the extraction stage has examined the node at position `i`.
    pub fn is_examined(&self, i: usize) -> (r: bool)
        requires
            i < self@.len(),
        ensures
            r == self@[i as int].examined,
    {
        self.nodes[i].examined
    }

    /// The rotation rate attached to the node at position `i`, by bit
    /// pattern, or `None` when the node carries no behavior.
    pub fn rate_bits(&self, i: usize) -> (r: Option<u64>)
        requires
            i < self@.len(),
        ensures
            r == self@[i as int].rate,
    {
        self.nodes[i].rate
    }
}

} // verus!
