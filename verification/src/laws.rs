//! The pipeline's cross-stage laws, stated over the scene model and proved
//! once and for all: what one extraction pass attaches, that a second pass is
//! a no-op, and that the diagnostic stage reports each flagged node exactly
//! once per pass.

use vstd::prelude::*;

use crate::metadata::{spec_parse, BehaviorDescriptor};
use crate::scene::{node_inv, NodeModel};
use crate::stages::{extracted, meta_text, spec_diagnostics, spec_flagged};

verus! {

/// How many entries of `ids` equal `id`.
pub open spec fn occurrences(ids: Seq<u64>, id: u64) -> nat
    decreases ids.len(),
{
    if ids.len() == 0 {
        0
    } else {
        occurrences(ids.drop_last(), id) + if ids.last() == id {
            1nat
        } else {
            0nat
        }
    }
}

/// A handle that no node of the scene carries never appears in a diagnostic
/// report.
proof fn lemma_diag_absent(s: Seq<NodeModel>, id: u64)
    requires
        forall|j: int| 0 <= j < s.len() ==> (#[trigger] s[j]).id != id,
    ensures
        occurrences(spec_diagnostics(s), id) == 0,
    decreases s.len(),
{
    if s.len() > 0 {
        lemma_diag_absent(s.drop_last(), id);
        if spec_flagged(s.last()) {
            let rest = spec_diagnostics(s.drop_last());
            assert(rest.push(s.last().id).drop_last() =~= rest);
        }
    }
}

/// In a scene with unique handles, a diagnostic pass reports a flagged node's
/// handle exactly once.
pub proof fn lemma_diag_once(s: Seq<NodeModel>, i: int)
    requires
        0 <= i < s.len(),
        forall|p: int, q: int| 0 <= p < q < s.len() ==> s[p].id != s[q].id,
        spec_flagged(s[i]),
    ensures
        occurrences(spec_diagnostics(s), s[i].id) == 1,
    decreases s.len(),
{
    let rest = spec_diagnostics(s.drop_last());
    if spec_flagged(s.last()) {
        assert(rest.push(s.last().id).drop_last() =~= rest);
    }
    if i == s.len() - 1 {
        assert forall|j: int| 0 <= j < s.drop_last().len() implies (#[trigger] s.drop_last()[j]).id
            != s[i].id by {
            assert(s.drop_last()[j] == s[j]);
        }
        lemma_diag_absent(s.drop_last(), s[i].id);
    } else {
        assert(s.drop_last()[i] == s[i]);
        lemma_diag_once(s.drop_last(), i);
        assert(s.last().id != s[i].id);
    }
}

/// A node whose metadata blob holds a numeric `z_rot` field carries, after an
/// extraction pass, a behavior with exactly that rate — whether this pass
/// examined the blob or an earlier one already had.
pub proof fn lemma_rotation_attached(
    pre: Seq<NodeModel>,
    post: Seq<NodeModel>,
    i: int,
    bits: u64,
)
    requires
        post.len() == pre.len(),
        forall|j: int| 0 <= j < pre.len() ==> post[j] == extracted(#[trigger] pre[j]),
        0 <= i < pre.len(),
        node_inv(pre[i]),
        pre[i].meta is Some,
        spec_parse(meta_text(pre[i])) == Ok::<BehaviorDescriptor, crate::metadata::MetadataError>(
            BehaviorDescriptor::Rotation { rate_bits: bits },
        ),
    ensures
        post[i].examined,
        post[i].rate == Some(bits),
{
    assert(post[i] == extracted(pre[i]));
}

/// A node whose metadata blob is valid but holds no recognized key carries no
/// behavior after an extraction pass, and is flagged: every subsequent
/// diagnostic pass over a scene with unique handles reports it exactly once.
pub proof fn lemma_unrecognized_reported(pre: Seq<NodeModel>, post: Seq<NodeModel>, i: int)
    requires
        post.len() == pre.len(),
        forall|j: int| 0 <= j < pre.len() ==> post[j] == extracted(#[trigger] pre[j]),
        forall|p: int, q: int| 0 <= p < q < pre.len() ==> pre[p].id != pre[q].id,
        0 <= i < pre.len(),
        node_inv(pre[i]),
        pre[i].meta is Some,
        spec_parse(meta_text(pre[i])) == Ok::<BehaviorDescriptor, crate::metadata::MetadataError>(
            BehaviorDescriptor::Unrecognized,
        ),
    ensures
        post[i].examined,
        post[i].rate is None,
        spec_flagged(post[i]),
        occurrences(spec_diagnostics(post), post[i].id) == 1,
{
    assert(post[i] == extracted(pre[i]));
    assert forall|p: int, q: int| 0 <= p < q < post.len() implies post[p].id != post[q].id by {
        assert(post[p] == extracted(pre[p]));
        assert(post[q] == extracted(pre[q]));
    }
    lemma_diag_once(post, i);
}

/// Extraction is idempotent on one node: a node one pass has dealt with is
/// left untouched by the next, so at most one behavior is ever attached per
/// node and no blob is examined twice.
pub proof fn lemma_extraction_idempotent(n: NodeModel)
    ensures
        extracted(extracted(n)) == extracted(n),
{
}

/// Extraction is idempotent on the whole scene: running the stage again over
/// the scene a successful pass left changes nothing.
pub proof fn lemma_extraction_idempotent_scene(
    pre: Seq<NodeModel>,
    mid: Seq<NodeModel>,
    post: Seq<NodeModel>,
)
    requires
        mid.len() == pre.len(),
        post.len() == mid.len(),
        forall|j: int| 0 <= j < pre.len() ==> mid[j] == extracted(#[trigger] pre[j]),
        forall|j: int| 0 <= j < mid.len() ==> post[j] == extracted(#[trigger] mid[j]),
    ensures
        post == mid,
{
    assert forall|j: int| 0 <= j < post.len() implies post[j] == mid[j] by {
        assert(mid[j] == extracted(pre[j]));
        assert(post[j] == extracted(mid[j]));
        lemma_extraction_idempotent(pre[j]);
    }
    assert(post =~= mid);
}

} // verus!
