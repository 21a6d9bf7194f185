use crate::scheduler::{needs_layout_spec, pending_after, LayoutOutcome};
use vstd::prelude::*;

verus! {

/// The entities waiting for a font after the scheduler has gone through the
/// first `n` entities of a frame: entity `k` is `ids[k]`, whose text changed
/// when `text_changed[k]` holds, and `outcomes[k]` is what the shaping engine
/// answers if it is asked.
pub open spec fn pending_after_pass<S>(
    pending: Set<u64>,
    ids: Seq<u64>,
    text_changed: Seq<bool>,
    factor_changed: bool,
    outcomes: Seq<LayoutOutcome<S>>,
    n: nat,
) -> Set<u64>
    decreases n,
{
    if n == 0 {
        pending
    } else {
        let before = pending_after_pass(pending, ids, text_changed, factor_changed, outcomes, (n - 1) as nat);
        let k = n - 1;
        if needs_layout_spec(before, ids[k], text_changed[k], factor_changed) {
            pending_after(before, ids[k], outcomes[k])
        } else {
            before
        }
    }
}

/// The entities waiting for a font after `n` frames in which one entity `id`
/// keeps its text and the scale factor does not change; `outcomes[j]` is what
/// the shaping engine answers in frame `j` if it is asked.
pub open spec fn pending_after_frames<S>(
    pending: Set<u64>,
    id: u64,
    outcomes: Seq<LayoutOutcome<S>>,
    n: nat,
) -> Set<u64>
    decreases n,
{
    if n == 0 {
        pending
    } else {
        let before = pending_after_frames(pending, id, outcomes, (n - 1) as nat);
        if needs_layout_spec(before, id, false, false) {
            pending_after(before, id, outcomes[n - 1])
        } else {
            before
        }
    }
}

pub open spec fn is_success<S>(outcome: LayoutOutcome<S>) -> bool {
    outcome matches LayoutOutcome::Laid(Some(_))
}

proof fn lemma_pass_clears<S>(
    pending: Set<u64>,
    ids: Seq<u64>,
    text_changed: Seq<bool>,
    factor_changed: bool,
    outcomes: Seq<LayoutOutcome<S>>,
    n: nat,
)
    requires
        n <= ids.len(),
        ids.len() == text_changed.len(),
        ids.len() == outcomes.len(),
        forall|k: int| 0 <= k < outcomes.len() ==> is_success(#[trigger] outcomes[k]),
    ensures
        pending_after_pass(pending, ids, text_changed, factor_changed, outcomes, n).subset_of(pending),
        forall|k: int|
            0 <= k < n ==> !pending_after_pass(pending, ids, text_changed, factor_changed, outcomes, n).contains(
                #[trigger] ids[k],
            ),
    decreases n,
{
    if n > 0 {
        lemma_pass_clears(pending, ids, text_changed, factor_changed, outcomes, (n - 1) as nat);
        assert(is_success(outcomes[n - 1]));
    }
}

/// A pass in which every layout request succeeds leaves nothing to do: in a
/// second pass over the same entities, with no text changed and the same
/// scale factor, no entity's layout is recomputed.
pub proof fn law_second_pass_does_no_work<S>(
    pending: Set<u64>,
    ids: Seq<u64>,
    text_changed: Seq<bool>,
    factor_changed: bool,
    outcomes: Seq<LayoutOutcome<S>>,
)
    requires
        ids.len() == text_changed.len(),
        ids.len() == outcomes.len(),
        forall|k: int| 0 <= k < outcomes.len() ==> is_success(#[trigger] outcomes[k]),
    ensures
        forall|k: int|
            0 <= k < ids.len() ==> !needs_layout_spec(
                pending_after_pass(pending, ids, text_changed, factor_changed, outcomes, ids.len()),
                #[trigger] ids[k],
                false,
                false,
            ),
{
    lemma_pass_clears(pending, ids, text_changed, factor_changed, outcomes, ids.len());
}

/// An entity that waits for a font, and whose text and scale factor then stay
/// the same, is asked for again in every frame until the shaping engine first
/// succeeds, and leaves the retry set exactly in that frame: after `n` frames
/// it still waits if and only if none of those frames succeeded.
pub proof fn law_retry_until_success<S>(pending: Set<u64>, id: u64, outcomes: Seq<LayoutOutcome<S>>, n: nat)
    requires
        pending.contains(id),
        n <= outcomes.len(),
        forall|j: int|
            0 <= j < outcomes.len() ==> (#[trigger] outcomes[j] matches LayoutOutcome::FontNotFound)
                || is_success(outcomes[j]),
    ensures
        pending_after_frames(pending, id, outcomes, n).contains(id) <==> forall|j: int|
            0 <= j < n ==> !is_success(#[trigger] outcomes[j]),
        needs_layout_spec(pending_after_frames(pending, id, outcomes, n), id, false, false)
            <==> forall|j: int| 0 <= j < n ==> !is_success(#[trigger] outcomes[j]),
    decreases n,
{
    if n > 0 {
        law_retry_until_success(pending, id, outcomes, (n - 1) as nat);
        let before = pending_after_frames(pending, id, outcomes, (n - 1) as nat);
        if before.contains(id) {
            assert(needs_layout_spec(before, id, false, false));
        } else {
            let j0 = choose|j: int| 0 <= j < n - 1 && is_success(#[trigger] outcomes[j]);
            assert(0 <= j0 < n && is_success(outcomes[j0]));
        }
    }
}

} // verus!
