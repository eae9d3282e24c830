//! Which candidates a selection accepts and rejects, what it says of each, and in which
//! order.

use vstd::prelude::*;

use crate::agent_surfaces::selector;
use crate::agent_surfaces::selector::{CandidateVerdict, CandidateView};
use crate::json;
use crate::json::JsonTree;
use crate::sorting;

verus! {

/// Whether a candidate is one of the snapshots, with its rank, among those with a verdict.
pub open spec fn is_one_of(
    c: CandidateView,
    snapshots: Seq<JsonTree>,
    verdicts: Seq<CandidateVerdict>,
    within_bounds: bool,
) -> bool {
    exists|i: int|
        0 <= i < snapshots.len() && verdicts[i].within_bounds == within_bounds && c.delta_rank
            == verdicts[i].delta_rank && c.tree == selector::marked(
            #[trigger] snapshots[i],
            within_bounds,
        )
}

proof fn chosen_are_those_with_the_verdict(
    snapshots: Seq<JsonTree>,
    verdicts: Seq<CandidateVerdict>,
    within_bounds: bool,
)
    ensures
        forall|c: CandidateView| #[trigger]
            selector::chosen(snapshots, verdicts, within_bounds).contains(c) <==> is_one_of(
                c,
                snapshots,
                verdicts,
                within_bounds,
            ),
    decreases snapshots.len(),
{
    let all = selector::chosen(snapshots, verdicts, within_bounds);
    if snapshots.len() > 0 {
        let n = snapshots.len() - 1;
        let shorter = snapshots.drop_last();
        let earlier = selector::chosen(shorter, verdicts, within_bounds);
        chosen_are_those_with_the_verdict(shorter, verdicts, within_bounds);
        let own = CandidateView {
            tree: selector::marked(snapshots[n], within_bounds),
            delta_rank: verdicts[n].delta_rank as int,
        };
        assert forall|c: CandidateView| #[trigger] all.contains(c) <==> is_one_of(
            c,
            snapshots,
            verdicts,
            within_bounds,
        ) by {
            if all.contains(c) {
                let k = choose|k: int| 0 <= k < all.len() && all[k] == c;
                if k < earlier.len() {
                    assert(earlier[k] == c);
                    assert(earlier.contains(c));
                    let i = choose|i: int|
                        0 <= i < shorter.len() && verdicts[i].within_bounds == within_bounds
                            && c.delta_rank == verdicts[i].delta_rank && c.tree == selector::marked(
                            #[trigger] shorter[i],
                            within_bounds,
                        );
                    assert(snapshots[i] == shorter[i]);
                } else {
                    assert(c == own);
                    assert(snapshots[n] == snapshots.last());
                }
            }
            if is_one_of(c, snapshots, verdicts, within_bounds) {
                let i = choose|i: int|
                    0 <= i < snapshots.len() && verdicts[i].within_bounds == within_bounds
                        && c.delta_rank == verdicts[i].delta_rank && c.tree == selector::marked(
                        #[trigger] snapshots[i],
                        within_bounds,
                    );
                if i < n {
                    assert(shorter[i] == snapshots[i]);
                    assert(is_one_of(c, shorter, verdicts, within_bounds));
                    assert(earlier.contains(c));
                    let k = choose|k: int| 0 <= k < earlier.len() && earlier[k] == c;
                    assert(all[k] == c);
                } else {
                    assert(c == own);
                    assert(all[earlier.len() as int] == own);
                }
            }
        }
    }
}

/// A candidate is accepted if and only if it was found within the bounds, and rejected if
/// and only if it was not.
pub proof fn candidates_are_judged_by_their_bounds(
    snapshots: Seq<JsonTree>,
    verdicts: Seq<CandidateVerdict>,
    c: CandidateView,
)
    ensures
        sorting::sorted(selector::chosen(snapshots, verdicts, true), selector::by_delta()).contains(
            c,
        ) <==> is_one_of(c, snapshots, verdicts, true),
        selector::chosen(snapshots, verdicts, false).contains(c) <==> is_one_of(
            c,
            snapshots,
            verdicts,
            false,
        ),
{
    chosen_are_those_with_the_verdict(snapshots, verdicts, true);
    chosen_are_those_with_the_verdict(snapshots, verdicts, false);
    sorting::sorting_keeps_members(
        selector::chosen(snapshots, verdicts, true),
        selector::by_delta(),
    );
}

/// The accepted candidates stand in the order of their deltas, the largest first.
pub proof fn accepted_candidates_fall_in_delta(
    snapshots: Seq<JsonTree>,
    verdicts: Seq<CandidateVerdict>,
    i: int,
    j: int,
)
    requires
        0 <= i <= j < selector::chosen(snapshots, verdicts, true).len(),
    ensures
        ({
            let accepted = sorting::sorted(
                selector::chosen(snapshots, verdicts, true),
                selector::by_delta(),
            );
            &&& accepted.len() == selector::chosen(snapshots, verdicts, true).len()
            &&& accepted[i].delta_rank >= accepted[j].delta_rank
        }),
{
    let list = selector::chosen(snapshots, verdicts, true);
    sorting::sorting_orders(list, selector::by_delta());
    sorting::sorting_keeps_members(list, selector::by_delta());
    if i < j {
        let accepted = sorting::sorted(list, selector::by_delta());
        assert(!selector::by_delta()(accepted[j], accepted[i]));
    }
}

/// An accepted candidate says so and has no reason against it, a rejected one says so and
/// gives its delta as the reason, and either keeps everything else that it said.
pub proof fn verdict_is_marked_on_the_candidate(snapshot: JsonTree, key: Seq<char>)
    ensures
        json::member(selector::marked(snapshot, true), "status"@) == Some(
            JsonTree::Text("accepted"@),
        ),
        json::member(selector::marked(snapshot, true), "reason_codes"@) matches Some(
            JsonTree::Array(codes),
        ) && codes.len() == 0,
        json::member(selector::marked(snapshot, false), "status"@) == Some(
            JsonTree::Text("rejected"@),
        ),
        json::member(selector::marked(snapshot, false), "reason_codes"@) matches Some(
            JsonTree::Array(codes),
        ) && codes.len() == 1 && codes[0] == JsonTree::Text("outside_delta"@),
        key != "status"@ && key != "reason_codes"@ ==> json::member(
            selector::marked(snapshot, true),
            key,
        ) == json::member(snapshot, key),
        key != "status"@ && key != "reason_codes"@ ==> json::member(
            selector::marked(snapshot, false),
            key,
        ) == json::member(snapshot, key),
{
    reveal_strlit("status");
    reveal_strlit("reason_codes");
    assert("status"@.len() == 6);
    assert("reason_codes"@.len() == 12);
}

/// What an agent is shown of a selection names the surface, the operation, the run and the
/// snapshot that were given, lists the accepted and the rejected candidates, and counts
/// the rejected.
pub proof fn selection_shows_its_candidates(
    surface: Seq<char>,
    operation: Seq<char>,
    snapshots: Seq<JsonTree>,
    verdicts: Seq<CandidateVerdict>,
    run_id: Seq<char>,
    snapshot_ref: Seq<char>,
    strategy_id: Option<Seq<char>>,
    studio_base_url: Option<Seq<char>>,
)
    ensures
        ({
            let shown = selector::selector_tree(
                surface,
                operation,
                snapshots,
                verdicts,
                run_id,
                snapshot_ref,
                strategy_id,
                studio_base_url,
            );
            let accepted = sorting::sorted(
                selector::chosen(snapshots, verdicts, true),
                selector::by_delta(),
            );
            let rejected = selector::chosen(snapshots, verdicts, false);
            &&& json::member(shown, "surface"@) == Some(JsonTree::Text(surface))
            &&& json::member(shown, "operation"@) == Some(JsonTree::Text(operation))
            &&& json::member(shown, "run_id"@) == Some(JsonTree::Text(run_id))
            &&& json::member(shown, "snapshot_ref"@) == Some(JsonTree::Text(snapshot_ref))
            &&& json::member(shown, "accepted_candidates"@) matches Some(JsonTree::Array(list))
                && list.len() == accepted.len() && forall|i: int|
                0 <= i < list.len() ==> #[trigger] list[i] == accepted[i].tree
            &&& json::member(shown, "rejected_candidates"@) matches Some(JsonTree::Array(list))
                && list.len() == rejected.len() && forall|i: int|
                0 <= i < list.len() ==> #[trigger] list[i] == rejected[i].tree
            &&& json::member(shown, "reasonCodeSummary"@) matches Some(summary) && json::member(
                summary,
                "outside_delta"@,
            ) == Some(JsonTree::Int(rejected.len() as int))
        }),
{
    reveal_strlit("schemaVersion");
    reveal_strlit("surface");
    reveal_strlit("operation");
    reveal_strlit("run_id");
    reveal_strlit("snapshot_ref");
    reveal_strlit("accepted_candidates");
    reveal_strlit("rejected_candidates");
    reveal_strlit("reasonCodeSummary");
    reveal_strlit("reportEnvelope");
    reveal_strlit("noAdvice");
    assert("schemaVersion"@.len() == 13);
    assert("surface"@.len() == 7);
    assert("operation"@.len() == 9);
    assert("run_id"@.len() == 6);
    assert("snapshot_ref"@.len() == 12);
    assert("accepted_candidates"@.len() == 19);
    assert("rejected_candidates"@.len() == 19);
    assert("accepted_candidates"@[0] == 'a');
    assert("rejected_candidates"@[0] == 'r');
    assert("reasonCodeSummary"@.len() == 17);
    assert("reportEnvelope"@.len() == 14);
    assert("noAdvice"@.len() == 8);
}

} // verus!
