//! What the reduction of a position promises of its contract: every leg of the contract is
//! carried with its side and its instrument, every transaction of an event moves the leg
//! that it names, and what is reported follows from the moves.

use vstd::prelude::*;

use crate::agent_surfaces::lifecycle;
use crate::agent_surfaces::lifecycle::{
    EventKind, LegTotals, LegView, LifecyclePlan, MoveView, PositionTotals,
};
use crate::agent_surfaces::position;
use crate::json::JsonTree;
use crate::sorting;
use crate::text;
use crate::text_map;

verus! {

/// The text under a key, where there is one.
pub open spec fn text_at(tree: JsonTree, key: Seq<char>) -> Option<Seq<char>> {
    match tree {
        JsonTree::Object(map) => if map.dom().contains(key) {
            match map[key] {
                JsonTree::Text(t) => Some(t),
                _ => None,
            }
        } else {
            None
        },
        _ => None,
    }
}

/// The text under a key of what stands under another, where there is one.
pub open spec fn text_within(tree: JsonTree, outer: Seq<char>, key: Seq<char>) -> Option<Seq<char>> {
    match tree {
        JsonTree::Object(map) => if map.dom().contains(outer) {
            text_at(map[outer], key)
        } else {
            None
        },
        _ => None,
    }
}

/// Whether a value holds a list under a key.
pub open spec fn lists(tree: JsonTree, key: Seq<char>, items: Seq<JsonTree>) -> bool {
    tree matches JsonTree::Object(map) && map.dom().contains(key) && map[key] == JsonTree::Array(
        items,
    )
}

/// Whether item `i` is the leg under an identifier: it has it, and no later item does.
pub open spec fn last_with_id(items: Seq<JsonTree>, i: int, id: Seq<char>) -> bool {
    &&& 0 <= i < items.len()
    &&& id.len() > 0
    &&& text_at(items[i], "leg_id"@) == Some(id)
    &&& forall|j: int| i < j < items.len() ==> text_at(#[trigger] items[j], "leg_id"@) != Some(id)
}

/// Whether a leg says what an item of the contract says: its side, which is long only
/// where the item names none, and its instrument.
pub open spec fn tells_leg(leg: LegView, item: JsonTree, id: Seq<char>) -> bool {
    &&& leg.leg_id == id
    &&& text_at(item, "side"@) matches Some(side) ==> leg.side == side
    &&& text_at(item, "side"@) is None ==> leg.side == "long"@
    &&& text_within(item, "instrument"@, "canonical_id"@) matches Some(name) ==> leg.canonical_id
        == name
    &&& text_within(item, "instrument"@, "canonical_id"@) is None ==> leg.canonical_id.len() == 0
}

proof fn leg_under_id(items: Seq<JsonTree>, i: int, id: Seq<char>)
    requires
        last_with_id(items, i, id),
    ensures
        lifecycle::legs_of(items).dom().contains(id),
        tells_leg(lifecycle::legs_of(items)[id], items[i], id),
    decreases items.len(),
{
    reveal_strlit("");
    let earlier = items.drop_last();
    let last = items.len() - 1;
    assert(items[last] == items.last());
    if i < last {
        assert(text_at(items[last], "leg_id"@) != Some(id));
        assert(earlier[i] == items[i]);
        assert forall|j: int| i < j < earlier.len() implies text_at(
            #[trigger] earlier[j],
            "leg_id"@,
        ) != Some(id) by {
            assert(text_at(items[j], "leg_id"@) != Some(id));
        }
        leg_under_id(earlier, i, id);
    } else {
        assert(id != ""@);
    }
}

/// Every leg that is kept is that of an item of the contract.
proof fn leg_is_of_an_item(items: Seq<JsonTree>, id: Seq<char>) -> (i: int)
    requires
        lifecycle::legs_of(items).dom().contains(id),
    ensures
        last_with_id(items, i, id),
    decreases items.len(),
{
    reveal_strlit("");
    let earlier = items.drop_last();
    let last = items.len() - 1;
    assert(items[last] == items.last());
    if text_at(items[last], "leg_id"@) == Some(id) {
        if id.len() == 0 {
            assert(id =~= ""@);
            let i = leg_is_of_an_item(earlier, id);
            assert(false);
            i
        } else {
            last
        }
    } else {
        let i = leg_is_of_an_item(earlier, id);
        assert(items[i] == earlier[i]);
        assert forall|j: int| i < j < items.len() implies text_at(#[trigger] items[j], "leg_id"@)
            != Some(id) by {
            if j < last {
                assert(text_at(earlier[j], "leg_id"@) != Some(id));
            }
        }
        i
    }
}

/// Each leg of a contract is in the plan under its identifier, with the side that the
/// contract gives it, or long where it gives none, and with its instrument. Of two legs
/// with one identifier the later counts.
pub proof fn plan_carries_each_leg(
    contract: JsonTree,
    items: Seq<JsonTree>,
    plan: LifecyclePlan,
    i: int,
    id: Seq<char>,
) -> (k: int)
    requires
        lists(contract, "legs"@, items),
        last_with_id(items, i, id),
        sorting::views(plan.legs@) == lifecycle::ordered_legs(contract),
    ensures
        0 <= k < plan.legs@.len(),
        plan.legs@[k].leg_id@ == id,
        text_at(items[i], "side"@) matches Some(side) ==> plan.legs@[k].side@ == side,
        text_at(items[i], "side"@) is None ==> plan.legs@[k].side@ == "long"@,
        text_within(items[i], "instrument"@, "canonical_id"@) matches Some(name)
            ==> plan.legs@[k].canonical_id@ == name,
        text_within(items[i], "instrument"@, "canonical_id"@) is None
            ==> plan.legs@[k].canonical_id@.len() == 0,
{
    leg_under_id(items, i, id);
    lifecycle::legs_are_finite(items);
    let legs = lifecycle::legs_of(items);
    assert(position::list_under(contract, "legs"@) == items);
    text_map::in_order_lists_members(legs.dom());
    let order = text_map::in_order(legs.dom());
    assert(order.contains(id));
    let k = choose|k: int| 0 <= k < order.len() && order[k] == id;
    let ordered = lifecycle::ordered_legs(contract);
    assert(ordered.len() == order.len());
    assert(sorting::views(plan.legs@).len() == plan.legs@.len());
    assert(ordered[k] == legs[id]);
    assert(sorting::views(plan.legs@)[k] == plan.legs@[k]@);
    k
}

/// The legs of a plan stand in the order of their identifiers, no two under the same one,
/// and each is a leg of the contract.
pub proof fn plan_has_no_other_legs(contract: JsonTree, items: Seq<JsonTree>, plan: LifecyclePlan)
    requires
        lists(contract, "legs"@, items),
        sorting::views(plan.legs@) == lifecycle::ordered_legs(contract),
    ensures
        forall|a: int, b: int|
            0 <= a < b < plan.legs@.len() ==> text::before(
                (#[trigger] plan.legs@[a]).leg_id@,
                (#[trigger] plan.legs@[b]).leg_id@,
            ),
        forall|k: int|
            0 <= k < plan.legs@.len() ==> exists|i: int|
                #![trigger items[i]]
                last_with_id(items, i, (#[trigger] plan.legs@[k]).leg_id@),
{
    lifecycle::legs_are_finite(items);
    let legs = lifecycle::legs_of(items);
    assert(position::list_under(contract, "legs"@) == items);
    text_map::in_order_lists_members(legs.dom());
    let order = text_map::in_order(legs.dom());
    let ordered = lifecycle::ordered_legs(contract);
    assert(ordered.len() == order.len());
    assert(sorting::views(plan.legs@).len() == plan.legs@.len());
    assert forall|k: int| 0 <= k < plan.legs@.len() implies (#[trigger] plan.legs@[k]).leg_id@
        == order[k] by {
        assert(sorting::views(plan.legs@)[k] == plan.legs@[k]@);
        assert(order.contains(order[k]));
        let i = leg_is_of_an_item(items, order[k]);
        leg_under_id(items, i, order[k]);
    }
    assert forall|k: int| 0 <= k < plan.legs@.len() implies exists|i: int|
        #![trigger items[i]]
        last_with_id(items, i, (#[trigger] plan.legs@[k]).leg_id@) by {
        assert(order.contains(order[k]));
        let i = leg_is_of_an_item(items, order[k]);
        assert(last_with_id(items, i, plan.legs@[k].leg_id@));
        assert(items[i] == items[i]);
    }
    assert forall|a: int, b: int| 0 <= a < b < plan.legs@.len() implies text::before(
        (#[trigger] plan.legs@[a]).leg_id@,
        (#[trigger] plan.legs@[b]).leg_id@,
    ) by {
        assert(text::before(order[a], order[b]));
    }
}

/// What a leg shows of itself and of what came of it.
pub proof fn leg_shows_its_side_and_totals(leg: LegView, t: LegTotals)
    ensures
        ({
            let shown = lifecycle::leg_tree(leg, t);
            &&& text_at(shown, "leg_id"@) == Some(leg.leg_id)
            &&& text_at(shown, "canonical_id"@) == Some(leg.canonical_id)
            &&& text_at(shown, "side"@) == Some(leg.side)
            &&& text_at(shown, "opened_quantity"@) == Some(t.opened_quantity@)
            &&& text_at(shown, "open_quantity"@) == Some(t.open_quantity@)
            &&& text_at(shown, "closed_quantity"@) == Some(t.closed_quantity@)
            &&& text_at(shown, "rolled_quantity"@) == Some(t.rolled_quantity@)
            &&& text_at(shown, "assigned_quantity"@) == Some(t.assigned_quantity@)
            &&& text_at(shown, "exercised_quantity"@) == Some(t.exercised_quantity@)
            &&& text_at(shown, "expired_quantity"@) == Some(t.expired_quantity@)
            &&& text_at(shown, "average_open_price"@) == Some(t.average_open_price@)
            &&& text_at(shown, "realized_pnl_input"@) == Some(t.realized_pnl_input@)
            &&& text_at(shown, "status"@) is Some
        }),
{
    reveal_strlit("leg_id");
    reveal_strlit("canonical_id");
    reveal_strlit("side");
    reveal_strlit("opened_quantity");
    reveal_strlit("open_quantity");
    reveal_strlit("closed_quantity");
    reveal_strlit("rolled_quantity");
    reveal_strlit("assigned_quantity");
    reveal_strlit("exercised_quantity");
    reveal_strlit("expired_quantity");
    reveal_strlit("average_open_price");
    reveal_strlit("realized_pnl_input");
    reveal_strlit("status");
    assert("leg_id"@.len() == 6 && "status"@.len() == 6 && "leg_id"@[0] != "status"@[0]);
    assert("canonical_id"@.len() == 12 && "side"@.len() == 4 && "open_quantity"@.len() == 13);
    assert("opened_quantity"@.len() == 15 && "closed_quantity"@.len() == 15
        && "rolled_quantity"@.len() == 15);
    assert("opened_quantity"@[0] != "closed_quantity"@[0] && "opened_quantity"@[0]
        != "rolled_quantity"@[0] && "closed_quantity"@[0] != "rolled_quantity"@[0]);
    assert("assigned_quantity"@.len() == 17 && "exercised_quantity"@.len() == 18
        && "expired_quantity"@.len() == 16);
    assert("average_open_price"@.len() == 18 && "realized_pnl_input"@.len() == 18);
    assert("exercised_quantity"@[0] != "average_open_price"@[0] && "exercised_quantity"@[0]
        != "realized_pnl_input"@[0] && "average_open_price"@[0] != "realized_pnl_input"@[0]);
}

proof fn leg_map_shows(legs: Seq<LegView>, totals: Seq<LegTotals>, k: int)
    requires
        0 <= k < legs.len(),
        forall|a: int, b: int|
            0 <= a < b < legs.len() ==> (#[trigger] legs[a]).leg_id != (#[trigger] legs[b]).leg_id,
    ensures
        lifecycle::leg_map(legs, totals).dom().contains(legs[k].leg_id),
        lifecycle::leg_map(legs, totals)[legs[k].leg_id] == lifecycle::leg_tree(legs[k], totals[k]),
    decreases legs.len(),
{
    let earlier = legs.drop_last();
    let last = legs.len() - 1;
    assert(legs[last] == legs.last());
    if k < last {
        assert forall|a: int, b: int| 0 <= a < b < earlier.len() implies (
        #[trigger] earlier[a]).leg_id != (#[trigger] earlier[b]).leg_id by {
            assert(legs[a].leg_id != legs[b].leg_id);
        }
        leg_map_shows(earlier, totals, k);
        assert(earlier[k] == legs[k]);
        assert(legs[k].leg_id != legs[last].leg_id);
    }
}

/// A reduced position shows each leg of its contract under its identifier, with the side
/// that the contract gives it and what the computation came to for that leg.
pub proof fn reduced_position_shows_each_leg(
    contract: JsonTree,
    items: Seq<JsonTree>,
    plan: LifecyclePlan,
    totals: Seq<LegTotals>,
    overclosed: Seq<bool>,
    sums: PositionTotals,
    i: int,
    id: Seq<char>,
) -> (k: int)
    requires
        lists(contract, "legs"@, items),
        last_with_id(items, i, id),
        sorting::views(plan.legs@) == lifecycle::ordered_legs(contract),
    ensures
        0 <= k < plan.legs@.len(),
        plan.legs@[k].leg_id@ == id,
        ({
            let shown = lifecycle::reduced_tree(contract, totals, overclosed, sums);
            &&& shown matches JsonTree::Object(map)
            &&& map.dom().contains("leg_state"@)
            &&& map["leg_state"@] matches JsonTree::Object(legs)
            &&& legs.dom().contains(id)
            &&& text_at(legs[id], "leg_id"@) == Some(id)
            &&& text_at(items[i], "side"@) matches Some(side) ==> text_at(legs[id], "side"@) == Some(
                side,
            )
            &&& text_at(items[i], "side"@) is None ==> text_at(legs[id], "side"@) == Some("long"@)
            &&& text_at(legs[id], "open_quantity"@) == Some(totals[k].open_quantity@)
            &&& text_at(legs[id], "closed_quantity"@) == Some(totals[k].closed_quantity@)
            &&& text_at(legs[id], "realized_pnl_input"@) == Some(totals[k].realized_pnl_input@)
        }),
{
    let k = plan_carries_each_leg(contract, items, plan, i, id);
    plan_has_no_other_legs(contract, items, plan);
    let ordered = lifecycle::ordered_legs(contract);
    assert(sorting::views(plan.legs@).len() == plan.legs@.len());
    assert forall|a: int| 0 <= a < ordered.len() implies (#[trigger] ordered[a]).leg_id
        == plan.legs@[a].leg_id@ by {
        assert(sorting::views(plan.legs@)[a] == plan.legs@[a]@);
    }
    assert forall|a: int, b: int| 0 <= a < b < ordered.len() implies (#[trigger] ordered[a]).leg_id
        != (#[trigger] ordered[b]).leg_id by {
        assert(text::before(plan.legs@[a].leg_id@, plan.legs@[b].leg_id@));
        text::before_irreflexive(plan.legs@[a].leg_id@);
    }
    leg_map_shows(ordered, totals, k);
    leg_shows_its_side_and_totals(ordered[k], totals[k]);
    assert(sorting::views(plan.legs@)[k] == plan.legs@[k]@);
    reveal_strlit("snapshot_id");
    reveal_strlit("strategy_id");
    reveal_strlit("position_id");
    reveal_strlit("position_status");
    reveal_strlit("ledger_checkpoint_hash");
    reveal_strlit("replay_ref");
    reveal_strlit("replay_journal_refs");
    reveal_strlit("leg_state");
    reveal_strlit("summary");
    reveal_strlit("closed_history");
    reveal_strlit("warnings");
    reveal_strlit("side_effects");
    reveal_strlit("ok");
    reveal_strlit("no_advice_notice");
    assert("leg_state"@.len() == 9 && "summary"@.len() == 7 && "closed_history"@.len() == 14
        && "warnings"@.len() == 8 && "side_effects"@.len() == 12 && "ok"@.len() == 2
        && "no_advice_notice"@.len() == 16);
    k
}

/// The state of a leg says whether it is open, and otherwise how it ended: an open leg of
/// which something was closed is partially closed; one that is not open was assigned,
/// exercised, expired or else closed, in this order of precedence.
pub proof fn leg_state_follows_the_flags(t: LegTotals)
    ensures
        lifecycle::leg_state(t) == "partially_closed"@ <==> t.is_open && t.any_closed,
        lifecycle::leg_state(t) == "open"@ <==> t.is_open && !t.any_closed,
        lifecycle::leg_state(t) == "assigned"@ <==> !t.is_open && t.any_assigned,
        lifecycle::leg_state(t) == "exercised"@ <==> !t.is_open && !t.any_assigned
            && t.any_exercised,
        lifecycle::leg_state(t) == "expired"@ <==> !t.is_open && !t.any_assigned
            && !t.any_exercised && t.any_expired,
        lifecycle::leg_state(t) == "closed"@ <==> !t.is_open && !t.any_assigned && !t.any_exercised
            && !t.any_expired,
{
    reveal_strlit("partially_closed");
    reveal_strlit("open");
    reveal_strlit("assigned");
    reveal_strlit("exercised");
    reveal_strlit("expired");
    reveal_strlit("closed");
    assert("partially_closed"@.len() == 16 && "open"@.len() == 4 && "assigned"@.len() == 8);
    assert("exercised"@.len() == 9 && "expired"@.len() == 7 && "closed"@.len() == 6);
}

/// The state of a position: a warning wins; else it is partially closed where an open leg
/// gave something up, open where a leg is open, and closed where none is.
pub proof fn position_state_follows_the_legs(totals: Seq<LegTotals>, any_warning: bool)
    ensures
        ({
            let state = lifecycle::position_state(totals, any_warning);
            let open = exists|i: int| 0 <= i < totals.len() && (#[trigger] totals[i]).is_open;
            let partly = exists|i: int|
                0 <= i < totals.len() && (#[trigger] totals[i]).is_open && (totals[i].any_closed
                    || totals[i].any_assigned || totals[i].any_exercised || totals[i].any_rolled);
            &&& state == "warning"@ <==> any_warning
            &&& state == "partially_closed"@ <==> !any_warning && partly
            &&& state == "open"@ <==> !any_warning && !partly && open
            &&& state == "closed"@ <==> !any_warning && !open
        }),
{
    reveal_strlit("warning");
    reveal_strlit("partially_closed");
    reveal_strlit("open");
    reveal_strlit("closed");
    assert("warning"@.len() == 7 && "partially_closed"@.len() == 16 && "open"@.len() == 4
        && "closed"@.len() == 6);
    let open = exists|i: int| 0 <= i < totals.len() && (#[trigger] totals[i]).is_open;
    let partly = exists|i: int|
        0 <= i < totals.len() && (#[trigger] totals[i]).is_open && (totals[i].any_closed
            || totals[i].any_assigned || totals[i].any_exercised || totals[i].any_rolled);
    let given = exists|i: int|
        0 <= i < totals.len() && lifecycle::partly_given_up(#[trigger] totals[i]);
    assert(partly <==> given) by {
        if partly {
            let i = choose|i: int|
                0 <= i < totals.len() && (#[trigger] totals[i]).is_open && (totals[i].any_closed
                    || totals[i].any_assigned || totals[i].any_exercised || totals[i].any_rolled);
            assert(lifecycle::partly_given_up(totals[i]));
        }
        if given {
            let i = choose|i: int|
                0 <= i < totals.len() && lifecycle::partly_given_up(#[trigger] totals[i]);
            assert(totals[i].is_open);
        }
    }
    assert(partly ==> open) by {
        if partly {
            let i = choose|i: int|
                0 <= i < totals.len() && (#[trigger] totals[i]).is_open && (totals[i].any_closed
                    || totals[i].any_assigned || totals[i].any_exercised || totals[i].any_rolled);
            assert(totals[i].is_open);
        }
    }
}

/// The text under a key, or none at all where there is none.
pub open spec fn text_or_nothing(tree: JsonTree, key: Seq<char>) -> Seq<char> {
    match text_at(tree, key) {
        Some(t) => t,
        None => Seq::empty(),
    }
}

/// Whether an event is of one of two kinds.
pub open spec fn is_of(event: JsonTree, first: Seq<char>, second: Seq<char>) -> bool {
    text_at(event, "event_type"@) == Some(first) || text_at(event, "event_type"@) == Some(second)
}

/// Whether a transaction belongs to an event and is about a leg.
pub open spec fn belongs(transaction: JsonTree, event: JsonTree, leg_id: Seq<char>) -> bool {
    text_or_nothing(transaction, "event_id"@) == text_or_nothing(event, "event_id"@)
        && text_or_nothing(transaction, "leg_id"@) == leg_id
}

/// Whether an event tells of a move: an opening, or a roll, opens what its transactions
/// say; a closing closes what its transactions say; a roll gives up what its payload says
/// of the leg that it closes; an assignment, exercise or expiration takes from each leg what
/// its payload says; a correction changes the profit by what its payload says.
pub open spec fn tells_of(event: JsonTree, transactions: Seq<JsonTree>, m: MoveView) -> bool {
    match m {
        MoveView::Open { leg_id, transaction } => {
            &&& transactions.contains(transaction)
            &&& belongs(transaction, event, leg_id)
            &&& is_of(event, "open"@, "partial_fill"@) || is_of(event, "roll"@, "roll"@)
        },
        MoveView::Close { leg_id, transaction, event_id, replay_ref } => {
            &&& transactions.contains(transaction)
            &&& belongs(transaction, event, leg_id)
            &&& is_of(event, "close"@, "close"@)
            &&& event_id == text_or_nothing(event, "event_id"@)
            &&& replay_ref == text_or_nothing(event, "replay_ref"@)
        },
        MoveView::Roll { leg_id, spelled } => {
            &&& is_of(event, "roll"@, "roll"@)
            &&& spelled == text_within(event, "payload"@, "quantity"@)
            &&& leg_id == match text_within(event, "payload"@, "close_leg_id"@) {
                Some(t) => t,
                None => Seq::empty(),
            }
        },
        MoveView::Terminal { leg_id, event_type, quantity } => {
            &&& is_of(event, "assignment"@, "exercise"@) || is_of(event, "expiration"@, "expiration"@)
            &&& text_at(event, "event_type"@) == Some(event_type)
            &&& position::inner(event, "payload"@, "leg_quantities"@) matches Some(
                JsonTree::Object(quantities),
            )
            &&& quantities.dom().contains(leg_id)
            &&& quantities[leg_id] == quantity
        },
        MoveView::Adjust { leg_id, delta } => {
            &&& is_of(event, "adjustment"@, "manual_correction"@)
            &&& delta == text_within(event, "payload"@, "realized_pnl_delta"@)
            &&& text_within(event, "payload"@, "leg_id"@) matches Some(named) ==> named.len() == 0
                || leg_id == named
        },
    }
}

proof fn kinds_are_named(event: JsonTree)
    ensures
        ({
            let kind = lifecycle::kind_of(position::text_or(event, "event_type"@, ""@));
            &&& kind == EventKind::Opening <==> is_of(event, "open"@, "partial_fill"@)
            &&& kind == EventKind::Closing <==> is_of(event, "close"@, "close"@)
            &&& kind == EventKind::Rolling <==> is_of(event, "roll"@, "roll"@)
            &&& kind == EventKind::Ending <==> is_of(event, "assignment"@, "exercise"@) || is_of(
                event,
                "expiration"@,
                "expiration"@,
            )
            &&& kind == EventKind::Correcting <==> is_of(event, "adjustment"@, "manual_correction"@)
        }),
{
    reveal_strlit("");
    reveal_strlit("open");
    reveal_strlit("partial_fill");
    reveal_strlit("close");
    reveal_strlit("roll");
    reveal_strlit("assignment");
    reveal_strlit("exercise");
    reveal_strlit("expiration");
    reveal_strlit("adjustment");
    reveal_strlit("manual_correction");
    assert(""@.len() == 0 && "open"@.len() == 4 && "roll"@.len() == 4 && "open"@[0] != "roll"@[0]);
    assert("partial_fill"@.len() == 12 && "close"@.len() == 5 && "exercise"@.len() == 8);
    assert("assignment"@.len() == 10 && "expiration"@.len() == 10 && "adjustment"@.len() == 10);
    assert("assignment"@[0] != "expiration"@[0] && "assignment"@[1] != "adjustment"@[1]
        && "expiration"@[0] != "adjustment"@[0]);
    assert("manual_correction"@.len() == 17);
}

proof fn nothing_is_empty(tree: JsonTree, key: Seq<char>)
    ensures
        text_or_nothing(tree, key) == position::text_or(tree, key, ""@),
{
    reveal_strlit("");
    assert(""@ =~= Seq::<char>::empty());
}

proof fn own_transactions(transactions: Seq<JsonTree>, event_id: Seq<char>, t: JsonTree)
    ensures
        lifecycle::transactions_of(transactions, event_id).contains(t) <==> transactions.contains(t)
            && position::text_or(t, "event_id"@, ""@) == event_id,
    decreases transactions.len(),
{
    let own = lifecycle::transactions_of(transactions, event_id);
    if transactions.len() > 0 {
        let earlier = transactions.drop_last();
        let before = lifecycle::transactions_of(earlier, event_id);
        let last = transactions.len() - 1;
        own_transactions(earlier, event_id, t);
        assert(transactions[last] == transactions.last());
        assert(transactions.contains(t) <==> earlier.contains(t) || t == transactions[last]) by {
            if transactions.contains(t) {
                let k = choose|k: int| 0 <= k < transactions.len() && transactions[k] == t;
                if k < last {
                    assert(earlier[k] == t);
                }
            }
            if earlier.contains(t) {
                let k = choose|k: int| 0 <= k < earlier.len() && earlier[k] == t;
                assert(transactions[k] == t);
            }
        }
        if own.len() > before.len() {
            assert(own == before.push(transactions[last]));
            assert(own[before.len() as int] == transactions[last]);
            if before.contains(t) {
                let k = choose|k: int| 0 <= k < before.len() && before[k] == t;
                assert(own[k] == t);
            }
            if own.contains(t) {
                let k = choose|k: int| 0 <= k < own.len() && own[k] == t;
                if k < before.len() {
                    assert(before[k] == t);
                }
            }
        }
    }
}

proof fn opens_are_told(transactions: Seq<JsonTree>, legs: Set<Seq<char>>)
    ensures
        forall|i: int|
            0 <= i < lifecycle::open_moves(transactions, legs).len() ==> (
            #[trigger] lifecycle::open_moves(transactions, legs)[i] matches MoveView::Open {
                leg_id,
                transaction,
            } && transactions.contains(transaction) && leg_id == lifecycle::leg_id_of(transaction)),
        forall|k: int|
            0 <= k < transactions.len() && legs.contains(
                lifecycle::leg_id_of(#[trigger] transactions[k]),
            ) ==> lifecycle::open_moves(transactions, legs).contains(
                MoveView::Open {
                    leg_id: lifecycle::leg_id_of(transactions[k]),
                    transaction: transactions[k],
                },
            ),
    decreases transactions.len(),
{
    if transactions.len() > 0 {
        let earlier = transactions.drop_last();
        let last = transactions.len() - 1;
        let before = lifecycle::open_moves(earlier, legs);
        let all = lifecycle::open_moves(transactions, legs);
        opens_are_told(earlier, legs);
        assert(transactions[last] == transactions.last());
        assert forall|i: int| 0 <= i < all.len() implies (#[trigger] all[i] matches MoveView::Open {
            leg_id,
            transaction,
        } && transactions.contains(transaction) && leg_id == lifecycle::leg_id_of(transaction)) by {
            if i < before.len() {
                assert(all[i] == before[i]);
                let t = before[i]->Open_transaction;
                let k = choose|k: int| 0 <= k < earlier.len() && earlier[k] == t;
                assert(transactions[k] == t);
            }
        }
        assert forall|k: int|
            0 <= k < transactions.len() && legs.contains(
                lifecycle::leg_id_of(#[trigger] transactions[k]),
            ) implies all.contains(
            MoveView::Open {
                leg_id: lifecycle::leg_id_of(transactions[k]),
                transaction: transactions[k],
            },
        ) by {
            let m = MoveView::Open {
                leg_id: lifecycle::leg_id_of(transactions[k]),
                transaction: transactions[k],
            };
            if k < last {
                assert(earlier[k] == transactions[k]);
                let i = choose|i: int| 0 <= i < before.len() && before[i] == m;
                assert(all[i] == m);
            } else {
                assert(all[before.len() as int] == m);
            }
        }
    }
}

proof fn closes_are_told(event: JsonTree, transactions: Seq<JsonTree>, legs: Set<Seq<char>>)
    ensures
        forall|i: int|
            0 <= i < lifecycle::close_moves(event, transactions, legs).len() ==> (
            #[trigger] lifecycle::close_moves(event, transactions, legs)[i] matches MoveView::Close {
                leg_id,
                transaction,
                event_id,
                replay_ref,
            } && transactions.contains(transaction) && leg_id == lifecycle::leg_id_of(transaction)
                && event_id == position::text_or(event, "event_id"@, ""@) && replay_ref
                == position::text_or(event, "replay_ref"@, ""@)),
        forall|k: int|
            0 <= k < transactions.len() && legs.contains(
                lifecycle::leg_id_of(#[trigger] transactions[k]),
            ) ==> lifecycle::close_moves(event, transactions, legs).contains(
                MoveView::Close {
                    leg_id: lifecycle::leg_id_of(transactions[k]),
                    transaction: transactions[k],
                    event_id: position::text_or(event, "event_id"@, ""@),
                    replay_ref: position::text_or(event, "replay_ref"@, ""@),
                },
            ),
    decreases transactions.len(),
{
    if transactions.len() > 0 {
        let earlier = transactions.drop_last();
        let last = transactions.len() - 1;
        let before = lifecycle::close_moves(event, earlier, legs);
        let all = lifecycle::close_moves(event, transactions, legs);
        closes_are_told(event, earlier, legs);
        assert(transactions[last] == transactions.last());
        assert forall|i: int| 0 <= i < all.len() implies (#[trigger] all[i] matches MoveView::Close {
            leg_id,
            transaction,
            event_id,
            replay_ref,
        } && transactions.contains(transaction) && leg_id == lifecycle::leg_id_of(transaction)
            && event_id == position::text_or(event, "event_id"@, ""@) && replay_ref
            == position::text_or(event, "replay_ref"@, ""@)) by {
            if i < before.len() {
                assert(all[i] == before[i]);
                let t = before[i]->Close_transaction;
                let k = choose|k: int| 0 <= k < earlier.len() && earlier[k] == t;
                assert(transactions[k] == t);
            }
        }
        assert forall|k: int|
            0 <= k < transactions.len() && legs.contains(
                lifecycle::leg_id_of(#[trigger] transactions[k]),
            ) implies all.contains(
            MoveView::Close {
                leg_id: lifecycle::leg_id_of(transactions[k]),
                transaction: transactions[k],
                event_id: position::text_or(event, "event_id"@, ""@),
                replay_ref: position::text_or(event, "replay_ref"@, ""@),
            },
        ) by {
            let m = MoveView::Close {
                leg_id: lifecycle::leg_id_of(transactions[k]),
                transaction: transactions[k],
                event_id: position::text_or(event, "event_id"@, ""@),
                replay_ref: position::text_or(event, "replay_ref"@, ""@),
            };
            if k < last {
                assert(earlier[k] == transactions[k]);
                let i = choose|i: int| 0 <= i < before.len() && before[i] == m;
                assert(all[i] == m);
            } else {
                assert(all[before.len() as int] == m);
            }
        }
    }
}

proof fn endings_are_told(
    event_type: Seq<char>,
    quantities: Map<Seq<char>, JsonTree>,
    keys: Seq<Seq<char>>,
    legs: Set<Seq<char>>,
)
    ensures
        forall|i: int|
            0 <= i < lifecycle::terminal_moves(event_type, quantities, keys, legs).len() ==> (
            #[trigger] lifecycle::terminal_moves(
                event_type,
                quantities,
                keys,
                legs,
            )[i] matches MoveView::Terminal { leg_id, event_type: named, quantity } && keys.contains(
                leg_id,
            ) && named == event_type && quantity == quantities[leg_id]),
        forall|k: int|
            0 <= k < keys.len() && legs.contains(#[trigger] keys[k]) ==> lifecycle::terminal_moves(
                event_type,
                quantities,
                keys,
                legs,
            ).contains(
                MoveView::Terminal { leg_id: keys[k], event_type, quantity: quantities[keys[k]] },
            ),
    decreases keys.len(),
{
    if keys.len() > 0 {
        let earlier = keys.drop_last();
        let last = keys.len() - 1;
        let before = lifecycle::terminal_moves(event_type, quantities, earlier, legs);
        let all = lifecycle::terminal_moves(event_type, quantities, keys, legs);
        endings_are_told(event_type, quantities, earlier, legs);
        assert(keys[last] == keys.last());
        assert forall|i: int| 0 <= i < all.len() implies (
        #[trigger] all[i] matches MoveView::Terminal { leg_id, event_type: named, quantity }
            && keys.contains(leg_id) && named == event_type && quantity == quantities[leg_id]) by {
            if i < before.len() {
                assert(all[i] == before[i]);
                let id = before[i]->Terminal_leg_id;
                let k = choose|k: int| 0 <= k < earlier.len() && earlier[k] == id;
                assert(keys[k] == id);
            }
        }
        assert forall|k: int| 0 <= k < keys.len() && legs.contains(#[trigger] keys[k]) implies all.contains(
            MoveView::Terminal { leg_id: keys[k], event_type, quantity: quantities[keys[k]] },
        ) by {
            let m = MoveView::Terminal {
                leg_id: keys[k],
                event_type,
                quantity: quantities[keys[k]],
            };
            if k < last {
                assert(earlier[k] == keys[k]);
                let i = choose|i: int| 0 <= i < before.len() && before[i] == m;
                assert(all[i] == m);
            } else {
                assert(all[before.len() as int] == m);
            }
        }
    }
}

/// Whether what an event takes for good names finitely many legs, as any value does that
/// was read.
pub open spec fn takes_from_finitely_many(event: JsonTree) -> bool {
    position::inner(event, "payload"@, "leg_quantities"@) matches Some(JsonTree::Object(quantities))
        ==> quantities.dom().finite()
}

proof fn event_tells_its_moves(
    event: JsonTree,
    transactions: Seq<JsonTree>,
    legs: Set<Seq<char>>,
    i: int,
)
    requires
        takes_from_finitely_many(event),
        0 <= i < lifecycle::event_moves(event, transactions, legs).len(),
    ensures
        tells_of(event, transactions, lifecycle::event_moves(event, transactions, legs)[i]),
{
    kinds_are_named(event);
    nothing_is_empty(event, "event_id"@);
    nothing_is_empty(event, "replay_ref"@);
    reveal_strlit("");
    assert(""@ =~= Seq::<char>::empty());
    let own = lifecycle::transactions_of(
        transactions,
        position::text_or(event, "event_id"@, ""@),
    );
    let m = lifecycle::event_moves(event, transactions, legs)[i];
    match lifecycle::kind_of(position::text_or(event, "event_type"@, ""@)) {
        EventKind::Opening => {
            opens_are_told(own, legs);
            let t = m->Open_transaction;
            own_transactions(transactions, position::text_or(event, "event_id"@, ""@), t);
            nothing_is_empty(t, "event_id"@);
            nothing_is_empty(t, "leg_id"@);
        },
        EventKind::Closing => {
            closes_are_told(event, own, legs);
            let t = m->Close_transaction;
            own_transactions(transactions, position::text_or(event, "event_id"@, ""@), t);
            nothing_is_empty(t, "event_id"@);
            nothing_is_empty(t, "leg_id"@);
        },
        EventKind::Rolling => {
            let first = lifecycle::roll_moves(event, legs);
            if i >= first.len() {
                opens_are_told(own, legs);
                assert(m == lifecycle::open_moves(own, legs)[i - first.len()]);
                let t = m->Open_transaction;
                own_transactions(transactions, position::text_or(event, "event_id"@, ""@), t);
                nothing_is_empty(t, "event_id"@);
                nothing_is_empty(t, "leg_id"@);
            } else {
                assert(m == first[0]);
            }
        },
        EventKind::Ending => {
            let quantities = lifecycle::leg_quantities(event);
            let keys = text_map::in_order(quantities.dom());
            endings_are_told(
                position::text_or(event, "event_type"@, ""@),
                quantities,
                keys,
                legs,
            );
            in_order_names_members(quantities.dom(), m->Terminal_leg_id);
        },
        EventKind::Correcting => {},
        EventKind::Other => {},
    }
}

/// What stands in an ordered list of keys is a key, where the keys can be listed at all.
proof fn in_order_names_members(keys: Set<Seq<char>>, id: Seq<char>)
    requires
        text_map::in_order(keys).contains(id),
    ensures
        keys.finite() ==> keys.contains(id),
{
    if keys.finite() {
        text_map::in_order_lists_members(keys);
    }
}

proof fn events_tell_their_moves(
    events: Seq<JsonTree>,
    transactions: Seq<JsonTree>,
    legs: Set<Seq<char>>,
    i: int,
) -> (k: int)
    requires
        forall|k: int| 0 <= k < events.len() ==> takes_from_finitely_many(#[trigger] events[k]),
        0 <= i < lifecycle::all_moves(events, transactions, legs).len(),
    ensures
        0 <= k < events.len(),
        tells_of(events[k], transactions, lifecycle::all_moves(events, transactions, legs)[i]),
    decreases events.len(),
{
    let earlier = events.drop_last();
    let before = lifecycle::all_moves(earlier, transactions, legs);
    let last = events.len() - 1;
    assert(events[last] == events.last());
    if i < before.len() {
        assert forall|k: int| 0 <= k < earlier.len() implies takes_from_finitely_many(
            #[trigger] earlier[k],
        ) by {
            assert(takes_from_finitely_many(events[k]));
        }
        let k = events_tell_their_moves(earlier, transactions, legs, i);
        assert(earlier[k] == events[k]);
        k
    } else {
        event_tells_its_moves(events.last(), transactions, legs, i - before.len());
        last
    }
}

/// Every move of a plan is told by an event of the contract: it is about the leg and the
/// amount that the event, or a transaction of the event, names.
pub proof fn moves_are_told_by_events(
    contract: JsonTree,
    events: Seq<JsonTree>,
    transactions: Seq<JsonTree>,
    i: int,
) -> (event: JsonTree)
    requires
        lists(contract, "events"@, events),
        lists(contract, "transactions"@, transactions),
        forall|k: int| 0 <= k < events.len() ==> takes_from_finitely_many(#[trigger] events[k]),
        0 <= i < lifecycle::moves_of(contract).len(),
    ensures
        events.contains(event),
        tells_of(event, transactions, lifecycle::moves_of(contract)[i]),
{
    let order = lifecycle::event_order();
    let ordered = lifecycle::ordered_events(contract);
    assert(position::list_under(contract, "events"@) == events);
    assert(position::list_under(contract, "transactions"@) == transactions);
    sorting::sorting_keeps_members(events, order);
    assert forall|k: int| 0 <= k < ordered.len() implies takes_from_finitely_many(
        #[trigger] ordered[k],
    ) by {
        assert(ordered.contains(ordered[k]));
        let j = choose|j: int| 0 <= j < events.len() && events[j] == ordered[k];
        assert(takes_from_finitely_many(events[j]));
    }
    let k = events_tell_their_moves(
        ordered,
        transactions,
        lifecycle::legs_of(position::list_under(contract, "legs"@)).dom(),
        i,
    );
    assert(ordered.contains(ordered[k]));
    ordered[k]
}

proof fn moves_of_an_event_are_planned(
    events: Seq<JsonTree>,
    transactions: Seq<JsonTree>,
    legs: Set<Seq<char>>,
    k: int,
    m: MoveView,
)
    requires
        0 <= k < events.len(),
        lifecycle::event_moves(events[k], transactions, legs).contains(m),
    ensures
        lifecycle::all_moves(events, transactions, legs).contains(m),
    decreases events.len(),
{
    let earlier = events.drop_last();
    let before = lifecycle::all_moves(earlier, transactions, legs);
    let all = lifecycle::all_moves(events, transactions, legs);
    let last = events.len() - 1;
    assert(events[last] == events.last());
    if k < last {
        assert(earlier[k] == events[k]);
        moves_of_an_event_are_planned(earlier, transactions, legs, k, m);
        let i = choose|i: int| 0 <= i < before.len() && before[i] == m;
        assert(all[i] == m);
    } else {
        let own = lifecycle::event_moves(events[k], transactions, legs);
        let i = choose|i: int| 0 <= i < own.len() && own[i] == m;
        assert(all[before.len() + i] == m);
    }
}

/// Every transaction of an opening, a closing or a roll that names a leg of the contract
/// is planned as a move of that leg: to open it at an opening or a roll, to close it at a
/// closing.
pub proof fn transactions_move_their_legs(
    contract: JsonTree,
    items: Seq<JsonTree>,
    events: Seq<JsonTree>,
    transactions: Seq<JsonTree>,
    event: JsonTree,
    transaction: JsonTree,
    i: int,
    leg_id: Seq<char>,
)
    requires
        lists(contract, "legs"@, items),
        lists(contract, "events"@, events),
        lists(contract, "transactions"@, transactions),
        last_with_id(items, i, leg_id),
        events.contains(event),
        transactions.contains(transaction),
        belongs(transaction, event, leg_id),
    ensures
        is_of(event, "open"@, "partial_fill"@) || is_of(event, "roll"@, "roll"@)
            ==> lifecycle::moves_of(contract).contains(MoveView::Open { leg_id, transaction }),
        is_of(event, "close"@, "close"@) ==> lifecycle::moves_of(contract).contains(
            MoveView::Close {
                leg_id,
                transaction,
                event_id: text_or_nothing(event, "event_id"@),
                replay_ref: text_or_nothing(event, "replay_ref"@),
            },
        ),
{
    leg_under_id(items, i, leg_id);
    let legs = lifecycle::legs_of(items).dom();
    assert(position::list_under(contract, "legs"@) == items);
    assert(position::list_under(contract, "events"@) == events);
    assert(position::list_under(contract, "transactions"@) == transactions);
    sorting::sorting_keeps_members(events, lifecycle::event_order());
    let ordered = lifecycle::ordered_events(contract);
    assert(ordered.contains(event));
    let k = choose|k: int| 0 <= k < ordered.len() && ordered[k] == event;
    kinds_are_named(event);
    nothing_is_empty(event, "event_id"@);
    nothing_is_empty(event, "replay_ref"@);
    nothing_is_empty(transaction, "event_id"@);
    nothing_is_empty(transaction, "leg_id"@);
    let id = position::text_or(event, "event_id"@, ""@);
    let own = lifecycle::transactions_of(transactions, id);
    own_transactions(transactions, id, transaction);
    let n = choose|n: int| 0 <= n < own.len() && own[n] == transaction;
    opens_are_told(own, legs);
    closes_are_told(event, own, legs);
    assert(legs.contains(lifecycle::leg_id_of(own[n])));
    let opened = MoveView::Open { leg_id, transaction };
    if is_of(event, "open"@, "partial_fill"@) {
        moves_of_an_event_are_planned(ordered, transactions, legs, k, opened);
    }
    if is_of(event, "roll"@, "roll"@) {
        let first = lifecycle::roll_moves(event, legs);
        let rest = lifecycle::open_moves(own, legs);
        let j = choose|j: int| 0 <= j < rest.len() && rest[j] == opened;
        assert((first + rest)[first.len() + j] == opened);
        moves_of_an_event_are_planned(ordered, transactions, legs, k, opened);
    }
    if is_of(event, "close"@, "close"@) {
        moves_of_an_event_are_planned(
            ordered,
            transactions,
            legs,
            k,
            MoveView::Close {
                leg_id,
                transaction,
                event_id: text_or_nothing(event, "event_id"@),
                replay_ref: text_or_nothing(event, "replay_ref"@),
            },
        );
    }
}

/// Every leg of the contract that a roll closes, that an assignment, an exercise or an
/// expiration takes from, or that a correction names is planned as such a move, with the
/// amount that the event's payload gives.
pub proof fn payloads_move_their_legs(
    contract: JsonTree,
    items: Seq<JsonTree>,
    events: Seq<JsonTree>,
    transactions: Seq<JsonTree>,
    event: JsonTree,
    i: int,
    leg_id: Seq<char>,
)
    requires
        lists(contract, "legs"@, items),
        lists(contract, "events"@, events),
        lists(contract, "transactions"@, transactions),
        last_with_id(items, i, leg_id),
        events.contains(event),
        takes_from_finitely_many(event),
    ensures
        is_of(event, "roll"@, "roll"@) && text_within(event, "payload"@, "close_leg_id"@) == Some(
            leg_id,
        ) ==> lifecycle::moves_of(contract).contains(
            MoveView::Roll { leg_id, spelled: text_within(event, "payload"@, "quantity"@) },
        ),
        (is_of(event, "assignment"@, "exercise"@) || is_of(event, "expiration"@, "expiration"@)) && (
        position::inner(event, "payload"@, "leg_quantities"@) matches Some(JsonTree::Object(taken))
            && taken.dom().contains(leg_id)) ==> lifecycle::moves_of(contract).contains(
            MoveView::Terminal {
                leg_id,
                event_type: text_or_nothing(event, "event_type"@),
                quantity: position::inner(
                    event,
                    "payload"@,
                    "leg_quantities"@,
                )->Some_0->Object_0[leg_id],
            },
        ),
        is_of(event, "adjustment"@, "manual_correction"@) && text_within(
            event,
            "payload"@,
            "leg_id"@,
        ) == Some(leg_id) ==> lifecycle::moves_of(contract).contains(
            MoveView::Adjust {
                leg_id,
                delta: text_within(event, "payload"@, "realized_pnl_delta"@),
            },
        ),
{
    leg_under_id(items, i, leg_id);
    let legs = lifecycle::legs_of(items).dom();
    assert(position::list_under(contract, "legs"@) == items);
    assert(position::list_under(contract, "events"@) == events);
    assert(position::list_under(contract, "transactions"@) == transactions);
    sorting::sorting_keeps_members(events, lifecycle::event_order());
    let ordered = lifecycle::ordered_events(contract);
    assert(ordered.contains(event));
    let k = choose|k: int| 0 <= k < ordered.len() && ordered[k] == event;
    kinds_are_named(event);
    nothing_is_empty(event, "event_type"@);
    reveal_strlit("");
    assert(leg_id != ""@);
    let own = lifecycle::event_moves(event, transactions, legs);
    if is_of(event, "roll"@, "roll"@) && text_within(event, "payload"@, "close_leg_id"@) == Some(
        leg_id,
    ) {
        let m = MoveView::Roll { leg_id, spelled: text_within(event, "payload"@, "quantity"@) };
        assert(own[0] == m);
        moves_of_an_event_are_planned(ordered, transactions, legs, k, m);
    }
    if is_of(event, "assignment"@, "exercise"@) || is_of(event, "expiration"@, "expiration"@) {
        let taken = lifecycle::leg_quantities(event);
        if taken.dom().contains(leg_id) {
            let keys = text_map::in_order(taken.dom());
            text_map::in_order_lists_members(taken.dom());
            endings_are_told(position::text_or(event, "event_type"@, ""@), taken, keys, legs);
            assert(keys.contains(leg_id));
            let n = choose|n: int| 0 <= n < keys.len() && keys[n] == leg_id;
            let m = MoveView::Terminal {
                leg_id,
                event_type: text_or_nothing(event, "event_type"@),
                quantity: taken[leg_id],
            };
            assert(legs.contains(keys[n]));
            assert(own.contains(m));
            moves_of_an_event_are_planned(ordered, transactions, legs, k, m);
        }
    }
    if is_of(event, "adjustment"@, "manual_correction"@) && text_within(
        event,
        "payload"@,
        "leg_id"@,
    ) == Some(leg_id) {
        let m = MoveView::Adjust {
            leg_id,
            delta: text_within(event, "payload"@, "realized_pnl_delta"@),
        };
        assert(own[0] == m);
        moves_of_an_event_are_planned(ordered, transactions, legs, k, m);
    }
}

/// Events are taken in the order of their times and, at one time, of their identifiers:
/// none is taken before an earlier one.
pub proof fn events_are_taken_in_order(contract: JsonTree, a: int, b: int)
    requires
        0 <= a < b < lifecycle::ordered_events(contract).len(),
    ensures
        ({
            let first = lifecycle::ordered_events(contract)[a];
            let second = lifecycle::ordered_events(contract)[b];
            let early = text_or_nothing(first, "event_time"@);
            let late = text_or_nothing(second, "event_time"@);
            &&& !text::before(late, early)
            &&& early == late ==> !text::before(
                text_or_nothing(second, "event_id"@),
                text_or_nothing(first, "event_id"@),
            )
        }),
{
    let order = lifecycle::event_order();
    let events = position::list_under(contract, "events"@);
    let first = lifecycle::ordered_events(contract)[a];
    let second = lifecycle::ordered_events(contract)[b];
    nothing_is_empty(first, "event_time"@);
    nothing_is_empty(second, "event_time"@);
    nothing_is_empty(first, "event_id"@);
    nothing_is_empty(second, "event_id"@);
    event_order_is_an_order();
    sorting::sorting_orders(events, order);
}

proof fn event_order_is_an_order()
    ensures
        sorting::is_order(lifecycle::event_order()),
{
    let order = lifecycle::event_order();
    let time = |e: JsonTree| position::text_or(e, "event_time"@, ""@);
    let name = |e: JsonTree| position::text_or(e, "event_id"@, ""@);
    assert forall|a: JsonTree, b: JsonTree| #[trigger] order(a, b) implies !order(b, a) by {
        text::before_irreflexive(time(a));
        text::before_irreflexive(name(a));
        if order(b, a) {
            if text::before(time(a), time(b)) && text::before(time(b), time(a)) {
                text::before_transitive(time(a), time(b), time(a));
            }
            if text::before(name(a), name(b)) && text::before(name(b), name(a)) {
                text::before_transitive(name(a), name(b), name(a));
            }
        }
    }
    assert forall|a: JsonTree, b: JsonTree, c: JsonTree|
        #![trigger order(a, b), order(b, c)]
        !order(a, b) && !order(b, c) implies !order(a, c) by {
        text::before_irreflexive(time(a));
        text::before_irreflexive(name(a));
        text::before_irreflexive(time(c));
        text::before_total(time(a), time(b));
        text::before_total(time(b), time(c));
        text::before_total(name(a), name(b));
        text::before_total(name(b), name(c));
        if order(a, c) {
            if text::before(time(a), time(c)) {
                if text::before(time(b), time(a)) {
                    text::before_transitive(time(b), time(a), time(c));
                    text::before_irreflexive(time(b));
                    if text::before(time(c), time(b)) {
                        text::before_transitive(time(b), time(c), time(b));
                    }
                } else if text::before(time(c), time(b)) {
                    assert(time(a) == time(b));
                    text::before_transitive(time(a), time(c), time(a));
                }
            } else {
                assert(time(a) == time(c) && text::before(name(a), name(c)));
                if text::before(time(b), time(a)) {
                    assert(text::before(time(b), time(c)));
                    assert(order(b, c));
                } else {
                    assert(time(a) == time(b));
                    if text::before(name(b), name(a)) {
                        text::before_transitive(name(b), name(a), name(c));
                    }
                }
            }
        }
    }
}

} // verus!
