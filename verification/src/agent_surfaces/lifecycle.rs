//! How the events of a position are reduced to its state. What is computed with
//! quantities and prices is listed move by move; what came of it is put together again.

use vstd::prelude::*;

use crate::json;
use crate::json::{Json, JsonMap, JsonTree};
use crate::sorting;
use crate::sorting::stable_sort;
use crate::text;
use crate::text::{is_before, join2, same, sorted_unique};
use crate::text_map;
use crate::text_map::TextMap;

use super::position;
use super::position::{
    array_value, checkpoint_hash, inner_field, inner_or_empty, inner_text_field, list_field,
    side_effects, string_field,
};

pub mod leg_plan;

verus! {

/// What every reduced position says of itself.
pub const POSITION_NO_ADVICE: &'static str = "Descriptive position lifecycle output only. TradeAssembly did not recommend a trade, position size, or activation decision.";

/// One leg of a position.
#[derive(Debug)]
pub struct Leg {
    pub leg_id: String,
    pub canonical_id: String,
    pub side: String,
}

/// What a [`Leg`] says.
#[verifier::ext_equal]
pub struct LegView {
    pub leg_id: Seq<char>,
    pub canonical_id: Seq<char>,
    pub side: Seq<char>,
}

impl View for Leg {
    type V = LegView;

    open spec fn view(&self) -> LegView {
        LegView {
            leg_id: self.leg_id@,
            canonical_id: self.canonical_id@,
            side: self.side@,
        }
    }
}

/// The leg that a value tells of.
pub open spec fn leg_of(tree: JsonTree) -> LegView {
    LegView {
        leg_id: position::text_or(tree, "leg_id"@, ""@),
        canonical_id: match position::inner_text(tree, "instrument"@, "canonical_id"@) {
            Some(t) => t,
            None => ""@,
        },
        side: position::text_or(tree, "side"@, "long"@),
    }
}

fn read_leg(value: &Json) -> (r: Leg)
    ensures
        r@ == leg_of(value@),
{
    let canonical_id: String = match inner_text_field(value, "instrument", "canonical_id") {
        Some(t) => t,
        None => "".to_owned(),
    };
    Leg {
        leg_id: string_field(value, "leg_id", ""),
        canonical_id,
        side: string_field(value, "side", "long"),
    }
}

/// The legs by their identifiers: a leg without one is none, and of two with the same one
/// the later counts.
pub open spec fn legs_of(list: Seq<JsonTree>) -> Map<Seq<char>, LegView>
    decreases list.len(),
{
    if list.len() == 0 {
        Map::empty()
    } else {
        let earlier = legs_of(list.drop_last());
        let leg = leg_of(list.last());
        if leg.leg_id == ""@ {
            earlier
        } else {
            earlier.insert(leg.leg_id, leg)
        }
    }
}

/// What the legs of a map say.
pub open spec fn leg_views(map: Map<Seq<char>, Leg>) -> Map<Seq<char>, LegView> {
    map.map_values(|leg: Leg| leg@)
}

fn read_legs(contract: &Json) -> (r: TextMap<Leg>)
    ensures
        leg_views(r@) == legs_of(position::list_under(contract@, "legs"@)),
{
    let list = list_field(contract, "legs");
    let ghost shown = position::trees(list@);
    let mut legs: TextMap<Leg> = TextMap::new();
    let mut i: usize = 0;
    proof {
        assert(shown.take(0) =~= Seq::empty());
        assert(leg_views(legs@) =~= Map::empty());
    }
    while i < list.len()
        invariant
            i <= list.len(),
            shown == position::trees(list@),
            leg_views(legs@) == legs_of(shown.take(i as int)),
        decreases list.len() - i,
    {
        proof {
            assert(shown.take(i + 1).drop_last() =~= shown.take(i as int));
            assert(shown.take(i + 1).last() == list@[i as int]@);
        }
        let leg = read_leg(&list[i]);
        if !same(leg.leg_id.as_str(), "") {
            let ghost before = leg_views(legs@);
            let id = leg.leg_id.clone();
            let ghost own = leg@;
            legs.insert(id.as_str(), leg);
            assert(leg_views(legs@) =~= before.insert(id@, own));
        }
        i += 1;
    }
    assert(shown.take(shown.len() as int) =~= shown);
    legs
}

/// What is to be computed of one leg.
#[derive(Debug)]
pub enum LegMove {
    /// The leg takes in the quantity of a transaction, at its price.
    Open { leg_id: String, transaction: Json },
    /// The leg gives up the quantity of a transaction, at its price, as far as it is held.
    Close { leg_id: String, transaction: Json, event_id: String, replay_ref: String },
    /// The leg gives up a quantity to another one.
    Roll { leg_id: String, spelled: Option<String> },
    /// The leg gives up a quantity for good.
    Terminal { leg_id: String, event_type: String, quantity: Json },
    /// The gain of the leg is corrected.
    Adjust { leg_id: String, delta: Option<String> },
}

/// What a [`LegMove`] says.
#[verifier::ext_equal]
pub enum MoveView {
    Open { leg_id: Seq<char>, transaction: JsonTree },
    Close {
        leg_id: Seq<char>,
        transaction: JsonTree,
        event_id: Seq<char>,
        replay_ref: Seq<char>,
    },
    Roll { leg_id: Seq<char>, spelled: Option<Seq<char>> },
    Terminal { leg_id: Seq<char>, event_type: Seq<char>, quantity: JsonTree },
    Adjust { leg_id: Seq<char>, delta: Option<Seq<char>> },
}

impl View for LegMove {
    type V = MoveView;

    open spec fn view(&self) -> MoveView {
        match self {
            LegMove::Open { leg_id, transaction } => MoveView::Open {
                leg_id: leg_id@,
                transaction: transaction@,
            },
            LegMove::Close { leg_id, transaction, event_id, replay_ref } => MoveView::Close {
                leg_id: leg_id@,
                transaction: transaction@,
                event_id: event_id@,
                replay_ref: replay_ref@,
            },
            LegMove::Roll { leg_id, spelled } => MoveView::Roll {
                leg_id: leg_id@,
                spelled: text::option_text(*spelled),
            },
            LegMove::Terminal { leg_id, event_type, quantity } => MoveView::Terminal {
                leg_id: leg_id@,
                event_type: event_type@,
                quantity: quantity@,
            },
            LegMove::Adjust { leg_id, delta } => MoveView::Adjust {
                leg_id: leg_id@,
                delta: text::option_text(*delta),
            },
        }
    }
}

/// The leg that a move is about.
pub open spec fn moved_leg(m: MoveView) -> Seq<char> {
    match m {
        MoveView::Open { leg_id, .. } => leg_id,
        MoveView::Close { leg_id, .. } => leg_id,
        MoveView::Roll { leg_id, .. } => leg_id,
        MoveView::Terminal { leg_id, .. } => leg_id,
        MoveView::Adjust { leg_id, .. } => leg_id,
    }
}

fn put_move(list: &mut Vec<LegMove>, m: LegMove)
    ensures
        sorting::views(final(list)@) == sorting::views(old(list)@).push(m@),
{
    let ghost before = sorting::views(list@);
    list.push(m);
    assert(sorting::views(list@) =~= before.push(m@));
}

/// The transactions of an event.
pub open spec fn transactions_of(list: Seq<JsonTree>, event_id: Seq<char>) -> Seq<JsonTree>
    decreases list.len(),
{
    if list.len() == 0 {
        Seq::empty()
    } else {
        let earlier = transactions_of(list.drop_last(), event_id);
        if position::text_or(list.last(), "event_id"@, ""@) == event_id {
            earlier.push(list.last())
        } else {
            earlier
        }
    }
}

fn event_transactions(list: &Vec<Json>, event_id: &str) -> (r: Vec<Json>)
    ensures
        position::trees(r@) == transactions_of(position::trees(list@), event_id@),
{
    let ghost shown = position::trees(list@);
    let mut out: Vec<Json> = Vec::new();
    let mut i: usize = 0;
    proof {
        assert(shown.take(0) =~= Seq::empty());
        assert(position::trees(out@) =~= Seq::empty());
    }
    while i < list.len()
        invariant
            i <= list.len(),
            shown == position::trees(list@),
            position::trees(out@) == transactions_of(shown.take(i as int), event_id@),
        decreases list.len() - i,
    {
        proof {
            assert(shown.take(i + 1).drop_last() =~= shown.take(i as int));
            assert(shown.take(i + 1).last() == list@[i as int]@);
        }
        let own = string_field(&list[i], "event_id", "");
        if same(own.as_str(), event_id) {
            let ghost before = position::trees(out@);
            let item = list[i].copy();
            let ghost tree = item@;
            out.push(item);
            assert(position::trees(out@) =~= before.push(tree));
        }
        i += 1;
    }
    assert(shown.take(shown.len() as int) =~= shown);
    out
}

/// The leg that a transaction is about.
pub open spec fn leg_id_of(transaction: JsonTree) -> Seq<char> {
    position::text_or(transaction, "leg_id"@, ""@)
}

/// What some transactions open.
pub open spec fn open_moves(transactions: Seq<JsonTree>, legs: Set<Seq<char>>) -> Seq<MoveView>
    decreases transactions.len(),
{
    if transactions.len() == 0 {
        Seq::empty()
    } else {
        let earlier = open_moves(transactions.drop_last(), legs);
        let id = leg_id_of(transactions.last());
        if legs.contains(id) {
            earlier.push(MoveView::Open { leg_id: id, transaction: transactions.last() })
        } else {
            earlier
        }
    }
}

fn plan_open(transactions: &Vec<Json>, legs: &TextMap<Leg>, moves: &mut Vec<LegMove>)
    ensures
        sorting::views(final(moves)@) == sorting::views(old(moves)@) + open_moves(
            position::trees(transactions@),
            legs@.dom(),
        ),
{
    let ghost shown = position::trees(transactions@);
    let ghost before = sorting::views(moves@);
    let mut i: usize = 0;
    proof {
        assert(shown.take(0) =~= Seq::empty());
        assert(before + Seq::<MoveView>::empty() =~= before);
    }
    while i < transactions.len()
        invariant
            i <= transactions.len(),
            shown == position::trees(transactions@),
            before == sorting::views(old(moves)@),
            sorting::views(moves@) == before + open_moves(shown.take(i as int), legs@.dom()),
        decreases transactions.len() - i,
    {
        proof {
            assert(shown.take(i + 1).drop_last() =~= shown.take(i as int));
            assert(shown.take(i + 1).last() == transactions@[i as int]@);
        }
        let ghost earlier = open_moves(shown.take(i as int), legs@.dom());
        let id = string_field(&transactions[i], "leg_id", "");
        if legs.get(id.as_str()).is_some() {
            let m = LegMove::Open { leg_id: id, transaction: transactions[i].copy() };
            let ghost own = m@;
            put_move(moves, m);
            assert(sorting::views(moves@) =~= before + earlier.push(own));
        }
        i += 1;
    }
    assert(shown.take(shown.len() as int) =~= shown);
}

/// What some transactions of an event close.
pub open spec fn close_moves(
    event: JsonTree,
    transactions: Seq<JsonTree>,
    legs: Set<Seq<char>>,
) -> Seq<MoveView>
    decreases transactions.len(),
{
    if transactions.len() == 0 {
        Seq::empty()
    } else {
        let earlier = close_moves(event, transactions.drop_last(), legs);
        let id = leg_id_of(transactions.last());
        if legs.contains(id) {
            earlier.push(
                MoveView::Close {
                    leg_id: id,
                    transaction: transactions.last(),
                    event_id: position::text_or(event, "event_id"@, ""@),
                    replay_ref: position::text_or(event, "replay_ref"@, ""@),
                },
            )
        } else {
            earlier
        }
    }
}

/// The legs that some moves are about.
pub open spec fn moved_legs(moves: Seq<MoveView>) -> Seq<Seq<char>> {
    moves.map_values(|m: MoveView| moved_leg(m))
}

fn plan_close(event: &Json, transactions: &Vec<Json>, legs: &TextMap<Leg>, moves: &mut Vec<LegMove>) -> (r:
    Vec<String>)
    ensures
        sorting::views(final(moves)@) == sorting::views(old(moves)@) + close_moves(
            event@,
            position::trees(transactions@),
            legs@.dom(),
        ),
        text::texts(r@) == moved_legs(
            close_moves(event@, position::trees(transactions@), legs@.dom()),
        ),
{
    let ghost shown = position::trees(transactions@);
    let ghost before = sorting::views(moves@);
    let mut ids: Vec<String> = Vec::new();
    let mut i: usize = 0;
    proof {
        assert(shown.take(0) =~= Seq::empty());
        assert(before + Seq::<MoveView>::empty() =~= before);
        assert(text::texts(ids@) =~= moved_legs(Seq::empty()));
    }
    while i < transactions.len()
        invariant
            i <= transactions.len(),
            shown == position::trees(transactions@),
            before == sorting::views(old(moves)@),
            sorting::views(moves@) == before + close_moves(
                event@,
                shown.take(i as int),
                legs@.dom(),
            ),
            text::texts(ids@) == moved_legs(
                close_moves(event@, shown.take(i as int), legs@.dom()),
            ),
        decreases transactions.len() - i,
    {
        proof {
            assert(shown.take(i + 1).drop_last() =~= shown.take(i as int));
            assert(shown.take(i + 1).last() == transactions@[i as int]@);
        }
        let ghost earlier = close_moves(event@, shown.take(i as int), legs@.dom());
        let id = string_field(&transactions[i], "leg_id", "");
        if legs.get(id.as_str()).is_some() {
            let ghost named = text::texts(ids@);
            ids.push(id.clone());
            let m = LegMove::Close {
                leg_id: id,
                transaction: transactions[i].copy(),
                event_id: string_field(event, "event_id", ""),
                replay_ref: string_field(event, "replay_ref", ""),
            };
            let ghost own = m@;
            put_move(moves, m);
            proof {
                assert(sorting::views(moves@) =~= before + earlier.push(own));
                assert(text::texts(ids@) =~= named.push(moved_leg(own)));
                assert(moved_legs(earlier.push(own)) =~= moved_legs(earlier).push(moved_leg(own)));
            }
        }
        i += 1;
    }
    assert(shown.take(shown.len() as int) =~= shown);
    ids
}

/// The leg that a roll closes.
pub open spec fn rolled_leg(event: JsonTree) -> Seq<char> {
    match position::inner_text(event, "payload"@, "close_leg_id"@) {
        Some(t) => t,
        None => ""@,
    }
}

/// What a roll gives up.
pub open spec fn roll_moves(event: JsonTree, legs: Set<Seq<char>>) -> Seq<MoveView> {
    if legs.contains(rolled_leg(event)) {
        seq![
            MoveView::Roll {
                leg_id: rolled_leg(event),
                spelled: position::inner_text(event, "payload"@, "quantity"@),
            },
        ]
    } else {
        Seq::empty()
    }
}

/// The legs that some transactions name.
pub open spec fn named_legs(transactions: Seq<JsonTree>) -> Seq<Seq<char>> {
    transactions.map_values(|t: JsonTree| leg_id_of(t))
}

fn plan_roll(event: &Json, transactions: &Vec<Json>, legs: &TextMap<Leg>, moves: &mut Vec<LegMove>) -> (r:
    Vec<String>)
    ensures
        sorting::views(final(moves)@) == sorting::views(old(moves)@) + roll_moves(
            event@,
            legs@.dom(),
        ) + open_moves(position::trees(transactions@), legs@.dom()),
        text::texts(r@) == moved_legs(roll_moves(event@, legs@.dom())) + named_legs(
            position::trees(transactions@),
        ),
{
    let ghost before = sorting::views(moves@);
    let mut ids: Vec<String> = Vec::new();
    let id: String = match inner_text_field(event, "payload", "close_leg_id") {
        Some(t) => t,
        None => "".to_owned(),
    };
    if legs.get(id.as_str()).is_some() {
        let m = LegMove::Roll {
            leg_id: id.clone(),
            spelled: inner_text_field(event, "payload", "quantity"),
        };
        let ghost own = m@;
        put_move(moves, m);
        ids.push(id);
        proof {
            assert(seq![own] == roll_moves(event@, legs@.dom()));
            assert(sorting::views(moves@) =~= before + roll_moves(event@, legs@.dom()));
            assert(text::texts(ids@) =~= moved_legs(roll_moves(event@, legs@.dom())));
        }
    } else {
        proof {
            assert(sorting::views(moves@) =~= before + roll_moves(event@, legs@.dom()));
            assert(text::texts(ids@) =~= moved_legs(roll_moves(event@, legs@.dom())));
        }
    }
    let ghost first = text::texts(ids@);
    plan_open(transactions, legs, moves);
    let ghost shown = position::trees(transactions@);
    let ghost named = named_legs(shown);
    let mut i: usize = 0;
    assert(text::texts(ids@) =~= first + named.take(0));
    while i < transactions.len()
        invariant
            i <= transactions.len(),
            shown == position::trees(transactions@),
            named == named_legs(shown),
            text::texts(ids@) == first + named.take(i as int),
        decreases transactions.len() - i,
    {
        let name = string_field(&transactions[i], "leg_id", "");
        let ghost so_far = text::texts(ids@);
        ids.push(name);
        proof {
            assert(named[i as int] == name@);
            assert(text::texts(ids@) =~= so_far.push(name@));
            assert(first + named.take(i + 1) =~= (first + named.take(i as int)).push(name@));
        }
        i += 1;
    }
    assert(named.take(named.len() as int) =~= named);
    ids
}

/// The quantities that an event takes for good, by leg.
pub open spec fn leg_quantities(event: JsonTree) -> Map<Seq<char>, JsonTree> {
    match position::inner(event, "payload"@, "leg_quantities"@) {
        Some(JsonTree::Object(map)) => map,
        _ => Map::empty(),
    }
}

/// What an event takes for good, leg by leg.
pub open spec fn terminal_moves(
    event_type: Seq<char>,
    quantities: Map<Seq<char>, JsonTree>,
    keys: Seq<Seq<char>>,
    legs: Set<Seq<char>>,
) -> Seq<MoveView>
    decreases keys.len(),
{
    if keys.len() == 0 {
        Seq::empty()
    } else {
        let earlier = terminal_moves(event_type, quantities, keys.drop_last(), legs);
        if legs.contains(keys.last()) {
            earlier.push(
                MoveView::Terminal {
                    leg_id: keys.last(),
                    event_type,
                    quantity: quantities[keys.last()],
                },
            )
        } else {
            earlier
        }
    }
}

/// What an event takes for good, in the order of the legs.
pub open spec fn terminal_moves_of(event: JsonTree, legs: Set<Seq<char>>) -> Seq<MoveView> {
    let quantities = leg_quantities(event);
    terminal_moves(
        position::text_or(event, "event_type"@, ""@),
        quantities,
        text_map::in_order(quantities.dom()),
        legs,
    )
}

fn sorted_entries(map: &JsonMap) -> (r: TextMap<Json>)
    ensures
        r@.dom() == map@.dom(),
        forall|k: Seq<char>| #[trigger] r@.dom().contains(k) ==> r@[k]@ == map@[k],
{
    let mut out: TextMap<Json> = TextMap::new();
    let mut i: usize = 0;
    let ghost shown = map.entries@;
    while i < map.entries.len()
        invariant
            i <= map.entries@.len(),
            shown == map.entries@,
            forall|k: Seq<char>| #[trigger] out@.dom().contains(k) ==> map@.dom().contains(k)
                && out@[k]@ == map@[k],
            forall|j: int| 0 <= j < i ==> out@.dom().contains((#[trigger] shown[j]).0@),
        decreases map.entries.len() - i,
    {
        let key: &str = map.entries[i].0.as_str();
        proof {
            json::entry_has_key(map.entries@, i as int);
        }
        if let Some(value) = map.get(key) {
            out.insert(key, value.copy());
        }
        i += 1;
    }
    proof {
        assert forall|k: Seq<char>| map@.dom().contains(k) implies out@.dom().contains(k) by {
            json::key_has_entry(map.entries@, k);
            let j = choose|j: int| 0 <= j < shown.len() && (#[trigger] shown[j]).0@ == k;
            assert(out@.dom().contains(shown[j].0@));
        }
        assert(out@.dom() =~= map@.dom());
    }
    out
}

fn plan_terminal(event: &Json, legs: &TextMap<Leg>, moves: &mut Vec<LegMove>) -> (r: Vec<String>)
    ensures
        sorting::views(final(moves)@) == sorting::views(old(moves)@) + terminal_moves_of(
            event@,
            legs@.dom(),
        ),
        text::texts(r@) == moved_legs(terminal_moves_of(event@, legs@.dom())),
{
    let event_type = string_field(event, "event_type", "");
    let empty = JsonMap::new();
    let map: &JsonMap = match inner_field(event, "payload", "leg_quantities") {
        Some(Json::Object(map)) => map,
        _ => &empty,
    };
    let ghost quantities = leg_quantities(event@);
    assert(map@ == quantities);
    let entries = sorted_entries(map);
    let count: usize = entries.len();
    let ghost keys = text_map::in_order(quantities.dom());
    let ghost before = sorting::views(moves@);
    let mut ids: Vec<String> = Vec::new();
    let mut i: usize = 0;
    proof {
        assert(keys.take(0) =~= Seq::empty());
        assert(before + Seq::<MoveView>::empty() =~= before);
        assert(text::texts(ids@) =~= moved_legs(Seq::empty()));
    }
    while i < count
        invariant
            i <= count,
            count == entries.order().len(),
            entries.order() == keys,
            before == sorting::views(old(moves)@),
            entries@.dom() == quantities.dom(),
            forall|k: Seq<char>| #[trigger] entries@.dom().contains(k) ==> entries@[k]@
                == quantities[k],
            event_type@ == position::text_or(event@, "event_type"@, ""@),
            sorting::views(moves@) == before + terminal_moves(
                event_type@,
                quantities,
                keys.take(i as int),
                legs@.dom(),
            ),
            text::texts(ids@) == moved_legs(
                terminal_moves(event_type@, quantities, keys.take(i as int), legs@.dom()),
            ),
        decreases count - i,
    {
        let ghost earlier = terminal_moves(
            event_type@,
            quantities,
            keys.take(i as int),
            legs@.dom(),
        );
        let key = entries.key_at(i);
        let value = entries.value_at(i);
        proof {
            assert(keys.take(i + 1).drop_last() =~= keys.take(i as int));
            assert(keys.take(i + 1).last() == key@);
        }
        if legs.get(key.as_str()).is_some() {
            let ghost named = text::texts(ids@);
            ids.push(key.clone());
            let m = LegMove::Terminal {
                leg_id: key.clone(),
                event_type: event_type.clone(),
                quantity: value.copy(),
            };
            let ghost own = m@;
            put_move(moves, m);
            proof {
                assert(sorting::views(moves@) =~= before + earlier.push(own));
                assert(text::texts(ids@) =~= named.push(moved_leg(own)));
                assert(moved_legs(earlier.push(own)) =~= moved_legs(earlier).push(moved_leg(own)));
            }
        }
        i += 1;
    }
    assert(keys.take(keys.len() as int) =~= keys);
    ids
}

/// The leg that a correction is about: the named one, or the first one where none is
/// named.
pub open spec fn adjusted_leg(event: JsonTree, legs: Set<Seq<char>>) -> Option<Seq<char>> {
    let named = match position::inner_text(event, "payload"@, "leg_id"@) {
        Some(t) => t,
        None => ""@,
    };
    if named == ""@ {
        let order = text_map::in_order(legs);
        if order.len() > 0 {
            Some(order[0])
        } else {
            None
        }
    } else if legs.contains(named) {
        Some(named)
    } else {
        None
    }
}

/// What a correction changes.
pub open spec fn adjust_moves(event: JsonTree, legs: Set<Seq<char>>) -> Seq<MoveView> {
    match adjusted_leg(event, legs) {
        Some(id) => seq![
            MoveView::Adjust {
                leg_id: id,
                delta: position::inner_text(event, "payload"@, "realized_pnl_delta"@),
            },
        ],
        None => Seq::empty(),
    }
}

fn plan_adjustment(event: &Json, legs: &TextMap<Leg>, moves: &mut Vec<LegMove>)
    ensures
        sorting::views(final(moves)@) == sorting::views(old(moves)@) + adjust_moves(
            event@,
            legs@.dom(),
        ),
{
    let ghost before = sorting::views(moves@);
    let named: String = match inner_text_field(event, "payload", "leg_id") {
        Some(t) => t,
        None => "".to_owned(),
    };
    let count: usize = legs.len();
    let id: Option<String> = if same(named.as_str(), "") {
        if count > 0 {
            Some(legs.key_at(0).clone())
        } else {
            None
        }
    } else if legs.get(named.as_str()).is_some() {
        Some(named)
    } else {
        None
    };
    match id {
        Some(leg_id) => {
            let m = LegMove::Adjust {
                leg_id,
                delta: inner_text_field(event, "payload", "realized_pnl_delta"),
            };
            let ghost own = m@;
            put_move(moves, m);
            assert(sorting::views(moves@) =~= before + seq![own]);
        },
        None => {
            assert(before + Seq::<MoveView>::empty() =~= before);
        },
    }
}

/// What an event does, by its kind.
#[derive(Clone, Copy, Debug, PartialEq, Eq, Structural)]
pub enum EventKind {
    Opening,
    Closing,
    Rolling,
    Ending,
    Correcting,
    Other,
}

/// The kind of an event.
pub open spec fn kind_of(event_type: Seq<char>) -> EventKind {
    if event_type == "open"@ || event_type == "partial_fill"@ {
        EventKind::Opening
    } else if event_type == "close"@ {
        EventKind::Closing
    } else if event_type == "roll"@ {
        EventKind::Rolling
    } else if event_type == "assignment"@ || event_type == "exercise"@ || event_type
        == "expiration"@ {
        EventKind::Ending
    } else if event_type == "adjustment"@ || event_type == "manual_correction"@ {
        EventKind::Correcting
    } else {
        EventKind::Other
    }
}

fn event_kind(event_type: &str) -> (r: EventKind)
    ensures
        r == kind_of(event_type@),
{
    if same(event_type, "open") || same(event_type, "partial_fill") {
        EventKind::Opening
    } else if same(event_type, "close") {
        EventKind::Closing
    } else if same(event_type, "roll") {
        EventKind::Rolling
    } else if same(event_type, "assignment") || same(event_type, "exercise") || same(
        event_type,
        "expiration",
    ) {
        EventKind::Ending
    } else if same(event_type, "adjustment") || same(event_type, "manual_correction") {
        EventKind::Correcting
    } else {
        EventKind::Other
    }
}

/// What an event asks to be computed.
pub open spec fn event_moves(
    event: JsonTree,
    transactions: Seq<JsonTree>,
    legs: Set<Seq<char>>,
) -> Seq<MoveView> {
    let own = transactions_of(transactions, position::text_or(event, "event_id"@, ""@));
    match kind_of(position::text_or(event, "event_type"@, ""@)) {
        EventKind::Opening => open_moves(own, legs),
        EventKind::Closing => close_moves(event, own, legs),
        EventKind::Rolling => roll_moves(event, legs) + open_moves(own, legs),
        EventKind::Ending => terminal_moves_of(event, legs),
        EventKind::Correcting => adjust_moves(event, legs),
        EventKind::Other => Seq::empty(),
    }
}

/// The legs that the history of an event names.
pub open spec fn event_legs(
    event: JsonTree,
    transactions: Seq<JsonTree>,
    legs: Set<Seq<char>>,
) -> Seq<Seq<char>> {
    let own = transactions_of(transactions, position::text_or(event, "event_id"@, ""@));
    match kind_of(position::text_or(event, "event_type"@, ""@)) {
        EventKind::Closing => moved_legs(close_moves(event, own, legs)),
        EventKind::Rolling => moved_legs(roll_moves(event, legs)) + named_legs(own),
        EventKind::Ending => moved_legs(terminal_moves_of(event, legs)),
        _ => Seq::empty(),
    }
}

/// What the history tells of an event.
pub open spec fn history_tree(event: JsonTree, leg_ids: Seq<Seq<char>>) -> JsonTree {
    JsonTree::Object(
        map![
            "event_id"@ => JsonTree::Text(position::text_or(event, "event_id"@, ""@)),
            "event_type"@ => JsonTree::Text(position::text_or(event, "event_type"@, ""@)),
            "event_time"@ => JsonTree::Text(position::text_or(event, "event_time"@, ""@)),
            "replay_ref"@ => JsonTree::Text(position::text_or(event, "replay_ref"@, ""@)),
            "leg_ids"@ => json::text_array(leg_ids),
        ],
    )
}

/// What the history tells of an event: nothing where it names no leg.
pub open spec fn event_history(event: JsonTree, named: Seq<Seq<char>>) -> Seq<JsonTree> {
    if named.len() == 0 {
        Seq::empty()
    } else {
        seq![history_tree(event, text_map::in_order(named.to_set()))]
    }
}

fn push_history(event: &Json, named: &Vec<String>, history: &mut Vec<Json>)
    ensures
        position::trees(final(history)@) == position::trees(old(history)@) + event_history(
            event@,
            text::texts(named@),
        ),
{
    let ghost before = position::trees(history@);
    if named.len() == 0 {
        assert(text::texts(named@).len() == 0);
        assert(before + Seq::<JsonTree>::empty() =~= before);
        return;
    }
    let ids = sorted_unique(named);
    proof {
        let shown = text::texts(ids@);
        let all = text::texts(named@);
        assert(all.len() > 0);
        text_map::in_order_lists_members(all.to_set());
        assert forall|x: Seq<char>| shown.contains(x) <==> text_map::in_order(
            all.to_set(),
        ).contains(x) by {
            assert(all.to_set().contains(x) <==> all.contains(x));
        }
        text::ascending_is_determined(shown, text_map::in_order(all.to_set()));
    }
    let entry = Json::object(
        JsonMap::new().with("event_id", Json::text(string_field(event, "event_id", "").as_str())).with(
            "event_type",
            Json::text(string_field(event, "event_type", "").as_str()),
        ).with("event_time", Json::text(string_field(event, "event_time", "").as_str())).with(
            "replay_ref",
            Json::text(string_field(event, "replay_ref", "").as_str()),
        ).with("leg_ids", Json::texts(&ids)),
    );
    let ghost own = entry@;
    history.push(entry);
    proof {
        assert(position::trees(history@) =~= before.push(own));
        assert(before.push(own) =~= before + seq![own]);
    }
}

/// Events in the order of their times, and of their identifiers where the times are one.
pub open spec fn event_order() -> spec_fn(JsonTree, JsonTree) -> bool {
    |a: JsonTree, b: JsonTree|
        text::before(
            position::text_or(a, "event_time"@, ""@),
            position::text_or(b, "event_time"@, ""@),
        ) || (position::text_or(a, "event_time"@, ""@) == position::text_or(b, "event_time"@, ""@)
            && text::before(
            position::text_or(a, "event_id"@, ""@),
            position::text_or(b, "event_id"@, ""@),
        ))
}

fn event_before(a: &Json, b: &Json) -> (r: bool)
    ensures
        r == event_order()(a@, b@),
{
    let a_time = string_field(a, "event_time", "");
    let b_time = string_field(b, "event_time", "");
    if is_before(a_time.as_str(), b_time.as_str()) {
        return true;
    }
    if !same(a_time.as_str(), b_time.as_str()) {
        return false;
    }
    let a_id = string_field(a, "event_id", "");
    let b_id = string_field(b, "event_id", "");
    is_before(a_id.as_str(), b_id.as_str())
}

/// The events of a position in order.
pub open spec fn ordered_events(contract: JsonTree) -> Seq<JsonTree> {
    sorting::sorted(position::list_under(contract, "events"@), event_order())
}

/// What some events ask to be computed, in turn.
pub open spec fn all_moves(
    events: Seq<JsonTree>,
    transactions: Seq<JsonTree>,
    legs: Set<Seq<char>>,
) -> Seq<MoveView>
    decreases events.len(),
{
    if events.len() == 0 {
        Seq::empty()
    } else {
        all_moves(events.drop_last(), transactions, legs) + event_moves(
            events.last(),
            transactions,
            legs,
        )
    }
}

/// What the history tells of some events, in turn.
pub open spec fn all_history(
    events: Seq<JsonTree>,
    transactions: Seq<JsonTree>,
    legs: Set<Seq<char>>,
) -> Seq<JsonTree>
    decreases events.len(),
{
    if events.len() == 0 {
        Seq::empty()
    } else {
        all_history(events.drop_last(), transactions, legs) + event_history(
            events.last(),
            event_legs(events.last(), transactions, legs),
        )
    }
}

/// The moves that the events of a position ask for.
pub open spec fn moves_of(contract: JsonTree) -> Seq<MoveView> {
    all_moves(
        ordered_events(contract),
        position::list_under(contract, "transactions"@),
        legs_of(position::list_under(contract, "legs"@)).dom(),
    )
}

/// The history of a position.
pub open spec fn history_of(contract: JsonTree) -> Seq<JsonTree> {
    all_history(
        ordered_events(contract),
        position::list_under(contract, "transactions"@),
        legs_of(position::list_under(contract, "legs"@)).dom(),
    )
}

/// How a position is to be reduced.
#[derive(Debug)]
pub struct LifecyclePlan {
    /// The legs in ascending order of their identifiers.
    pub legs: Vec<Leg>,
    /// What is to be computed, in turn.
    pub moves: Vec<LegMove>,
    /// What was closed, in turn.
    pub closed_history: Vec<Json>,
}

/// The legs of a position in order.
pub open spec fn ordered_legs(contract: JsonTree) -> Seq<LegView> {
    let legs = legs_of(position::list_under(contract, "legs"@));
    text_map::in_order(legs.dom()).map_values(|id: Seq<char>| legs[id])
}

fn plan_event(
    event: &Json,
    transactions: &Vec<Json>,
    legs: &TextMap<Leg>,
    moves: &mut Vec<LegMove>,
    history: &mut Vec<Json>,
)
    ensures
        sorting::views(final(moves)@) == sorting::views(old(moves)@) + event_moves(
            event@,
            position::trees(transactions@),
            legs@.dom(),
        ),
        position::trees(final(history)@) == position::trees(old(history)@) + event_history(
            event@,
            event_legs(event@, position::trees(transactions@), legs@.dom()),
        ),
{
    let ghost before = sorting::views(moves@);
    let ghost told = position::trees(history@);
    let event_id = string_field(event, "event_id", "");
    let event_type = string_field(event, "event_type", "");
    let own = event_transactions(transactions, event_id.as_str());
    let none: Vec<String> = Vec::new();
    assert(text::texts(none@) =~= Seq::empty());
    match event_kind(event_type.as_str()) {
        EventKind::Opening => {
            plan_open(&own, legs, moves);
            push_history(event, &none, history);
        },
        EventKind::Closing => {
            let named = plan_close(event, &own, legs, moves);
            push_history(event, &named, history);
        },
        EventKind::Rolling => {
            let named = plan_roll(event, &own, legs, moves);
            push_history(event, &named, history);
            assert(sorting::views(moves@) =~= before + (roll_moves(event@, legs@.dom())
                + open_moves(position::trees(own@), legs@.dom())));
        },
        EventKind::Ending => {
            let named = plan_terminal(event, legs, moves);
            push_history(event, &named, history);
        },
        EventKind::Correcting => {
            plan_adjustment(event, legs, moves);
            push_history(event, &none, history);
        },
        EventKind::Other => {
            push_history(event, &none, history);
            assert(before + Seq::<MoveView>::empty() =~= before);
        },
    }
}

fn list_legs(legs: &TextMap<Leg>) -> (r: Vec<Leg>)
    ensures
        sorting::views(r@) == text_map::in_order(legs@.dom()).map_values(
            |id: Seq<char>| leg_views(legs@)[id],
        ),
{
    let count: usize = legs.len();
    let ghost ids = text_map::in_order(legs@.dom());
    let ghost shown = ids.map_values(|id: Seq<char>| leg_views(legs@)[id]);
    let mut out: Vec<Leg> = Vec::new();
    let mut i: usize = 0;
    assert(sorting::views(out@) =~= shown.take(0));
    while i < count
        invariant
            i <= count,
            count == legs.order().len(),
            legs.order() == ids,
            shown == ids.map_values(|id: Seq<char>| leg_views(legs@)[id]),
            sorting::views(out@) == shown.take(i as int),
        decreases count - i,
    {
        let leg = legs.value_at(i);
        let copied = Leg {
            leg_id: leg.leg_id.clone(),
            canonical_id: leg.canonical_id.clone(),
            side: leg.side.clone(),
        };
        let ghost before = sorting::views(out@);
        out.push(copied);
        proof {
            assert(shown[i as int] == copied@);
            assert(sorting::views(out@) =~= before.push(copied@));
            assert(shown.take(i + 1) =~= shown.take(i as int).push(copied@));
        }
        i += 1;
    }
    assert(shown.take(shown.len() as int) =~= shown);
    out
}

/// Lists what is to be computed to reduce a position.
pub fn plan_lifecycle(contract: &Json) -> (r: LifecyclePlan)
    ensures
        sorting::views(r.legs@) == ordered_legs(contract@),
        sorting::views(r.moves@) == moves_of(contract@),
        position::trees(r.closed_history@) == history_of(contract@),
{
    let legs = read_legs(contract);
    let transactions = list_field(contract, "transactions");
    let list = list_field(contract, "events");
    proof {
        assert(sorting::views(list@) =~= position::trees(list@));
        assert(legs@.dom() =~= leg_views(legs@).dom());
    }
    let events = stable_sort(list, event_before, Ghost(event_order()));
    let ghost shown = ordered_events(contract@);
    let ghost told = position::trees(transactions@);
    proof {
        assert(sorting::views(events@) =~= position::trees(events@));
        assert(shown == position::trees(events@));
    }
    let mut moves: Vec<LegMove> = Vec::new();
    let mut history: Vec<Json> = Vec::new();
    let mut i: usize = 0;
    proof {
        assert(shown.take(0) =~= Seq::empty());
        assert(sorting::views(moves@) =~= Seq::empty());
        assert(position::trees(history@) =~= Seq::empty());
    }
    while i < events.len()
        invariant
            i <= events.len(),
            shown == position::trees(events@),
            told == position::trees(transactions@),
            sorting::views(moves@) == all_moves(shown.take(i as int), told, legs@.dom()),
            position::trees(history@) == all_history(shown.take(i as int), told, legs@.dom()),
        decreases events.len() - i,
    {
        proof {
            assert(shown.take(i + 1).drop_last() =~= shown.take(i as int));
            assert(shown.take(i + 1).last() == events@[i as int]@);
        }
        plan_event(&events[i], &transactions, &legs, &mut moves, &mut history);
        i += 1;
    }
    assert(shown.take(shown.len() as int) =~= shown);
    let ordered = list_legs(&legs);
    proof {
        let views = leg_views(legs@);
        assert(sorting::views(ordered@) =~= ordered_legs(contract@));
    }
    LifecyclePlan { legs: ordered, moves, closed_history: history }
}

/// What the computation came to for one leg: the amounts as they are spelled, and which
/// of them are above zero.
#[derive(Debug)]
pub struct LegTotals {
    pub opened_quantity: String,
    pub open_quantity: String,
    pub closed_quantity: String,
    pub rolled_quantity: String,
    pub assigned_quantity: String,
    pub exercised_quantity: String,
    pub expired_quantity: String,
    pub average_open_price: String,
    pub realized_pnl_input: String,
    pub is_open: bool,
    pub any_closed: bool,
    pub any_rolled: bool,
    pub any_assigned: bool,
    pub any_exercised: bool,
    pub any_expired: bool,
}

/// The state of a leg.
pub open spec fn leg_state(t: LegTotals) -> Seq<char> {
    if t.is_open && t.any_closed {
        "partially_closed"@
    } else if t.is_open {
        "open"@
    } else if t.any_assigned {
        "assigned"@
    } else if t.any_exercised {
        "exercised"@
    } else if t.any_expired {
        "expired"@
    } else {
        "closed"@
    }
}

/// Names the state of a leg.
pub fn leg_status(t: &LegTotals) -> (r: &'static str)
    ensures
        r@ == leg_state(*t),
{
    if t.is_open && t.any_closed {
        "partially_closed"
    } else if t.is_open {
        "open"
    } else if t.any_assigned {
        "assigned"
    } else if t.any_exercised {
        "exercised"
    } else if t.any_expired {
        "expired"
    } else {
        "closed"
    }
}

/// Whether a leg is open and something of it was given up.
pub open spec fn partly_given_up(t: LegTotals) -> bool {
    t.is_open && (t.any_closed || t.any_assigned || t.any_exercised || t.any_rolled)
}

/// The state of a position.
pub open spec fn position_state(totals: Seq<LegTotals>, any_warning: bool) -> Seq<char> {
    if any_warning {
        "warning"@
    } else if exists|i: int| 0 <= i < totals.len() && partly_given_up(#[trigger] totals[i]) {
        "partially_closed"@
    } else if exists|i: int| 0 <= i < totals.len() && (#[trigger] totals[i]).is_open {
        "open"@
    } else {
        "closed"@
    }
}

/// Names the state of a position.
pub fn position_status(totals: &Vec<LegTotals>, any_warning: bool) -> (r: &'static str)
    ensures
        r@ == position_state(totals@, any_warning),
{
    if any_warning {
        return "warning";
    }
    let mut open: bool = false;
    let mut i: usize = 0;
    while i < totals.len()
        invariant
            i <= totals.len(),
            !any_warning,
            forall|j: int| 0 <= j < i ==> !partly_given_up(#[trigger] totals@[j]),
            open == exists|j: int| 0 <= j < i && (#[trigger] totals@[j]).is_open,
        decreases totals.len() - i,
    {
        let t: &LegTotals = &totals[i];
        if t.is_open && (t.any_closed || t.any_assigned || t.any_exercised || t.any_rolled) {
            assert(partly_given_up(totals@[i as int]));
            return "partially_closed";
        }
        if t.is_open {
            open = true;
            assert(totals@[i as int].is_open);
        }
        i += 1;
    }
    if open {
        "open"
    } else {
        "closed"
    }
}

/// A leg and what came of it, as a value.
pub open spec fn leg_tree(leg: LegView, t: LegTotals) -> JsonTree {
    JsonTree::Object(
        map![
            "leg_id"@ => JsonTree::Text(leg.leg_id),
            "canonical_id"@ => JsonTree::Text(leg.canonical_id),
            "side"@ => JsonTree::Text(leg.side),
            "opened_quantity"@ => JsonTree::Text(t.opened_quantity@),
            "open_quantity"@ => JsonTree::Text(t.open_quantity@),
            "closed_quantity"@ => JsonTree::Text(t.closed_quantity@),
            "rolled_quantity"@ => JsonTree::Text(t.rolled_quantity@),
            "assigned_quantity"@ => JsonTree::Text(t.assigned_quantity@),
            "exercised_quantity"@ => JsonTree::Text(t.exercised_quantity@),
            "expired_quantity"@ => JsonTree::Text(t.expired_quantity@),
            "average_open_price"@ => JsonTree::Text(t.average_open_price@),
            "realized_pnl_input"@ => JsonTree::Text(t.realized_pnl_input@),
            "status"@ => JsonTree::Text(leg_state(t)),
        ],
    )
}

fn leg_value(leg: &Leg, t: &LegTotals) -> (r: Json)
    ensures
        r@ == leg_tree(leg@, *t),
{
    let half = JsonMap::new().with("leg_id", Json::text(leg.leg_id.as_str())).with(
        "canonical_id",
        Json::text(leg.canonical_id.as_str()),
    ).with("side", Json::text(leg.side.as_str())).with(
        "opened_quantity",
        Json::text(t.opened_quantity.as_str()),
    ).with("open_quantity", Json::text(t.open_quantity.as_str())).with(
        "closed_quantity",
        Json::text(t.closed_quantity.as_str()),
    ).with("rolled_quantity", Json::text(t.rolled_quantity.as_str()));
    Json::object(
        half.with("assigned_quantity", Json::text(t.assigned_quantity.as_str())).with(
            "exercised_quantity",
            Json::text(t.exercised_quantity.as_str()),
        ).with("expired_quantity", Json::text(t.expired_quantity.as_str())).with(
            "average_open_price",
            Json::text(t.average_open_price.as_str()),
        ).with("realized_pnl_input", Json::text(t.realized_pnl_input.as_str())).with(
            "status",
            Json::text(leg_status(t)),
        ),
    )
}

/// The legs and what came of them, by their identifiers.
pub open spec fn leg_map(legs: Seq<LegView>, totals: Seq<LegTotals>) -> Map<Seq<char>, JsonTree>
    decreases legs.len(),
{
    if legs.len() == 0 {
        Map::empty()
    } else {
        leg_map(legs.drop_last(), totals).insert(
            legs.last().leg_id,
            leg_tree(legs.last(), totals[legs.len() - 1]),
        )
    }
}

fn leg_entries(legs: &Vec<Leg>, totals: &Vec<LegTotals>) -> (r: JsonMap)
    requires
        legs@.len() == totals@.len(),
    ensures
        r@ == leg_map(sorting::views(legs@), totals@),
{
    let ghost shown = sorting::views(legs@);
    let mut map = JsonMap::new();
    let mut i: usize = 0;
    assert(shown.take(0) =~= Seq::empty());
    while i < legs.len()
        invariant
            i <= legs.len(),
            legs@.len() == totals@.len(),
            shown == sorting::views(legs@),
            map@ == leg_map(shown.take(i as int), totals@),
        decreases legs.len() - i,
    {
        proof {
            assert(shown.take(i + 1).drop_last() =~= shown.take(i as int));
            assert(shown.take(i + 1).last() == legs@[i as int]@);
        }
        map.insert(legs[i].leg_id.as_str(), leg_value(&legs[i], &totals[i]));
        i += 1;
    }
    assert(shown.take(shown.len() as int) =~= shown);
    map
}

/// A warning that more was closed than held.
pub open spec fn overclose_tree(m: MoveView) -> JsonTree {
    JsonTree::Object(
        map![
            "code"@ => JsonTree::Text("overclose"@),
            "message"@ => JsonTree::Text(
                "Lifecycle reducer saw a close quantity greater than open quantity."@,
            ),
            "severity"@ => JsonTree::Text("error"@),
            "event_id"@ => JsonTree::Text(m->Close_event_id),
            "leg_id"@ => JsonTree::Text(m->Close_leg_id),
            "replay_ref"@ => JsonTree::Text(m->Close_replay_ref),
        ],
    )
}

/// The warnings for the closing moves that were found to close more than held: of every
/// move, `overclosed` says whether it was.
pub open spec fn warnings_of(moves: Seq<MoveView>, overclosed: Seq<bool>) -> Seq<JsonTree>
    decreases moves.len(),
{
    if moves.len() == 0 {
        Seq::empty()
    } else {
        let earlier = warnings_of(moves.drop_last(), overclosed);
        if moves.last() is Close && overclosed[moves.len() - 1] {
            earlier.push(overclose_tree(moves.last()))
        } else {
            earlier
        }
    }
}

fn list_warnings(moves: &Vec<LegMove>, overclosed: &Vec<bool>) -> (r: Vec<Json>)
    requires
        moves@.len() == overclosed@.len(),
    ensures
        position::trees(r@) == warnings_of(sorting::views(moves@), overclosed@),
{
    let ghost shown = sorting::views(moves@);
    let mut out: Vec<Json> = Vec::new();
    let mut i: usize = 0;
    proof {
        assert(shown.take(0) =~= Seq::empty());
        assert(position::trees(out@) =~= Seq::empty());
    }
    while i < moves.len()
        invariant
            i <= moves.len(),
            moves@.len() == overclosed@.len(),
            shown == sorting::views(moves@),
            position::trees(out@) == warnings_of(shown.take(i as int), overclosed@),
        decreases moves.len() - i,
    {
        proof {
            assert(shown.take(i + 1).drop_last() =~= shown.take(i as int));
            assert(shown.take(i + 1).last() == moves@[i as int]@);
        }
        if let LegMove::Close { leg_id, transaction: _, event_id, replay_ref } = &moves[i] {
            if overclosed[i] {
                let warning = Json::object(
                    JsonMap::new().with("code", Json::text("overclose")).with(
                        "message",
                        Json::text(
                            "Lifecycle reducer saw a close quantity greater than open quantity.",
                        ),
                    ).with("severity", Json::text("error")).with(
                        "event_id",
                        Json::text(event_id.as_str()),
                    ).with("leg_id", Json::text(leg_id.as_str())).with(
                        "replay_ref",
                        Json::text(replay_ref.as_str()),
                    ),
                );
                let ghost before = position::trees(out@);
                let ghost own = warning@;
                out.push(warning);
                assert(position::trees(out@) =~= before.push(own));
            }
        }
        i += 1;
    }
    assert(shown.take(shown.len() as int) =~= shown);
    out
}

/// What the computation came to for the position, as it is spelled.
#[derive(Debug)]
pub struct PositionTotals {
    pub open_quantity: String,
    pub closed_quantity: String,
    pub realized_pnl_input: String,
    pub gross_exposure_input: String,
}

/// The totals as a value.
pub open spec fn totals_tree(t: PositionTotals) -> JsonTree {
    JsonTree::Object(
        map![
            "open_quantity"@ => JsonTree::Text(t.open_quantity@),
            "closed_quantity"@ => JsonTree::Text(t.closed_quantity@),
            "realized_pnl_input"@ => JsonTree::Text(t.realized_pnl_input@),
            "gross_exposure_input"@ => JsonTree::Text(t.gross_exposure_input@),
        ],
    )
}

fn totals_value(t: &PositionTotals) -> (r: Json)
    ensures
        r@ == totals_tree(*t),
{
    Json::object(
        JsonMap::new().with("open_quantity", Json::text(t.open_quantity.as_str())).with(
            "closed_quantity",
            Json::text(t.closed_quantity.as_str()),
        ).with("realized_pnl_input", Json::text(t.realized_pnl_input.as_str())).with(
            "gross_exposure_input",
            Json::text(t.gross_exposure_input.as_str()),
        ),
    )
}

/// What a position checks by.
pub open spec fn contract_checkpoint(contract: JsonTree) -> Seq<char> {
    position::checkpoint(
        position::text_or(contract, "strategy_id"@, ""@),
        position::text_or(contract, "position_id"@, ""@),
        position::list_under(contract, "events"@).len(),
        position::list_under(contract, "transactions"@).len(),
    )
}

/// A reduced position as a value.
pub open spec fn reduced_tree(
    contract: JsonTree,
    totals: Seq<LegTotals>,
    overclosed: Seq<bool>,
    sums: PositionTotals,
) -> JsonTree {
    let check = contract_checkpoint(contract);
    let warnings = warnings_of(moves_of(contract), overclosed);
    JsonTree::Object(
        map![
            "snapshot_id"@ => JsonTree::Text("plc_"@ + check),
            "strategy_id"@ => JsonTree::Text(position::text_or(contract, "strategy_id"@, ""@)),
            "position_id"@ => JsonTree::Text(position::text_or(contract, "position_id"@, ""@)),
            "position_status"@ => JsonTree::Text(position_state(totals, warnings.len() > 0)),
            "ledger_checkpoint_hash"@ => JsonTree::Text(check),
            "replay_ref"@ => JsonTree::Text(
                match position::inner_text(contract, "replay_plan"@, "replay_ref"@) {
                    Some(t) => t,
                    None => ""@,
                },
            ),
            "replay_journal_refs"@ => position::inner_or_list(
                contract,
                "replay_plan"@,
                "journal_refs"@,
            ),
            "leg_state"@ => JsonTree::Object(leg_map(ordered_legs(contract), totals)),
            "summary"@ => totals_tree(sums),
            "closed_history"@ => JsonTree::Array(history_of(contract)),
            "warnings"@ => JsonTree::Array(warnings),
            "side_effects"@ => position::no_side_effects(),
            "ok"@ => JsonTree::Bool(warnings.len() == 0),
            "no_advice_notice"@ => JsonTree::Text(POSITION_NO_ADVICE@),
        ],
    )
}

/// Puts a reduced position together. `plan` is what [`plan_lifecycle`] made of the
/// contract; of its legs `totals` says what came of them, of its moves `overclosed` says
/// which closed more than was held, and `sums` is what all of it comes to.
pub fn position_lifecycle_reduce(
    contract: &Json,
    plan: &LifecyclePlan,
    totals: &Vec<LegTotals>,
    overclosed: &Vec<bool>,
    sums: &PositionTotals,
) -> (r: Json)
    requires
        sorting::views(plan.legs@) == ordered_legs(contract@),
        sorting::views(plan.moves@) == moves_of(contract@),
        position::trees(plan.closed_history@) == history_of(contract@),
        totals@.len() == plan.legs@.len(),
        overclosed@.len() == plan.moves@.len(),
    ensures
        r@ == reduced_tree(contract@, totals@, overclosed@, *sums),
{
    let strategy_id = string_field(contract, "strategy_id", "");
    let position_id = string_field(contract, "position_id", "");
    let events = list_field(contract, "events");
    let transactions = list_field(contract, "transactions");
    proof {
        assert(position::trees(events@).len() == events@.len());
        assert(position::trees(transactions@).len() == transactions@.len());
    }
    let check = checkpoint_hash(
        strategy_id.as_str(),
        position_id.as_str(),
        events.len(),
        transactions.len(),
    );
    let warnings = list_warnings(&plan.moves, overclosed);
    proof {
        assert(position::trees(warnings@).len() == warnings@.len());
    }
    let any_warning: bool = warnings.len() > 0;
    let status = position_status(totals, any_warning);
    let replay_ref: String = match inner_text_field(contract, "replay_plan", "replay_ref") {
        Some(t) => t,
        None => "".to_owned(),
    };
    let snapshot_id = join2("plc_", check.as_str());
    let half = JsonMap::new().with("snapshot_id", Json::text(snapshot_id.as_str())).with(
        "strategy_id",
        Json::text(strategy_id.as_str()),
    ).with("position_id", Json::text(position_id.as_str())).with(
        "position_status",
        Json::text(status),
    ).with("ledger_checkpoint_hash", Json::text(check.as_str())).with(
        "replay_ref",
        Json::text(replay_ref.as_str()),
    ).with(
        "replay_journal_refs",
        inner_or_empty(contract, "replay_plan", "journal_refs"),
    );
    Json::object(
        half.with("leg_state", Json::object(leg_entries(&plan.legs, totals))).with(
            "summary",
            totals_value(sums),
        ).with("closed_history", array_value(&plan.closed_history)).with(
            "warnings",
            array_value(&warnings),
        ).with("side_effects", side_effects()).with("ok", Json::Bool(!any_warning)).with(
            "no_advice_notice",
            Json::text(POSITION_NO_ADVICE),
        ),
    )
}

proof fn open_moves_stay(transactions: Seq<JsonTree>, legs: Set<Seq<char>>, i: int)
    requires
        0 <= i < open_moves(transactions, legs).len(),
    ensures
        legs.contains(moved_leg(open_moves(transactions, legs)[i])),
    decreases transactions.len(),
{
    if transactions.len() > 0 {
        let earlier = open_moves(transactions.drop_last(), legs);
        if i < earlier.len() {
            open_moves_stay(transactions.drop_last(), legs, i);
        }
    }
}

proof fn close_moves_stay(
    event: JsonTree,
    transactions: Seq<JsonTree>,
    legs: Set<Seq<char>>,
    i: int,
)
    requires
        0 <= i < close_moves(event, transactions, legs).len(),
    ensures
        legs.contains(moved_leg(close_moves(event, transactions, legs)[i])),
    decreases transactions.len(),
{
    if transactions.len() > 0 {
        let earlier = close_moves(event, transactions.drop_last(), legs);
        if i < earlier.len() {
            close_moves_stay(event, transactions.drop_last(), legs, i);
        }
    }
}

proof fn terminal_moves_stay(
    event_type: Seq<char>,
    quantities: Map<Seq<char>, JsonTree>,
    keys: Seq<Seq<char>>,
    legs: Set<Seq<char>>,
    i: int,
)
    requires
        0 <= i < terminal_moves(event_type, quantities, keys, legs).len(),
    ensures
        legs.contains(moved_leg(terminal_moves(event_type, quantities, keys, legs)[i])),
    decreases keys.len(),
{
    if keys.len() > 0 {
        let earlier = terminal_moves(event_type, quantities, keys.drop_last(), legs);
        if i < earlier.len() {
            terminal_moves_stay(event_type, quantities, keys.drop_last(), legs, i);
        }
    }
}

proof fn event_moves_stay(
    event: JsonTree,
    transactions: Seq<JsonTree>,
    legs: Set<Seq<char>>,
    i: int,
)
    requires
        legs.finite(),
        0 <= i < event_moves(event, transactions, legs).len(),
    ensures
        legs.contains(moved_leg(event_moves(event, transactions, legs)[i])),
{
    let own = transactions_of(transactions, position::text_or(event, "event_id"@, ""@));
    match kind_of(position::text_or(event, "event_type"@, ""@)) {
        EventKind::Opening => {
            open_moves_stay(own, legs, i);
        },
        EventKind::Closing => {
            close_moves_stay(event, own, legs, i);
        },
        EventKind::Rolling => {
            let first = roll_moves(event, legs);
            if i >= first.len() {
                open_moves_stay(own, legs, i - first.len());
            }
        },
        EventKind::Ending => {
            let quantities = leg_quantities(event);
            terminal_moves_stay(
                position::text_or(event, "event_type"@, ""@),
                quantities,
                text_map::in_order(quantities.dom()),
                legs,
                i,
            );
        },
        EventKind::Correcting => {
            text_map::in_order_lists_members(legs);
            let order = text_map::in_order(legs);
            if order.len() > 0 {
                assert(order.contains(order[0]));
            }
        },
        EventKind::Other => {},
    }
}

proof fn all_moves_stay(
    events: Seq<JsonTree>,
    transactions: Seq<JsonTree>,
    legs: Set<Seq<char>>,
    i: int,
)
    requires
        legs.finite(),
        0 <= i < all_moves(events, transactions, legs).len(),
    ensures
        legs.contains(moved_leg(all_moves(events, transactions, legs)[i])),
    decreases events.len(),
{
    if events.len() > 0 {
        let earlier = all_moves(events.drop_last(), transactions, legs);
        if i < earlier.len() {
            all_moves_stay(events.drop_last(), transactions, legs, i);
        } else {
            event_moves_stay(events.last(), transactions, legs, i - earlier.len());
        }
    }
}

proof fn legs_are_finite(list: Seq<JsonTree>)
    ensures
        legs_of(list).dom().finite(),
    decreases list.len(),
{
    if list.len() > 0 {
        legs_are_finite(list.drop_last());
    }
}

/// Events change only the legs that the position has: whatever names another leg is passed
/// over.
pub proof fn moves_are_of_known_legs(contract: JsonTree, i: int)
    requires
        0 <= i < moves_of(contract).len(),
    ensures
        legs_of(position::list_under(contract, "legs"@)).dom().contains(
            moved_leg(moves_of(contract)[i]),
        ),
{
    let list = position::list_under(contract, "legs"@);
    legs_are_finite(list);
    all_moves_stay(
        ordered_events(contract),
        position::list_under(contract, "transactions"@),
        legs_of(list).dom(),
        i,
    );
}

/// A position is closed only where no leg is open and nothing was closed that was not
/// held.
pub proof fn closed_position_has_no_open_leg(totals: Seq<LegTotals>, any_warning: bool)
    requires
        position_state(totals, any_warning) == "closed"@,
    ensures
        !any_warning,
        forall|i: int| 0 <= i < totals.len() ==> !(#[trigger] totals[i]).is_open,
{
    reveal_strlit("closed");
    reveal_strlit("warning");
    reveal_strlit("partially_closed");
    reveal_strlit("open");
    assert("closed"@.len() != "warning"@.len());
    assert("closed"@.len() != "partially_closed"@.len());
    assert("closed"@.len() != "open"@.len());
}

} // verus!
