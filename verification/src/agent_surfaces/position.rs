//! What an agent is shown of a position, and the journal of what was imported.

pub mod standing;

use vstd::prelude::*;

use crate::json;
use crate::json::{Json, JsonMap, JsonTree};
use crate::text;
use crate::text::{chars_of, contains, decimal_text, join3, join4, join5, same};

use super::selector;
use super::selector::{studio_base, NO_ADVICE};

verus! {

/// A text of a value, or another one where it has none.
pub open spec fn text_or(tree: JsonTree, key: Seq<char>, other: Seq<char>) -> Seq<char> {
    match json::text_member(tree, key) {
        Some(t) => t,
        None => other,
    }
}

/// Reads a text of a value.
pub fn string_field(value: &Json, key: &str, other: &str) -> (r: String)
    ensures
        r@ == text_or(value@, key@, other@),
{
    match value.text_field(key) {
        Some(t) => t,
        None => other.to_owned(),
    }
}

/// The list under a key; an empty one where there is none.
pub open spec fn list_under(tree: JsonTree, key: Seq<char>) -> Seq<JsonTree> {
    match json::member(tree, key) {
        Some(JsonTree::Array(list)) => list,
        _ => Seq::empty(),
    }
}

/// What some values stand for.
pub open spec fn trees(list: Seq<Json>) -> Seq<JsonTree> {
    list.map_values(|v: Json| v@)
}

/// Copies the list under a key.
pub fn list_field(value: &Json, key: &str) -> (r: Vec<Json>)
    ensures
        trees(r@) == list_under(value@, key@),
{
    let mut out: Vec<Json> = Vec::new();
    match value.field(key) {
        Some(Json::Array(list)) => {
            proof {
                json::array_view_members(list@);
            }
            let mut i: usize = 0;
            while i < list.len()
                invariant
                    i <= list.len(),
                    out@.len() == i,
                    forall|j: int| 0 <= j < i ==> #[trigger] out@[j]@ == list@[j]@,
                decreases list.len() - i,
            {
                out.push(list[i].copy());
                i += 1;
            }
            assert(trees(out@) =~= json::array_view(list@));
        },
        _ => {
            assert(trees(out@) =~= Seq::empty());
        },
    }
    out
}

/// A list of values as one value.
pub fn array_value(list: &Vec<Json>) -> (r: Json)
    ensures
        r@ == JsonTree::Array(trees(list@)),
{
    let mut items: Vec<Json> = Vec::new();
    let mut i: usize = 0;
    while i < list.len()
        invariant
            i <= list.len(),
            items@.len() == i,
            forall|j: int| 0 <= j < i ==> #[trigger] items@[j]@ == list@[j]@,
        decreases list.len() - i,
    {
        items.push(list[i].copy());
        i += 1;
    }
    proof {
        json::array_view_members(items@);
        assert(json::array_view(items@) =~= trees(list@));
    }
    Json::Array(items)
}

/// A member of a member of a value.
pub open spec fn inner(tree: JsonTree, outer: Seq<char>, key: Seq<char>) -> Option<JsonTree> {
    match json::member(tree, outer) {
        Some(t) => json::member(t, key),
        None => None,
    }
}

/// Finds a member of a member of a value.
pub fn inner_field<'a>(value: &'a Json, outer: &str, key: &str) -> (r: Option<&'a Json>)
    ensures
        match (r, inner(value@, outer@, key@)) {
            (Some(v), Some(t)) => v@ == t,
            (None, None) => true,
            _ => false,
        },
{
    match value.field(outer) {
        Some(v) => v.field(key),
        None => None,
    }
}

/// A text of a member of a value; an empty one where there is none.
pub open spec fn inner_text(tree: JsonTree, outer: Seq<char>, key: Seq<char>) -> Option<Seq<char>> {
    match inner(tree, outer, key) {
        Some(JsonTree::Text(t)) => Some(t),
        _ => None,
    }
}

/// Reads a text of a member of a value.
pub fn inner_text_field(value: &Json, outer: &str, key: &str) -> (r: Option<String>)
    ensures
        text::option_text(r) == inner_text(value@, outer@, key@),
{
    match inner_field(value, outer, key) {
        Some(Json::Text(t)) => Some(t.clone()),
        _ => None,
    }
}

/// A member of a member of a value; an empty list where there is none.
pub open spec fn inner_or_list(tree: JsonTree, outer: Seq<char>, key: Seq<char>) -> JsonTree {
    match inner(tree, outer, key) {
        Some(t) => t,
        None => JsonTree::Array(Seq::empty()),
    }
}

/// An empty list.
pub fn empty_list() -> (r: Json)
    ensures
        r@ == JsonTree::Array(Seq::empty()),
{
    let items: Vec<Json> = Vec::new();
    proof {
        json::array_view_members(items@);
        assert(json::array_view(items@) =~= Seq::empty());
    }
    Json::Array(items)
}

/// Copies a member of a member of a value.
pub fn inner_or_empty(value: &Json, outer: &str, key: &str) -> (r: Json)
    ensures
        r@ == inner_or_list(value@, outer@, key@),
{
    match inner_field(value, outer, key) {
        Some(v) => v.copy(),
        None => empty_list(),
    }
}

/// A text that is safe within a name.
pub open spec fn flat(s: Seq<char>) -> Seq<char> {
    s.map_values(
        |c: char|
            if c == ':' || c == '/' || c == ' ' {
                '_'
            } else {
                c
            },
    )
}

fn flatten(value: &str) -> (r: String)
    ensures
        r@ == flat(value@),
{
    let chars = chars_of(value);
    let mut out: String = String::new();
    let mut i: usize = 0;
    assert(out@ =~= flat(value@).take(0));
    while i < chars.len()
        invariant
            i <= chars.len(),
            chars@ == value@,
            out@ == flat(value@).take(i as int),
        decreases chars.len() - i,
    {
        let c: char = chars[i];
        let safe: char = if c == ':' || c == '/' || c == ' ' {
            '_'
        } else {
            c
        };
        let ghost before = out@;
        out.push(safe);
        proof {
            assert(flat(value@)[i as int] == safe);
            assert(flat(value@).take(i + 1) =~= before.push(safe));
        }
        i += 1;
    }
    assert(flat(value@).take(chars@.len() as int) =~= flat(value@));
    out
}

/// What a position is checked by: its name, and how much is known of it.
pub open spec fn checkpoint(
    strategy_id: Seq<char>,
    position_id: Seq<char>,
    event_count: nat,
    transaction_count: nat,
) -> Seq<char> {
    flat(
        "chk_"@ + strategy_id + "_"@ + position_id + "_"@ + text::decimal(event_count) + "_"@
            + text::decimal(transaction_count),
    )
}

/// Names what a position is checked by.
pub fn checkpoint_hash(
    strategy_id: &str,
    position_id: &str,
    event_count: usize,
    transaction_count: usize,
) -> (r: String)
    ensures
        r@ == checkpoint(
            strategy_id@,
            position_id@,
            event_count as nat,
            transaction_count as nat,
        ),
{
    let events = decimal_text(event_count as u64);
    let transactions = decimal_text(transaction_count as u64);
    let head = join4("chk_", strategy_id, "_", position_id);
    let joined = join5(head.as_str(), "_", events.as_str(), "_", transactions.as_str());
    flatten(joined.as_str())
}

/// The link to a position in the studio.
pub open spec fn position_link(
    strategy_id: Seq<char>,
    position_id: Seq<char>,
    studio_base_url: Option<Seq<char>>,
) -> Seq<char> {
    selector::base_of(studio_base_url) + "/app/strategies/"@ + strategy_id + "/run?positionId="@
        + position_id
}

/// Links to a position in the studio.
pub fn position_href(strategy_id: &str, position_id: &str, studio_base_url: &Option<String>) -> (r:
    String)
    ensures
        r@ == position_link(strategy_id@, position_id@, text::option_text(*studio_base_url)),
{
    let base = studio_base(studio_base_url);
    join5(base.as_str(), "/app/strategies/", strategy_id, "/run?positionId=", position_id)
}

/// Whether a transaction opens or closes.
pub open spec fn moves(transaction: JsonTree, opening: bool) -> bool {
    json::text_member(transaction, "event_id"@) matches Some(id) && text::occurs(
        id,
        if opening {
            "open"@
        } else {
            "close"@
        },
    )
}

/// The quantities of the transactions that open, or that close, as they are spelled.
pub open spec fn spelled_quantities(transactions: Seq<JsonTree>, opening: bool) -> Seq<Seq<char>>
    decreases transactions.len(),
{
    if transactions.len() == 0 {
        Seq::empty()
    } else {
        let earlier = spelled_quantities(transactions.drop_last(), opening);
        match json::text_member(transactions.last(), "quantity"@) {
            Some(t) => if moves(transactions.last(), opening) {
                earlier.push(t)
            } else {
                earlier
            },
            None => earlier,
        }
    }
}

/// Lists the quantities of the transactions that open, or that close.
pub fn moved_quantities(ledger: &Json, opening: bool) -> (r: Vec<String>)
    ensures
        text::texts(r@) == spelled_quantities(list_under(ledger@, "transactions"@), opening),
{
    let list = list_field(ledger, "transactions");
    let ghost shown = trees(list@);
    let part: &str = if opening {
        "open"
    } else {
        "close"
    };
    let mut out: Vec<String> = Vec::new();
    let mut i: usize = 0;
    proof {
        assert(shown.take(0) =~= Seq::empty());
        assert(text::texts(out@) =~= Seq::empty());
    }
    while i < list.len()
        invariant
            i <= list.len(),
            shown == trees(list@),
            part@ == (if opening {
                "open"@
            } else {
                "close"@
            }),
            text::texts(out@) == spelled_quantities(shown.take(i as int), opening),
        decreases list.len() - i,
    {
        proof {
            assert(shown.take(i + 1).drop_last() =~= shown.take(i as int));
            assert(shown.take(i + 1).last() == list@[i as int]@);
        }
        let applies: bool = match list[i].text_field("event_id") {
            Some(id) => contains(id.as_str(), part),
            None => false,
        };
        if let Some(t) = list[i].text_field("quantity") {
            if applies {
                let ghost before = text::texts(out@);
                out.push(t);
                assert(text::texts(out@) =~= before.push(t@));
            }
        }
        i += 1;
    }
    assert(shown.take(shown.len() as int) =~= shown);
    out
}

/// How what was closed of a position compares with what was opened.
#[derive(Clone, Copy, Debug)]
pub struct PositionFlow {
    /// Whether anything was opened.
    pub any_opened: bool,
    /// Whether anything was closed.
    pub any_closed: bool,
    /// Whether less was closed than opened.
    pub closed_less: bool,
    /// Whether at least as much was closed as opened.
    pub closed_all: bool,
}

/// Whether a position is open.
pub open spec fn flow_status(flow: PositionFlow) -> Seq<char> {
    if flow.any_closed && flow.closed_less {
        "partially_closed"@
    } else if flow.closed_all && flow.any_opened {
        "closed"@
    } else {
        "open"@
    }
}

/// What a surface changes: nothing.
pub open spec fn no_side_effects() -> JsonTree {
    JsonTree::Object(
        map![
            "broker_orders_created"@ => JsonTree::Int(0),
            "credentials_changed"@ => JsonTree::Int(0),
            "strategy_logic_changed"@ => JsonTree::Int(0),
            "trading_activations_changed"@ => JsonTree::Int(0),
        ],
    )
}

/// Says that a surface changes nothing.
pub fn side_effects() -> (r: Json)
    ensures
        r@ == no_side_effects(),
{
    Json::object(
        JsonMap::new().with("broker_orders_created", Json::Int(0)).with(
            "credentials_changed",
            Json::Int(0),
        ).with("strategy_logic_changed", Json::Int(0)).with(
            "trading_activations_changed",
            Json::Int(0),
        ),
    )
}

/// The head of what is shown of a position.
pub open spec fn summary_tree(strategy_id: Seq<char>, position_id: Seq<char>, count: int) -> JsonTree {
    JsonTree::Object(
        map![
            "strategyId"@ => JsonTree::Text(strategy_id),
            "positionId"@ => JsonTree::Text(position_id),
            "snapshotCount"@ => JsonTree::Int(count),
        ],
    )
}

fn summary_value(strategy_id: &str, position_id: &str, count: i64) -> (r: Json)
    ensures
        r@ == summary_tree(strategy_id@, position_id@, count as int),
{
    Json::object(
        JsonMap::new().with("strategyId", Json::text(strategy_id)).with(
            "positionId",
            Json::text(position_id),
        ).with("snapshotCount", Json::Int(count)),
    )
}

/// One link under two keys.
pub open spec fn nested_text(outer: Seq<char>, key: Seq<char>, value: Seq<char>) -> JsonTree {
    JsonTree::Object(map![outer => JsonTree::Object(map![key => JsonTree::Text(value)])])
}

fn nested_value(outer: &str, key: &str, value: &str) -> (r: Json)
    ensures
        r@ == nested_text(outer@, key@, value@),
{
    Json::object(
        JsonMap::new().with(outer, Json::object(JsonMap::new().with(key, Json::text(value)))),
    )
}

/// Which of two texts counts: the one that is given, or that of the ledger.
pub open spec fn given_or(given: Option<Seq<char>>, ledger: JsonTree, key: Seq<char>) -> Seq<char> {
    match given {
        Some(t) => t,
        None => text_or(ledger, key, ""@),
    }
}

fn given_or_field(given: &Option<String>, ledger: &Json, key: &str) -> (r: String)
    ensures
        r@ == given_or(text::option_text(*given), ledger@, key@),
{
    match given {
        Some(t) => t.clone(),
        None => string_field(ledger, key, ""),
    }
}

/// What is shown of the state of a position.
pub open spec fn state_tree(check: Seq<char>, flow: PositionFlow) -> JsonTree {
    JsonTree::Object(
        map![
            "snapshot_id"@ => JsonTree::Text("position_lifecycle_snapshot_"@ + check),
            "position_status"@ => JsonTree::Text(flow_status(flow)),
            "ledger_checkpoint_hash"@ => JsonTree::Text(check),
            "side_effects"@ => no_side_effects(),
        ],
    )
}

/// What an agent is shown of a position.
pub open spec fn surface_tree(
    operation: Seq<char>,
    ledger: JsonTree,
    studio_base_url: Option<Seq<char>>,
    strategy: Option<Seq<char>>,
    position: Option<Seq<char>>,
    flow: PositionFlow,
) -> JsonTree {
    let strategy_id = given_or(strategy, ledger, "strategy_id"@);
    let position_id = given_or(position, ledger, "position_id"@);
    let check = checkpoint(
        strategy_id,
        position_id,
        list_under(ledger, "events"@).len(),
        list_under(ledger, "transactions"@).len(),
    );
    JsonTree::Object(
        map![
            "schemaVersion"@ => JsonTree::Text("tradeassembly.position_lifecycle_surface.v1"@),
            "operation"@ => JsonTree::Text(operation),
            "summary"@ => summary_tree(strategy_id, position_id, 1),
            "lifecycle"@ => state_tree(check, flow),
            "deepLinks"@ => nested_text(
                "studio"@,
                "href"@,
                position_link(strategy_id, position_id, studio_base_url),
            ),
            "exportRefs"@ => nested_text(
                "json"@,
                "path"@,
                "tradeassembly://positions/"@ + position_id + "/lifecycle.json"@,
            ),
            "replayRefs"@ => JsonTree::Object(
                map![
                    "checkpointHash"@ => JsonTree::Text(check),
                    "journalRefs"@ => inner_or_list(ledger, "replay_plan"@, "journal_refs"@),
                ],
            ),
            "timeline"@ => JsonTree::Array(list_under(ledger, "events"@)),
            "legs"@ => match json::member(ledger, "legs"@) {
                Some(t) => t,
                None => JsonTree::Array(Seq::empty()),
            },
            "noAdvice"@ => JsonTree::Text(NO_ADVICE@),
        ],
    )
}

/// Shows an agent a position. `flow` tells how the quantities compare that
/// [`moved_quantities`] lists.
pub fn position_lifecycle_surface(
    operation: &str,
    ledger: &Json,
    studio_base_url: &Option<String>,
    strategy_id: &Option<String>,
    position_id: &Option<String>,
    flow: PositionFlow,
) -> (r: Json)
    ensures
        r@ == surface_tree(
            operation@,
            ledger@,
            text::option_text(*studio_base_url),
            text::option_text(*strategy_id),
            text::option_text(*position_id),
            flow,
        ),
{
    let strategy = given_or_field(strategy_id, ledger, "strategy_id");
    let position = given_or_field(position_id, ledger, "position_id");
    let events = list_field(ledger, "events");
    let transactions = list_field(ledger, "transactions");
    proof {
        assert(trees(events@).len() == events@.len());
        assert(trees(transactions@).len() == transactions@.len());
    }
    let status: &str = if flow.any_closed && flow.closed_less {
        "partially_closed"
    } else if flow.closed_all && flow.any_opened {
        "closed"
    } else {
        "open"
    };
    let check = checkpoint_hash(
        strategy.as_str(),
        position.as_str(),
        events.len(),
        transactions.len(),
    );
    let snapshot_id = crate::text::join2("position_lifecycle_snapshot_", check.as_str());
    let href = position_href(strategy.as_str(), position.as_str(), studio_base_url);
    let path = join3("tradeassembly://positions/", position.as_str(), "/lifecycle.json");
    let legs: Json = match ledger.field("legs") {
        Some(v) => v.copy(),
        None => empty_list(),
    };
    let state = Json::object(
        JsonMap::new().with("snapshot_id", Json::text(snapshot_id.as_str())).with(
            "position_status",
            Json::text(status),
        ).with("ledger_checkpoint_hash", Json::text(check.as_str())).with(
            "side_effects",
            side_effects(),
        ),
    );
    let replay = Json::object(
        JsonMap::new().with("checkpointHash", Json::text(check.as_str())).with(
            "journalRefs",
            inner_or_empty(ledger, "replay_plan", "journal_refs"),
        ),
    );
    Json::object(
        JsonMap::new().with(
            "schemaVersion",
            Json::text("tradeassembly.position_lifecycle_surface.v1"),
        ).with("operation", Json::text(operation)).with(
            "summary",
            summary_value(strategy.as_str(), position.as_str(), 1),
        ).with("lifecycle", state).with(
            "deepLinks",
            nested_value("studio", "href", href.as_str()),
        ).with("exportRefs", nested_value("json", "path", path.as_str())).with(
            "replayRefs",
            replay,
        ).with("timeline", array_value(&events)).with("legs", legs).with(
            "noAdvice",
            Json::text(NO_ADVICE),
        ),
    )
}

/// What an agent is shown of a position that nothing is known of.
pub open spec fn missing_tree(
    operation: Seq<char>,
    strategy: Option<Seq<char>>,
    position: Option<Seq<char>>,
    studio_base_url: Option<Seq<char>>,
) -> JsonTree {
    let strategy_id = match strategy {
        Some(t) => t,
        None => ""@,
    };
    let position_id = match position {
        Some(t) => t,
        None => ""@,
    };
    JsonTree::Object(
        map![
            "schemaVersion"@ => JsonTree::Text("tradeassembly.position_lifecycle_surface.v1"@),
            "operation"@ => JsonTree::Text(operation),
            "summary"@ => summary_tree(strategy_id, position_id, 0),
            "lifecycle"@ => JsonTree::Object(
                map![
                    "snapshot_id"@ => JsonTree::Null,
                    "position_status"@ => JsonTree::Text("missing"@),
                    "ledger_checkpoint_hash"@ => JsonTree::Null,
                ],
            ),
            "deepLinks"@ => nested_text(
                "studio"@,
                "href"@,
                position_link(strategy_id, position_id, studio_base_url),
            ),
            "exportRefs"@ => nested_text(
                "json"@,
                "path"@,
                "tradeassembly://positions/"@ + position_id + "/lifecycle.json"@,
            ),
            "replayRefs"@ => JsonTree::Object(
                map![
                    "checkpointHash"@ => JsonTree::Null,
                    "journalRefs"@ => JsonTree::Array(Seq::empty()),
                ],
            ),
            "timeline"@ => JsonTree::Array(Seq::empty()),
            "legs"@ => JsonTree::Array(Seq::empty()),
            "noAdvice"@ => JsonTree::Text(NO_ADVICE@),
        ],
    )
}

/// Shows an agent that nothing is known of a position.
pub fn empty_position_lifecycle_surface(
    operation: &str,
    strategy_id: &Option<String>,
    position_id: &Option<String>,
    studio_base_url: &Option<String>,
) -> (r: Json)
    ensures
        r@ == missing_tree(
            operation@,
            text::option_text(*strategy_id),
            text::option_text(*position_id),
            text::option_text(*studio_base_url),
        ),
{
    let strategy: &str = match strategy_id {
        Some(t) => t.as_str(),
        None => "",
    };
    let position: &str = match position_id {
        Some(t) => t.as_str(),
        None => "",
    };
    let href = position_href(strategy, position, studio_base_url);
    let path = join3("tradeassembly://positions/", position, "/lifecycle.json");
    let state = Json::object(
        JsonMap::new().with("snapshot_id", Json::Null).with(
            "position_status",
            Json::text("missing"),
        ).with("ledger_checkpoint_hash", Json::Null),
    );
    let replay = Json::object(
        JsonMap::new().with("checkpointHash", Json::Null).with("journalRefs", empty_list()),
    );
    Json::object(
        JsonMap::new().with(
            "schemaVersion",
            Json::text("tradeassembly.position_lifecycle_surface.v1"),
        ).with("operation", Json::text(operation)).with(
            "summary",
            summary_value(strategy, position, 0),
        ).with("lifecycle", state).with(
            "deepLinks",
            nested_value("studio", "href", href.as_str()),
        ).with("exportRefs", nested_value("json", "path", path.as_str())).with(
            "replayRefs",
            replay,
        ).with("timeline", empty_list()).with("legs", empty_list()).with(
            "noAdvice",
            Json::text(NO_ADVICE),
        ),
    )
}

/// Whether a value is the one that is asked for, if one is.
pub open spec fn is_asked_for(value: Option<Seq<char>>, asked: Option<Seq<char>>) -> bool {
    asked matches Some(t) ==> value == Some(t)
}

/// Whether a snapshot is of the position that is asked for.
pub open spec fn snapshot_fits(
    snapshot: JsonTree,
    strategy: Option<Seq<char>>,
    position: Option<Seq<char>>,
) -> bool {
    is_asked_for(inner_text(snapshot, "summary"@, "strategyId"@), strategy) && is_asked_for(
        inner_text(snapshot, "summary"@, "positionId"@),
        position,
    )
}

fn asked_for(value: &Option<String>, asked: &Option<String>) -> (r: bool)
    ensures
        r == is_asked_for(text::option_text(*value), text::option_text(*asked)),
{
    match asked {
        None => true,
        Some(t) => match value {
            Some(v) => same(v.as_str(), t.as_str()),
            None => false,
        },
    }
}

/// The last snapshot of the position that is asked for.
pub open spec fn latest(
    snapshots: Seq<JsonTree>,
    strategy: Option<Seq<char>>,
    position: Option<Seq<char>>,
) -> Option<JsonTree>
    decreases snapshots.len(),
{
    if snapshots.len() == 0 {
        None
    } else if snapshot_fits(snapshots.last(), strategy, position) {
        Some(snapshots.last())
    } else {
        latest(snapshots.drop_last(), strategy, position)
    }
}

/// A summary with another number of snapshots.
pub open spec fn recounted(summary: JsonTree, count: int) -> JsonTree {
    match summary {
        JsonTree::Object(map) => JsonTree::Object(
            map.insert("snapshotCount"@, JsonTree::Int(count)),
        ),
        _ => summary,
    }
}

/// A snapshot as the answer to another operation.
pub open spec fn relabelled(snapshot: JsonTree, operation: Seq<char>, count: int) -> JsonTree {
    match snapshot {
        JsonTree::Object(map) => {
            let named = map.insert("operation"@, JsonTree::Text(operation));
            if named.dom().contains("summary"@) {
                JsonTree::Object(named.insert("summary"@, recounted(named["summary"@], count)))
            } else {
                JsonTree::Object(named)
            }
        },
        _ => snapshot,
    }
}

fn recount(summary: &Json, count: u64) -> (r: Json)
    ensures
        r@ == recounted(summary@, count as int),
{
    match summary.copy() {
        Json::Object(map) => Json::object(map.with("snapshotCount", Json::Large(count))),
        other => other,
    }
}

fn relabel(snapshot: &Json, operation: &str, count: u64) -> (r: Json)
    ensures
        r@ == relabelled(snapshot@, operation@, count as int),
{
    match snapshot.copy() {
        Json::Object(map) => {
            let named = map.with("operation", Json::text(operation));
            let counted: Option<Json> = match named.get("summary") {
                Some(summary) => Some(recount(summary, count)),
                None => None,
            };
            match counted {
                Some(summary) => Json::object(named.with("summary", summary)),
                None => Json::object(named),
            }
        },
        other => other,
    }
}

/// What was imported of positions, in turn.
#[derive(Debug)]
pub struct PositionLifecycleJournal {
    snapshots: Vec<Json>,
}

impl View for PositionLifecycleJournal {
    type V = Seq<JsonTree>;

    closed spec fn view(&self) -> Seq<JsonTree> {
        trees(self.snapshots@)
    }
}

impl Default for PositionLifecycleJournal {
    fn default() -> (r: PositionLifecycleJournal)
        ensures
            r@ == Seq::<JsonTree>::empty(),
    {
        let r = PositionLifecycleJournal { snapshots: Vec::new() };
        assert(r@ =~= Seq::<JsonTree>::empty());
        r
    }
}

/// The answer of a journal: the last fitting snapshot, or that there is none.
pub open spec fn journal_answer(
    journal: Seq<JsonTree>,
    operation: Seq<char>,
    strategy: Option<Seq<char>>,
    position: Option<Seq<char>>,
    studio_base_url: Option<Seq<char>>,
) -> JsonTree {
    match latest(journal, strategy, position) {
        Some(snapshot) => relabelled(snapshot, operation, journal.len() as int),
        None => missing_tree(operation, strategy, position, studio_base_url),
    }
}

impl PositionLifecycleJournal {
    /// Takes a ledger in.
    pub fn import(&mut self, ledger: &Json, studio_base_url: &Option<String>, flow: PositionFlow) -> (r:
        Json)
        ensures
            r@ == surface_tree(
                "import"@,
                ledger@,
                text::option_text(*studio_base_url),
                None,
                None,
                flow,
            ),
            final(self)@ == old(self)@.push(r@),
    {
        let payload = position_lifecycle_surface(
            "import",
            ledger,
            studio_base_url,
            &None,
            &None,
            flow,
        );
        let ghost before = self@;
        self.snapshots.push(payload.copy());
        assert(self@ =~= before.push(payload@));
        payload
    }

    /// Tells how a position stands.
    pub fn status(
        &self,
        strategy_id: &Option<String>,
        position_id: &Option<String>,
        studio_base_url: &Option<String>,
    ) -> (r: Json)
        ensures
            r@ == journal_answer(
                self@,
                "status"@,
                text::option_text(*strategy_id),
                text::option_text(*position_id),
                text::option_text(*studio_base_url),
            ),
    {
        self.latest_or_empty("status", strategy_id, position_id, studio_base_url)
    }

    /// Tells what is known of a position once more.
    pub fn replay(
        &self,
        strategy_id: &Option<String>,
        position_id: &Option<String>,
        studio_base_url: &Option<String>,
    ) -> (r: Json)
        ensures
            r@ == journal_answer(
                self@,
                "replay"@,
                text::option_text(*strategy_id),
                text::option_text(*position_id),
                text::option_text(*studio_base_url),
            ),
    {
        self.latest_or_empty("replay", strategy_id, position_id, studio_base_url)
    }

    fn latest_or_empty(
        &self,
        operation: &str,
        strategy_id: &Option<String>,
        position_id: &Option<String>,
        studio_base_url: &Option<String>,
    ) -> (r: Json)
        ensures
            r@ == journal_answer(
                self@,
                operation@,
                text::option_text(*strategy_id),
                text::option_text(*position_id),
                text::option_text(*studio_base_url),
            ),
    {
        let ghost all = self@;
        let ghost strategy = text::option_text(*strategy_id);
        let ghost position = text::option_text(*position_id);
        let mut n: usize = self.snapshots.len();
        assert(all.take(n as int) =~= all);
        while n > 0
            invariant
                n <= self.snapshots@.len(),
                all == self@,
                strategy == text::option_text(*strategy_id),
                position == text::option_text(*position_id),
                latest(all, strategy, position) == latest(
                    all.take(n as int),
                    strategy,
                    position,
                ),
            decreases n,
        {
            let snapshot: &Json = &self.snapshots[n - 1];
            proof {
                assert(all.take(n as int).last() == snapshot@);
                assert(all.take(n as int).drop_last() =~= all.take(n - 1));
            }
            let own_strategy = inner_text_field(snapshot, "summary", "strategyId");
            let own_position = inner_text_field(snapshot, "summary", "positionId");
            if asked_for(&own_strategy, strategy_id) && asked_for(&own_position, position_id) {
                return relabel(snapshot, operation, self.snapshots.len() as u64);
            }
            n -= 1;
        }
        empty_position_lifecycle_surface(operation, strategy_id, position_id, studio_base_url)
    }
}

/// What was imported last is what the status of its position tells of.
pub proof fn import_is_found(
    journal: Seq<JsonTree>,
    snapshot: JsonTree,
    strategy: Option<Seq<char>>,
    position: Option<Seq<char>>,
)
    requires
        snapshot_fits(snapshot, strategy, position),
    ensures
        latest(journal.push(snapshot), strategy, position) == Some(snapshot),
{
    assert(journal.push(snapshot).last() == snapshot);
}

} // verus!
