//! What an agent is shown of the candidates of a selection.

pub mod ranking;

use vstd::prelude::*;

use crate::json;
use crate::json::{Json, JsonMap, JsonTree};
use crate::sorting;
use crate::sorting::stable_sort;
use crate::text;
use crate::text::{join5, trim_slashes};

verus! {

/// What every surface says of itself.
pub const NO_ADVICE: &'static str = "TradeAssembly provides deterministic machinery, local journaling, broker/data interfaces, and replay tools. It does not tell users what to trade, when to trade, or how much to trade.";

/// Where the studio is served if nothing else is said.
pub const STUDIO_BASE_URL: &'static str = "http://127.0.0.1:3001";

/// Where the studio is served.
pub open spec fn base_of(studio_base_url: Option<Seq<char>>) -> Seq<char> {
    match studio_base_url {
        Some(url) => text::without_slashes(url),
        None => text::without_slashes(STUDIO_BASE_URL@),
    }
}

/// Says where the studio is served.
pub fn studio_base(studio_base_url: &Option<String>) -> (r: String)
    ensures
        r@ == base_of(text::option_text(*studio_base_url)),
{
    match studio_base_url {
        Some(url) => trim_slashes(url.as_str()),
        None => trim_slashes(STUDIO_BASE_URL),
    }
}

/// What was found of a candidate: whether it lies within the bounds, and a number that
/// grows with the size of its delta.
#[derive(Debug)]
pub struct CandidateVerdict {
    pub within_bounds: bool,
    pub delta_rank: u64,
}

/// Whether a value can be given members: an object, or nothing yet.
pub open spec fn takes_members(tree: JsonTree) -> bool {
    tree is Object || tree is Null
}

/// The members of a value.
pub open spec fn members(tree: JsonTree) -> Map<Seq<char>, JsonTree> {
    match tree {
        JsonTree::Object(map) => map,
        _ => Map::empty(),
    }
}

/// The snapshots that are offered.
pub open spec fn offered(snapshots: JsonTree) -> Seq<JsonTree> {
    match snapshots {
        JsonTree::Array(list) => list,
        _ => Seq::empty(),
    }
}

/// Whether every snapshot can be marked.
pub open spec fn can_be_marked(snapshots: JsonTree) -> bool {
    forall|i: int| 0 <= i < offered(snapshots).len() ==> takes_members(#[trigger] offered(snapshots)[i])
}

/// Tells whether every snapshot can be marked.
pub fn can_mark(snapshots: &Json) -> (r: bool)
    ensures
        r == can_be_marked(snapshots@),
{
    match snapshots {
        Json::Array(list) => {
            proof {
                json::array_view_members(list@);
            }
            let mut i: usize = 0;
            while i < list.len()
                invariant
                    i <= list.len(),
                    snapshots@ == JsonTree::Array(json::array_view(list@)),
                    json::array_view(list@).len() == list@.len(),
                    forall|j: int| 0 <= j < list@.len() ==> #[trigger] json::array_view(list@)[j]
                        == list@[j]@,
                    forall|j: int| 0 <= j < i ==> takes_members(#[trigger] json::array_view(list@)[j]),
                decreases list.len() - i,
            {
                assert(json::array_view(list@)[i as int] == list@[i as int]@);
                match &list[i] {
                    Json::Object(_) => {},
                    Json::Null => {},
                    _ => {
                        assert(!takes_members(offered(snapshots@)[i as int]));
                        return false;
                    },
                }
                i += 1;
            }
            true
        },
        _ => true,
    }
}

/// A candidate with what was found of it.
pub open spec fn marked(snapshot: JsonTree, within_bounds: bool) -> JsonTree {
    JsonTree::Object(
        if within_bounds {
            members(snapshot).insert("status"@, JsonTree::Text("accepted"@)).insert(
                "reason_codes"@,
                JsonTree::Array(Seq::empty()),
            )
        } else {
            members(snapshot).insert("status"@, JsonTree::Text("rejected"@)).insert(
                "reason_codes"@,
                JsonTree::Array(seq![JsonTree::Text("outside_delta"@)]),
            )
        },
    )
}

/// A candidate and its rank.
#[derive(Debug)]
pub struct Candidate {
    pub value: Json,
    pub delta_rank: u64,
}

/// What a [`Candidate`] says.
#[verifier::ext_equal]
pub struct CandidateView {
    pub tree: JsonTree,
    pub delta_rank: int,
}

impl View for Candidate {
    type V = CandidateView;

    open spec fn view(&self) -> CandidateView {
        CandidateView { tree: self.value@, delta_rank: self.delta_rank as int }
    }
}

/// The candidates within or out of the bounds, as they were offered.
pub open spec fn chosen(
    snapshots: Seq<JsonTree>,
    verdicts: Seq<CandidateVerdict>,
    within_bounds: bool,
) -> Seq<CandidateView>
    decreases snapshots.len(),
{
    if snapshots.len() == 0 {
        Seq::empty()
    } else {
        let n = snapshots.len() - 1;
        let earlier = chosen(snapshots.drop_last(), verdicts, within_bounds);
        if verdicts[n].within_bounds == within_bounds {
            earlier.push(
                CandidateView {
                    tree: marked(snapshots[n], within_bounds),
                    delta_rank: verdicts[n].delta_rank as int,
                },
            )
        } else {
            earlier
        }
    }
}

/// Candidates with the largest delta first.
pub open spec fn by_delta() -> spec_fn(CandidateView, CandidateView) -> bool {
    |a: CandidateView, b: CandidateView| a.delta_rank > b.delta_rank
}

fn larger_delta(a: &Candidate, b: &Candidate) -> (r: bool)
    ensures
        r == by_delta()(a@, b@),
{
    a.delta_rank > b.delta_rank
}

/// The values of some candidates.
pub open spec fn candidate_trees(list: Seq<CandidateView>) -> Seq<JsonTree> {
    list.map_values(|c: CandidateView| c.tree)
}

fn array_of(list: Vec<Candidate>) -> (r: Json)
    ensures
        r@ == JsonTree::Array(candidate_trees(sorting::views(list@))),
{
    let mut items: Vec<Json> = Vec::new();
    let mut i: usize = 0;
    while i < list.len()
        invariant
            i <= list.len(),
            items@.len() == i,
            forall|j: int| 0 <= j < i ==> #[trigger] items@[j]@ == list@[j].value@,
        decreases list.len() - i,
    {
        items.push(list[i].value.copy());
        i += 1;
    }
    proof {
        json::array_view_members(items@);
        assert(json::array_view(items@) =~= candidate_trees(sorting::views(list@)));
    }
    Json::Array(items)
}

fn mark(snapshot: &Json, within_bounds: bool) -> (r: Json)
    requires
        takes_members(snapshot@),
    ensures
        r@ == marked(snapshot@, within_bounds),
{
    let map: JsonMap = match snapshot.copy() {
        Json::Object(map) => map,
        _ => JsonMap::new(),
    };
    let reasons: Vec<Json> = if within_bounds {
        Vec::new()
    } else {
        vec![Json::text("outside_delta")]
    };
    proof {
        json::array_view_members(reasons@);
        assert(json::array_view(reasons@) =~= (if within_bounds {
            Seq::empty()
        } else {
            seq![JsonTree::Text("outside_delta"@)]
        }));
    }
    let status: &str = if within_bounds {
        "accepted"
    } else {
        "rejected"
    };
    Json::object(map.with("status", Json::text(status)).with("reason_codes", Json::Array(reasons)))
}

/// The link to a selection in the studio.
pub open spec fn selector_href(
    base: Seq<char>,
    strategy_id: Seq<char>,
    run_id: Seq<char>,
) -> Seq<char> {
    base + "/app/strategies/"@ + strategy_id + "/research?selectorRunId="@ + run_id
}

/// The parts of a surface that an agent sees.
pub open spec fn agent_visible() -> JsonTree {
    JsonTree::Array(
        seq![
            JsonTree::Text("artifactBundle"@),
            JsonTree::Text("artifactRefs"@),
            JsonTree::Text("exportRefs"@),
            JsonTree::Text("replayRefs"@),
            JsonTree::Text("raw"@),
        ],
    )
}

fn visible_parts() -> (r: Json)
    ensures
        r@ == agent_visible(),
{
    let parts: Vec<Json> = vec![
        Json::text("artifactBundle"),
        Json::text("artifactRefs"),
        Json::text("exportRefs"),
        Json::text("replayRefs"),
        Json::text("raw"),
    ];
    proof {
        json::array_view_members(parts@);
        assert(json::array_view(parts@) =~= agent_visible()->Array_0);
    }
    Json::Array(parts)
}

/// What is told around the candidates.
pub open spec fn envelope(href: Seq<char>) -> JsonTree {
    JsonTree::Object(
        map![
            "deepLinks"@ => JsonTree::Object(
                map![
                    "selector"@ => JsonTree::Object(map!["href"@ => JsonTree::Text(href)]),
                ],
            ),
            "renderContract"@ => JsonTree::Object(map!["agentVisible"@ => agent_visible()]),
            "noAdvice"@ => JsonTree::Text(NO_ADVICE@),
        ],
    )
}

fn report_envelope(href: &str) -> (r: Json)
    ensures
        r@ == envelope(href@),
{
    Json::object(
        JsonMap::new().with(
            "deepLinks",
            Json::object(
                JsonMap::new().with(
                    "selector",
                    Json::object(JsonMap::new().with("href", Json::text(href))),
                ),
            ),
        ).with(
            "renderContract",
            Json::object(JsonMap::new().with("agentVisible", visible_parts())),
        ).with("noAdvice", Json::text(NO_ADVICE)),
    )
}

/// What an agent is shown of a selection.
pub open spec fn selector_tree(
    surface: Seq<char>,
    operation: Seq<char>,
    snapshots: Seq<JsonTree>,
    verdicts: Seq<CandidateVerdict>,
    run_id: Seq<char>,
    snapshot_ref: Seq<char>,
    strategy_id: Option<Seq<char>>,
    studio_base_url: Option<Seq<char>>,
) -> JsonTree {
    let accepted = sorting::sorted(chosen(snapshots, verdicts, true), by_delta());
    let rejected = chosen(snapshots, verdicts, false);
    let strategy = match strategy_id {
        Some(id) => id,
        None => ""@,
    };
    JsonTree::Object(
        map![
            "schemaVersion"@ => JsonTree::Text("tradeassembly.selector_surface.v1"@),
            "surface"@ => JsonTree::Text(surface),
            "operation"@ => JsonTree::Text(operation),
            "run_id"@ => JsonTree::Text(run_id),
            "snapshot_ref"@ => JsonTree::Text(snapshot_ref),
            "accepted_candidates"@ => JsonTree::Array(candidate_trees(accepted)),
            "rejected_candidates"@ => JsonTree::Array(candidate_trees(rejected)),
            "reasonCodeSummary"@ => JsonTree::Object(
                map!["outside_delta"@ => JsonTree::Int(rejected.len() as int)],
            ),
            "reportEnvelope"@ => envelope(
                selector_href(base_of(studio_base_url), strategy, run_id),
            ),
            "noAdvice"@ => JsonTree::Text(NO_ADVICE@),
        ],
    )
}

/// Shows an agent a selection. Of every snapshot, `verdicts` says whether its delta lies
/// within the bounds, and how large it is.
pub fn selector_surface(
    surface: &str,
    operation: &str,
    snapshots: &Json,
    verdicts: &Vec<CandidateVerdict>,
    run_id: &str,
    snapshot_ref: &str,
    strategy_id: &Option<String>,
    studio_base_url: &Option<String>,
) -> (r: Json)
    requires
        can_be_marked(snapshots@),
        verdicts@.len() == offered(snapshots@).len(),
    ensures
        r@ == selector_tree(
            surface@,
            operation@,
            offered(snapshots@),
            verdicts@,
            run_id@,
            snapshot_ref@,
            text::option_text(*strategy_id),
            text::option_text(*studio_base_url),
        ),
{
    let none: Vec<Json> = Vec::new();
    let list: &Vec<Json> = match snapshots {
        Json::Array(list) => list,
        _ => &none,
    };
    let ghost shown = offered(snapshots@);
    proof {
        json::array_view_members(list@);
        assert(shown =~= json::array_view(list@));
    }
    let mut accepted: Vec<Candidate> = Vec::new();
    let mut rejected: Vec<Candidate> = Vec::new();
    let mut i: usize = 0;
    proof {
        assert(shown.take(0) =~= Seq::empty());
        assert(sorting::views(accepted@) =~= Seq::empty());
        assert(sorting::views(rejected@) =~= Seq::empty());
    }
    while i < list.len()
        invariant
            i <= list.len(),
            rejected@.len() <= i,
            shown == offered(snapshots@),
            can_be_marked(snapshots@),
            shown.len() == list@.len(),
            forall|j: int| 0 <= j < list@.len() ==> #[trigger] shown[j] == list@[j]@,
            verdicts@.len() == shown.len(),
            sorting::views(accepted@) == chosen(shown.take(i as int), verdicts@, true),
            sorting::views(rejected@) == chosen(shown.take(i as int), verdicts@, false),
        decreases list.len() - i,
    {
        proof {
            assert(shown[i as int] == list@[i as int]@);
            assert(shown.take(i + 1).drop_last() =~= shown.take(i as int));
            assert(shown.take(i + 1)[i as int] == shown[i as int]);
        }
        let within_bounds: bool = verdicts[i].within_bounds;
        let item = Candidate {
            value: mark(&list[i], within_bounds),
            delta_rank: verdicts[i].delta_rank,
        };
        if within_bounds {
            let ghost before = sorting::views(accepted@);
            accepted.push(item);
            assert(sorting::views(accepted@) =~= before.push(item@));
        } else {
            let ghost before = sorting::views(rejected@);
            rejected.push(item);
            assert(sorting::views(rejected@) =~= before.push(item@));
        }
        i += 1;
    }
    assert(shown.take(shown.len() as int) =~= shown);
    let ranked = stable_sort(accepted, larger_delta, Ghost(by_delta()));
    let strategy: &str = match strategy_id {
        Some(id) => id.as_str(),
        None => "",
    };
    let base = studio_base(studio_base_url);
    let href = join5(
        base.as_str(),
        "/app/strategies/",
        strategy,
        "/research?selectorRunId=",
        run_id,
    );
    let outside: u64 = rejected.len() as u64;
    proof {
        assert(sorting::views(rejected@).len() == rejected@.len());
    }
    Json::object(
        JsonMap::new().with(
            "schemaVersion",
            Json::text("tradeassembly.selector_surface.v1"),
        ).with("surface", Json::text(surface)).with("operation", Json::text(operation)).with(
            "run_id",
            Json::text(run_id),
        ).with("snapshot_ref", Json::text(snapshot_ref)).with(
            "accepted_candidates",
            array_of(ranked),
        ).with("rejected_candidates", array_of(rejected)).with(
            "reasonCodeSummary",
            Json::object(JsonMap::new().with("outside_delta", Json::Large(outside))),
        ).with("reportEnvelope", report_envelope(href.as_str())).with(
            "noAdvice",
            Json::text(NO_ADVICE),
        ),
    )
}

/// No candidate is lost: every one is accepted or rejected.
pub proof fn every_candidate_is_judged(snapshots: Seq<JsonTree>, verdicts: Seq<CandidateVerdict>)
    ensures
        chosen(snapshots, verdicts, true).len() + chosen(snapshots, verdicts, false).len()
            == snapshots.len(),
    decreases snapshots.len(),
{
    if snapshots.len() > 0 {
        every_candidate_is_judged(snapshots.drop_last(), verdicts);
    }
}

} // verus!
