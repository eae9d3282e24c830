//! What is logged of a run, and the order that a logged intent stands for.

pub mod trail;

use vstd::prelude::*;

use crate::json;
use crate::json::{Json, JsonMap, JsonTree};
use crate::text;
use crate::text::{copy_option, decimal_text, join2};

verus! {

/// One stage of a run.
#[derive(Debug)]
pub struct AuditEvent {
    pub stage: String,
    pub strategy_id: String,
    pub inputs: JsonMap,
    pub outputs: JsonMap,
    pub run_id: Option<String>,
}

/// What an [`AuditEvent`] says.
#[verifier::ext_equal]
pub struct AuditView {
    pub stage: Seq<char>,
    pub strategy_id: Seq<char>,
    pub inputs: Map<Seq<char>, JsonTree>,
    pub outputs: Map<Seq<char>, JsonTree>,
    pub run_id: Option<Seq<char>>,
}

impl View for AuditEvent {
    type V = AuditView;

    open spec fn view(&self) -> AuditView {
        AuditView {
            stage: self.stage@,
            strategy_id: self.strategy_id@,
            inputs: self.inputs@,
            outputs: self.outputs@,
            run_id: text::option_text(self.run_id),
        }
    }
}

/// The members that are given, or none.
pub open spec fn given(map: Option<JsonMap>) -> Map<Seq<char>, JsonTree> {
    match map {
        Some(m) => m@,
        None => Map::empty(),
    }
}

/// The event that a stage makes.
pub open spec fn event_of(
    stage: Seq<char>,
    strategy_id: Seq<char>,
    inputs: Option<JsonMap>,
    outputs: Option<JsonMap>,
    run_id: Option<Seq<char>>,
) -> AuditView {
    AuditView { stage, strategy_id, inputs: given(inputs), outputs: given(outputs), run_id }
}

/// An event as a value.
pub open spec fn payload_tree(e: AuditView) -> JsonTree {
    JsonTree::Object(
        map![
            "stage"@ => JsonTree::Text(e.stage),
            "strategy_id"@ => JsonTree::Text(e.strategy_id),
            "inputs"@ => JsonTree::Object(e.inputs),
            "outputs"@ => JsonTree::Object(e.outputs),
            "run_id"@ => json::text_or_null(e.run_id),
        ],
    )
}

fn or_none(map: Option<JsonMap>) -> (r: JsonMap)
    ensures
        r@ == given(map),
{
    match map {
        Some(m) => m,
        None => JsonMap::new(),
    }
}

impl AuditEvent {
    /// The event that a stage makes.
    pub fn new(
        stage: &str,
        strategy_id: &str,
        inputs: Option<JsonMap>,
        outputs: Option<JsonMap>,
        run_id: Option<String>,
    ) -> (r: AuditEvent)
        ensures
            r@ == event_of(stage@, strategy_id@, inputs, outputs, text::option_text(run_id)),
    {
        AuditEvent {
            stage: stage.to_owned(),
            strategy_id: strategy_id.to_owned(),
            inputs: or_none(inputs),
            outputs: or_none(outputs),
            run_id,
        }
    }

    /// The event as a value.
    pub fn payload(&self) -> (r: Json)
        ensures
            r@ == payload_tree(self@),
    {
        Json::object(
            JsonMap::new().with("stage", Json::text(self.stage.as_str())).with(
                "strategy_id",
                Json::text(self.strategy_id.as_str()),
            ).with("inputs", Json::object(self.inputs.copy())).with(
                "outputs",
                Json::object(self.outputs.copy()),
            ).with("run_id", Json::optional_text(&self.run_id)),
        )
    }

    /// The same event once more.
    pub fn copy(&self) -> (r: AuditEvent)
        ensures
            r@ == self@,
    {
        AuditEvent {
            stage: self.stage.clone(),
            strategy_id: self.strategy_id.clone(),
            inputs: self.inputs.copy(),
            outputs: self.outputs.copy(),
            run_id: copy_option(&self.run_id),
        }
    }
}

/// What some events say.
pub open spec fn event_views(list: Seq<AuditEvent>) -> Seq<AuditView> {
    list.map_values(|e: AuditEvent| e@)
}

/// A logger that keeps what it is told.
#[derive(Debug)]
pub struct MemoryAuditLogger {
    pub events: Vec<AuditEvent>,
}

impl MemoryAuditLogger {
    /// A logger that was told nothing yet.
    pub fn new() -> (r: MemoryAuditLogger)
        ensures
            r.events@.len() == 0,
    {
        MemoryAuditLogger { events: Vec::new() }
    }

    /// Logs a stage.
    pub fn log(
        &mut self,
        stage: &str,
        strategy_id: &str,
        inputs: Option<JsonMap>,
        outputs: Option<JsonMap>,
    ) -> (r: AuditEvent)
        ensures
            r@ == event_of(stage@, strategy_id@, inputs, outputs, None),
            event_views(final(self).events@) == event_views(old(self).events@).push(r@),
    {
        let event = AuditEvent::new(stage, strategy_id, inputs, outputs, None);
        let ghost before = event_views(self.events@);
        let kept = event.copy();
        self.events.push(kept);
        assert(event_views(self.events@) =~= before.push(event@));
        event
    }
}

impl Default for MemoryAuditLogger {
    fn default() -> (r: MemoryAuditLogger)
        ensures
            r.events@.len() == 0,
    {
        MemoryAuditLogger::new()
    }
}

/// One entry of a journal.
#[verifier::ext_equal]
pub struct EntryView {
    pub event_type: Seq<char>,
    pub payload: JsonTree,
}

/// Where a run is journaled.
pub trait AuditJournal {
    /// What was journaled so far.
    spec fn entries(&self) -> Seq<EntryView>;

    /// Journals an entry after the earlier ones.
    fn append(&mut self, event_type: &str, payload: Json)
        ensures
            final(self).entries() == old(self).entries().push(
                EntryView { event_type: event_type@, payload: payload@ },
            ),
    ;
}

/// A journal that is kept in memory.
#[derive(Debug)]
pub struct MemoryJournal {
    pub events: Vec<(String, Json)>,
}

/// What some kept entries say.
pub open spec fn entry_views(list: Seq<(String, Json)>) -> Seq<EntryView> {
    list.map_values(|e: (String, Json)| EntryView { event_type: e.0@, payload: e.1@ })
}

impl MemoryJournal {
    /// A journal without entries.
    pub fn new() -> (r: MemoryJournal)
        ensures
            r.entries() == Seq::<EntryView>::empty(),
    {
        let r = MemoryJournal { events: Vec::new() };
        assert(r.entries() =~= Seq::<EntryView>::empty());
        r
    }
}

impl AuditJournal for MemoryJournal {
    open spec fn entries(&self) -> Seq<EntryView> {
        entry_views(self.events@)
    }

    fn append(&mut self, event_type: &str, payload: Json) {
        let ghost before = entry_views(self.events@);
        let ghost own = EntryView { event_type: event_type@, payload: payload@ };
        self.events.push((event_type.to_owned(), payload));
        assert(entry_views(self.events@) =~= before.push(own));
    }
}

/// A logger that journals what it is told.
#[derive(Debug)]
pub struct JournalAuditLogger<J> {
    journal: J,
    run_id: Option<String>,
}

/// The identifier of a run.
pub open spec fn run_name(sequence: u64) -> Seq<char> {
    "audit_run_"@ + text::decimal(sequence as nat)
}

/// What is journaled when a run starts.
pub open spec fn started_entry(run_id: Seq<char>, strategy_id: Seq<char>) -> EntryView {
    EntryView {
        event_type: "audit.run.started"@,
        payload: JsonTree::Object(
            map![
                "run_id"@ => JsonTree::Text(run_id),
                "strategy_id"@ => JsonTree::Text(strategy_id),
            ],
        ),
    }
}

/// What is journaled when a run ends.
pub open spec fn ended_entry(run_id: Option<Seq<char>>, status: Seq<char>) -> EntryView {
    EntryView {
        event_type: "audit.run.ended"@,
        payload: JsonTree::Object(
            map![
                "run_id"@ => json::text_or_null(run_id),
                "status"@ => JsonTree::Text(status),
            ],
        ),
    }
}

impl<J: AuditJournal> JournalAuditLogger<J> {
    /// What was journaled so far.
    pub closed spec fn journaled(&self) -> Seq<EntryView> {
        self.journal.entries()
    }

    /// The run that is logged, if one was begun.
    pub closed spec fn current_run(&self) -> Option<Seq<char>> {
        text::option_text(self.run_id)
    }

    /// A logger that journals to the given journal.
    pub fn new(journal: J) -> (r: JournalAuditLogger<J>)
        ensures
            r.journaled() == journal.entries(),
            r.current_run() is None,
    {
        JournalAuditLogger { journal, run_id: None }
    }

    /// Begins a run. `sequence` tells it from every other one.
    pub fn begin_run(&mut self, strategy_id: &str, sequence: u64) -> (r: String)
        ensures
            r@ == run_name(sequence),
            final(self).current_run() == Some(r@),
            final(self).journaled() == old(self).journaled().push(
                started_entry(r@, strategy_id@),
            ),
    {
        let number = decimal_text(sequence);
        let id = join2("audit_run_", number.as_str());
        self.run_id = Some(id.clone());
        self.journal.append(
            "audit.run.started",
            Json::object(
                JsonMap::new().with("run_id", Json::text(id.as_str())).with(
                    "strategy_id",
                    Json::text(strategy_id),
                ),
            ),
        );
        id
    }

    /// Logs a stage of the run.
    pub fn log(
        &mut self,
        stage: &str,
        strategy_id: &str,
        inputs: Option<JsonMap>,
        outputs: Option<JsonMap>,
    ) -> (r: AuditEvent)
        ensures
            r@ == event_of(stage@, strategy_id@, inputs, outputs, old(self).current_run()),
            final(self).current_run() == old(self).current_run(),
            final(self).journaled() == old(self).journaled().push(
                EntryView { event_type: "audit.stage_recorded"@, payload: payload_tree(r@) },
            ),
    {
        let run_id = copy_option(&self.run_id);
        let event = AuditEvent::new(stage, strategy_id, inputs, outputs, run_id);
        self.journal.append("audit.stage_recorded", event.payload());
        event
    }

    /// Ends the run.
    pub fn end_run(&mut self, status: &str)
        ensures
            final(self).current_run() == old(self).current_run(),
            final(self).journaled() == old(self).journaled().push(
                ended_entry(old(self).current_run(), status@),
            ),
    {
        self.journal.append(
            "audit.run.ended",
            Json::object(
                JsonMap::new().with("run_id", Json::optional_text(&self.run_id)).with(
                    "status",
                    Json::text(status),
                ),
            ),
        );
    }

    /// Gives the journal back.
    pub fn into_journal(self) -> (r: J)
        ensures
            r.entries() == self.journaled(),
    {
        self.journal
    }
}

/// The order that a logged intent stands for.
#[derive(Debug, PartialEq, Eq)]
pub struct OrderPlan {
    pub strategy_id: String,
    pub symbol: String,
    pub client_order_id: String,
    pub action: String,
    pub provider_ref: Option<String>,
}

/// What an [`OrderPlan`] says.
#[verifier::ext_equal]
pub struct PlanView {
    pub strategy_id: Seq<char>,
    pub symbol: Seq<char>,
    pub client_order_id: Seq<char>,
    pub action: Seq<char>,
    pub provider_ref: Option<Seq<char>>,
}

impl View for OrderPlan {
    type V = PlanView;

    open spec fn view(&self) -> PlanView {
        PlanView {
            strategy_id: self.strategy_id@,
            symbol: self.symbol@,
            client_order_id: self.client_order_id@,
            action: self.action@,
            provider_ref: text::option_text(self.provider_ref),
        }
    }
}

/// A text of a value; an empty one where there is none.
pub open spec fn text_or_empty(tree: JsonTree, key: Seq<char>) -> Seq<char> {
    match json::text_member(tree, key) {
        Some(t) => t,
        None => Seq::empty(),
    }
}

/// The symbol of the first leg of an intent.
pub open spec fn first_symbol(payload: JsonTree) -> Seq<char> {
    match json::member(payload, "legs"@) {
        Some(JsonTree::Array(legs)) => if legs.len() > 0 {
            text_or_empty(legs[0], "symbol"@)
        } else {
            Seq::empty()
        },
        _ => Seq::empty(),
    }
}

/// The order that an intent stands for.
pub open spec fn plan_of(strategy_id: Seq<char>, payload: JsonTree) -> PlanView {
    PlanView {
        strategy_id,
        symbol: first_symbol(payload),
        client_order_id: text_or_empty(payload, "intent_id"@),
        action: text_or_empty(payload, "action"@),
        provider_ref: json::text_member(payload, "providerRef"@),
    }
}

fn text_field_or_empty(value: &Json, key: &str) -> (r: String)
    ensures
        r@ == text_or_empty(value@, key@),
{
    match value.text_field(key) {
        Some(t) => t,
        None => String::new(),
    }
}

/// Reads the order that an intent stands for.
pub fn compile_order_plan_from_payload(strategy_id: &str, payload: &Json) -> (r: OrderPlan)
    ensures
        r@ == plan_of(strategy_id@, payload@),
{
    let symbol: String = match payload.field("legs") {
        Some(Json::Array(legs)) => {
            proof {
                json::array_view_members(legs@);
            }
            if legs.len() > 0 {
                assert(json::array_view(legs@)[0] == legs@[0]@);
                text_field_or_empty(&legs[0], "symbol")
            } else {
                String::new()
            }
        },
        _ => String::new(),
    };
    OrderPlan {
        strategy_id: strategy_id.to_owned(),
        symbol,
        client_order_id: text_field_or_empty(payload, "intent_id"),
        action: text_field_or_empty(payload, "action"),
        provider_ref: payload.text_field("providerRef"),
    }
}

/// Reads the order that an intent stands for.
pub fn compile_from_payload(strategy_id: &str, payload: &Json) -> (r: OrderPlan)
    ensures
        r@ == plan_of(strategy_id@, payload@),
{
    compile_order_plan_from_payload(strategy_id, payload)
}

} // verus!
