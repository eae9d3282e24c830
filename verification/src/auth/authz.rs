//! What the local owner may do: capabilities by wildcard, plans, packs and the
//! entitlements that follow from them.

pub mod rights;

use vstd::prelude::*;

use crate::json;
use crate::json::{Json, JsonMap, JsonTree};
use crate::text;
use crate::text::{
    chars_of, copy_list, ends_with, same, slice_text, sorted_unique, starts_with, trim,
};
use crate::text_map;

verus! {

/// What the local owner may do.
pub open spec fn local_owner_allow() -> Seq<Seq<char>> {
    seq![
        "strategy.*"@,
        "strategy_version.*"@,
        "strategy_analysis.*"@,
        "strategy_contract.*"@,
        "strategy_execution_config.*"@,
        "strategy_execution_activation.*"@,
        "provider_account.*"@,
        "plugin_instance.*"@,
        "plugin_manifest_local.*"@,
        "credential.*"@,
        "credential_metadata.*"@,
        "providers.credentials.*"@,
        "research.*"@,
        "backtest.*"@,
        "scheduler.*"@,
        "orders.*"@,
        "risk.*"@,
        "positions.*"@,
        "journal.*"@,
        "replay.*"@,
        "share.*"@,
        "alert.*"@,
        "monitoring.read.*"@,
    ]
}

/// What no local owner may do, whatever was granted.
pub open spec fn commercial_deny() -> Seq<Seq<char>> {
    seq![
        "billing.*"@,
        "checkout.*"@,
        "purchase.*"@,
        "payout.*"@,
        "creator_payout.*"@,
        "hosted_oauth.*"@,
        "managed_worker.*"@,
        "enterprise_sso.*"@,
        "enterprise_rbac.*"@,
        "operator_dashboard.*"@,
        "break_glass.*"@,
        "platform.operations.*"@,
    ]
}

/// Whether a pattern holds a star.
pub open spec fn has_star(pattern: Seq<char>) -> bool {
    pattern.contains('*')
}

/// What a pattern asks before its first star.
pub open spec fn prefix_of(pattern: Seq<char>) -> Seq<char> {
    pattern.take(pattern.index_of_first('*')->Some_0)
}

/// What a pattern asks after its first star, taken as it is written.
pub open spec fn suffix_of(pattern: Seq<char>) -> Seq<char> {
    pattern.skip(pattern.index_of_first('*')->Some_0 + 1)
}

/// Whether a value matches a pattern: it is the pattern, or it begins and ends as the
/// pattern does around its first star.
pub open spec fn wildcard(value: Seq<char>, pattern: Seq<char>) -> bool {
    ||| pattern == "*"@
    ||| pattern == value
    ||| has_star(pattern) && text::begins(value, prefix_of(pattern)) && text::ends(
        value,
        suffix_of(pattern),
    ) && value.len() >= prefix_of(pattern).len() + suffix_of(pattern).len()
}

/// Whether the two ends that a pattern with more than one star asks for would have to
/// overlap in a value. Such a pattern cannot be held against that value.
pub open spec fn overlaps(value: Seq<char>, pattern: Seq<char>) -> bool {
    &&& pattern != value
    &&& has_star(pattern)
    &&& has_star(suffix_of(pattern))
    &&& text::begins(value, prefix_of(pattern))
    &&& text::ends(value, suffix_of(pattern))
    &&& value.len() < prefix_of(pattern).len() + suffix_of(pattern).len()
}

/// Whether a value can be held against patterns one after the other, up to the first
/// that it matches.
pub open spec fn can_match(value: Seq<char>, patterns: Seq<Seq<char>>) -> bool {
    forall|i: int|
        0 <= i < patterns.len() && overlaps(value, #[trigger] patterns[i]) ==> matches_one(
            value,
            patterns.take(i),
        )
}

/// Whether a value lies in one of the patterns.
pub open spec fn matches_one(value: Seq<char>, patterns: Seq<Seq<char>>) -> bool {
    exists|i: int| 0 <= i < patterns.len() && wildcard(value, #[trigger] patterns[i])
}

fn first_star(pattern: &Vec<char>) -> (r: Option<usize>)
    ensures
        r is Some <==> has_star(pattern@),
        r matches Some(at) ==> at < pattern@.len() && pattern@.index_of_first('*') == Some(at as int),
{
    let mut i: usize = 0;
    while i < pattern.len()
        invariant
            i <= pattern.len(),
            forall|j: int| 0 <= j < i ==> #[trigger] pattern@[j] != '*',
        decreases pattern.len() - i,
    {
        if pattern[i] == '*' {
            proof {
                pattern@.index_of_first_ensures('*');
            }
            return Some(i);
        }
        i += 1;
    }
    None
}

/// Tests whether a value matches a pattern.
pub fn wildcard_matches(value: &str, pattern: &str) -> (r: bool)
    ensures
        r == wildcard(value@, pattern@),
{
    if same(pattern, "*") || same(pattern, value) {
        return true;
    }
    let chars = chars_of(pattern);
    match first_star(&chars) {
        None => false,
        Some(at) => {
            let prefix = slice_text(&chars, 0, at);
            let suffix = slice_text(&chars, at + 1, chars.len());
            proof {
                assert(prefix@ =~= prefix_of(pattern@));
                assert(suffix@ =~= suffix_of(pattern@));
            }
            if !starts_with(value, prefix.as_str()) || !ends_with(value, suffix.as_str()) {
                return false;
            }
            let n: usize = chars_of(value).len();
            n >= at && n - at >= chars.len() - at - 1
        },
    }
}

/// Tests whether a value can be held against a pattern.
pub fn ends_overlap(value: &str, pattern: &str) -> (r: bool)
    ensures
        r == overlaps(value@, pattern@),
{
    if same(pattern, value) {
        return false;
    }
    let chars = chars_of(pattern);
    match first_star(&chars) {
        None => false,
        Some(at) => {
            let prefix = slice_text(&chars, 0, at);
            let suffix = slice_text(&chars, at + 1, chars.len());
            proof {
                assert(prefix@ =~= prefix_of(pattern@));
                assert(suffix@ =~= suffix_of(pattern@));
            }
            let rest = chars_of(suffix.as_str());
            let n: usize = chars_of(value).len();
            first_star(&rest).is_some() && starts_with(value, prefix.as_str()) && ends_with(
                value,
                suffix.as_str(),
            ) && !(n >= at && n - at >= rest.len())
        },
    }
}

/// Tests whether a value can be held against patterns one after the other.
pub fn patterns_fit(value: &str, patterns: &Vec<String>) -> (r: bool)
    ensures
        r == can_match(value@, text::texts(patterns@)),
{
    let ghost shown = text::texts(patterns@);
    let mut i: usize = 0;
    while i < patterns.len()
        invariant
            i <= patterns.len(),
            shown == text::texts(patterns@),
            forall|j: int| 0 <= j < i ==> !wildcard(value@, #[trigger] shown[j]),
            forall|j: int| 0 <= j < i ==> !overlaps(value@, #[trigger] shown[j]),
        decreases patterns.len() - i,
    {
        let found: bool = wildcard_matches(value, patterns[i].as_str());
        let overlap: bool = ends_overlap(value, patterns[i].as_str());
        assert(shown[i as int] == patterns@[i as int]@);
        if found {
            proof {
                assert forall|k: int|
                    0 <= k < shown.len() && overlaps(value@, #[trigger] shown[k]) implies matches_one(
                    value@,
                    shown.take(k),
                ) by {
                    if k > i {
                        assert(shown.take(k)[i as int] == shown[i as int]);
                    } else if k == i {
                        reveal_strlit("*");
                        assert("*"@.len() == 1);
                        if shown[k] == "*"@ {
                            assert(suffix_of(shown[k]).len() == 0) by {
                                shown[k].index_of_first_ensures('*');
                            }
                        }
                    }
                }
            }
            return true;
        }
        if overlap {
            proof {
                assert(!matches_one(value@, shown.take(i as int))) by {
                    assert forall|j: int| 0 <= j < i implies !wildcard(
                        value@,
                        #[trigger] shown.take(i as int)[j],
                    ) by {
                        assert(shown.take(i as int)[j] == shown[j]);
                    }
                }
            }
            return false;
        }
        i += 1;
    }
    true
}

fn matches_any(value: &str, patterns: &Vec<&'static str>) -> (r: bool)
    ensures
        r == matches_one(value@, patterns@.map_values(|p: &'static str| p@)),
{
    let ghost shown = patterns@.map_values(|p: &'static str| p@);
    let mut i: usize = 0;
    while i < patterns.len()
        invariant
            i <= patterns.len(),
            shown == patterns@.map_values(|p: &'static str| p@),
            forall|j: int| 0 <= j < i ==> !wildcard(value@, #[trigger] shown[j]),
        decreases patterns.len() - i,
    {
        let found: bool = wildcard_matches(value, patterns[i]);
        assert(shown[i as int] == patterns@[i as int]@);
        if found {
            assert(wildcard(value@, shown[i as int]));
            return true;
        }
        i += 1;
    }
    false
}

fn matches_any_owned(value: &str, patterns: &Vec<String>) -> (r: bool)
    ensures
        r == matches_one(value@, text::texts(patterns@)),
{
    let ghost shown = text::texts(patterns@);
    let mut i: usize = 0;
    while i < patterns.len()
        invariant
            i <= patterns.len(),
            shown == text::texts(patterns@),
            forall|j: int| 0 <= j < i ==> !wildcard(value@, #[trigger] shown[j]),
        decreases patterns.len() - i,
    {
        let found: bool = wildcard_matches(value, patterns[i].as_str());
        assert(shown[i as int] == patterns@[i as int]@);
        if found {
            assert(wildcard(value@, shown[i as int]));
            return true;
        }
        i += 1;
    }
    false
}

fn is_denied(value: &str) -> (r: bool)
    ensures
        r == matches_one(value@, commercial_deny()),
{
    let patterns: Vec<&'static str> = vec![
        "billing.*",
        "checkout.*",
        "purchase.*",
        "payout.*",
        "creator_payout.*",
        "hosted_oauth.*",
        "managed_worker.*",
        "enterprise_sso.*",
        "enterprise_rbac.*",
        "operator_dashboard.*",
        "break_glass.*",
        "platform.operations.*",
    ];
    assert(patterns@.map_values(|p: &'static str| p@) =~= commercial_deny());
    matches_any(value, &patterns)
}

fn is_local(value: &str) -> (r: bool)
    ensures
        r == matches_one(value@, local_owner_allow()),
{
    let patterns: Vec<&'static str> = vec![
        "strategy.*",
        "strategy_version.*",
        "strategy_analysis.*",
        "strategy_contract.*",
        "strategy_execution_config.*",
        "strategy_execution_activation.*",
        "provider_account.*",
        "plugin_instance.*",
        "plugin_manifest_local.*",
        "credential.*",
        "credential_metadata.*",
        "providers.credentials.*",
        "research.*",
        "backtest.*",
        "scheduler.*",
        "orders.*",
        "risk.*",
        "positions.*",
        "journal.*",
        "replay.*",
        "share.*",
        "alert.*",
        "monitoring.read.*",
    ];
    assert(patterns@.map_values(|p: &'static str| p@) =~= local_owner_allow());
    matches_any(value, &patterns)
}

/// Who asks for something.
#[derive(Debug)]
pub struct AuthzActor {
    pub principal_id: String,
    pub roles: Vec<String>,
    pub plan_id: String,
    pub account_id: String,
    pub explicit_capabilities: Vec<String>,
}

/// What an [`AuthzActor`] is.
#[verifier::ext_equal]
pub struct ActorView {
    pub principal_id: Seq<char>,
    pub roles: Seq<Seq<char>>,
    pub plan_id: Seq<char>,
    pub account_id: Seq<char>,
    pub explicit_capabilities: Seq<Seq<char>>,
}

impl View for AuthzActor {
    type V = ActorView;

    open spec fn view(&self) -> ActorView {
        ActorView {
            principal_id: self.principal_id@,
            roles: text::texts(self.roles@),
            plan_id: self.plan_id@,
            account_id: self.account_id@,
            explicit_capabilities: text::texts(self.explicit_capabilities@),
        }
    }
}

/// The local owner.
pub open spec fn local_owner() -> ActorView {
    ActorView {
        principal_id: "local-owner"@,
        roles: seq!["local_owner"@],
        plan_id: "local_full"@,
        account_id: "local"@,
        explicit_capabilities: Seq::empty(),
    }
}

/// A list of one text.
fn one_text(text: &str) -> (r: Vec<String>)
    ensures
        text::texts(r@) == seq![text@],
{
    let mut list: Vec<String> = Vec::new();
    list.push(text.to_owned());
    assert(text::texts(list@) =~= seq![text@]);
    list
}

impl Default for AuthzActor {
    fn default() -> (r: AuthzActor)
        ensures
            r@ == local_owner(),
    {
        let none: Vec<String> = Vec::new();
        assert(text::texts(none@) =~= Seq::empty());
        AuthzActor {
            principal_id: "local-owner".to_owned(),
            roles: one_text("local_owner"),
            plan_id: "local_full".to_owned(),
            account_id: "local".to_owned(),
            explicit_capabilities: none,
        }
    }
}

/// What something is asked for of.
#[derive(Debug)]
pub struct AuthzTarget {
    pub resource_type: Option<String>,
    pub resource_id: Option<String>,
    pub account_id: Option<String>,
    pub owner_id: Option<String>,
}

impl Default for AuthzTarget {
    fn default() -> (r: AuthzTarget)
        ensures
            r == (AuthzTarget {
                resource_type: None,
                resource_id: None,
                account_id: None,
                owner_id: None,
            }),
    {
        AuthzTarget { resource_type: None, resource_id: None, account_id: None, owner_id: None }
    }
}

/// A request for a capability.
#[derive(Debug)]
pub struct AuthzRequest {
    pub capability: String,
    pub actor: AuthzActor,
    pub target: Option<AuthzTarget>,
    pub attributes: JsonMap,
}

impl Default for AuthzRequest {
    fn default() -> (r: AuthzRequest)
        ensures
            r.capability@ == Seq::<char>::empty(),
            r.actor@ == local_owner(),
            r.target is None,
            r.attributes@ == Map::<Seq<char>, JsonTree>::empty(),
    {
        AuthzRequest {
            capability: String::new(),
            actor: AuthzActor::default(),
            target: None,
            attributes: JsonMap::new(),
        }
    }
}

/// The answer to a request for a capability.
#[derive(Debug)]
pub struct AuthzDecision {
    pub allowed: bool,
    pub reason: String,
    pub engine: String,
    pub evidence: JsonMap,
}

/// What an [`AuthzDecision`] says.
#[verifier::ext_equal]
pub struct DecisionView {
    pub allowed: bool,
    pub reason: Seq<char>,
    pub engine: Seq<char>,
    pub evidence: Map<Seq<char>, JsonTree>,
}

impl View for AuthzDecision {
    type V = DecisionView;

    open spec fn view(&self) -> DecisionView {
        DecisionView {
            allowed: self.allowed,
            reason: self.reason@,
            engine: self.engine@,
            evidence: self.evidence@,
        }
    }
}

/// What every decision says of the actor.
pub open spec fn actor_evidence(actor: ActorView) -> Map<Seq<char>, JsonTree> {
    map![
        "principal_id"@ => JsonTree::Text(actor.principal_id),
        "roles"@ => json::text_array(actor.roles),
        "plan_id"@ => JsonTree::Text(actor.plan_id),
        "account_id"@ => JsonTree::Text(actor.account_id),
        "policy"@ => JsonTree::Text("local_owner_full_non_commercial"@)
    ]
}

fn evidence(actor: &AuthzActor) -> (r: JsonMap)
    ensures
        r@ == actor_evidence(actor@),
{
    JsonMap::new().with("principal_id", Json::text(actor.principal_id.as_str())).with(
        "roles",
        Json::texts(&actor.roles),
    ).with("plan_id", Json::text(actor.plan_id.as_str())).with(
        "account_id",
        Json::text(actor.account_id.as_str()),
    ).with("policy", Json::text("local_owner_full_non_commercial"))
}

/// The decision on a capability that an actor asks for. What is commercial is denied
/// before anything that was granted is looked at.
pub open spec fn owner_decision(capability: Seq<char>, actor: ActorView) -> DecisionView {
    let asked = text::trimmed(capability);
    if asked.len() == 0 {
        DecisionView {
            allowed: false,
            reason: "capability_required"@,
            engine: "local_owner"@,
            evidence: actor_evidence(actor),
        }
    } else if matches_one(asked, commercial_deny()) {
        DecisionView {
            allowed: false,
            reason: "commercial_capability_denied"@,
            engine: "local_owner"@,
            evidence: actor_evidence(actor).insert("denied_by"@, JsonTree::Text(asked)),
        }
    } else if matches_one(asked, actor.explicit_capabilities) || matches_one(
        asked,
        local_owner_allow(),
    ) {
        DecisionView {
            allowed: true,
            reason: "allowed_local_owner"@,
            engine: "local_owner"@,
            evidence: actor_evidence(actor),
        }
    } else {
        DecisionView {
            allowed: false,
            reason: "capability_not_declared"@,
            engine: "local_owner"@,
            evidence: actor_evidence(actor),
        }
    }
}

fn decision(allowed: bool, reason: &str, evidence: JsonMap) -> (r: AuthzDecision)
    ensures
        r@ == (DecisionView {
            allowed,
            reason: reason@,
            engine: "local_owner"@,
            evidence: evidence@,
        }),
{
    AuthzDecision {
        allowed,
        reason: reason.to_owned(),
        engine: "local_owner".to_owned(),
        evidence,
    }
}

/// Whether a capability that an actor asks for can be decided on: none of the granted
/// patterns that it comes to would have to overlap in it.
pub open spec fn is_decidable(capability: Seq<char>, actor: ActorView) -> bool {
    let asked = text::trimmed(capability);
    ||| asked.len() == 0
    ||| matches_one(asked, commercial_deny())
    ||| can_match(asked, actor.explicit_capabilities)
}

/// Tests whether a capability that an actor asks for can be decided on.
pub fn can_decide(request: &AuthzRequest) -> (r: bool)
    ensures
        r == is_decidable(request.capability@, request.actor@),
{
    let asked = trim(request.capability.as_str());
    chars_of(asked.as_str()).len() == 0 || is_denied(asked.as_str()) || patterns_fit(
        asked.as_str(),
        &request.actor.explicit_capabilities,
    )
}

/// Decides on a capability that an actor asks for.
pub fn authorize_local_owner(request: &AuthzRequest) -> (r: AuthzDecision)
    requires
        is_decidable(request.capability@, request.actor@),
    ensures
        r@ == owner_decision(request.capability@, request.actor@),
{
    let asked = trim(request.capability.as_str());
    let own = evidence(&request.actor);
    if chars_of(asked.as_str()).len() == 0 {
        return decision(false, "capability_required", own);
    }
    if is_denied(asked.as_str()) {
        let own = own.with("denied_by", Json::text(asked.as_str()));
        return decision(false, "commercial_capability_denied", own);
    }
    if matches_any_owned(asked.as_str(), &request.actor.explicit_capabilities) || is_local(
        asked.as_str(),
    ) {
        return decision(true, "allowed_local_owner", own);
    }
    decision(false, "capability_not_declared", own)
}

/// A commercial capability is denied, whatever an actor was granted.
pub proof fn commercial_capability_is_denied(capability: Seq<char>, actor: ActorView)
    requires
        matches_one(text::trimmed(capability), commercial_deny()),
    ensures
        !owner_decision(capability, actor).allowed,
{
}

/// To grant an actor more never takes away what it may do.
pub proof fn grants_are_monotone(capability: Seq<char>, actor: ActorView, more: Seq<Seq<char>>)
    requires
        owner_decision(capability, actor).allowed,
    ensures
        owner_decision(
            capability,
            (ActorView { explicit_capabilities: actor.explicit_capabilities + more, ..actor }),
        ).allowed,
{
    let asked = text::trimmed(capability);
    let all = actor.explicit_capabilities + more;
    if matches_one(asked, actor.explicit_capabilities) {
        let i = choose|i: int|
            0 <= i < actor.explicit_capabilities.len() && wildcard(
                asked,
                #[trigger] actor.explicit_capabilities[i],
            );
        assert(all[i] == actor.explicit_capabilities[i]);
    }
}

/// Whether the local owner may do something.
pub open spec fn owner_may(capability: Seq<char>) -> bool {
    owner_decision(capability, local_owner()).allowed
}

/// Which of some capabilities the local owner has.
pub open spec fn status_of(capabilities: Seq<Seq<char>>) -> Map<Seq<char>, JsonTree> {
    Map::new(
        |key: Seq<char>| capabilities.contains(key),
        |key: Seq<char>| JsonTree::Bool(owner_may(key)),
    )
}

fn may(capability: &str) -> (r: bool)
    ensures
        r == owner_may(capability@),
{
    let mut request = AuthzRequest::default();
    request.capability = capability.to_owned();
    authorize_local_owner(&request).allowed
}

proof fn status_grows(list: Seq<Seq<char>>, i: int)
    requires
        0 <= i < list.len(),
    ensures
        status_of(list.take(i + 1)) == status_of(list.take(i)).insert(
            list[i],
            JsonTree::Bool(owner_may(list[i])),
        ),
{
    let more = list.take(i + 1);
    let less = list.take(i);
    assert forall|key: Seq<char>| #[trigger] more.contains(key) == (less.contains(key) || key
        == list[i]) by {
        if more.contains(key) {
            let k = more.index_of(key);
            if k < i {
                assert(less[k] == key);
            }
        }
        if less.contains(key) {
            let k = less.index_of(key);
            assert(more[k] == key);
        }
        assert(more[i] == list[i]);
    }
    assert(status_of(more) =~= status_of(less).insert(list[i], JsonTree::Bool(owner_may(list[i]))));
}

/// Puts on an object which of some capabilities the local owner has.
fn with_status(start: JsonMap, capabilities: &Vec<String>) -> (r: JsonMap)
    ensures
        r@ == start@.union_prefer_right(status_of(text::texts(capabilities@))),
{
    let ghost base = start@;
    let ghost list = text::texts(capabilities@);
    let mut out = start;
    let mut i: usize = 0;
    proof {
        assert(list.take(0) =~= Seq::empty());
        assert(status_of(list.take(0)) =~= Map::empty());
        assert(base.union_prefer_right(status_of(list.take(0))) =~= base);
    }
    while i < capabilities.len()
        invariant
            i <= capabilities.len(),
            list == text::texts(capabilities@),
            out@ == base.union_prefer_right(status_of(list.take(i as int))),
        decreases capabilities.len() - i,
    {
        let allowed: bool = may(capabilities[i].as_str());
        proof {
            assert(list[i as int] == capabilities@[i as int]@);
            status_grows(list, i as int);
            let less = status_of(list.take(i as int));
            let value = JsonTree::Bool(owner_may(list[i as int]));
            assert(base.union_prefer_right(less).insert(list[i as int], value)
                =~= base.union_prefer_right(less.insert(list[i as int], value)));
        }
        out.insert(capabilities[i].as_str(), Json::Bool(allowed));
        i += 1;
    }
    assert(list.take(list.len() as int) =~= list);
    out
}

/// Which of some capabilities the local owner has.
pub fn capability_status(capabilities: &Vec<String>) -> (r: JsonMap)
    ensures
        r@ == status_of(text::texts(capabilities@)),
{
    let r = with_status(JsonMap::new(), capabilities);
    assert(Map::<Seq<char>, JsonTree>::empty().union_prefer_right(
        status_of(text::texts(capabilities@)),
    ) =~= status_of(text::texts(capabilities@)));
    r
}

/// The capabilities that are reported where none are asked for.
pub open spec fn reported_capabilities() -> Seq<Seq<char>> {
    seq![
        "strategy.create"@,
        "strategy.update"@,
        "strategy_version.publish"@,
        "strategy_execution_config.create"@,
        "strategy_execution_activation.activate.paper"@,
        "strategy_execution_activation.activate.live"@,
        "strategy_execution_activation.deactivate"@,
        "research.backtest.run"@,
        "providers.credentials.local_store"@,
        "credential.create"@,
        "scheduler.start"@,
        "orders.reconcile"@,
        "risk.status"@,
        "journal.replay"@,
        "share.export"@,
    ]
}

/// Owned copies of texts.
fn owned(list: &Vec<&'static str>) -> (r: Vec<String>)
    ensures
        text::texts(r@) == list@.map_values(|t: &'static str| t@),
{
    let ghost shown = list@.map_values(|t: &'static str| t@);
    let mut out: Vec<String> = Vec::new();
    let mut i: usize = 0;
    while i < list.len()
        invariant
            i <= list.len(),
            shown == list@.map_values(|t: &'static str| t@),
            text::texts(out@) == shown.take(i as int),
        decreases list.len() - i,
    {
        let ghost before = text::texts(out@);
        out.push(list[i].to_owned());
        proof {
            assert(text::texts(out@) =~= before.push(shown[i as int]));
            assert(shown.take(i + 1) =~= shown.take(i as int).push(shown[i as int]));
        }
        i += 1;
    }
    assert(shown.take(shown.len() as int) =~= shown);
    out
}

fn default_capabilities() -> (r: Vec<String>)
    ensures
        text::texts(r@) == reported_capabilities(),
{
    let list: Vec<&'static str> = vec![
        "strategy.create",
        "strategy.update",
        "strategy_version.publish",
        "strategy_execution_config.create",
        "strategy_execution_activation.activate.paper",
        "strategy_execution_activation.activate.live",
        "strategy_execution_activation.deactivate",
        "research.backtest.run",
        "providers.credentials.local_store",
        "credential.create",
        "scheduler.start",
        "orders.reconcile",
        "risk.status",
        "journal.replay",
        "share.export",
    ];
    assert(list@.map_values(|t: &'static str| t@) =~= reported_capabilities());
    owned(&list)
}

/// What the workspace of the local owner reports.
pub open spec fn workspace_tree(capabilities: Seq<Seq<char>>) -> JsonTree {
    let asked = if capabilities.len() == 0 {
        reported_capabilities()
    } else {
        capabilities
    };
    JsonTree::Object(
        map![
            "account"@ => JsonTree::Text("local-owner"@),
            "role"@ => JsonTree::Text("local_owner"@),
            "plan"@ => JsonTree::Text("local_full"@),
            "commercialCapabilitiesDenied"@ => JsonTree::Bool(true)
        ].union_prefer_right(status_of(asked)).insert(
            "capabilities"@,
            JsonTree::Object(status_of(asked)),
        ),
    )
}

/// What the workspace of the local owner reports of some capabilities.
pub fn local_owner_workspace_entitlements(capabilities: &Vec<String>) -> (r: Json)
    ensures
        r@ == workspace_tree(text::texts(capabilities@)),
{
    let selected: Vec<String> = if capabilities.len() == 0 {
        default_capabilities()
    } else {
        copy_list(capabilities)
    };
    let base = JsonMap::new().with("account", Json::text("local-owner")).with(
        "role",
        Json::text("local_owner"),
    ).with("plan", Json::text("local_full")).with(
        "commercialCapabilitiesDenied",
        Json::Bool(true),
    );
    let status = capability_status(&selected);
    Json::object(with_status(base, &selected).with("capabilities", Json::object(status)))
}

/// What a plan or a pack allows for.
#[derive(Debug)]
pub struct PlanLimits {
    pub max_active_activations: u32,
    pub evaluation_frequency_tier: String,
    pub journal_retention_days: u32,
}

/// What [`PlanLimits`] say.
#[verifier::ext_equal]
pub struct LimitsView {
    pub max_active_activations: u32,
    pub evaluation_frequency_tier: Seq<char>,
    pub journal_retention_days: u32,
}

impl View for PlanLimits {
    type V = LimitsView;

    open spec fn view(&self) -> LimitsView {
        LimitsView {
            max_active_activations: self.max_active_activations,
            evaluation_frequency_tier: self.evaluation_frequency_tier@,
            journal_retention_days: self.journal_retention_days,
        }
    }
}

impl Default for PlanLimits {
    fn default() -> (r: PlanLimits)
        ensures
            r@ == (LimitsView {
                max_active_activations: 1000,
                evaluation_frequency_tier: "high"@,
                journal_retention_days: 3650,
            }),
    {
        PlanLimits {
            max_active_activations: 1000,
            evaluation_frequency_tier: "high".to_owned(),
            journal_retention_days: 3650,
        }
    }
}

impl PlanLimits {
    /// A copy of the limits.
    pub fn copy(&self) -> (r: PlanLimits)
        ensures
            r@ == self@,
    {
        PlanLimits {
            max_active_activations: self.max_active_activations,
            evaluation_frequency_tier: self.evaluation_frequency_tier.clone(),
            journal_retention_days: self.journal_retention_days,
        }
    }

    /// The limits as a value.
    pub fn value(&self) -> (r: Json)
        ensures
            r@ == limits_tree(self@),
    {
        Json::object(
            JsonMap::new().with(
                "max_active_activations",
                Json::Int(self.max_active_activations as i64),
            ).with(
                "evaluation_frequency_tier",
                Json::text(self.evaluation_frequency_tier.as_str()),
            ).with("journal_retention_days", Json::Int(self.journal_retention_days as i64)),
        )
    }
}

/// Limits as a value.
pub open spec fn limits_tree(limits: LimitsView) -> JsonTree {
    JsonTree::Object(
        map![
            "max_active_activations"@ => JsonTree::Int(limits.max_active_activations as int),
            "evaluation_frequency_tier"@ => JsonTree::Text(limits.evaluation_frequency_tier),
            "journal_retention_days"@ => JsonTree::Int(limits.journal_retention_days as int)
        ],
    )
}

/// The plan of an account.
#[derive(Debug)]
pub struct AccountPlan {
    pub id: String,
    pub limits: PlanLimits,
    pub grants: Vec<String>,
}

impl Default for AccountPlan {
    fn default() -> (r: AccountPlan)
        ensures
            r.id@ == "local_full"@,
            r.limits@ == (LimitsView {
                max_active_activations: 1000,
                evaluation_frequency_tier: "high"@,
                journal_retention_days: 3650,
            }),
            text::texts(r.grants@) == seq!["local_owner"@],
    {
        AccountPlan {
            id: "local_full".to_owned(),
            limits: PlanLimits::default(),
            grants: one_text("local_owner"),
        }
    }
}

/// A pack that adds to a plan.
#[derive(Debug)]
pub struct ActivationPack {
    pub id: String,
    pub limits: PlanLimits,
    pub grants: Vec<String>,
}

/// The rank of a tier of frequency.
pub open spec fn tier_rank(tier: Seq<char>) -> int {
    if tier == "medium"@ {
        1
    } else if tier == "high"@ {
        2
    } else {
        0
    }
}

fn frequency_tier_rank(value: &str) -> (r: u8)
    ensures
        r == tier_rank(value@),
{
    proof {
        reveal_strlit("medium");
        reveal_strlit("high");
        assert("medium"@.len() == 6);
        assert("high"@.len() == 4);
    }
    if same(value, "medium") {
        1
    } else if same(value, "high") {
        2
    } else {
        0
    }
}

/// Two limits taken together: the larger of each.
pub open spec fn merged(a: LimitsView, b: LimitsView) -> LimitsView {
    LimitsView {
        max_active_activations: if a.max_active_activations < b.max_active_activations {
            b.max_active_activations
        } else {
            a.max_active_activations
        },
        evaluation_frequency_tier: if tier_rank(a.evaluation_frequency_tier) < tier_rank(
            b.evaluation_frequency_tier,
        ) {
            b.evaluation_frequency_tier
        } else {
            a.evaluation_frequency_tier
        },
        journal_retention_days: if a.journal_retention_days < b.journal_retention_days {
            b.journal_retention_days
        } else {
            a.journal_retention_days
        },
    }
}

/// The limits of a plan with its packs.
pub open spec fn limits_of(plan: LimitsView, packs: Seq<ActivationPack>) -> LimitsView
    decreases packs.len(),
{
    if packs.len() == 0 {
        plan
    } else {
        merged(limits_of(plan, packs.drop_last()), packs.last().limits@)
    }
}

/// Computes the limits of a plan with its packs.
pub fn compute_limits(plan: &AccountPlan, packs: &Vec<ActivationPack>) -> (r: PlanLimits)
    ensures
        r@ == limits_of(plan.limits@, packs@),
{
    let mut limits = plan.limits.copy();
    let mut i: usize = 0;
    assert(packs@.take(0) =~= Seq::empty());
    while i < packs.len()
        invariant
            i <= packs.len(),
            limits@ == limits_of(plan.limits@, packs@.take(i as int)),
        decreases packs.len() - i,
    {
        proof {
            assert(packs@.take(i + 1).drop_last() =~= packs@.take(i as int));
            assert(packs@.take(i + 1).last() == packs@[i as int]);
        }
        let pack: &PlanLimits = &packs[i].limits;
        if limits.max_active_activations < pack.max_active_activations {
            limits.max_active_activations = pack.max_active_activations;
        }
        if frequency_tier_rank(limits.evaluation_frequency_tier.as_str()) < frequency_tier_rank(
            pack.evaluation_frequency_tier.as_str(),
        ) {
            limits.evaluation_frequency_tier = pack.evaluation_frequency_tier.clone();
        }
        if limits.journal_retention_days < pack.journal_retention_days {
            limits.journal_retention_days = pack.journal_retention_days;
        }
        i += 1;
    }
    assert(packs@.take(packs@.len() as int) =~= packs@);
    limits
}

/// Whether limits are at least those of another.
pub open spec fn at_least(a: LimitsView, b: LimitsView) -> bool {
    &&& a.max_active_activations >= b.max_active_activations
    &&& tier_rank(a.evaluation_frequency_tier) >= tier_rank(b.evaluation_frequency_tier)
    &&& a.journal_retention_days >= b.journal_retention_days
}

/// A plan with packs allows at least what the plan allows, and what each pack allows.
pub proof fn packs_never_lower_limits(plan: LimitsView, packs: Seq<ActivationPack>, i: int)
    requires
        0 <= i < packs.len(),
    ensures
        at_least(limits_of(plan, packs), plan),
        at_least(limits_of(plan, packs), packs[i].limits@),
    decreases packs.len(),
{
    let shorter = packs.drop_last();
    if i < shorter.len() {
        assert(shorter[i] == packs[i]);
        packs_never_lower_limits(plan, shorter, i);
    } else if shorter.len() > 0 {
        packs_never_lower_limits(plan, shorter, 0);
    } else {
        assert(limits_of(plan, shorter) == plan);
    }
}

/// The texts that a plan and its packs grant.
pub open spec fn granted(plan: Seq<Seq<char>>, packs: Seq<ActivationPack>) -> Set<Seq<char>>
    decreases packs.len(),
{
    if packs.len() == 0 {
        plan.to_set()
    } else {
        granted(plan, packs.drop_last()).union(text::texts(packs.last().grants@).to_set())
    }
}

/// What a plan and its packs grant, each once and in ascending order.
pub fn compute_grants(plan: &AccountPlan, packs: &Vec<ActivationPack>) -> (r: Vec<String>)
    ensures
        text::texts(r@) == text_map::in_order(granted(text::texts(plan.grants@), packs@)),
        text::ascending(text::texts(r@)),
        forall|x: Seq<char>|
            text::texts(r@).contains(x) <==> granted(text::texts(plan.grants@), packs@).contains(x),
{
    let mut all = copy_list(&plan.grants);
    let mut i: usize = 0;
    proof {
        assert(packs@.take(0) =~= Seq::empty());
        vstd::seq_lib::seq_to_set_is_finite(text::texts(plan.grants@));
    }
    while i < packs.len()
        invariant
            i <= packs.len(),
            text::texts(all@).to_set() == granted(text::texts(plan.grants@), packs@.take(i as int)),
        decreases packs.len() - i,
    {
        let mut more = copy_list(&packs[i].grants);
        let ghost before = text::texts(all@);
        let ghost added = text::texts(more@);
        all.append(&mut more);
        proof {
            assert(text::texts(all@) =~= before + added);
            assert((before + added).to_set() =~= before.to_set().union(added.to_set())) by {
                assert forall|x: Seq<char>| (before + added).contains(x) == (before.contains(x)
                    || added.contains(x)) by {
                    if before.contains(x) {
                        assert((before + added)[before.index_of(x)] == x);
                    }
                    if added.contains(x) {
                        assert((before + added)[before.len() + added.index_of(x)] == x);
                    }
                    if (before + added).contains(x) {
                        let k = (before + added).index_of(x);
                        if k < before.len() {
                            assert(before[k] == x);
                        } else {
                            assert(added[k - before.len()] == x);
                        }
                    }
                }
            }
            assert(packs@.take(i + 1).drop_last() =~= packs@.take(i as int));
            assert(packs@.take(i + 1).last() == packs@[i as int]);
        }
        i += 1;
    }
    assert(packs@.take(packs@.len() as int) =~= packs@);
    let r = sorted_unique(&all);
    proof {
        let keys = granted(text::texts(plan.grants@), packs@);
        vstd::seq_lib::seq_to_set_is_finite(text::texts(all@));
        text_map::in_order_lists_members(keys);
        assert forall|x: Seq<char>| text::texts(r@).contains(x) <==> keys.contains(x) by {
            assert(text::texts(all@).contains(x) <==> text::texts(all@).to_set().contains(x));
        }
        text::ascending_is_determined(text::texts(r@), text_map::in_order(keys));
    }
    r
}

/// What an account is entitled to.
pub open spec fn entitlements_tree(
    id: Seq<char>,
    limits: LimitsView,
    grants: Seq<Seq<char>>,
    packs: Seq<ActivationPack>,
) -> JsonTree {
    JsonTree::Object(
        map![
            "plan"@ => JsonTree::Text(id),
            "limits"@ => limits_tree(limits_of(limits, packs)),
            "grants"@ => json::text_array(text_map::in_order(granted(grants, packs))),
            "workspace"@ => workspace_tree(Seq::empty())
        ],
    )
}

/// What an account is entitled to; it has the local plan where it has no other.
pub fn effective_entitlements(plan: Option<AccountPlan>, packs: &Vec<ActivationPack>) -> (r: Json)
    ensures
        r@ == (match plan {
            Some(p) => entitlements_tree(p.id@, p.limits@, text::texts(p.grants@), packs@),
            None => entitlements_tree(
                "local_full"@,
                LimitsView {
                    max_active_activations: 1000,
                    evaluation_frequency_tier: "high"@,
                    journal_retention_days: 3650,
                },
                seq!["local_owner"@],
                packs@,
            ),
        }),
{
    let resolved: AccountPlan = match plan {
        Some(p) => p,
        None => AccountPlan::default(),
    };
    let limits = compute_limits(&resolved, packs);
    let grants = compute_grants(&resolved, packs);
    let none: Vec<String> = Vec::new();
    assert(text::texts(none@) =~= Seq::empty());
    let workspace = local_owner_workspace_entitlements(&none);
    Json::object(
        JsonMap::new().with("plan", Json::text(resolved.id.as_str())).with(
            "limits",
            limits.value(),
        ).with("grants", Json::texts(&grants)).with("workspace", workspace),
    )
}

} // verus!
