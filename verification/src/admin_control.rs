//! What the local administration answers.

pub mod answers;

use vstd::prelude::*;

use crate::json;
use crate::json::{Json, JsonMap, JsonTree};
use crate::text;
use crate::text::listed;

verus! {

/// What every status says of the project.
pub const LEGAL_BOUNDARY: &'static str =
    "TradeAssembly never tells users what to trade, when to trade, or how much to trade.";

/// What runs on this machine.
#[derive(Debug)]
pub struct LocalRuntime {
    strategies: usize,
}

impl View for LocalRuntime {
    type V = nat;

    closed spec fn view(&self) -> nat {
        self.strategies as nat
    }
}

impl Default for LocalRuntime {
    fn default() -> (r: LocalRuntime)
        ensures
            r@ == 0,
    {
        LocalRuntime { strategies: 0 }
    }
}

impl LocalRuntime {
    /// Sets up the demonstration.
    pub fn seed_btc_exit_demo(&mut self)
        ensures
            final(self)@ == 1,
    {
        self.strategies = 1;
    }
}

/// An answer: an HTTP status and what is said.
pub open spec fn answer(status: int, body: JsonTree) -> JsonTree {
    JsonTree::Object(map!["status"@ => JsonTree::Int(status), "body"@ => body])
}

fn answer_value(status: i64, body: Json) -> (r: Json)
    ensures
        r@ == answer(status as int, body@),
{
    Json::object(JsonMap::new().with("status", Json::Int(status)).with("body", body))
}

/// That a surface is well.
pub open spec fn healthy(surface: Seq<char>) -> JsonTree {
    answer(
        200,
        JsonTree::Object(
            map![
                "status"@ => JsonTree::Text("ok"@),
                "surface"@ => JsonTree::Text(surface),
            ],
        ),
    )
}

fn health_value(surface: &str) -> (r: Json)
    ensures
        r@ == healthy(surface@),
{
    answer_value(
        200,
        Json::object(
            JsonMap::new().with("status", Json::text("ok")).with("surface", Json::text(surface)),
        ),
    )
}

/// How the runtime stands.
pub open spec fn status_tree(strategies: nat) -> JsonTree {
    answer(
        200,
        JsonTree::Object(
            map![
                "surface"@ => JsonTree::Text("local-admin"@),
                "readiness"@ => JsonTree::Object(map!["ok"@ => JsonTree::Bool(true)]),
                "counts"@ => JsonTree::Object(
                    map!["strategies"@ => JsonTree::Int(strategies as int)],
                ),
                "legalBoundary"@ => JsonTree::Text(LEGAL_BOUNDARY@),
            ],
        ),
    )
}

/// Which providers there are.
pub open spec fn providers_tree() -> JsonTree {
    answer(
        200,
        JsonTree::Object(
            map![
                "providers"@ => JsonTree::Array(Seq::empty()),
                "credentialStatus"@ => JsonTree::Object(
                    map![
                        "provider_ref"@ => JsonTree::Text("plugin-instance"@),
                        "custody"@ => JsonTree::Text("local/customer-managed"@),
                    ],
                ),
            ],
        ),
    )
}

/// The administration of the local runtime.
#[derive(Debug)]
pub struct AdminApi {
    runtime: LocalRuntime,
}

impl AdminApi {
    /// How many strategies there are.
    pub closed spec fn strategies(&self) -> nat {
        self.runtime@
    }

    /// The administration of a runtime.
    pub fn new(runtime: LocalRuntime) -> (r: AdminApi)
        ensures
            r.strategies() == runtime@,
    {
        AdminApi { runtime }
    }

    /// Tells that it is well.
    pub fn health(&self) -> (r: Json)
        ensures
            r@ == healthy("local-admin"@),
    {
        health_value("local-admin")
    }

    /// Tells how the runtime stands.
    pub fn status(&self) -> (r: Json)
        ensures
            r@ == status_tree(self.strategies()),
    {
        answer_value(
            200,
            Json::object(
                JsonMap::new().with("surface", Json::text("local-admin")).with(
                    "readiness",
                    Json::object(JsonMap::new().with("ok", Json::Bool(true))),
                ).with(
                    "counts",
                    Json::object(
                        JsonMap::new().with(
                            "strategies",
                            Json::Large(self.runtime.strategies as u64),
                        ),
                    ),
                ).with("legalBoundary", Json::text(LEGAL_BOUNDARY)),
            ),
        )
    }

    /// Tells which providers there are.
    pub fn providers(&self) -> (r: Json)
        ensures
            r@ == providers_tree(),
    {
        let none: Vec<Json> = Vec::new();
        proof {
            json::array_view_members(none@);
            assert(json::array_view(none@) =~= Seq::empty());
        }
        answer_value(
            200,
            Json::object(
                JsonMap::new().with("providers", Json::Array(none)).with(
                    "credentialStatus",
                    Json::object(
                        JsonMap::new().with("provider_ref", Json::text("plugin-instance")).with(
                            "custody",
                            Json::text("local/customer-managed"),
                        ),
                    ),
                ),
            ),
        )
    }
}

/// That an authorization is well.
pub open spec fn oauth_health_tree(allowed: Seq<Seq<char>>) -> JsonTree {
    answer(
        200,
        JsonTree::Object(
            map![
                "status"@ => JsonTree::Text("ok"@),
                "mode"@ => JsonTree::Text("local-self-hosted"@),
                "managed_app_credentials"@ => JsonTree::Bool(false),
                "allowProviders"@ => json::text_array(allowed),
            ],
        ),
    )
}

/// What a request for authorization is answered: only a provider that is allowed is
/// turned to.
pub open spec fn authorize_tree(
    allowed: Seq<Seq<char>>,
    provider: Seq<char>,
    redirect_uri: Seq<char>,
    state: Seq<char>,
    stub: bool,
) -> JsonTree {
    if !allowed.contains(provider) {
        answer(
            400,
            JsonTree::Object(map!["detail"@ => JsonTree::Text("provider not allowed"@)]),
        )
    } else {
        answer(
            200,
            JsonTree::Object(
                map![
                    "provider"@ => JsonTree::Text(provider),
                    "redirect_uri"@ => JsonTree::Text(redirect_uri),
                    "state"@ => JsonTree::Text(state),
                    "stub"@ => JsonTree::Bool(stub),
                    "mode"@ => JsonTree::Text("local-self-hosted"@),
                    "managed_app_credentials"@ => JsonTree::Bool(false),
                ],
            ),
        )
    }
}

/// The local control: the administration, and authorization with providers.
#[derive(Debug)]
pub struct ControlApp {
    admin: AdminApi,
    allow_providers: Vec<String>,
}

impl ControlApp {
    /// The providers that are allowed.
    pub closed spec fn allowed(&self) -> Seq<Seq<char>> {
        text::texts(self.allow_providers@)
    }

    /// How many strategies there are.
    pub closed spec fn strategies(&self) -> nat {
        self.admin.strategies()
    }

    /// The control of a runtime.
    pub fn new(runtime: LocalRuntime, allow_providers: Vec<String>) -> (r: ControlApp)
        ensures
            r.allowed() == text::texts(allow_providers@),
            r.strategies() == runtime@,
    {
        ControlApp { admin: AdminApi::new(runtime), allow_providers }
    }

    /// The administration.
    pub fn admin(&self) -> (r: &AdminApi)
        ensures
            r.strategies() == self.strategies(),
    {
        &self.admin
    }

    /// Tells that it is well.
    pub fn health(&self) -> (r: Json)
        ensures
            r@ == healthy("local-control"@),
    {
        health_value("local-control")
    }

    /// Tells that authorization is well.
    pub fn oauth_health(&self) -> (r: Json)
        ensures
            r@ == oauth_health_tree(self.allowed()),
    {
        answer_value(
            200,
            Json::object(
                JsonMap::new().with("status", Json::text("ok")).with(
                    "mode",
                    Json::text("local-self-hosted"),
                ).with("managed_app_credentials", Json::Bool(false)).with(
                    "allowProviders",
                    Json::texts(&self.allow_providers),
                ),
            ),
        )
    }

    /// Answers a request for authorization.
    pub fn oauth_authorize(&self, provider: &str, redirect_uri: &str, state: &str, stub: bool) -> (r:
        Json)
        ensures
            r@ == authorize_tree(self.allowed(), provider@, redirect_uri@, state@, stub),
    {
        if !listed(&self.allow_providers, provider) {
            return answer_value(
                400,
                Json::object(JsonMap::new().with("detail", Json::text("provider not allowed"))),
            );
        }
        answer_value(
            200,
            Json::object(
                JsonMap::new().with("provider", Json::text(provider)).with(
                    "redirect_uri",
                    Json::text(redirect_uri),
                ).with("state", Json::text(state)).with("stub", Json::Bool(stub)).with(
                    "mode",
                    Json::text("local-self-hosted"),
                ).with("managed_app_credentials", Json::Bool(false)),
            ),
        )
    }
}

} // verus!
