//! Drafts of strategies: from a gateway to a language model, or from a template. What is
//! asked of the gateway and what is made of its answer is decided here; the caller sends.

pub mod drafting;

use vstd::prelude::*;

use crate::json;
use crate::json::{json_text, parse_json, parse_json_bytes, Json, JsonMap, JsonTree};
use crate::text;
use crate::text::{
    blank, chars_of, ends_with, join, join2, same, slice_text, starts_with, to_lower, trim,
    trim_slashes,
};
use crate::text_map::TextMap;

verus! {

/// How the gateway is reached.
#[derive(Debug, PartialEq, Eq)]
pub struct AiGatewayConfig {
    pub provider: String,
    pub base_url: String,
    pub api_key: String,
    pub model: String,
    pub timeout_seconds: u32,
}

/// What an [`AiGatewayConfig`] says.
#[verifier::ext_equal]
pub struct ConfigView {
    pub provider: Seq<char>,
    pub base_url: Seq<char>,
    pub api_key: Seq<char>,
    pub model: Seq<char>,
    pub timeout_seconds: int,
}

impl View for AiGatewayConfig {
    type V = ConfigView;

    open spec fn view(&self) -> ConfigView {
        ConfigView {
            provider: self.provider@,
            base_url: self.base_url@,
            api_key: self.api_key@,
            model: self.model@,
            timeout_seconds: self.timeout_seconds as int,
        }
    }
}

/// What the environment says, without space around it and without slashes at its end;
/// something else where it says nothing.
pub open spec fn setting(env: Map<Seq<char>, String>, key: Seq<char>, other: Seq<char>) -> Seq<char> {
    if env.dom().contains(key) {
        let said = text::without_slashes(text::trimmed(env[key]@));
        if said.len() > 0 {
            said
        } else {
            other
        }
    } else {
        other
    }
}

fn is_nothing(value: &str) -> (r: bool)
    ensures
        r == (value@.len() == 0),
{
    proof {
        reveal_strlit("");
        if value@.len() == 0 {
            assert(value@ =~= ""@);
        }
    }
    same(value, "")
}

fn env_text(env: &TextMap<String>, key: &str, other: &str) -> (r: String)
    ensures
        r@ == setting(env@, key@, other@),
{
    match env.get(key) {
        Some(value) => {
            let trimmed = trim(value.as_str());
            let said = trim_slashes(trimmed.as_str());
            if is_nothing(said.as_str()) {
                other.to_owned()
            } else {
                said
            }
        },
        None => other.to_owned(),
    }
}

/// The key that the environment says.
pub open spec fn key_setting(env: Map<Seq<char>, String>) -> Seq<char> {
    let own = setting(env, "TRADEASSEMBLY_AI_API_KEY"@, ""@);
    if own.len() == 0 {
        setting(env, "OPENAI_API_KEY"@, ""@)
    } else {
        own
    }
}

/// Where the gateway is, with the version of its interface.
pub open spec fn versioned(provider: Seq<char>, url: Seq<char>) -> Seq<char> {
    if url.len() > 0 && !text::ends(url, "/v1"@) {
        url + "/v1"@
    } else if provider == "openai"@ && url.len() == 0 {
        "https://api.openai.com/v1"@
    } else {
        url
    }
}

/// How the gateway is reached in an environment.
pub open spec fn config_of(env: Map<Seq<char>, String>) -> ConfigView {
    let provider = text::lowered(setting(env, "TRADEASSEMBLY_AI_PROVIDER"@, "stub"@));
    let model = setting(env, "TRADEASSEMBLY_AI_MODEL"@, "tradeassembly-local-draft"@);
    if provider == "stub"@ {
        ConfigView {
            provider,
            base_url: Seq::empty(),
            api_key: Seq::empty(),
            model,
            timeout_seconds: 30,
        }
    } else {
        let key = key_setting(env);
        ConfigView {
            provider,
            base_url: versioned(
                provider,
                setting(env, "TRADEASSEMBLY_AI_BASE_URL"@, "http://127.0.0.1:4000/v1"@),
            ),
            api_key: if key.len() == 0 {
                "local-dev"@
            } else {
                key
            },
            model,
            timeout_seconds: 30,
        }
    }
}

/// Reads from an environment how the gateway is reached.
pub fn load_ai_gateway_config_from(env: &TextMap<String>) -> (r: AiGatewayConfig)
    ensures
        r@ == config_of(env@),
{
    let named = env_text(env, "TRADEASSEMBLY_AI_PROVIDER", "stub");
    let provider = to_lower(named.as_str());
    let url = env_text(env, "TRADEASSEMBLY_AI_BASE_URL", "http://127.0.0.1:4000/v1");
    let own_key = env_text(env, "TRADEASSEMBLY_AI_API_KEY", "");
    let key: String = if is_nothing(own_key.as_str()) {
        env_text(env, "OPENAI_API_KEY", "")
    } else {
        own_key
    };
    let model = env_text(env, "TRADEASSEMBLY_AI_MODEL", "tradeassembly-local-draft");
    if same(provider.as_str(), "stub") {
        return AiGatewayConfig {
            provider,
            base_url: String::new(),
            api_key: String::new(),
            model,
            timeout_seconds: 30,
        };
    }
    let base_url: String = if !is_nothing(url.as_str()) && !ends_with(url.as_str(), "/v1") {
        join2(url.as_str(), "/v1")
    } else if same(provider.as_str(), "openai") && is_nothing(url.as_str()) {
        "https://api.openai.com/v1".to_owned()
    } else {
        url
    };
    let api_key: String = if is_nothing(key.as_str()) {
        "local-dev".to_owned()
    } else {
        key
    };
    AiGatewayConfig { provider, base_url, api_key, model, timeout_seconds: 30 }
}

/// Whether a market is one of shares.
pub open spec fn is_equity_market(market: Seq<char>) -> bool {
    let named = text::lowered(text::trimmed(market));
    named == "stock"@ || named == "stocks"@ || named == "equity"@ || named == "equities"@
}

/// The limits that a draft starts with.
pub open spec fn risk_tree(equity: bool) -> JsonTree {
    JsonTree::Object(
        if equity {
            map![
                "max_notional"@ => JsonTree::Int(1000),
                "max_order_quantity"@ => JsonTree::Int(1),
                "max_daily_loss"@ => JsonTree::Int(250),
                "max_concurrent_positions"@ => JsonTree::Int(1),
            ]
        } else {
            map![
                "max_notional"@ => JsonTree::Int(25),
                "max_order_quantity"@ => JsonTree::Real("0.0003"@),
                "max_daily_loss"@ => JsonTree::Int(25),
                "max_concurrent_positions"@ => JsonTree::Int(1),
            ]
        },
    )
}

fn risk_payload(equity: bool) -> (r: Json)
    ensures
        r@ == risk_tree(equity),
{
    if equity {
        Json::object(
            JsonMap::new().with("max_notional", Json::Int(1000)).with(
                "max_order_quantity",
                Json::Int(1),
            ).with("max_daily_loss", Json::Int(250)).with("max_concurrent_positions", Json::Int(1)),
        )
    } else {
        Json::object(
            JsonMap::new().with("max_notional", Json::Int(25)).with(
                "max_order_quantity",
                Json::Real("0.0003".to_owned()),
            ).with("max_daily_loss", Json::Int(25)).with("max_concurrent_positions", Json::Int(1)),
        )
    }
}

/// How a draft is called.
pub open spec fn draft_suffix(brief: Seq<char>) -> Seq<char> {
    let said = text::trimmed(brief);
    if said.len() == 0 {
        "User-defined strategy"@
    } else if said.len() > 48 {
        said.take(48)
    } else {
        said
    }
}

fn name_suffix(brief: &str) -> (r: String)
    ensures
        r@ == draft_suffix(brief@),
{
    let said = trim(brief);
    if is_nothing(said.as_str()) {
        return "User-defined strategy".to_owned();
    }
    let chars = chars_of(said.as_str());
    if chars.len() > 48 {
        let head = slice_text(&chars, 0, 48);
        assert(head@ =~= said@.take(48));
        head
    } else {
        said
    }
}

/// What is said of every draft.
pub open spec fn draft_notes() -> JsonTree {
    JsonTree::Array(
        seq![
            JsonTree::Text(
                "Drafted as local starter logic. User owns all market selection and risk scale."@,
            ),
        ],
    )
}

fn notes_value() -> (r: Json)
    ensures
        r@ == draft_notes(),
{
    let notes: Vec<Json> = vec![
        Json::text(
            "Drafted as local starter logic. User owns all market selection and risk scale.",
        ),
    ];
    proof {
        json::array_view_members(notes@);
        assert(json::array_view(notes@) =~= draft_notes()->Array_0);
    }
    Json::Array(notes)
}

/// The draft that a template makes.
pub open spec fn draft_map(brief: Seq<char>, market: Seq<char>, horizon: Seq<char>) -> Map<
    Seq<char>,
    JsonTree,
> {
    let equity = is_equity_market(market);
    map![
        "name"@ => JsonTree::Text("Local draft: "@ + draft_suffix(brief)),
        "symbol"@ => JsonTree::Text(
            if equity {
                "SPY"@
            } else {
                "BTC/USD"@
            },
        ),
        "asset_class"@ => JsonTree::Text(
            if equity {
                "equity"@
            } else {
                "crypto"@
            },
        ),
        "provider_ref"@ => JsonTree::Text(
            if equity {
                "sim"@
            } else {
                "local-data"@
            },
        ),
        "timeframe"@ => JsonTree::Text(
            if equity || horizon == "swing"@ || horizon == "daily"@ {
                "1d"@
            } else {
                "1m"@
            },
        ),
        "entry_rule"@ => JsonTree::Text(
            if equity {
                "current(metric(\"price\")) > previous(metric(\"price\"))"@
            } else {
                "user_defined_btc_momentum_entry"@
            },
        ),
        "exit_rule"@ => JsonTree::Text(
            if equity {
                "current(metric(\"price\")) < previous(metric(\"price\"))"@
            } else {
                "user_defined_exit_after_entry_receipt"@
            },
        ),
        "risk"@ => risk_tree(equity),
        "notes"@ => draft_notes(),
    ]
}

fn draft_entries(brief: &str, market: &str, horizon: &str) -> (r: JsonMap)
    ensures
        r@ == draft_map(brief@, market@, horizon@),
{
    let trimmed = trim(market);
    let named = to_lower(trimmed.as_str());
    let equity: bool = same(named.as_str(), "stock") || same(named.as_str(), "stocks") || same(
        named.as_str(),
        "equity",
    ) || same(named.as_str(), "equities");
    let suffix = name_suffix(brief);
    let name = join2("Local draft: ", suffix.as_str());
    let symbol: &str = if equity {
        "SPY"
    } else {
        "BTC/USD"
    };
    let class: &str = if equity {
        "equity"
    } else {
        "crypto"
    };
    let provider_ref: &str = if equity {
        "sim"
    } else {
        "local-data"
    };
    let timeframe: &str = if equity || same(horizon, "swing") || same(horizon, "daily") {
        "1d"
    } else {
        "1m"
    };
    let entry: &str = if equity {
        "current(metric(\"price\")) > previous(metric(\"price\"))"
    } else {
        "user_defined_btc_momentum_entry"
    };
    let exit: &str = if equity {
        "current(metric(\"price\")) < previous(metric(\"price\"))"
    } else {
        "user_defined_exit_after_entry_receipt"
    };
    JsonMap::new().with("name", Json::text(name.as_str())).with("symbol", Json::text(symbol)).with(
        "asset_class",
        Json::text(class),
    ).with("provider_ref", Json::text(provider_ref)).with(
        "timeframe",
        Json::text(timeframe),
    ).with("entry_rule", Json::text(entry)).with("exit_rule", Json::text(exit)).with(
        "risk",
        risk_payload(equity),
    ).with("notes", notes_value())
}

/// Makes a draft from a template.
pub fn deterministic_strategy_draft(brief: &str, market: &str, horizon: &str) -> (r: Json)
    ensures
        r@ == JsonTree::Object(draft_map(brief@, market@, horizon@)),
{
    Json::object(draft_entries(brief, market, horizon))
}

/// A text without backquotes at its ends.
pub open spec fn without_ticks(s: Seq<char>) -> Seq<char>
    decreases s.len(),
{
    if s.len() > 0 && s[0] == '`' {
        without_ticks(s.skip(1))
    } else if s.len() > 0 && s.last() == '`' {
        without_ticks(s.drop_last())
    } else {
        s
    }
}

fn strip_ticks(value: &str) -> (r: String)
    ensures
        r@ == without_ticks(value@),
{
    let chars = chars_of(value);
    let mut from: usize = 0;
    let mut to: usize = chars.len();
    assert(chars@.subrange(0, chars@.len() as int) =~= value@);
    while from < to && chars[from] == '`'
        invariant
            from <= to <= chars@.len(),
            without_ticks(chars@.subrange(from as int, to as int)) == without_ticks(value@),
        decreases to - from,
    {
        proof {
            let part = chars@.subrange(from as int, to as int);
            assert(part[0] == chars@[from as int]);
            assert(part.skip(1) =~= chars@.subrange(from + 1, to as int));
        }
        from += 1;
    }
    while from < to && chars[to - 1] == '`'
        invariant
            from <= to <= chars@.len(),
            from < to ==> chars@[from as int] != '`',
            without_ticks(chars@.subrange(from as int, to as int)) == without_ticks(value@),
        decreases to - from,
    {
        proof {
            let part = chars@.subrange(from as int, to as int);
            assert(part[0] == chars@[from as int]);
            assert(part.last() == chars@[to - 1]);
            assert(part.drop_last() =~= chars@.subrange(from as int, to - 1));
        }
        to -= 1;
    }
    proof {
        let part = chars@.subrange(from as int, to as int);
        if from < to {
            assert(part[0] == chars@[from as int]);
            assert(part.last() == chars@[to - 1]);
        }
    }
    slice_text(&chars, from, to)
}

/// The JSON within an answer: what stands in a fence, where there is one.
pub open spec fn unfenced(value: Seq<char>) -> Seq<char> {
    let said = text::trimmed(value);
    if text::begins(said, "```"@) {
        let inside = text::trimmed(without_ticks(said));
        if text::begins(inside, "json"@) {
            text::trimmed(inside.skip(4))
        } else {
            inside
        }
    } else {
        said
    }
}

fn unfence(value: &str) -> (r: String)
    ensures
        r@ == unfenced(value@),
{
    let said = trim(value);
    if !starts_with(said.as_str(), "```") {
        return said;
    }
    let bare = strip_ticks(said.as_str());
    let inside = trim(bare.as_str());
    if starts_with(inside.as_str(), "json") {
        let chars = chars_of(inside.as_str());
        proof {
            reveal_strlit("json");
        }
        let rest = slice_text(&chars, 4, chars.len());
        assert(rest@ =~= inside@.skip(4));
        trim(rest.as_str())
    } else {
        inside
    }
}

/// The object that an answer holds, given what its text reads as.
pub open spec fn object_of(parsed: Result<JsonTree, Seq<char>>) -> Result<
    Map<Seq<char>, JsonTree>,
    Seq<char>,
> {
    match parsed {
        Err(message) => Err(message),
        Ok(JsonTree::Object(map)) => Ok(map),
        Ok(_) => Err("ai response content was not a JSON object"@),
    }
}

/// What a parse says.
pub open spec fn parse_view(parsed: Result<Json, String>) -> Result<JsonTree, Seq<char>> {
    match parsed {
        Ok(value) => Ok(value@),
        Err(message) => Err(message@),
    }
}

/// Takes the object that an answer holds.
pub fn take_object(parsed: Result<Json, String>) -> (r: Result<JsonMap, String>)
    ensures
        match (r, object_of(parse_view(parsed))) {
            (Ok(map), Ok(shown)) => map@ == shown,
            (Err(e), Err(message)) => e@ == message,
            _ => false,
        },
{
    match parsed {
        Err(message) => Err(message),
        Ok(Json::Object(map)) => Ok(map),
        Ok(_) => Err("ai response content was not a JSON object".to_owned()),
    }
}

/// Reads the object that an answer holds.
pub fn clean_json_content(value: &str) -> (r: Result<JsonMap, String>)
    ensures
        match (r, object_of(json::json_value_of(unfenced(value@)))) {
            (Ok(map), Ok(shown)) => map@ == shown,
            (Err(e), Err(message)) => e@ == message,
            _ => false,
        },
{
    let inside = unfence(value);
    take_object(parse_json(inside.as_str()))
}

/// The texts of some parts.
pub open spec fn part_texts(items: Seq<JsonTree>) -> Seq<Seq<char>>
    decreases items.len(),
{
    if items.len() == 0 {
        Seq::empty()
    } else {
        match json::text_member(items.last(), "text"@) {
            Some(t) => part_texts(items.drop_last()).push(t),
            None => part_texts(items.drop_last()),
        }
    }
}

/// The text that a message holds.
pub open spec fn message_text(content: JsonTree) -> Option<Seq<char>> {
    match content {
        JsonTree::Text(t) => Some(t),
        JsonTree::Array(items) => Some(text::joined(part_texts(items), "\n"@)),
        _ => None,
    }
}

/// The text of the first choice that a gateway gives.
pub open spec fn choice_text(payload: JsonTree) -> Result<Seq<char>, Seq<char>> {
    match json::member(payload, "choices"@) {
        Some(JsonTree::Array(choices)) => if choices.len() == 0 {
            Err("ai response did not contain choices"@)
        } else {
            match json::member(choices[0], "message"@) {
                Some(JsonTree::Object(message)) => if message.dom().contains("content"@) {
                    match message_text(message["content"@]) {
                        Some(t) => Ok(t),
                        None => Err("ai response content missing"@),
                    }
                } else {
                    Err("ai response content missing"@)
                },
                _ => Err("ai response choice missing message"@),
            }
        },
        _ => Err("ai response did not contain choices"@),
    }
}

fn list_parts(items: &Vec<Json>) -> (r: Vec<String>)
    ensures
        text::texts(r@) == part_texts(json::array_view(items@)),
{
    let ghost shown = json::array_view(items@);
    proof {
        json::array_view_members(items@);
    }
    let mut out: Vec<String> = Vec::new();
    let mut i: usize = 0;
    proof {
        assert(shown.take(0) =~= Seq::empty());
        assert(text::texts(out@) =~= Seq::empty());
    }
    while i < items.len()
        invariant
            i <= items.len(),
            shown.len() == items@.len(),
            forall|j: int| 0 <= j < items@.len() ==> #[trigger] shown[j] == items@[j]@,
            text::texts(out@) == part_texts(shown.take(i as int)),
        decreases items.len() - i,
    {
        proof {
            assert(shown.take(i + 1).drop_last() =~= shown.take(i as int));
            assert(shown.take(i + 1).last() == items@[i as int]@);
        }
        if let Some(t) = items[i].text_field("text") {
            let ghost before = text::texts(out@);
            out.push(t);
            assert(text::texts(out@) =~= before.push(t@));
        }
        i += 1;
    }
    assert(shown.take(shown.len() as int) =~= shown);
    out
}

/// Takes the text of the first choice that a gateway gives.
pub fn first_choice(payload: &Json) -> (r: Result<String, String>)
    ensures
        match (r, choice_text(payload@)) {
            (Ok(t), Ok(shown)) => t@ == shown,
            (Err(e), Err(message)) => e@ == message,
            _ => false,
        },
{
    let choices: &Vec<Json> = match payload.field("choices") {
        Some(Json::Array(choices)) => choices,
        _ => {
            return Err("ai response did not contain choices".to_owned());
        },
    };
    proof {
        json::array_view_members(choices@);
    }
    if choices.len() == 0 {
        return Err("ai response did not contain choices".to_owned());
    }
    assert(json::array_view(choices@)[0] == choices@[0]@);
    let message: &JsonMap = match choices[0].field("message") {
        Some(Json::Object(message)) => message,
        _ => {
            return Err("ai response choice missing message".to_owned());
        },
    };
    match message.get("content") {
        Some(Json::Text(t)) => Ok(t.clone()),
        Some(Json::Array(items)) => {
            let parts = list_parts(items);
            Ok(join(&parts, "\n"))
        },
        _ => Err("ai response content missing".to_owned()),
    }
}

/// Reads the object that a gateway gives.
pub fn extract_json_content(payload: &Json) -> (r: Result<JsonMap, String>)
    ensures
        match choice_text(payload@) {
            Err(message) => r matches Err(e) && e@ == message,
            Ok(t) => match (r, object_of(json::json_value_of(unfenced(t)))) {
                (Ok(map), Ok(shown)) => map@ == shown,
                (Err(e), Err(message)) => e@ == message,
                _ => false,
            },
        },
{
    let content = first_choice(payload)?;
    clean_json_content(content.as_str())
}

/// What the body of a gateway's answer gives: the object in its first choice, or what is said
/// of a body that gives none.
pub open spec fn completion_of(body: Seq<u8>) -> Result<Map<Seq<char>, JsonTree>, Seq<char>> {
    match json::json_value_of_bytes(body) {
        Err(_) => Err("error decoding response body"@),
        Ok(payload) => match choice_text(payload) {
            Err(message) => Err(message),
            Ok(t) => object_of(json::json_value_of(unfenced(t))),
        },
    }
}

/// Reads the object that the body of a gateway's answer gives.
pub fn read_completion(body: &Vec<u8>) -> (r: Result<JsonMap, String>)
    ensures
        completion_view(r) == completion_of(body@),
{
    match parse_json_bytes(body.as_slice()) {
        Ok(payload) => extract_json_content(&payload),
        Err(_) => Err("error decoding response body".to_owned()),
    }
}

/// What is asked of a model, as a value.
pub open spec fn question_tree(brief: Seq<char>, market: Seq<char>, horizon: Seq<char>) -> JsonTree {
    JsonTree::Object(
        map![
            "brief"@ => JsonTree::Text(brief),
            "market"@ => JsonTree::Text(market),
            "horizon"@ => JsonTree::Text(horizon),
        ],
    )
}

/// One message to a model.
pub open spec fn message_tree(role: Seq<char>, content: Seq<char>) -> JsonTree {
    JsonTree::Object(
        map!["role"@ => JsonTree::Text(role), "content"@ => JsonTree::Text(content)],
    )
}

fn message_value(role: &str, content: &str) -> (r: Json)
    ensures
        r@ == message_tree(role@, content@),
{
    Json::object(
        JsonMap::new().with("role", Json::text(role)).with("content", Json::text(content)),
    )
}

/// The messages to a model. `question` is the text of what is asked.
pub open spec fn prompt_tree(question: Seq<char>) -> JsonTree {
    JsonTree::Array(
        seq![
            message_tree(
                "system"@,
                "Draft TradeAssembly strategy metadata for local user-owned automation. Never tell users what to trade, when to trade, or how much to trade. Return JSON only."@,
            ),
            message_tree("user"@, question),
        ],
    )
}

fn draft_prompt(question: &str) -> (r: Json)
    ensures
        r@ == prompt_tree(question@),
{
    let messages: Vec<Json> = vec![
        message_value(
            "system",
            "Draft TradeAssembly strategy metadata for local user-owned automation. Never tell users what to trade, when to trade, or how much to trade. Return JSON only.",
        ),
        message_value("user", question),
    ];
    proof {
        json::array_view_members(messages@);
        assert(json::array_view(messages@) =~= prompt_tree(question@)->Array_0);
    }
    Json::Array(messages)
}

/// What is sent to a gateway.
#[derive(Debug)]
pub struct ChatRequest {
    pub url: String,
    pub body: Json,
    pub authorization: Option<String>,
}

/// The body of what is sent to a gateway.
pub open spec fn body_tree(model: Seq<char>, question: Seq<char>) -> JsonTree {
    JsonTree::Object(
        map![
            "model"@ => JsonTree::Text(model),
            "messages"@ => prompt_tree(question),
            "temperature"@ => JsonTree::Real("0.2"@),
            "response_format"@ => JsonTree::Object(
                map!["type"@ => JsonTree::Text("json_object"@)],
            ),
        ],
    )
}

/// Whether a request asks a gateway for a draft.
pub open spec fn asks_for(request: ChatRequest, config: ConfigView, question: Seq<char>) -> bool {
    &&& request.url@ == text::without_slashes(config.base_url) + "/chat/completions"@
    &&& request.body@ == body_tree(config.model, question)
    &&& text::option_text(request.authorization) == (if text::is_blank(config.api_key) {
        None
    } else {
        Some("Bearer "@ + config.api_key)
    })
}

/// Writes what is to be sent to a gateway, given the text of what is asked.
pub fn request_for_question(config: &AiGatewayConfig, question: &str) -> (r: Result<
    ChatRequest,
    String,
>)
    ensures
        match r {
            Ok(request) => !text::is_blank(config.base_url@) && asks_for(
                request,
                config@,
                question@,
            ),
            Err(e) => text::is_blank(config.base_url@) && e@ == "ai base_url is required"@,
        },
{
    if blank(config.base_url.as_str()) {
        return Err("ai base_url is required".to_owned());
    }
    let base = trim_slashes(config.base_url.as_str());
    let authorization: Option<String> = if blank(config.api_key.as_str()) {
        None
    } else {
        Some(join2("Bearer ", config.api_key.as_str()))
    };
    let body = Json::object(
        JsonMap::new().with("model", Json::text(config.model.as_str())).with(
            "messages",
            draft_prompt(question),
        ).with("temperature", Json::Real("0.2".to_owned())).with(
            "response_format",
            Json::object(JsonMap::new().with("type", Json::text("json_object"))),
        ),
    );
    Ok(ChatRequest { url: join2(base.as_str(), "/chat/completions"), body, authorization })
}

/// Writes what is to be sent to a gateway to ask for a draft.
pub fn chat_request(config: &AiGatewayConfig, brief: &str, market: &str, horizon: &str) -> (r: Result<
    ChatRequest,
    String,
>)
    ensures
        match r {
            Ok(request) => !text::is_blank(config.base_url@) && asks_for(
                request,
                config@,
                json::json_text_of(question_tree(brief@, market@, horizon@)),
            ),
            Err(e) => text::is_blank(config.base_url@) && e@ == "ai base_url is required"@,
        },
{
    let asked = Json::object(
        JsonMap::new().with("brief", Json::text(brief)).with("market", Json::text(market)).with(
            "horizon",
            Json::text(horizon),
        ),
    );
    let question = json_text(&asked);
    request_for_question(config, question.as_str())
}

/// What is said of a gateway that refuses.
pub fn refused_by_gateway(status: &str) -> (r: String)
    ensures
        r@ == "ai gateway returned status "@ + status@,
{
    join2("ai gateway returned status ", status)
}

/// What came of asking a gateway.
pub open spec fn completion_view(completion: Result<JsonMap, String>) -> Result<
    Map<Seq<char>, JsonTree>,
    Seq<char>,
> {
    match completion {
        Ok(map) => Ok(map@),
        Err(message) => Err(message@),
    }
}

/// The draft that is given: the template where no gateway is set up, what the gateway gave
/// where one is, and the template again where the gateway failed.
pub open spec fn payload_map(
    config: ConfigView,
    draft: Map<Seq<char>, JsonTree>,
    completion: Result<Map<Seq<char>, JsonTree>, Seq<char>>,
) -> Map<Seq<char>, JsonTree> {
    if config.provider == "stub"@ {
        draft.insert("source"@, JsonTree::Text("stub"@)).insert(
            "model"@,
            JsonTree::Text("deterministic-stub"@),
        )
    } else {
        match completion {
            Ok(content) => content.insert("source"@, JsonTree::Text(config.provider)).insert(
                "model"@,
                JsonTree::Text(config.model),
            ),
            Err(message) => draft.insert("source"@, JsonTree::Text("stub-fallback"@)).insert(
                "model"@,
                JsonTree::Text("deterministic-stub"@),
            ).insert("error_message"@, JsonTree::Text(message)),
        }
    }
}

/// Gives a draft. `completion` is what came of asking the gateway; it counts only where
/// one is set up.
pub fn strategy_draft_payload(
    config: &AiGatewayConfig,
    brief: &str,
    market: &str,
    horizon: &str,
    completion: Result<JsonMap, String>,
) -> (r: Json)
    ensures
        r@ == JsonTree::Object(
            payload_map(
                config@,
                draft_map(brief@, market@, horizon@),
                completion_view(completion),
            ),
        ),
{
    if same(config.provider.as_str(), "stub") {
        return Json::object(
            draft_entries(brief, market, horizon).with("source", Json::text("stub")).with(
                "model",
                Json::text("deterministic-stub"),
            ),
        );
    }
    match completion {
        Ok(content) => Json::object(
            content.with("source", Json::text(config.provider.as_str())).with(
                "model",
                Json::text(config.model.as_str()),
            ),
        ),
        Err(message) => Json::object(
            draft_entries(brief, market, horizon).with("source", Json::text("stub-fallback")).with(
                "model",
                Json::text("deterministic-stub"),
            ).with("error_message", Json::text(message.as_str())),
        ),
    }
}

/// Every draft names where it comes from, and with which model it was made.
pub proof fn draft_names_its_source(
    config: ConfigView,
    draft: Map<Seq<char>, JsonTree>,
    completion: Result<Map<Seq<char>, JsonTree>, Seq<char>>,
)
    ensures
        payload_map(config, draft, completion).dom().contains("source"@),
        payload_map(config, draft, completion)["source"@] is Text,
        payload_map(config, draft, completion).dom().contains("model"@),
        payload_map(config, draft, completion)["model"@] is Text,
{
    reveal_strlit("source");
    reveal_strlit("model");
    reveal_strlit("error_message");
    assert("source"@.len() != "model"@.len());
    assert("source"@.len() != "error_message"@.len());
    assert("model"@.len() != "error_message"@.len());
}

/// Where no gateway is set up, a draft is the template whatever a gateway says.
pub proof fn template_needs_no_gateway(
    config: ConfigView,
    draft: Map<Seq<char>, JsonTree>,
    one: Result<Map<Seq<char>, JsonTree>, Seq<char>>,
    other: Result<Map<Seq<char>, JsonTree>, Seq<char>>,
)
    requires
        config.provider == "stub"@,
    ensures
        payload_map(config, draft, one) == payload_map(config, draft, other),
{
}

} // verus!
