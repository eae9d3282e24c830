//! How a draft comes about: what is asked of which gateway, what is taken out of its answer, and
//! what stands in where there is none.

use vstd::prelude::*;

use crate::ai;
use crate::ai::{ChatRequest, ConfigView};
use crate::json;
use crate::json::JsonTree;
use crate::text;

verus! {

/// What the environment says of a setting counts, without space around it and slashes at
/// its end, unless it says nothing.
pub proof fn setting_is_what_the_environment_says(
    env: Map<Seq<char>, String>,
    key: Seq<char>,
    other: Seq<char>,
)
    ensures
        !env.dom().contains(key) ==> ai::setting(env, key, other) == other,
        env.dom().contains(key) && text::without_slashes(text::trimmed(env[key]@)).len() > 0
            ==> ai::setting(env, key, other) == text::without_slashes(text::trimmed(env[key]@)),
        env.dom().contains(key) && text::without_slashes(text::trimmed(env[key]@)).len() == 0
            ==> ai::setting(env, key, other) == other,
{
}

/// The address of a gateway ends in the version of its interface, which is added just where
/// it is missing.
pub proof fn gateway_address_is_versioned(provider: Seq<char>, url: Seq<char>)
    requires
        url.len() > 0,
    ensures
        text::ends(url, "/v1"@) ==> ai::versioned(provider, url) == url,
        !text::ends(url, "/v1"@) ==> ai::versioned(provider, url) == url + "/v1"@,
{
}

/// A gateway is set up by the environment: its provider in lower case, its model, its
/// address and its key; the key of the project comes before the general one.
pub proof fn gateway_is_set_up_by_the_environment(env: Map<Seq<char>, String>)
    ensures
        ({
            let config = ai::config_of(env);
            let own = ai::setting(env, "TRADEASSEMBLY_AI_API_KEY"@, ""@);
            let general = ai::setting(env, "OPENAI_API_KEY"@, ""@);
            &&& config.provider == text::lowered(
                ai::setting(env, "TRADEASSEMBLY_AI_PROVIDER"@, "stub"@),
            )
            &&& config.model == ai::setting(
                env,
                "TRADEASSEMBLY_AI_MODEL"@,
                "tradeassembly-local-draft"@,
            )
            &&& config.timeout_seconds == 30
            &&& config.provider == "stub"@ ==> config.base_url.len() == 0 && config.api_key.len() == 0
            &&& config.provider != "stub"@ && own.len() > 0 ==> config.api_key == own
            &&& config.provider != "stub"@ && own.len() == 0 && general.len() > 0 ==> config.api_key
                == general
            &&& config.provider != "stub"@ && own.len() == 0 && general.len() == 0
                ==> config.api_key == "local-dev"@
            &&& config.provider != "stub"@ ==> config.base_url == ai::versioned(
                config.provider,
                ai::setting(env, "TRADEASSEMBLY_AI_BASE_URL"@, "http://127.0.0.1:4000/v1"@),
            )
        }),
{
}

/// What is taken out of an answer is the text of its first choice, or the texts of the
/// parts of that, one line each.
pub proof fn first_choice_is_taken(
    payload: JsonTree,
    choices: Seq<JsonTree>,
    message: Map<Seq<char>, JsonTree>,
    said: Seq<char>,
)
    requires
        json::member(payload, "choices"@) == Some(JsonTree::Array(choices)),
        choices.len() > 0,
        json::member(choices[0], "message"@) == Some(JsonTree::Object(message)),
        json::member(JsonTree::Object(message), "content"@) == Some(JsonTree::Text(said)),
    ensures
        ai::choice_text(payload) == Ok::<Seq<char>, Seq<char>>(said),
{
}

/// The parts of an answer are taken in their order, and those without a text are passed
/// over.
pub proof fn parts_are_taken_in_order(items: Seq<JsonTree>, next: JsonTree)
    ensures
        ai::part_texts(Seq::<JsonTree>::empty()).len() == 0,
        json::text_member(next, "text"@) matches Some(t) ==> ai::part_texts(items.push(next))
            == ai::part_texts(items).push(t),
        json::text_member(next, "text"@) is None ==> ai::part_texts(items.push(next))
            == ai::part_texts(items),
{
    assert(items.push(next).drop_last() =~= items);
    assert(items.push(next).last() == next);
}

/// An answer without a fence is taken as it is, without the space around it.
pub proof fn plain_answer_is_taken_as_it_is(value: Seq<char>)
    requires
        !text::begins(text::trimmed(value), "```"@),
    ensures
        ai::unfenced(value) == text::trimmed(value),
{
}

/// What stands between backquotes has none at its ends, and is a part of what was said.
pub proof fn fence_is_taken_away(s: Seq<char>)
    ensures
        ai::without_ticks(s).len() <= s.len(),
        ai::without_ticks(s).len() > 0 ==> ai::without_ticks(s)[0] != '`' && ai::without_ticks(
            s,
        ).last() != '`',
        s.len() > 0 && s[0] != '`' && s.last() != '`' ==> ai::without_ticks(s) == s,
    decreases s.len(),
{
    if s.len() > 0 && s[0] == '`' {
        fence_is_taken_away(s.skip(1));
    } else if s.len() > 0 && s.last() == '`' {
        fence_is_taken_away(s.drop_last());
    }
}

/// A backquote at the end of what was said is taken away, and nothing else.
pub proof fn only_backquotes_are_taken_away(s: Seq<char>)
    ensures
        ai::without_ticks(s.push('`')) == ai::without_ticks(s),
        ai::without_ticks(seq!['`'] + s) == ai::without_ticks(s),
    decreases s.len(),
{
    let behind = s.push('`');
    let before = seq!['`'] + s;
    assert(before.skip(1) =~= s);
    assert(before[0] == '`');
    if s.len() == 0 {
        assert(behind.skip(1) =~= s);
        assert(behind[0] == '`');
    } else if s[0] == '`' {
        assert(behind[0] == '`');
        assert(behind.skip(1) =~= s.skip(1).push('`'));
        only_backquotes_are_taken_away(s.skip(1));
    } else {
        assert(behind[0] == s[0]);
        assert(behind.last() == '`');
        assert(behind.drop_last() =~= s);
    }
}

/// A request for a draft goes to the gateway that is set up, names its model, carries its key
/// where it has one, and asks what is to be asked.
pub proof fn request_goes_to_the_gateway(request: ChatRequest, config: ConfigView, question: Seq<char>)
    requires
        ai::asks_for(request, config, question),
    ensures
        request.url@ == text::without_slashes(config.base_url) + "/chat/completions"@,
        text::is_blank(config.api_key) ==> request.authorization is None,
        !text::is_blank(config.api_key) ==> (request.authorization matches Some(header) && header@
            == "Bearer "@ + config.api_key),
        json::member(request.body@, "model"@) == Some(JsonTree::Text(config.model)),
        json::member(request.body@, "messages"@) matches Some(JsonTree::Array(messages))
            && messages.len() == 2 && json::member(messages[1], "role"@) == Some(
            JsonTree::Text("user"@),
        ) && json::member(messages[1], "content"@) == Some(JsonTree::Text(question))
            && json::member(messages[0], "role"@) == Some(JsonTree::Text("system"@)),
{
    reveal_strlit("model");
    reveal_strlit("messages");
    reveal_strlit("temperature");
    reveal_strlit("response_format");
    reveal_strlit("role");
    reveal_strlit("content");
    assert("model"@.len() == 5);
    assert("messages"@.len() == 8);
    assert("temperature"@.len() == 11);
    assert("response_format"@.len() == 15);
    assert("role"@.len() == 4);
    assert("content"@.len() == 7);
}

/// A draft is the template where no gateway is set up, what the gateway gave where it gave
/// something, and the template with the failure where it failed. Nothing of it changes but
/// what is said of where it comes from.
pub proof fn draft_is_the_gateways_or_the_template(
    config: ConfigView,
    draft: Map<Seq<char>, JsonTree>,
    completion: Result<Map<Seq<char>, JsonTree>, Seq<char>>,
    key: Seq<char>,
)
    requires
        key != "source"@,
        key != "model"@,
        key != "error_message"@,
    ensures
        ({
            let given = JsonTree::Object(ai::payload_map(config, draft, completion));
            &&& config.provider == "stub"@ || completion is Err ==> json::member(given, key)
                == json::member(JsonTree::Object(draft), key)
            &&& config.provider != "stub"@ ==> (completion matches Ok(content) ==> json::member(
                given,
                key,
            ) == json::member(JsonTree::Object(content), key) && json::member(given, "source"@)
                == Some(JsonTree::Text(config.provider)) && json::member(given, "model"@) == Some(
                JsonTree::Text(config.model),
            ))
            &&& config.provider != "stub"@ ==> (completion matches Err(why) ==> json::member(
                given,
                "error_message"@,
            ) == Some(JsonTree::Text(why)) && json::member(given, "source"@) == Some(
                JsonTree::Text("stub-fallback"@),
            ))
            &&& config.provider == "stub"@ ==> json::member(given, "source"@) == Some(
                JsonTree::Text("stub"@),
            )
        }),
{
    reveal_strlit("source");
    reveal_strlit("model");
    reveal_strlit("error_message");
    assert("source"@.len() == 6);
    assert("model"@.len() == 5);
    assert("error_message"@.len() == 13);
}

/// A draft for shares trades a share by the day, and any other a coin; a longer horizon is
/// by the day as well. Its name says what was asked for, and its limits are those of its
/// market.
pub proof fn template_follows_the_market(brief: Seq<char>, market: Seq<char>, horizon: Seq<char>)
    ensures
        ({
            let draft = JsonTree::Object(ai::draft_map(brief, market, horizon));
            let named = text::lowered(text::trimmed(market));
            let shares = named == "stock"@ || named == "stocks"@ || named == "equity"@ || named
                == "equities"@;
            let said = text::trimmed(brief);
            &&& shares ==> json::member(draft, "symbol"@) == Some(JsonTree::Text("SPY"@))
                && json::member(draft, "asset_class"@) == Some(JsonTree::Text("equity"@))
                && json::member(draft, "timeframe"@) == Some(JsonTree::Text("1d"@))
            &&& !shares ==> json::member(draft, "symbol"@) == Some(JsonTree::Text("BTC/USD"@))
                && json::member(draft, "asset_class"@) == Some(JsonTree::Text("crypto"@))
            &&& !shares && (horizon == "swing"@ || horizon == "daily"@) ==> json::member(
                draft,
                "timeframe"@,
            ) == Some(JsonTree::Text("1d"@))
            &&& !shares && horizon != "swing"@ && horizon != "daily"@ ==> json::member(
                draft,
                "timeframe"@,
            ) == Some(JsonTree::Text("1m"@))
            &&& 0 < said.len() <= 48 ==> json::member(draft, "name"@) == Some(
                JsonTree::Text("Local draft: "@ + said),
            )
            &&& said.len() > 48 ==> json::member(draft, "name"@) == Some(
                JsonTree::Text("Local draft: "@ + said.take(48)),
            )
            &&& json::member(draft, "risk"@) matches Some(limits) && json::member(
                limits,
                "max_concurrent_positions"@,
            ) == Some(JsonTree::Int(1)) && json::member(limits, "max_notional"@) == Some(
                JsonTree::Int(
                    if shares {
                        1000
                    } else {
                        25
                    },
                ),
            )
        }),
{
    reveal_strlit("name");
    reveal_strlit("symbol");
    reveal_strlit("asset_class");
    reveal_strlit("provider_ref");
    reveal_strlit("timeframe");
    reveal_strlit("entry_rule");
    reveal_strlit("exit_rule");
    reveal_strlit("risk");
    reveal_strlit("notes");
    assert("name"@.len() == 4);
    assert("symbol"@.len() == 6);
    assert("asset_class"@.len() == 11);
    assert("provider_ref"@.len() == 12);
    assert("timeframe"@.len() == 9);
    assert("entry_rule"@.len() == 10);
    assert("exit_rule"@.len() == 9);
    assert("risk"@.len() == 4);
    assert("notes"@.len() == 5);
    assert("name"@[0] == 'n');
    assert("risk"@[0] == 'r');
    assert("timeframe"@[0] == 't');
    assert("exit_rule"@[0] == 'e');
    reveal_strlit("max_notional");
    reveal_strlit("max_order_quantity");
    reveal_strlit("max_daily_loss");
    reveal_strlit("max_concurrent_positions");
    assert("max_notional"@.len() == 12);
    assert("max_order_quantity"@.len() == 18);
    assert("max_daily_loss"@.len() == 14);
    assert("max_concurrent_positions"@.len() == 24);
}

} // verus!
