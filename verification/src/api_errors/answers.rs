//! What an error answers: its status, whether it may be tried again, and whether anything may go
//! on.

use vstd::prelude::*;

use crate::api_errors;
use crate::api_errors::{ErrorCode, ErrorView};
use crate::json;
use crate::json::JsonTree;

verus! {

/// Only an error of the provider may be tried again; old data and a provider that is not there
/// stop everything, and nothing else does.
pub proof fn error_says_whether_to_go_on(code: ErrorCode, message: Seq<char>, details: JsonTree)
    ensures
        ({
            let r = api_errors::runtime_response(code, message, details);
            &&& r.error.retryable <==> code == ErrorCode::ProviderUnavailable
            &&& r.error.safe_to_continue <==> code == ErrorCode::StrategyNotFound || code
                == ErrorCode::NotFound || code == ErrorCode::ValidationFailed
            &&& r.error.message == message
            &&& r.error.details == details
            &&& code == ErrorCode::StaleMarketData ==> r.status_code == 409 && r.error.code
                == "stale_market_data"@
            &&& code == ErrorCode::ProviderUnavailable ==> r.status_code == 502 && r.error.code
                == "provider_unavailable"@
            &&& code == ErrorCode::StrategyNotFound ==> r.status_code == 404 && r.error.code
                == "strategy_not_found"@
            &&& code == ErrorCode::NotFound ==> r.status_code == 404 && r.error.code == "not_found"@
            &&& code == ErrorCode::ValidationFailed ==> r.status_code == 400 && r.error.code
                == "validation_failed"@
            &&& r.detail == api_errors::error_tree(r.error)
        }),
{
}

/// An exception stands for what is not there, for a strategy that is not there, or for a request
/// that is not valid.
pub proof fn exception_stands_for_an_error(status_code: u16, detail: Seq<char>)
    ensures
        status_code == 404 && detail == "Not Found"@ ==> api_errors::exception_code(
            status_code,
            detail,
        ) == ErrorCode::NotFound,
        detail == "strategy_not_found"@ ==> api_errors::exception_code(status_code, detail)
            == ErrorCode::StrategyNotFound,
        detail != "strategy_not_found"@ && (status_code != 404 || detail != "Not Found"@)
            ==> api_errors::exception_code(status_code, detail) == ErrorCode::ValidationFailed,
{
    reveal_strlit("Not Found");
    reveal_strlit("strategy_not_found");
    assert("Not Found"@.len() == 9);
    assert("strategy_not_found"@.len() == 18);
}

/// An error is told member by member.
pub proof fn error_is_told_member_by_member(
    e: ErrorView,
)
    ensures
        ({
            let tree = api_errors::error_tree(e);
            &&& json::member(tree, "code"@) == Some(JsonTree::Text(e.code))
            &&& json::member(tree, "message"@) == Some(JsonTree::Text(e.message))
            &&& json::member(tree, "safe_to_continue"@) == Some(JsonTree::Bool(e.safe_to_continue))
            &&& json::member(tree, "retryable"@) == Some(JsonTree::Bool(e.retryable))
            &&& json::member(tree, "details"@) == Some(e.details)
        }),
{
    reveal_strlit("code");
    reveal_strlit("message");
    reveal_strlit("safe_to_continue");
    reveal_strlit("retryable");
    reveal_strlit("details");
    assert("code"@.len() == 4);
    assert("message"@.len() == 7);
    assert("safe_to_continue"@.len() == 16);
    assert("retryable"@.len() == 9);
    assert("details"@.len() == 7);
    assert("message"@[0] == 'm');
    assert("details"@[0] == 'd');
}

} // verus!
