//! The errors of the HTTP interface: machine-readable, and closed where in doubt.

pub mod answers;

use vstd::prelude::*;

use crate::json::{Json, JsonMap, JsonTree};
use crate::text::same;

verus! {

/// What went wrong.
#[derive(Clone, Copy, Debug, PartialEq, Eq, Structural)]
pub enum ErrorCode {
    StaleMarketData,
    ProviderUnavailable,
    StrategyNotFound,
    NotFound,
    ValidationFailed,
}

/// The name of what went wrong.
pub open spec fn code_text(code: ErrorCode) -> Seq<char> {
    match code {
        ErrorCode::StaleMarketData => "stale_market_data"@,
        ErrorCode::ProviderUnavailable => "provider_unavailable"@,
        ErrorCode::StrategyNotFound => "strategy_not_found"@,
        ErrorCode::NotFound => "not_found"@,
        ErrorCode::ValidationFailed => "validation_failed"@,
    }
}

/// The HTTP status of what went wrong.
pub open spec fn status_of(code: ErrorCode) -> u16 {
    match code {
        ErrorCode::StaleMarketData => 409,
        ErrorCode::ProviderUnavailable => 502,
        ErrorCode::StrategyNotFound => 404,
        ErrorCode::NotFound => 404,
        ErrorCode::ValidationFailed => 400,
    }
}

impl ErrorCode {
    /// The name of what went wrong.
    pub fn as_str(&self) -> (r: &'static str)
        ensures
            r@ == code_text(*self),
    {
        match self {
            ErrorCode::StaleMarketData => "stale_market_data",
            ErrorCode::ProviderUnavailable => "provider_unavailable",
            ErrorCode::StrategyNotFound => "strategy_not_found",
            ErrorCode::NotFound => "not_found",
            ErrorCode::ValidationFailed => "validation_failed",
        }
    }
}

/// An error as a client is told of it.
#[derive(Debug)]
pub struct ErrorObject {
    pub code: String,
    pub message: String,
    pub safe_to_continue: bool,
    pub retryable: bool,
    pub details: Json,
}

/// What an [`ErrorObject`] says.
#[verifier::ext_equal]
pub struct ErrorView {
    pub code: Seq<char>,
    pub message: Seq<char>,
    pub safe_to_continue: bool,
    pub retryable: bool,
    pub details: JsonTree,
}

impl View for ErrorObject {
    type V = ErrorView;

    open spec fn view(&self) -> ErrorView {
        ErrorView {
            code: self.code@,
            message: self.message@,
            safe_to_continue: self.safe_to_continue,
            retryable: self.retryable,
            details: self.details@,
        }
    }
}

/// An error as a value.
pub open spec fn error_tree(e: ErrorView) -> JsonTree {
    JsonTree::Object(
        map![
            "code"@ => JsonTree::Text(e.code),
            "message"@ => JsonTree::Text(e.message),
            "safe_to_continue"@ => JsonTree::Bool(e.safe_to_continue),
            "retryable"@ => JsonTree::Bool(e.retryable),
            "details"@ => e.details,
        ],
    )
}

impl ErrorObject {
    /// The error as a value.
    pub fn value(&self) -> (r: Json)
        ensures
            r@ == error_tree(self@),
    {
        Json::object(
            JsonMap::new().with("code", Json::text(self.code.as_str())).with(
                "message",
                Json::text(self.message.as_str()),
            ).with("safe_to_continue", Json::Bool(self.safe_to_continue)).with(
                "retryable",
                Json::Bool(self.retryable),
            ).with("details", self.details.copy()),
        )
    }
}

/// The response that an error makes.
#[derive(Debug)]
pub struct ApiErrorResponse {
    pub status_code: u16,
    pub detail: Json,
    pub error: ErrorObject,
}

/// What an [`ApiErrorResponse`] says.
#[verifier::ext_equal]
pub struct ResponseView {
    pub status_code: u16,
    pub detail: JsonTree,
    pub error: ErrorView,
}

impl View for ApiErrorResponse {
    type V = ResponseView;

    open spec fn view(&self) -> ResponseView {
        ResponseView {
            status_code: self.status_code,
            detail: self.detail@,
            error: self.error@,
        }
    }
}

/// An error of the runtime: only where the provider cannot be reached may it be tried
/// again, and where the data is old or missing nothing may go on.
pub open spec fn runtime_error(code: ErrorCode, message: Seq<char>, details: JsonTree) -> ErrorView {
    ErrorView {
        code: code_text(code),
        message,
        safe_to_continue: code != ErrorCode::StaleMarketData && code
            != ErrorCode::ProviderUnavailable,
        retryable: code == ErrorCode::ProviderUnavailable,
        details,
    }
}

/// The response that an error of the runtime makes.
pub open spec fn runtime_response(code: ErrorCode, message: Seq<char>, details: JsonTree) -> ResponseView {
    let error = runtime_error(code, message, details);
    ResponseView { status_code: status_of(code), detail: error_tree(error), error }
}

/// An error that changes nothing.
pub open spec fn plain_error(code: ErrorCode, message: Seq<char>) -> ErrorView {
    ErrorView {
        code: code_text(code),
        message,
        safe_to_continue: true,
        retryable: false,
        details: JsonTree::Object(Map::empty()),
    }
}

/// What an HTTP exception stands for.
pub open spec fn exception_code(status_code: u16, detail: Seq<char>) -> ErrorCode {
    if status_code == 404 && detail == "Not Found"@ {
        ErrorCode::NotFound
    } else if detail == "strategy_not_found"@ {
        ErrorCode::StrategyNotFound
    } else {
        ErrorCode::ValidationFailed
    }
}

fn plain(code: ErrorCode, message: &str) -> (r: ErrorObject)
    ensures
        r@ == plain_error(code, message@),
{
    ErrorObject {
        code: code.as_str().to_owned(),
        message: message.to_owned(),
        safe_to_continue: true,
        retryable: false,
        details: Json::object(JsonMap::new()),
    }
}

impl ApiErrorResponse {
    /// The response that an error of the runtime makes.
    pub fn tradeassembly_error(code: ErrorCode, message: &str, details: Json) -> (r:
        ApiErrorResponse)
        ensures
            r@ == runtime_response(code, message@, details@),
    {
        let status_code: u16 = match code {
            ErrorCode::StaleMarketData => 409,
            ErrorCode::ProviderUnavailable => 502,
            ErrorCode::StrategyNotFound => 404,
            ErrorCode::NotFound => 404,
            ErrorCode::ValidationFailed => 400,
        };
        let error = ErrorObject {
            code: code.as_str().to_owned(),
            message: message.to_owned(),
            safe_to_continue: code != ErrorCode::StaleMarketData && code
                != ErrorCode::ProviderUnavailable,
            retryable: code == ErrorCode::ProviderUnavailable,
            details,
        };
        ApiErrorResponse { status_code, detail: error.value(), error }
    }

    /// The response where a broker cannot be reached.
    pub fn broker_unavailable(message: &str, details: Json) -> (r: ApiErrorResponse)
        ensures
            r@ == runtime_response(ErrorCode::ProviderUnavailable, message@, details@),
    {
        ApiErrorResponse::tradeassembly_error(ErrorCode::ProviderUnavailable, message, details)
    }

    /// The response that an HTTP exception makes.
    pub fn http_exception(status_code: u16, detail: &str) -> (r: ApiErrorResponse)
        ensures
            r@ == (ResponseView {
                status_code,
                detail: JsonTree::Text(detail@),
                error: plain_error(exception_code(status_code, detail@), detail@),
            }),
    {
        let code: ErrorCode = if status_code == 404 && same(detail, "Not Found") {
            ErrorCode::NotFound
        } else if same(detail, "strategy_not_found") {
            ErrorCode::StrategyNotFound
        } else {
            ErrorCode::ValidationFailed
        };
        ApiErrorResponse { status_code, detail: Json::text(detail), error: plain(code, detail) }
    }

    /// The response where a request says what it cannot.
    pub fn validation_failed(detail: Json) -> (r: ApiErrorResponse)
        ensures
            r@ == (ResponseView {
                status_code: 400,
                detail: detail@,
                error: plain_error(ErrorCode::ValidationFailed, "validation_failed"@),
            }),
    {
        ApiErrorResponse {
            status_code: 400,
            detail,
            error: plain(ErrorCode::ValidationFailed, "validation_failed"),
        }
    }
}

/// Whatever may be tried again is no reason to go on.
pub proof fn retryable_errors_stop(code: ErrorCode, message: Seq<char>, details: JsonTree)
    ensures
        runtime_error(code, message, details).retryable ==> !runtime_error(
            code,
            message,
            details,
        ).safe_to_continue,
{
}

} // verus!
