//! What is asked of a research notebook.

pub mod operations;

use vstd::prelude::*;

use crate::json;
use crate::json::{Json, JsonTree};

verus! {

/// The operation that a request names: under `operation`, or under `action` where there is
/// no such member. One that names none by a text composes.
pub open spec fn operation_of(request: JsonTree) -> Seq<char> {
    let named = match json::member(request, "operation"@) {
        Some(value) => Some(value),
        None => json::member(request, "action"@),
    };
    match named {
        Some(JsonTree::Text(name)) => name,
        _ => "compose"@,
    }
}

/// Tells which operation of a research notebook a request asks for.
pub fn notebook_operation(request: &Json) -> (r: String)
    ensures
        r@ == operation_of(request@),
{
    let named: Option<&Json> = match request.field("operation") {
        Some(value) => Some(value),
        None => request.field("action"),
    };
    match named {
        Some(Json::Text(name)) => name.clone(),
        _ => "compose".to_owned(),
    }
}

} // verus!
