//! Which operation a request for a notebook names.

use vstd::prelude::*;

use crate::agent_surfaces::notebook;
use crate::json;
use crate::json::JsonTree;

verus! {

/// A request names its operation, or an action where it names no operation, and composes where it
/// names neither.
pub proof fn request_names_its_operation(request: JsonTree, name: Seq<char>)
    ensures
        json::member(request, "operation"@) == Some(JsonTree::Text(name))
            ==> notebook::operation_of(request) == name,
        json::member(request, "operation"@) is None && json::member(request, "action"@) == Some(
            JsonTree::Text(name),
        ) ==> notebook::operation_of(request) == name,
        json::member(request, "operation"@) is None && json::member(request, "action"@) is None
            ==> notebook::operation_of(request) == "compose"@,
{
}

} // verus!
