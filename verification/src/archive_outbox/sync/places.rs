//! Where a pass goes on, and that the acknowledged place never goes back.

use vstd::prelude::*;

use crate::archive_outbox::sync;
use crate::archive_outbox::sync::SyncRunView;
use crate::json;
use crate::json::JsonTree;

verus! {

/// The later of two places is one of them and is before neither.
pub proof fn acknowledged_place_never_goes_back(a: i64, b: i64)
    ensures
        sync::later_cursor(Some(a), Some(b)) matches Some(c) && a <= c && b <= c && (c == a || c
            == b),
        sync::later_cursor(Some(a), None) == Some(a),
        sync::later_cursor(None, Some(b)) == Some(b),
        sync::later_cursor(None, None) is None,
{
}

/// The place that is kept is the later of the one that was kept and the new one.
pub proof fn kept_place_never_goes_back(record: JsonTree, a: int, b: i64)
    requires
        json::i64_member(record, "acknowledgedCursor"@) == Some(a),
    ensures
        sync::merged_cursor(Some(record), Some(b)) matches JsonTree::Int(c) && a <= c && b <= c && (c
            == a || c == b),
        sync::merged_cursor(Some(record), None) == JsonTree::Int(a),
        sync::merged_cursor(None, Some(b)) == JsonTree::Int(b as int),
        sync::merged_cursor(None, None) == JsonTree::Null,
{
}

/// A pass that is over goes on behind the last record that it looked at, where there are more, and
/// begins anew where it has seen them all.
pub proof fn next_pass_goes_on_behind_the_last(run: SyncRunView)
    ensures
        run.report.scanned < run.candidates || run.has_more
            ==> run.finished().next_scan_after_request_id == run.last_scanned,
        run.report.scanned >= run.candidates && !run.has_more
            ==> run.finished().next_scan_after_request_id is None,
        run.finished().items == run.report.items,
        run.finished().published == run.report.published,
{
}

/// A pass looks at no more than fifty records, however long the page is, and says whether there are
/// more.
pub proof fn pass_looks_at_fifty_at_most(limit: nat, page_len: nat, place: Option<i64>)
    ensures
        page_len <= 50 ==> sync::begun(limit, page_len, place).candidates == page_len
            && !sync::begun(limit, page_len, place).has_more,
        page_len > 50 ==> sync::begun(limit, page_len, place).candidates == 50 && sync::begun(
            limit,
            page_len,
            place,
        ).has_more,
        sync::begun(limit, page_len, place).limit == limit,
        sync::begun(limit, page_len, place).report.scanned == 0,
        sync::begun(limit, page_len, place).report.acknowledged_cursor == place,
{
}

/// A pass goes on with the place that its record names, and at the first record where it names none.
pub proof fn pass_begins_where_the_record_says(record: JsonTree, id: Seq<char>)
    ensures
        json::member(record, "afterRequestId"@) is None || json::member(record, "afterRequestId"@)
            == Some(JsonTree::Null) ==> (sync::cursor_of(Some(record)) matches Ok(after) && after
            is None),
        json::member(record, "afterRequestId"@) == Some(JsonTree::Text(id)) ==> (sync::cursor_of(
            Some(record),
        ) matches Ok(after) ==> after == Some(id)),
        sync::cursor_of(None) matches Ok(after) && after is None,
{
}

} // verus!
