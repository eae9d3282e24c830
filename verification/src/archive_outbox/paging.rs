//! What a reader sees who follows the pages of a query to the end.

use vstd::prelude::*;

use crate::archive_outbox::envelope::ArchiveOutboxError;
use crate::archive_outbox::store;
use crate::archive_outbox::store::{
    ArchiveEvidencePage, ArchiveEvidenceQuery, ArchiveEvidenceRecord, LoadedEvidence,
    MAX_QUERY_BATCH,
};
use crate::text;

verus! {

/// The request under which a record is stored.
pub open spec fn request_of(record: LoadedEvidence) -> Seq<char> {
    record.envelope->Present_0@.request_id
}

/// Whether each record is stored under a request of its own.
pub open spec fn have_own_requests(records: Seq<LoadedEvidence>) -> bool {
    forall|i: int, j: int|
        0 <= i < j < records.len() ==> request_of(#[trigger] records[i]) != request_of(
            #[trigger] records[j],
        )
}

/// All records that a query asks for, in the order of an answer.
pub open spec fn matches_of(records: Seq<LoadedEvidence>, query: ArchiveEvidenceQuery) -> Seq<usize> {
    store::selected(records, query, records.len() as int)
}

/// How many records a page holds at most.
pub open spec fn page_limit(query: ArchiveEvidenceQuery) -> int {
    if query.limit < MAX_QUERY_BATCH {
        query.limit as int
    } else {
        MAX_QUERY_BATCH as int
    }
}

/// The query for the page that follows.
pub open spec fn query_after(query: ArchiveEvidenceQuery, after: String) -> ArchiveEvidenceQuery {
    ArchiveEvidenceQuery { after_request_id: Some(after), ..query }
}

/// Whether the pages are those of a query, followed until a page names no further one.
pub open spec fn follows_pages(
    records: Seq<LoadedEvidence>,
    query: ArchiveEvidenceQuery,
    pages: Seq<ArchiveEvidencePage>,
) -> bool
    decreases pages.len(),
{
    pages.len() > 0 && store::gives_page(
        records,
        query,
        Ok::<ArchiveEvidencePage, ArchiveOutboxError>(pages[0]),
    ) && match pages[0].next_after_request_id {
        None => pages.len() == 1,
        Some(after) => follows_pages(records, query_after(query, after), pages.drop_first()),
    }
}

/// The records of some pages, one page after the other.
pub open spec fn visited(pages: Seq<ArchiveEvidencePage>) -> Seq<ArchiveEvidenceRecord>
    decreases pages.len(),
{
    if pages.len() == 0 {
        Seq::empty()
    } else {
        pages[0].records@ + visited(pages.drop_first())
    }
}

/// Whether a list names records by rising requests.
pub open spec fn rises(records: Seq<LoadedEvidence>, list: Seq<usize>) -> bool {
    forall|i: int, j: int|
        0 <= i < j < list.len() ==> text::before(
            request_of(records[#[trigger] list[i] as int]),
            request_of(records[#[trigger] list[j] as int]),
        )
}

/// What a query asks for comes by rising requests.
proof fn matches_rise(records: Seq<LoadedEvidence>, query: ArchiveEvidenceQuery)
    requires
        records.len() <= usize::MAX,
        have_own_requests(records),
    ensures
        rises(records, matches_of(records, query)),
        forall|k: int|
            0 <= k < matches_of(records, query).len() ==> #[trigger] matches_of(records, query)[k]
                < records.len(),
{
    let list = matches_of(records, query);
    let n = records.len() as int;
    store::answer_is_in_order(records, query, n);
    store::answer_names_no_record_twice(records, query, n);
    assert forall|k: int| 0 <= k < list.len() implies #[trigger] list[k] < records.len() by {
        assert(list.contains(list[k]));
        store::answer_is_complete(records, query, n, list[k]);
    }
    assert forall|i: int, j: int| 0 <= i < j < list.len() implies text::before(
        request_of(records[#[trigger] list[i] as int]),
        request_of(records[#[trigger] list[j] as int]),
    ) by {
        let a = list[i] as int;
        let b = list[j] as int;
        assert(list[i] != list[j]);
        if a < b {
            assert(request_of(records[a]) != request_of(records[b]));
        } else {
            assert(request_of(records[b]) != request_of(records[a]));
        }
        assert(!store::comes_after(records[a], records[b]));
        text::before_total(request_of(records[a]), request_of(records[b]));
    }
}

/// Two lists that rise and name the same records are the same.
proof fn rising_lists_agree(records: Seq<LoadedEvidence>, a: Seq<usize>, b: Seq<usize>)
    requires
        rises(records, a),
        rises(records, b),
        forall|x: usize| a.contains(x) <==> b.contains(x),
    ensures
        a == b,
    decreases a.len(),
{
    if a.len() == 0 {
        if b.len() > 0 {
            assert(b.contains(b[0]));
        }
        assert(a =~= b);
    } else {
        assert(a.contains(a[0]));
        assert(b.contains(a[0]));
        let j = b.index_of(a[0]);
        assert(b.contains(b[0]));
        assert(a.contains(b[0]));
        let i = a.index_of(b[0]);
        let p = request_of(records[a[0] as int]);
        let q = request_of(records[b[0] as int]);
        if i > 0 && j > 0 {
            assert(text::before(
                request_of(records[a[0] as int]),
                request_of(records[a[i] as int]),
            ));
            assert(text::before(
                request_of(records[b[0] as int]),
                request_of(records[b[j] as int]),
            ));
            text::before_transitive(p, q, p);
            text::before_irreflexive(p);
        }
        assert(a[0] == b[0]);
        let c = a.drop_first();
        let d = b.drop_first();
        assert forall|x: usize| c.contains(x) <==> d.contains(x) by {
            rest_without_first(records, a, x);
            rest_without_first(records, b, x);
        }
        assert forall|i: int, j: int| 0 <= i < j < c.len() implies text::before(
            request_of(records[#[trigger] c[i] as int]),
            request_of(records[#[trigger] c[j] as int]),
        ) by {
            assert(c[i] == a[i + 1] && c[j] == a[j + 1]);
        }
        assert forall|i: int, j: int| 0 <= i < j < d.len() implies text::before(
            request_of(records[#[trigger] d[i] as int]),
            request_of(records[#[trigger] d[j] as int]),
        ) by {
            assert(d[i] == b[i + 1] && d[j] == b[j + 1]);
        }
        rising_lists_agree(records, c, d);
        assert(a =~= seq![a[0]] + c);
        assert(b =~= seq![b[0]] + d);
    }
}

/// The rest of a list that rises names what the list names, but for the first.
proof fn rest_without_first(records: Seq<LoadedEvidence>, list: Seq<usize>, x: usize)
    requires
        list.len() > 0,
        rises(records, list),
    ensures
        list.drop_first().contains(x) <==> list.contains(x) && x != list[0],
{
    let rest = list.drop_first();
    if rest.contains(x) {
        let k = rest.index_of(x);
        assert(list[k + 1] == x);
        assert(text::before(
            request_of(records[list[0] as int]),
            request_of(records[list[k + 1] as int]),
        ));
        text::before_irreflexive(request_of(records[x as int]));
    }
    if list.contains(x) && x != list[0] {
        let k = list.index_of(x);
        assert(rest[k - 1] == x);
    }
}

/// The page of a query holds at most its limit, by rising requests, and only records that
/// are asked for. It names a further page exactly where more records are asked for than it
/// holds, by the request of its last record; the query for that page is in order, and asks
/// for just the records that this page left over.
pub proof fn next_page_goes_on(
    records: Seq<LoadedEvidence>,
    query: ArchiveEvidenceQuery,
    page: ArchiveEvidencePage,
)
    requires
        records.len() <= usize::MAX,
        have_own_requests(records),
        store::gives_page(records, query, Ok::<ArchiveEvidencePage, ArchiveOutboxError>(page)),
    ensures
        page.records@.len() <= page_limit(query),
        page.records@.len() <= matches_of(records, query).len(),
        forall|i: int, j: int|
            0 <= i < j < page.records@.len() ==> text::before(
                (#[trigger] page.records@[i]).evidence@.request_id,
                (#[trigger] page.records@[j]).evidence@.request_id,
            ),
        forall|k: int|
            0 <= k < page.records@.len() ==> {
                let at = matches_of(records, query)[k] as int;
                &&& 0 <= at < records.len()
                &&& store::is_wanted(records[at], query)
                &&& (#[trigger] page.records@[k]).evidence@ == records[at].envelope->Present_0@
            },
        page.next_after_request_id is Some <==> matches_of(records, query).len()
            > page.records@.len(),
        page.next_after_request_id matches Some(after) ==> {
            &&& page.records@.len() > 0
            &&& after@ == page.records@.last().evidence@.request_id
            &&& store::query_fault(query_after(query, after)) is None
            &&& matches_of(records, query_after(query, after)) == matches_of(records, query).skip(
                page.records@.len() as int,
            )
        },
{
    let list = matches_of(records, query);
    let n = page.records@.len() as int;
    matches_rise(records, query);
    assert forall|k: int| 0 <= k < n implies {
        let at = list[k] as int;
        &&& 0 <= at < records.len()
        &&& store::is_wanted(records[at], query)
        &&& (#[trigger] page.records@[k]).evidence@ == records[at].envelope->Present_0@
    } by {
        assert(list.contains(list[k]));
        store::answer_is_complete(records, query, records.len() as int, list[k]);
    }
    if let Some(after) = page.next_after_request_id {
        let last = list[n - 1] as int;
        store::faultless_records(records, last);
        assert(page.records@[n - 1].evidence@ == records[last].envelope->Present_0@);
        assert(after@ == request_of(records[last]));
        rest_of_matches(records, query, n, after);
    }
}

/// Asking for what comes after the `n`-th match leaves the matches behind it.
proof fn rest_of_matches(
    records: Seq<LoadedEvidence>,
    query: ArchiveEvidenceQuery,
    n: int,
    after: String,
)
    requires
        records.len() <= usize::MAX,
        have_own_requests(records),
        0 < n <= matches_of(records, query).len(),
        after@ == request_of(records[matches_of(records, query)[n - 1] as int]),
    ensures
        matches_of(records, query_after(query, after)) == matches_of(records, query).skip(n),
{
    let list = matches_of(records, query);
    let next = query_after(query, after);
    let rest = list.skip(n);
    let count = records.len() as int;
    matches_rise(records, query);
    matches_rise(records, next);
    assert forall|i: int, j: int| 0 <= i < j < rest.len() implies text::before(
        request_of(records[#[trigger] rest[i] as int]),
        request_of(records[#[trigger] rest[j] as int]),
    ) by {
        assert(rest[i] == list[i + n] && rest[j] == list[j + n]);
    }
    assert(list.contains(list[n - 1]));
    store::answer_is_complete(records, query, count, list[n - 1]);
    assert forall|x: usize| matches_of(records, next).contains(x) <==> rest.contains(x) by {
        store::answer_is_complete(records, next, count, x);
        store::answer_is_complete(records, query, count, x);
        let mine = request_of(records[x as int]);
        if rest.contains(x) {
            let k = rest.index_of(x);
            assert(list[k + n] == x);
            assert(list.contains(x));
            assert(text::before(
                request_of(records[list[n - 1] as int]),
                request_of(records[list[k + n] as int]),
            ));
        }
        if matches_of(records, next).contains(x) {
            if let Some(first) = query.after_request_id {
                text::before_transitive(first@, after@, mine);
            }
            assert(list.contains(x));
            let k = list.index_of(x);
            if k < n {
                text::before_irreflexive(mine);
                if k < n - 1 {
                    assert(text::before(
                        request_of(records[list[k] as int]),
                        request_of(records[list[n - 1] as int]),
                    ));
                    text::before_transitive(mine, after@, mine);
                }
            }
            assert(rest[k - n] == x);
        }
    }
    rising_lists_agree(records, matches_of(records, next), rest);
}

/// Where every record and the state of every one can be read, each page can be had: a query
/// that is in order is answered, so that following the pages never stops short.
pub proof fn page_can_be_had(
    records: Seq<LoadedEvidence>,
    query: ArchiveEvidenceQuery,
    r: Result<ArchiveEvidencePage, ArchiveOutboxError>,
)
    requires
        records.len() <= usize::MAX,
        store::gives_page(records, query, r),
        store::query_fault(query) is None,
        store::first_record_fault(records) is None,
        forall|i: int|
            0 <= i < records.len() ==> store::record_status(#[trigger] records[i]) is Ok,
    ensures
        r is Ok,
{
    let list = matches_of(records, query);
    assert forall|k: int| 0 <= k < list.len() implies store::record_status(
        records[#[trigger] list[k] as int],
    ) is Ok by {
        assert(list.contains(list[k]));
        store::answer_is_complete(records, query, records.len() as int, list[k]);
    }
}

/// The pages of a query, put one after the other, list what the query asks for.
proof fn pages_list_the_matches(
    records: Seq<LoadedEvidence>,
    query: ArchiveEvidenceQuery,
    pages: Seq<ArchiveEvidencePage>,
)
    requires
        records.len() <= usize::MAX,
        have_own_requests(records),
        follows_pages(records, query, pages),
    ensures
        visited(pages).len() == matches_of(records, query).len(),
        forall|k: int|
            0 <= k < visited(pages).len() ==> (#[trigger] visited(pages)[k]).evidence@
                == records[matches_of(records, query)[k] as int].envelope->Present_0@,
    decreases pages.len(),
{
    let list = matches_of(records, query);
    let page = pages[0];
    let rest = pages.drop_first();
    let n = page.records@.len() as int;
    next_page_goes_on(records, query, page);
    assert(visited(pages) == page.records@ + visited(rest));
    match page.next_after_request_id {
        None => {
            assert(rest.len() == 0);
            assert(visited(rest) =~= Seq::empty());
        },
        Some(after) => {
            pages_list_the_matches(records, query_after(query, after), rest);
        },
    }
    assert forall|k: int| 0 <= k < visited(pages).len() implies (#[trigger] visited(
        pages,
    )[k]).evidence@ == records[list[k] as int].envelope->Present_0@ by {
        if k < n {
            assert(visited(pages)[k] == page.records@[k]);
        } else {
            assert(visited(pages)[k] == visited(rest)[k - n]);
            assert(list.skip(n)[k - n] == list[k]);
        }
    }
}

/// A reader who follows the pages of a query until one names no further page has seen every
/// record that the query asks for exactly once, by rising requests, and no other.
pub proof fn pages_visit_each_record_once(
    records: Seq<LoadedEvidence>,
    query: ArchiveEvidenceQuery,
    pages: Seq<ArchiveEvidencePage>,
)
    requires
        records.len() <= usize::MAX,
        have_own_requests(records),
        follows_pages(records, query, pages),
    ensures
        forall|i: int, j: int|
            0 <= i < j < visited(pages).len() ==> text::before(
                (#[trigger] visited(pages)[i]).evidence@.request_id,
                (#[trigger] visited(pages)[j]).evidence@.request_id,
            ),
        forall|at: int|
            0 <= at < records.len() && store::is_wanted(#[trigger] records[at], query) ==> exists|
                k: int,
            |
                0 <= k < visited(pages).len() && (#[trigger] visited(pages)[k]).evidence@
                    == records[at].envelope->Present_0@,
        forall|k: int|
            0 <= k < visited(pages).len() ==> exists|at: int|
                0 <= at < records.len() && store::is_wanted(#[trigger] records[at], query) && (
                #[trigger] visited(pages)[k]).evidence@ == records[at].envelope->Present_0@,
{
    let list = matches_of(records, query);
    let count = records.len() as int;
    let seen = visited(pages);
    matches_rise(records, query);
    pages_list_the_matches(records, query, pages);
    assert forall|i: int, j: int| 0 <= i < j < seen.len() implies text::before(
        (#[trigger] seen[i]).evidence@.request_id,
        (#[trigger] seen[j]).evidence@.request_id,
    ) by {
        assert(text::before(
            request_of(records[list[i] as int]),
            request_of(records[list[j] as int]),
        ));
    }
    assert forall|at: int|
        0 <= at < records.len() && store::is_wanted(#[trigger] records[at], query) implies exists|
        k: int,
    |
        0 <= k < seen.len() && (#[trigger] seen[k]).evidence@
            == records[at].envelope->Present_0@ by {
        store::answer_is_complete(records, query, count, at as usize);
        let k = list.index_of(at as usize);
        assert(seen[k].evidence@ == records[list[k] as int].envelope->Present_0@);
    }
    assert forall|k: int| 0 <= k < seen.len() implies exists|at: int|
        0 <= at < records.len() && store::is_wanted(#[trigger] records[at], query) && (
        #[trigger] seen[k]).evidence@ == records[at].envelope->Present_0@ by {
        assert(list.contains(list[k]));
        store::answer_is_complete(records, query, count, list[k]);
        assert(store::is_wanted(records[list[k] as int], query));
    }
}

} // verus!
