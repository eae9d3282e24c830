//! The key-value storage and the journal: what is put, and which locks guard it.

pub mod batches;

use vstd::prelude::*;

use crate::digest;
use crate::digest::sha256;
use crate::json;
use crate::json::{Json, JsonMap, JsonTree};
use crate::ports::{StorageExpectation, StorageWrite};
use crate::text;
use crate::text::{blank, join2, join3, same};

use super::naming;
use super::naming::{canonical_hash, stable_id};

verus! {

/// Checks under what a value is put.
pub fn validate_key(namespace: &str, key: &str) -> (r: Result<(), String>)
    ensures
        match r {
            Ok(_) => !text::is_blank(namespace@) && !text::is_blank(key@),
            Err(e) => (text::is_blank(namespace@) || text::is_blank(key@)) && e@
                == "storage namespace and key are required"@,
        },
{
    if blank(namespace) || blank(key) {
        Err("storage namespace and key are required".to_owned())
    } else {
        Ok(())
    }
}

/// Whether everything that a batch names can be named.
pub open spec fn batch_is_named(
    writes: Seq<StorageWrite>,
    expectations: Seq<StorageExpectation>,
) -> bool {
    &&& forall|i: int|
        0 <= i < writes.len() ==> !text::is_blank((#[trigger] writes[i]).namespace@)
            && !text::is_blank(writes[i].key@)
    &&& forall|i: int|
        0 <= i < expectations.len() ==> !text::is_blank((#[trigger] expectations[i]).namespace@)
            && !text::is_blank(expectations[i].key@)
}

/// Checks what a batch names.
pub fn validate_batch(writes: &Vec<StorageWrite>, expectations: &Vec<StorageExpectation>) -> (r: Result<
    (),
    String,
>)
    ensures
        match r {
            Ok(_) => batch_is_named(writes@, expectations@),
            Err(e) => !batch_is_named(writes@, expectations@) && e@
                == "storage namespace and key are required"@,
        },
{
    let mut i: usize = 0;
    while i < writes.len()
        invariant
            i <= writes.len(),
            forall|j: int|
                0 <= j < i ==> !text::is_blank((#[trigger] writes@[j]).namespace@)
                    && !text::is_blank(writes@[j].key@),
        decreases writes.len() - i,
    {
        validate_key(writes[i].namespace, writes[i].key.as_str())?;
        i += 1;
    }
    let mut k: usize = 0;
    while k < expectations.len()
        invariant
            k <= expectations.len(),
            forall|j: int|
                0 <= j < writes@.len() ==> !text::is_blank((#[trigger] writes@[j]).namespace@)
                    && !text::is_blank(writes@[j].key@),
            forall|j: int|
                0 <= j < k ==> !text::is_blank((#[trigger] expectations@[j]).namespace@)
                    && !text::is_blank(expectations@[j].key@),
        decreases expectations.len() - k,
    {
        validate_key(expectations[k].namespace, expectations[k].key.as_str())?;
        k += 1;
    }
    Ok(())
}

/// Checks the namespace whose values are listed or cleared.
pub fn validate_namespace(namespace: &str) -> (r: Result<(), String>)
    ensures
        match r {
            Ok(_) => !text::is_blank(namespace@),
            Err(e) => text::is_blank(namespace@) && e@ == "storage namespace is required"@,
        },
{
    if blank(namespace) {
        Err("storage namespace is required".to_owned())
    } else {
        Ok(())
    }
}

/// Checks how many values a page may hold: none where it may hold none.
pub fn page_limit(namespace: &str, limit: usize) -> (r: Result<Option<i64>, String>)
    ensures
        if text::is_blank(namespace@) {
            r matches Err(e) && e@ == "storage namespace is required"@
        } else if limit == 0 {
            r == Ok::<Option<i64>, String>(None)
        } else if limit > i64::MAX {
            r matches Err(e) && e@ == "storage page limit is invalid"@
        } else {
            r matches Ok(Some(n)) && n == limit
        },
{
    validate_namespace(namespace)?;
    if limit == 0 {
        return Ok(None);
    }
    let wide: u64 = limit as u64;
    if wide > 0x7fff_ffff_ffff_ffff {
        return Err("storage page limit is invalid".to_owned());
    }
    Ok(Some(wide as i64))
}

/// What came of putting a value that is never changed.
#[derive(Clone, Copy, Debug, PartialEq, Eq, Structural)]
pub enum ImmutablePutOutcome {
    Created,
    AlreadyPresent,
}

/// Judges what came of putting a value that is never changed: where one was there before,
/// it has to be the same. `existing` is what was there, where it could be read.
pub fn settle_immutable(inserted: bool, existing: &Option<Json>, value: &Json) -> (r: Result<
    ImmutablePutOutcome,
    String,
>)
    ensures
        if inserted {
            r == Ok::<ImmutablePutOutcome, String>(ImmutablePutOutcome::Created)
        } else {
            match *existing {
                None => r matches Err(e) && e@ == "immutable_storage_existing_value_invalid"@,
                Some(held) => if json::alike(held@, value@) {
                    r == Ok::<ImmutablePutOutcome, String>(ImmutablePutOutcome::AlreadyPresent)
                } else {
                    r matches Err(e) && e@ == "immutable_storage_conflict"@
                },
            }
        },
{
    if inserted {
        return Ok(ImmutablePutOutcome::Created);
    }
    match existing {
        None => Err("immutable_storage_existing_value_invalid".to_owned()),
        Some(held) => if held.equals(value) {
            Ok(ImmutablePutOutcome::AlreadyPresent)
        } else {
            Err("immutable_storage_conflict".to_owned())
        },
    }
}

/// What came of putting values on a condition.
#[derive(Clone, Copy, Debug, PartialEq, Eq, Structural)]
pub enum ComparePutOutcome {
    Updated,
    Conflict,
}

/// Judges what came of putting a value on a condition.
pub fn settle_compared(updated: u64) -> (r: ComparePutOutcome)
    ensures
        r == (if updated == 1 {
            ComparePutOutcome::Updated
        } else {
            ComparePutOutcome::Conflict
        }),
{
    if updated == 1 {
        ComparePutOutcome::Updated
    } else {
        ComparePutOutcome::Conflict
    }
}

/// What an optional value stands for.
pub open spec fn tree_of(value: Option<Json>) -> Option<JsonTree> {
    match value {
        Some(v) => Some(v@),
        None => None,
    }
}

/// Whether what is held is what is expected.
pub open spec fn is_met(expectation: StorageExpectation, current: Option<JsonTree>) -> bool {
    match (current, tree_of(expectation.value)) {
        (Some(held), Some(wanted)) => json::alike(held, wanted),
        (None, None) => true,
        _ => false,
    }
}

/// What some held values stand for.
pub open spec fn trees_of(list: Seq<Option<Json>>) -> Seq<Option<JsonTree>> {
    list.map_values(|v: Option<Json>| tree_of(v))
}

/// Whether everything that is expected is held.
pub open spec fn all_met(
    expectations: Seq<StorageExpectation>,
    current: Seq<Option<JsonTree>>,
) -> bool {
    forall|i: int| 0 <= i < expectations.len() ==> is_met(#[trigger] expectations[i], current[i])
}

fn meets(expectation: &StorageExpectation, current: &Option<Json>) -> (r: bool)
    ensures
        r == is_met(*expectation, tree_of(*current)),
{
    match (&expectation.value, current) {
        (Some(a), Some(b)) => b.equals(a),
        (None, None) => true,
        _ => false,
    }
}

/// Judges whether a batch goes through: only where everything that it expects is held.
pub fn judge_batch(expectations: &Vec<StorageExpectation>, current: &Vec<Option<Json>>) -> (r:
    ComparePutOutcome)
    requires
        current@.len() == expectations@.len(),
    ensures
        r == (if all_met(expectations@, trees_of(current@)) {
            ComparePutOutcome::Updated
        } else {
            ComparePutOutcome::Conflict
        }),
{
    let mut i: usize = 0;
    while i < expectations.len()
        invariant
            i <= expectations.len(),
            current@.len() == expectations@.len(),
            forall|j: int|
                0 <= j < i ==> is_met(#[trigger] expectations@[j], trees_of(current@)[j]),
        decreases expectations.len() - i,
    {
        assert(trees_of(current@)[i as int] == tree_of(current@[i as int]));
        if !meets(&expectations[i], &current[i]) {
            assert(!is_met(expectations@[i as int], trees_of(current@)[i as int]));
            return ComparePutOutcome::Conflict;
        }
        i += 1;
    }
    ComparePutOutcome::Updated
}

/// A number in eight bytes, the highest first.
pub open spec fn eight_bytes(n: nat) -> Seq<u8> {
    Seq::new(8, |i: int| ((n / pow256((7 - i) as nat)) % 256) as u8)
}

/// A power of the number of bytes.
pub open spec fn pow256(k: nat) -> nat
    decreases k,
{
    if k == 0 {
        1
    } else {
        256 * pow256((k - 1) as nat)
    }
}

fn write_eight(n: u64) -> (r: Vec<u8>)
    ensures
        r@ == eight_bytes(n as nat),
{
    proof {
        reveal_with_fuel(pow256, 9);
    }
    let bytes: Vec<u8> = vec![
        ((n / 0x100_0000_0000_0000) % 256) as u8,
        ((n / 0x1_0000_0000_0000) % 256) as u8,
        ((n / 0x100_0000_0000) % 256) as u8,
        ((n / 0x1_0000_0000) % 256) as u8,
        ((n / 0x100_0000) % 256) as u8,
        ((n / 0x1_0000) % 256) as u8,
        ((n / 0x100) % 256) as u8,
        (n % 256) as u8,
    ];
    proof {
        assert(pow256(0) == 1);
        assert(pow256(1) == 0x100);
        assert(pow256(2) == 0x1_0000);
        assert(pow256(3) == 0x100_0000);
        assert(pow256(4) == 0x1_0000_0000);
        assert(pow256(5) == 0x100_0000_0000);
        assert(pow256(6) == 0x1_0000_0000_0000);
        assert(pow256(7) == 0x100_0000_0000_0000);
        let shown = eight_bytes(n as nat);
        assert(bytes@[0] == shown[0]);
        assert(bytes@[1] == shown[1]);
        assert(bytes@[2] == shown[2]);
        assert(bytes@[3] == shown[3]);
        assert(bytes@[4] == shown[4]);
        assert(bytes@[5] == shown[5]);
        assert(bytes@[6] == shown[6]);
        assert(n as nat / pow256(0) == n as nat);
        assert(bytes@[7] == shown[7]);
        assert(bytes@ =~= shown);
    }
    bytes
}

/// The number that some bytes spell, the highest first.
pub open spec fn number_of(bytes: Seq<u8>) -> nat
    decreases bytes.len(),
{
    if bytes.len() == 0 {
        0
    } else {
        256 * number_of(bytes.drop_last()) + bytes.last() as nat
    }
}

/// A number of eight bytes, taken as one with a sign.
pub open spec fn signed(n: nat) -> int {
    if n <= i64::MAX {
        n as int
    } else {
        n - 0x1_0000_0000_0000_0000
    }
}

proof fn number_fits(bytes: Seq<u8>)
    ensures
        number_of(bytes) < pow256(bytes.len()),
    decreases bytes.len(),
{
    if bytes.len() > 0 {
        number_fits(bytes.drop_last());
    }
}

proof fn pow_grows(a: nat, b: nat)
    requires
        a <= b,
    ensures
        pow256(a) <= pow256(b),
        pow256(a) >= 1,
    decreases b,
{
    if b == a {
        if a > 0 {
            pow_grows((a - 1) as nat, (b - 1) as nat);
        }
    } else {
        pow_grows(a, (b - 1) as nat);
    }
}

fn read_eight(bytes: &Vec<u8>) -> (r: i64)
    requires
        bytes@.len() >= 8,
    ensures
        r == signed(number_of(bytes@.take(8))),
{
    let mut n: u64 = 0;
    let mut i: usize = 0;
    assert(bytes@.take(0) =~= Seq::empty());
    while i < 8
        invariant
            i <= 8,
            bytes@.len() >= 8,
            n == number_of(bytes@.take(i as int)),
        decreases 8 - i,
    {
        proof {
            let next = bytes@.take(i + 1);
            assert(next.drop_last() =~= bytes@.take(i as int));
            assert(next.last() == bytes@[i as int]);
            number_fits(next);
            pow_grows(next.len(), 8);
            reveal_with_fuel(pow256, 9);
            assert(pow256(8) == 0x1_0000_0000_0000_0000);
        }
        n = n * 256 + bytes[i] as u64;
        i += 1;
    }
    if n <= 0x7fff_ffff_ffff_ffff {
        n as i64
    } else {
        let wide: i128 = (n as i128) - 0x1_0000_0000_0000_0000i128;
        wide as i64
    }
}

/// A text with its length before it.
pub open spec fn framed(value: Seq<char>) -> Seq<u8> {
    let bytes = vstd::utf8::encode_utf8(value);
    eight_bytes(bytes.len()) + bytes
}

/// The lock that guards a key.
pub open spec fn lock_of(namespace: Seq<char>, key: Seq<char>) -> int {
    signed(number_of(digest::sha256_of(framed(namespace) + framed(key)).take(8)))
}

fn put_framed(bytes: &mut Vec<u8>, value: &str)
    ensures
        final(bytes)@ == old(bytes)@ + framed(value@),
{
    let ghost before = bytes@;
    let body = value.as_bytes();
    let mut head = write_eight(body.len() as u64);
    bytes.append(&mut head);
    let ghost so_far = bytes@;
    let ghost all = vstd::utf8::encode_utf8(value@);
    let mut i: usize = 0;
    assert(so_far + all.take(0) =~= so_far);
    while i < body.len()
        invariant
            i <= body@.len(),
            body@ == all,
            bytes@ == so_far + all.take(i as int),
        decreases body.len() - i,
    {
        bytes.push(body[i]);
        proof {
            assert(so_far + all.take(i + 1) =~= (so_far + all.take(i as int)).push(all[i as int]));
        }
        i += 1;
    }
    proof {
        assert(all.take(all.len() as int) =~= all);
        assert(bytes@ =~= before + framed(value@));
    }
}

/// Works out the lock that guards a key.
pub fn lock_id(namespace: &str, key: &str) -> (r: i64)
    ensures
        r == lock_of(namespace@, key@),
{
    let mut bytes: Vec<u8> = Vec::new();
    put_framed(&mut bytes, namespace);
    put_framed(&mut bytes, key);
    proof {
        assert(bytes@ =~= framed(namespace@) + framed(key@));
    }
    let sum = sha256(bytes.as_slice());
    read_eight(&sum)
}

/// Whether numbers ascend.
pub open spec fn ascends(list: Seq<int>) -> bool {
    forall|i: int, j: int| 0 <= i < j < list.len() ==> (#[trigger] list[i]) < (#[trigger] list[j])
}

/// Some numbers without the bounds of their type.
pub open spec fn numbers(list: Seq<i64>) -> Seq<int> {
    list.map_values(|n: i64| n as int)
}

/// The locks of some expectations, as they stand.
pub open spec fn locks_of(expectations: Seq<StorageExpectation>) -> Seq<int> {
    expectations.map_values(|e: StorageExpectation| lock_of(e.namespace@, e.key@))
}

fn insert_lock(list: &mut Vec<i64>, lock: i64)
    requires
        ascends(numbers(old(list)@)),
    ensures
        ascends(numbers(final(list)@)),
        forall|x: int|
            numbers(final(list)@).contains(x) <==> (numbers(old(list)@).contains(x) || x == lock),
{
    let ghost before = numbers(list@);
    let mut at: usize = 0;
    while at < list.len() && list[at] < lock
        invariant
            at <= list@.len(),
            before == numbers(list@),
            forall|j: int| 0 <= j < at ==> #[trigger] before[j] < lock,
        decreases list.len() - at,
    {
        assert(before[at as int] == list@[at as int]);
        at += 1;
    }
    if at < list.len() && list[at] == lock {
        proof {
            assert(before[at as int] == lock);
            assert(before.contains(lock as int));
        }
        return;
    }
    list.insert(at, lock);
    proof {
        let after = numbers(list@);
        assert(after =~= before.insert(at as int, lock as int));
        assert forall|i: int, j: int| 0 <= i < j < after.len() implies (#[trigger] after[i]) < (
        #[trigger] after[j]) by {
            if i < at {
                assert(after[i] == before[i]);
            } else if i > at {
                assert(after[i] == before[i - 1]);
            }
            if j < at {
                assert(after[j] == before[j]);
            } else if j > at {
                assert(after[j] == before[j - 1]);
            }
            if i < at && j > at {
                assert(before[i] < before[j - 1]);
            }
            if i == at && j > at {
                assert(before[at as int] > lock);
                if j - 1 > at {
                    assert(before[at as int] < before[j - 1]);
                }
            }
        }
        assert forall|x: int| after.contains(x) <==> (before.contains(x) || x == lock) by {
            if after.contains(x) {
                let k = choose|k: int| 0 <= k < after.len() && after[k] == x;
                if k < at {
                    assert(before[k] == x);
                } else if k > at {
                    assert(before[k - 1] == x);
                }
            }
            if before.contains(x) {
                let k = choose|k: int| 0 <= k < before.len() && before[k] == x;
                if k < at {
                    assert(after[k] == x);
                } else {
                    assert(after[k + 1] == x);
                }
            }
            if x == lock {
                assert(after[at as int] == x);
            }
        }
    }
}

/// Lists the locks that guard what a batch expects: each once, in ascending order.
pub fn postgres_batch_lock_ids(expectations: &Vec<StorageExpectation>) -> (r: Vec<i64>)
    ensures
        ascends(numbers(r@)),
        forall|x: int| numbers(r@).contains(x) <==> locks_of(expectations@).contains(x),
{
    let ghost all = locks_of(expectations@);
    let mut out: Vec<i64> = Vec::new();
    let mut i: usize = 0;
    while i < expectations.len()
        invariant
            i <= expectations.len(),
            all == locks_of(expectations@),
            ascends(numbers(out@)),
            forall|x: int| numbers(out@).contains(x) <==> all.take(i as int).contains(x),
        decreases expectations.len() - i,
    {
        let lock: i64 = lock_id(expectations[i].namespace, expectations[i].key.as_str());
        insert_lock(&mut out, lock);
        proof {
            let shorter = all.take(i as int);
            let longer = all.take(i + 1);
            assert(longer =~= shorter.push(lock as int));
            assert forall|x: int| longer.contains(x) <==> (shorter.contains(x) || x == lock) by {
                if shorter.contains(x) {
                    let k = choose|k: int| 0 <= k < shorter.len() && shorter[k] == x;
                    assert(longer[k] == x);
                }
                if x == lock {
                    assert(longer[i as int] == x);
                }
            }
        }
        i += 1;
    }
    assert(all.take(all.len() as int) =~= all);
    out
}

proof fn ascending_is_determined(a: Seq<int>, b: Seq<int>)
    requires
        ascends(a),
        ascends(b),
        forall|x: int| a.contains(x) <==> b.contains(x),
    ensures
        a == b,
    decreases a.len(),
{
    if a.len() == 0 {
        if b.len() > 0 {
            assert(b.contains(b[0]));
        }
        assert(a =~= b);
    } else {
        assert(a.contains(a[0]));
        assert(b.len() > 0);
        assert(b.contains(b[0]));
        assert(a[0] == b[0]) by {
            let i = choose|i: int| 0 <= i < b.len() && b[i] == a[0];
            let j = choose|j: int| 0 <= j < a.len() && a[j] == b[0];
            if i > 0 {
                assert(b[0] < b[i]);
            }
            if j > 0 {
                assert(a[0] < a[j]);
            }
        }
        let ra = a.skip(1);
        let rb = b.skip(1);
        assert forall|x: int| ra.contains(x) <==> rb.contains(x) by {
            if ra.contains(x) {
                let k = choose|k: int| 0 <= k < ra.len() && ra[k] == x;
                assert(a[k + 1] == x);
                assert(a[0] < a[k + 1]);
                assert(a.contains(x));
                let m = choose|m: int| 0 <= m < b.len() && b[m] == x;
                assert(rb[m - 1] == x);
            }
            if rb.contains(x) {
                let k = choose|k: int| 0 <= k < rb.len() && rb[k] == x;
                assert(b[k + 1] == x);
                assert(b[0] < b[k + 1]);
                assert(b.contains(x));
                let m = choose|m: int| 0 <= m < a.len() && a[m] == x;
                assert(ra[m - 1] == x);
            }
        }
        assert(ascends(ra)) by {
            assert forall|i: int, j: int| 0 <= i < j < ra.len() implies (#[trigger] ra[i]) < (
            #[trigger] ra[j]) by {
                assert(a[i + 1] < a[j + 1]);
            }
        }
        assert(ascends(rb)) by {
            assert forall|i: int, j: int| 0 <= i < j < rb.len() implies (#[trigger] rb[i]) < (
            #[trigger] rb[j]) by {
                assert(b[i + 1] < b[j + 1]);
            }
        }
        ascending_is_determined(ra, rb);
        assert(a =~= seq![a[0]] + ra);
        assert(b =~= seq![b[0]] + rb);
    }
}

/// Locks are taken in one order, whatever the order of what is expected: two batches that
/// expect the same never wait for each other in turn.
pub proof fn lock_order_is_fixed(
    first: Seq<StorageExpectation>,
    second: Seq<StorageExpectation>,
    first_locks: Seq<int>,
    second_locks: Seq<int>,
)
    requires
        ascends(first_locks),
        ascends(second_locks),
        forall|x: int| first_locks.contains(x) <==> locks_of(first).contains(x),
        forall|x: int| second_locks.contains(x) <==> locks_of(second).contains(x),
        forall|x: int| locks_of(first).contains(x) <==> locks_of(second).contains(x),
    ensures
        first_locks == second_locks,
{
    ascending_is_determined(first_locks, second_locks);
}

/// An entry of the journal.
#[derive(Debug)]
pub struct JournalEvent {
    pub event_type: String,
    /// The authority of the entry, as it is written down.
    pub authority: Json,
    pub idempotency_key: String,
    pub payload: Json,
    /// The owner of the entry, where it has one, as it is written down.
    pub owner: Option<Json>,
}

/// What the identifier of an entry covers.
pub open spec fn journal_tree(event: JournalEvent) -> JsonTree {
    let entry = map![
        "event_type"@ => JsonTree::Text(event.event_type@),
        "authority"@ => event.authority@,
        "idempotency_key"@ => JsonTree::Text(event.idempotency_key@),
        "payload"@ => event.payload@,
    ];
    JsonTree::Object(
        match event.owner {
            Some(owner) => entry.insert("owner"@, owner@),
            None => entry,
        },
    )
}

fn journal_value(event: &JournalEvent) -> (r: Json)
    ensures
        r@ == journal_tree(*event),
{
    let entry = JsonMap::new().with("event_type", Json::text(event.event_type.as_str())).with(
        "authority",
        event.authority.copy(),
    ).with("idempotency_key", Json::text(event.idempotency_key.as_str())).with(
        "payload",
        event.payload.copy(),
    );
    match &event.owner {
        Some(owner) => Json::object(entry.with("owner", owner.copy())),
        None => Json::object(entry),
    }
}

/// The identifier of an entry: none where the entry has no canonical form.
pub open spec fn journal_name(bytes: Option<Seq<u8>>) -> Option<Seq<char>> {
    match naming::bare_digest(bytes) {
        Some(hash) => Some("journal-"@ + hash),
        None => None,
    }
}

/// Names an entry of the journal.
pub fn journal_id(event: &JournalEvent) -> (r: Option<String>)
    ensures
        text::option_text(r) == journal_name(
            crate::json::canonical_json_of(journal_tree(*event)),
        ),
{
    let value = journal_value(event);
    match canonical_hash(&value) {
        Some(hash) => Some(join2("journal-", hash.as_str())),
        None => None,
    }
}

/// The identifier that entries had before they had owners.
pub open spec fn legacy_name(event: JournalEvent) -> Seq<char> {
    naming::identifier("journal"@, event.event_type@ + ":"@ + event.idempotency_key@)
}

/// Names an entry as entries were named before they had owners.
pub fn legacy_journal_id(event: &JournalEvent) -> (r: String)
    ensures
        r@ == legacy_name(*event),
{
    let seed = join3(event.event_type.as_str(), ":", event.idempotency_key.as_str());
    stable_id("journal", seed.as_str())
}

/// An entry as the database holds it, in texts.
#[derive(Debug)]
pub struct JournalRow {
    pub event_type: String,
    pub authority_json: String,
    pub idempotency_key: String,
    pub payload_json: String,
    pub owner_json: Option<String>,
}

/// Whether an entry without an owner is the one that is held under its earlier name. The
/// texts are those of its authority and its payload.
pub open spec fn is_legacy_entry(
    event: JournalEvent,
    authority_json: Seq<char>,
    payload_json: Seq<char>,
    row: Option<JournalRow>,
) -> bool {
    event.owner is None && (row matches Some(held) && held.event_type@ == event.event_type@
        && held.authority_json@ == authority_json && held.idempotency_key@
        == event.idempotency_key@ && held.payload_json@ == payload_json && held.owner_json is None)
}

/// Tells whether an entry is already held under its earlier name.
pub fn is_held_under_legacy_id(
    event: &JournalEvent,
    authority_json: &str,
    payload_json: &str,
    row: &Option<JournalRow>,
) -> (r: bool)
    ensures
        r == is_legacy_entry(*event, authority_json@, payload_json@, *row),
{
    match row {
        Some(held) => event.owner.is_none() && same(
            held.event_type.as_str(),
            event.event_type.as_str(),
        ) && same(held.authority_json.as_str(), authority_json) && same(
            held.idempotency_key.as_str(),
            event.idempotency_key.as_str(),
        ) && same(held.payload_json.as_str(), payload_json) && held.owner_json.is_none(),
        None => false,
    }
}

/// Judges whether something was still owned: `changed` tells how many records were changed
/// under the claim.
pub fn settle_owned(changed: u64, stale: &str) -> (r: Result<(), String>)
    ensures
        match r {
            Ok(_) => changed == 1,
            Err(e) => changed != 1 && e@ == stale@,
        },
{
    if changed == 1 {
        Ok(())
    } else {
        Err(stale.to_owned())
    }
}

} // verus!
