//! When a batch goes through: what is expected has to be held, and what it names to be named.

use vstd::prelude::*;

use crate::adapters::self_hosted::storage;
use crate::adapters::self_hosted::storage::{JournalEvent, JournalRow};
use crate::json;
use crate::json::{Json, JsonTree};
use crate::ports::{StorageExpectation, StorageWrite};
use crate::text;

verus! {

/// An expectation is met where nothing is expected and nothing held, or where what is held is
/// like what is expected.
pub proof fn expectation_is_met_by_what_is_held(
    expectation: StorageExpectation,
    wanted: Json,
    held: JsonTree,
)
    ensures
        expectation.value is None ==> storage::is_met(expectation, None) && !storage::is_met(
            expectation,
            Some(held),
        ),
        expectation.value == Some(wanted) ==> !storage::is_met(expectation, None),
        expectation.value == Some(wanted) ==> (storage::is_met(expectation, Some(held))
            <==> json::alike(held, wanted@)),
{
}

/// All expectations are met only where each of them is.
pub proof fn one_unmet_expectation_is_enough(
    expectations: Seq<StorageExpectation>,
    current: Seq<Option<JsonTree>>,
    i: int,
)
    requires
        0 <= i < expectations.len(),
        !storage::is_met(expectations[i], current[i]),
    ensures
        !storage::all_met(expectations, current),
{
}

/// A batch is named only where every write and every expectation of it has a place.
pub proof fn batch_names_every_place(
    writes: Seq<StorageWrite>,
    expectations: Seq<StorageExpectation>,
    i: int,
)
    requires
        storage::batch_is_named(writes, expectations),
    ensures
        0 <= i < writes.len() ==> !text::is_blank(writes[i].namespace@) && !text::is_blank(
            writes[i].key@,
        ),
        0 <= i < expectations.len() ==> !text::is_blank(expectations[i].namespace@)
            && !text::is_blank(expectations[i].key@),
{
}

proof fn tail_spells(n: nat, k: nat)
    requires
        k <= 8,
    ensures
        storage::number_of(
            Seq::new(k, |i: int| ((n / storage::pow256((k - 1 - i) as nat)) % 256) as u8),
        ) == n % storage::pow256(k),
        storage::pow256(k) > 0,
    decreases k,
{
    let bytes = Seq::new(k, |i: int| ((n / storage::pow256((k - 1 - i) as nat)) % 256) as u8);
    if k == 0 {
        assert(storage::pow256(0) == 1);
        assert(n % 1 == 0);
    } else {
        let m = n / 256;
        tail_spells(m, (k - 1) as nat);
        let shorter = Seq::new(
            (k - 1) as nat,
            |i: int| ((m / storage::pow256((k - 1 - 1 - i) as nat)) % 256) as u8,
        );
        let p = storage::pow256((k - 1) as nat);
        assert(storage::pow256(k) == 256 * p);
        assert forall|i: int| 0 <= i < k - 1 implies bytes.drop_last()[i] == shorter[i] by {
            let q = storage::pow256((k - 1 - 1 - i) as nat);
            assert(storage::pow256((k - 1 - i) as nat) == 256 * q);
            powers_are_positive((k - 1 - 1 - i) as nat);
            assert(n / (256 * q) == (n / 256) / q) by (nonlinear_arith)
                requires
                    q > 0,
            {
                vstd::arithmetic::div_mod::lemma_div_denominator(n as int, 256, q as int);
            }
        }
        assert(bytes.drop_last() =~= shorter);
        assert(storage::pow256(0) == 1);
        assert(n / 1 == n);
        assert(bytes.last() == (n % 256) as u8);
        assert(storage::number_of(bytes) == 256 * storage::number_of(shorter) + n % 256);
        assert(n % (256 * p) == 256 * ((n / 256) % p) + n % 256) by {
            vstd::arithmetic::div_mod::lemma_breakdown(n as int, 256, p as int);
        }
    }
}

proof fn powers_are_positive(k: nat)
    ensures
        storage::pow256(k) > 0,
    decreases k,
{
    if k > 0 {
        powers_are_positive((k - 1) as nat);
    }
}

/// A length is read back from the eight bytes that it is written in.
pub proof fn length_is_read_back(n: nat)
    requires
        n < 0x1_0000_0000_0000_0000,
    ensures
        storage::number_of(storage::eight_bytes(n)) == n,
        storage::eight_bytes(n).len() == 8,
{
    tail_spells(n, 8);
    let bytes = Seq::new(8, |i: int| ((n / storage::pow256((8 - 1 - i) as nat)) % 256) as u8);
    assert(storage::eight_bytes(n) =~= bytes);
    reveal_with_fuel(storage::pow256, 9);
    assert(storage::pow256(8) == 0x1_0000_0000_0000_0000);
    assert(n % 0x1_0000_0000_0000_0000 == n);
}

/// An entry of the journal covers its type, its authority, its key and its payload, and its
/// owner where it has one.
pub proof fn journal_entry_covers_its_parts(event: JournalEvent)
    ensures
        ({
            let tree = storage::journal_tree(event);
            &&& json::member(tree, "event_type"@) == Some(JsonTree::Text(event.event_type@))
            &&& json::member(tree, "authority"@) == Some(event.authority@)
            &&& json::member(tree, "idempotency_key"@) == Some(
                JsonTree::Text(event.idempotency_key@),
            )
            &&& json::member(tree, "payload"@) == Some(event.payload@)
            &&& event.owner matches Some(owner) ==> json::member(tree, "owner"@) == Some(owner@)
            &&& event.owner is None ==> json::member(tree, "owner"@) is None
        }),
{
    reveal_strlit("event_type");
    reveal_strlit("authority");
    reveal_strlit("idempotency_key");
    reveal_strlit("payload");
    reveal_strlit("owner");
    assert("event_type"@.len() == 10);
    assert("authority"@.len() == 9);
    assert("idempotency_key"@.len() == 15);
    assert("payload"@.len() == 7);
    assert("owner"@.len() == 5);
}

/// An entry is the one that is held under its earlier name only where neither has an owner and
/// both say the same.
pub proof fn earlier_entry_is_the_same(
    event: JournalEvent,
    authority_json: Seq<char>,
    payload_json: Seq<char>,
    held: JournalRow,
)
    ensures
        storage::is_legacy_entry(event, authority_json, payload_json, Some(held)) <==> {
            &&& event.owner is None
            &&& held.owner_json is None
            &&& held.event_type@ == event.event_type@
            &&& held.idempotency_key@ == event.idempotency_key@
            &&& held.authority_json@ == authority_json
            &&& held.payload_json@ == payload_json
        },
        !storage::is_legacy_entry(event, authority_json, payload_json, None),
{
}

} // verus!
