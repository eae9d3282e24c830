//! What a spelled digest keeps: two digits for each byte, and different bytes are spelled
//! differently.

use vstd::prelude::*;

use crate::digest;

verus! {

proof fn digits_differ(a: int, b: int)
    requires
        0 <= a < 16,
        0 <= b < 16,
        digest::hex_char(a) == digest::hex_char(b),
    ensures
        a == b,
{
}

/// Bytes are spelled with two digits each, and are known by their spelling.
pub proof fn bytes_are_known_by_their_spelling(a: Seq<u8>, b: Seq<u8>)
    ensures
        digest::hex(a).len() == 2 * a.len(),
        digest::hex(a) == digest::hex(b) ==> a == b,
{
    if digest::hex(a) == digest::hex(b) {
        assert(digest::hex(a).len() == 2 * a.len());
        assert(digest::hex(b).len() == 2 * b.len());
        assert(a.len() == b.len());
        assert forall|i: int| 0 <= i < a.len() implies a[i] == b[i] by {
            let x = digest::hex(a);
            let y = digest::hex(b);
            assert(x[2 * i] == y[2 * i]);
            assert(x[2 * i + 1] == y[2 * i + 1]);
            assert((2 * i) / 2 == i && (2 * i) % 2 == 0);
            assert((2 * i + 1) / 2 == i && (2 * i + 1) % 2 == 1);
            digits_differ(a[i] as int / 16, b[i] as int / 16);
            digits_differ(a[i] as int % 16, b[i] as int % 16);
        }
        assert(a =~= b);
    }
}

} // verus!
