//! Text helpers with contracts over the sequence of characters of a string.

pub mod reading;

use vstd::prelude::*;

verus! {

/// `String::push` appends one character to the end of the string.
pub assume_specification[ String::push ](target: &mut String, ch: char)
    ensures
        final(target)@ == old(target)@.push(ch),
;

/// Reads bytes as text: `String::from_utf8`, which gives the text that they encode, and
/// fails just where they are no UTF-8.
#[verifier::external_body]
pub(crate) fn utf8_text(bytes: Vec<u8>) -> (r: Option<String>)
    ensures
        match r {
            Some(s) => vstd::utf8::valid_utf8(bytes@) && s@ == vstd::utf8::decode_utf8(bytes@),
            None => !vstd::utf8::valid_utf8(bytes@),
        },
{
    String::from_utf8(bytes).ok()
}

/// What optional bytes hold.
pub open spec fn option_bytes(bytes: Option<Vec<u8>>) -> Option<Seq<u8>> {
    match bytes {
        Some(b) => Some(b@),
        None => None,
    }
}

/// Whether `ch` has the Unicode property `White_Space`.
pub open spec fn is_space(ch: char) -> bool {
    let c = ch as u32;
    ||| 0x09 <= c <= 0x0d
    ||| c == 0x20
    ||| c == 0x85
    ||| c == 0xa0
    ||| c == 0x1680
    ||| 0x2000 <= c <= 0x200a
    ||| c == 0x2028
    ||| c == 0x2029
    ||| c == 0x202f
    ||| c == 0x205f
    ||| c == 0x3000
}

/// Tests for the Unicode property `White_Space`.
pub fn char_is_space(ch: char) -> (r: bool)
    ensures
        r == is_space(ch),
{
    let c: u32 = ch as u32;
    (0x09 <= c && c <= 0x0d) || c == 0x20 || c == 0x85 || c == 0xa0 || c == 0x1680 || (0x2000 <= c
        && c <= 0x200a) || c == 0x2028 || c == 0x2029 || c == 0x202f || c == 0x205f || c == 0x3000
}

/// Whether `ch` is an ASCII decimal digit.
pub open spec fn is_digit(ch: char) -> bool {
    '0' <= ch <= '9'
}

/// Tests for an ASCII decimal digit.
pub fn char_is_digit(ch: char) -> (r: bool)
    ensures
        r == is_digit(ch),
{
    let c: u32 = ch as u32;
    0x30 <= c && c <= 0x39
}

/// Whether `ch` is an ASCII letter or digit.
pub open spec fn is_alphanumeric(ch: char) -> bool {
    is_digit(ch) || 'a' <= ch <= 'z' || 'A' <= ch <= 'Z'
}

/// Tests for an ASCII letter or digit.
pub fn char_is_alphanumeric(ch: char) -> (r: bool)
    ensures
        r == is_alphanumeric(ch),
{
    let c: u32 = ch as u32;
    (0x30 <= c && c <= 0x39) || (0x61 <= c && c <= 0x7a) || (0x41 <= c && c <= 0x5a)
}

/// `ch` with an ASCII capital replaced by its small letter.
pub open spec fn lower(ch: char) -> char {
    if 'A' <= ch <= 'Z' {
        (ch as u8 + 32) as char
    } else {
        ch
    }
}

/// Replaces an ASCII capital by its small letter.
pub fn char_to_lower(ch: char) -> (r: char)
    ensures
        r == lower(ch),
{
    let c: u32 = ch as u32;
    if 0x41 <= c && c <= 0x5a {
        let b: u8 = ch as u8;
        (b + 32) as char
    } else {
        ch
    }
}

/// `ch` with an ASCII small letter replaced by its capital.
pub open spec fn upper(ch: char) -> char {
    if 'a' <= ch <= 'z' {
        (ch as u8 - 32) as char
    } else {
        ch
    }
}

/// Replaces an ASCII small letter by its capital.
pub fn char_to_upper(ch: char) -> (r: char)
    ensures
        r == upper(ch),
{
    let c: u32 = ch as u32;
    if 0x61 <= c && c <= 0x7a {
        let b: u8 = ch as u8;
        (b - 32) as char
    } else {
        ch
    }
}

/// The characters of `text` as a vector.
pub fn chars_of(text: &str) -> (r: Vec<char>)
    ensures
        r@ == text@,
{
    let mut out: Vec<char> = Vec::new();
    for c in it: text.chars()
        invariant
            it.seq() == text@,
            out@ == text@.take(it.index() as int),
    {
        out.push(c);
        assert(text@.take(it.index() + 1) =~= text@.take(it.index() as int).push(c));
    }
    assert(text@.take(text@.len() as int) =~= text@);
    out
}

/// The string that holds the characters `chars[from..to]`.
pub fn slice_text(chars: &Vec<char>, from: usize, to: usize) -> (r: String)
    requires
        from <= to <= chars.len(),
    ensures
        r@ == chars@.subrange(from as int, to as int),
{
    let mut out: String = String::new();
    let mut i: usize = from;
    while i < to
        invariant
            from <= i <= to <= chars.len(),
            out@ == chars@.subrange(from as int, i as int),
        decreases to - i,
    {
        out.push(chars[i]);
        proof {
            assert(chars@.subrange(from as int, i + 1) =~= chars@.subrange(from as int, i as int).push(
                chars@[i as int],
            ));
        }
        i += 1;
    }
    out
}

/// Whether two texts hold the same characters.
pub fn same(a: &str, b: &str) -> (r: bool)
    ensures
        r == (a@ == b@),
{
    a.to_owned() == b.to_owned()
}

/// Whether an optional text is present and equals `b`.
pub fn same_as(a: &Option<String>, b: &str) -> (r: bool)
    ensures
        r == (a is Some && a->0@ == b@),
{
    match a {
        Some(t) => same(t.as_str(), b),
        None => false,
    }
}

/// `a` followed by `b`.
pub fn join2(a: &str, b: &str) -> (r: String)
    ensures
        r@ == a@ + b@,
{
    let mut out: String = a.to_owned();
    out.append(b);
    out
}

/// `a` followed by `b` and `c`.
pub fn join3(a: &str, b: &str, c: &str) -> (r: String)
    ensures
        r@ == a@ + b@ + c@,
{
    let mut out: String = a.to_owned();
    out.append(b);
    out.append(c);
    out
}

/// `a` followed by `b`, `c` and `d`.
pub fn join4(a: &str, b: &str, c: &str, d: &str) -> (r: String)
    ensures
        r@ == a@ + b@ + c@ + d@,
{
    let mut out: String = a.to_owned();
    out.append(b);
    out.append(c);
    out.append(d);
    out
}

/// `a` followed by `b`, `c`, `d` and `e`.
pub fn join5(a: &str, b: &str, c: &str, d: &str, e: &str) -> (r: String)
    ensures
        r@ == a@ + b@ + c@ + d@ + e@,
{
    let mut out: String = a.to_owned();
    out.append(b);
    out.append(c);
    out.append(d);
    out.append(e);
    out
}

/// Whether every character of `s` is white space.
pub open spec fn is_blank(s: Seq<char>) -> bool {
    forall|i: int| 0 <= i < s.len() ==> is_space(#[trigger] s[i])
}

/// Tests whether a text holds nothing but white space.
pub fn blank(text: &str) -> (r: bool)
    ensures
        r == is_blank(text@),
{
    let chars = chars_of(text);
    let mut i: usize = 0;
    while i < chars.len()
        invariant
            i <= chars.len(),
            chars@ == text@,
            forall|j: int| 0 <= j < i ==> is_space(#[trigger] chars@[j]),
        decreases chars.len() - i,
    {
        if !char_is_space(chars[i]) {
            proof {
                assert(!is_space(chars@[i as int]));
            }
            return false;
        }
        i += 1;
    }
    true
}

/// `s` without its leading white space.
pub open spec fn trim_left(s: Seq<char>) -> Seq<char>
    decreases s.len(),
{
    if s.len() > 0 && is_space(s[0]) {
        trim_left(s.drop_first())
    } else {
        s
    }
}

/// `s` without its trailing white space.
pub open spec fn trim_right(s: Seq<char>) -> Seq<char>
    decreases s.len(),
{
    if s.len() > 0 && is_space(s.last()) {
        trim_right(s.drop_last())
    } else {
        s
    }
}

/// `s` without its leading and trailing white space.
pub open spec fn trimmed(s: Seq<char>) -> Seq<char> {
    trim_right(trim_left(s))
}

/// The text without its leading and trailing white space.
pub fn trim(text: &str) -> (r: String)
    ensures
        r@ == trimmed(text@),
{
    let chars = chars_of(text);
    let n: usize = chars.len();
    let mut from: usize = 0;
    proof {
        assert(chars@.subrange(0, n as int) =~= chars@);
    }
    while from < n && char_is_space(chars[from])
        invariant
            n == chars.len(),
            from <= n,
            trim_left(chars@.subrange(from as int, n as int)) == trim_left(text@),
        decreases n - from,
    {
        proof {
            assert(chars@.subrange(from as int, n as int).drop_first() =~= chars@.subrange(
                from + 1,
                n as int,
            ));
        }
        from += 1;
    }
    let mut to: usize = n;
    while to > from && char_is_space(chars[to - 1])
        invariant
            from <= to <= n == chars.len(),
            trim_right(chars@.subrange(from as int, to as int)) == trimmed(text@),
        decreases to,
    {
        proof {
            assert(chars@.subrange(from as int, to as int).drop_last() =~= chars@.subrange(
                from as int,
                to - 1,
            ));
        }
        to -= 1;
    }
    slice_text(&chars, from, to)
}

/// `s` with every ASCII capital replaced by its small letter.
pub open spec fn lowered(s: Seq<char>) -> Seq<char> {
    s.map_values(|c: char| lower(c))
}

/// Replaces every ASCII capital by its small letter.
pub fn to_lower(text: &str) -> (r: String)
    ensures
        r@ == lowered(text@),
{
    let chars = chars_of(text);
    let mut out: String = String::new();
    let mut i: usize = 0;
    while i < chars.len()
        invariant
            i <= chars.len(),
            out@ == lowered(chars@.take(i as int)),
        decreases chars.len() - i,
    {
        out.push(char_to_lower(chars[i]));
        proof {
            assert(lowered(chars@.take(i + 1)) =~= lowered(chars@.take(i as int)).push(
                lower(chars@[i as int]),
            ));
        }
        i += 1;
    }
    assert(chars@.take(chars@.len() as int) =~= chars@);
    out
}

/// Whether `part` stands in `s` at index `at`.
pub open spec fn stands_at(s: Seq<char>, part: Seq<char>, at: int) -> bool {
    0 <= at && at + part.len() <= s.len() && s.subrange(at, at + part.len()) == part
}

/// Whether `part` occurs in `s`.
pub open spec fn occurs(s: Seq<char>, part: Seq<char>) -> bool {
    exists|at: int| #[trigger] stands_at(s, part, at)
}

/// Whether `s` begins with `part`.
pub open spec fn begins(s: Seq<char>, part: Seq<char>) -> bool {
    stands_at(s, part, 0)
}

/// Whether `s` ends with `part`.
pub open spec fn ends(s: Seq<char>, part: Seq<char>) -> bool {
    stands_at(s, part, s.len() - part.len())
}

/// Tests whether `part` stands in `s` at index `at`.
pub fn found_at(s: &Vec<char>, part: &Vec<char>, at: usize) -> (r: bool)
    ensures
        r == stands_at(s@, part@, at as int),
{
    if part.len() > s.len() || at > s.len() - part.len() {
        return false;
    }
    let mut i: usize = 0;
    while i < part.len()
        invariant
            i <= part.len(),
            at + part.len() <= s.len(),
            s@.subrange(at as int, at + i) == part@.take(i as int),
        decreases part.len() - i,
    {
        if s[at + i] != part[i] {
            proof {
                assert(s@.subrange(at as int, at + part.len())[i as int] != part@[i as int]);
            }
            return false;
        }
        proof {
            assert(s@.subrange(at as int, at + i + 1) =~= s@.subrange(at as int, at + i).push(
                s@[at + i],
            ));
            assert(part@.take(i + 1) =~= part@.take(i as int).push(part@[i as int]));
        }
        i += 1;
    }
    assert(part@.take(part@.len() as int) =~= part@);
    true
}

/// Tests whether `part` occurs in `text`.
pub fn contains(text: &str, part: &str) -> (r: bool)
    ensures
        r == occurs(text@, part@),
{
    let s = chars_of(text);
    let p = chars_of(part);
    let mut at: usize = 0;
    while at < s.len()
        invariant
            at <= s.len(),
            s@ == text@,
            p@ == part@,
            forall|k: int| 0 <= k < at ==> !stands_at(s@, p@, k),
        decreases s.len() - at,
    {
        if found_at(&s, &p, at) {
            return true;
        }
        at += 1;
    }
    let r = found_at(&s, &p, at);
    proof {
        if !r {
            assert forall|k: int| !stands_at(s@, p@, k) by {}
        }
    }
    r
}

/// Tests whether `text` begins with `part`.
pub fn starts_with(text: &str, part: &str) -> (r: bool)
    ensures
        r == begins(text@, part@),
{
    let s = chars_of(text);
    let p = chars_of(part);
    found_at(&s, &p, 0)
}

/// Tests whether `text` ends with `part`.
pub fn ends_with(text: &str, part: &str) -> (r: bool)
    ensures
        r == ends(text@, part@),
{
    let s = chars_of(text);
    let p = chars_of(part);
    if p.len() > s.len() {
        return false;
    }
    found_at(&s, &p, s.len() - p.len())
}

/// Whether one of the needles occurs in `s`.
pub open spec fn occurs_any(s: Seq<char>, needles: Seq<Seq<char>>) -> bool {
    exists|i: int| 0 <= i < needles.len() && occurs(s, #[trigger] needles[i])
}

/// Tests whether one of the needles occurs in `value`.
pub fn contains_any(value: &str, needles: &Vec<&'static str>) -> (r: bool)
    ensures
        r == occurs_any(value@, needles@.map_values(|n: &'static str| n@)),
{
    let ghost shown = needles@.map_values(|n: &'static str| n@);
    let mut i: usize = 0;
    while i < needles.len()
        invariant
            i <= needles.len(),
            shown == needles@.map_values(|n: &'static str| n@),
            forall|j: int| 0 <= j < i ==> !occurs(value@, #[trigger] shown[j]),
        decreases needles.len() - i,
    {
        if contains(value, needles[i]) {
            proof {
                assert(occurs(value@, shown[i as int]));
            }
            return true;
        }
        proof {
            assert(shown[i as int] == needles@[i as int]@);
        }
        i += 1;
    }
    false
}

/// The decimal digit with the given value.
pub open spec fn digit_char(d: nat) -> char {
    ((48 + d) as u8) as char
}

/// The decimal numeral of `n`.
pub open spec fn decimal(n: nat) -> Seq<char>
    decreases n,
{
    if n < 10 {
        seq![digit_char(n)]
    } else {
        decimal(n / 10).push(digit_char(n % 10))
    }
}

/// The decimal numeral of `n`, with a minus sign where `n` is negative.
pub open spec fn signed_decimal(n: int) -> Seq<char> {
    if n < 0 {
        seq!['-'] + decimal((-n) as nat)
    } else {
        decimal(n as nat)
    }
}

/// Writes `n` in decimal.
pub fn decimal_text(n: u64) -> (r: String)
    ensures
        r@ == decimal(n as nat),
    decreases n,
{
    let last: u8 = (n % 10) as u8;
    let c: char = (48u8 + last) as char;
    let mut out: String = if n < 10 {
        String::new()
    } else {
        decimal_text(n / 10)
    };
    out.push(c);
    proof {
        if n < 10 {
            assert(out@ =~= seq![digit_char(n as nat)]);
        }
    }
    out
}

/// Writes `n` in decimal, with a minus sign where it is negative.
pub fn signed_decimal_text(n: i64) -> (r: String)
    ensures
        r@ == signed_decimal(n as int),
{
    if n >= 0 {
        return decimal_text(n as u64);
    }
    let magnitude: u64 = if n == i64::MIN {
        9223372036854775808u64
    } else {
        (-n) as u64
    };
    let digits = decimal_text(magnitude);
    let mut out: String = String::new();
    out.push('-');
    out.append(digits.as_str());
    proof {
        assert(out@ =~= seq!['-'] + decimal((-n) as nat));
    }
    out
}

/// Whether `a` comes before `b` in the order of their characters' code points.
pub open spec fn before(a: Seq<char>, b: Seq<char>) -> bool
    decreases a.len(),
{
    if b.len() == 0 {
        false
    } else if a.len() == 0 {
        true
    } else if a[0] == b[0] {
        before(a.drop_first(), b.drop_first())
    } else {
        a[0] < b[0]
    }
}

/// No text comes before itself.
pub proof fn before_irreflexive(a: Seq<char>)
    ensures
        !before(a, a),
    decreases a.len(),
{
    if a.len() > 0 {
        before_irreflexive(a.drop_first());
    }
}

/// Of two different texts one comes before the other.
pub proof fn before_total(a: Seq<char>, b: Seq<char>)
    ensures
        before(a, b) || before(b, a) || a == b,
    decreases a.len(),
{
    if a.len() > 0 && b.len() > 0 {
        if a[0] == b[0] {
            before_total(a.drop_first(), b.drop_first());
            if a.drop_first() == b.drop_first() {
                assert(a =~= seq![a[0]] + a.drop_first());
                assert(b =~= seq![b[0]] + b.drop_first());
            }
        }
    } else if a.len() == 0 && b.len() == 0 {
        assert(a =~= b);
    }
}

/// The order is transitive.
pub proof fn before_transitive(a: Seq<char>, b: Seq<char>, c: Seq<char>)
    requires
        before(a, b),
        before(b, c),
    ensures
        before(a, c),
    decreases a.len(),
{
    if a.len() > 0 && b.len() > 0 && c.len() > 0 && a[0] == b[0] && b[0] == c[0] {
        before_transitive(a.drop_first(), b.drop_first(), c.drop_first());
    }
}

/// Tests whether the code point of `p` is smaller than that of `q`.
pub fn char_before(p: char, q: char) -> (r: bool)
    ensures
        r == (p < q),
{
    (p as u32) < (q as u32)
}

/// Tests whether `a` comes before `b`.
pub fn is_before(a: &str, b: &str) -> (r: bool)
    ensures
        r == before(a@, b@),
{
    let x = chars_of(a);
    let y = chars_of(b);
    let mut i: usize = 0;
    proof {
        assert(x@.skip(0) =~= x@);
        assert(y@.skip(0) =~= y@);
    }
    while i < x.len() && i < y.len() && x[i] == y[i]
        invariant
            i <= x.len(),
            i <= y.len(),
            x@ == a@,
            y@ == b@,
            before(a@, b@) == before(x@.skip(i as int), y@.skip(i as int)),
        decreases x.len() - i,
    {
        proof {
            assert(x@.skip(i as int).drop_first() =~= x@.skip(i + 1));
            assert(y@.skip(i as int).drop_first() =~= y@.skip(i + 1));
        }
        i += 1;
    }
    if i >= y.len() {
        false
    } else if i >= x.len() {
        true
    } else {
        let p: char = x[i];
        let q: char = y[i];
        proof {
            assert(x@.skip(i as int)[0] == p);
            assert(y@.skip(i as int)[0] == q);
        }
        char_before(p, q)
    }
}

/// The texts of a list, each as its characters.
pub open spec fn texts(list: Seq<String>) -> Seq<Seq<char>> {
    list.map_values(|s: String| s@)
}

/// Whether each text comes before all later ones, so that none occurs twice.
pub open spec fn ascending(list: Seq<Seq<char>>) -> bool {
    forall|i: int, j: int| 0 <= i < j < list.len() ==> before(#[trigger] list[i], #[trigger] list[j])
}

/// Two ascending lists with the same members are equal.
pub proof fn ascending_is_determined(a: Seq<Seq<char>>, b: Seq<Seq<char>>)
    requires
        ascending(a),
        ascending(b),
        forall|x: Seq<char>| a.contains(x) <==> b.contains(x),
    ensures
        a == b,
    decreases a.len(),
{
    if a.len() == 0 {
        if b.len() > 0 {
            assert(b.contains(b[0]));
        }
        assert(a =~= b);
    } else {
        assert(a.contains(a[0]));
        let k = choose|k: int| 0 <= k < b.len() && b[k] == a[0];
        assert(b.contains(b[0]));
        let m = choose|m: int| 0 <= m < a.len() && a[m] == b[0];
        if k > 0 {
            assert(before(b[0], b[k]));
            if m > 0 {
                assert(before(a[0], a[m]));
                before_transitive(a[0], b[0], a[0]);
            }
            before_irreflexive(a[0]);
        }
        let a1 = a.drop_first();
        let b1 = b.drop_first();
        assert forall|x: Seq<char>| a1.contains(x) <==> b1.contains(x) by {
            if a1.contains(x) {
                let i = choose|i: int| 0 <= i < a1.len() && a1[i] == x;
                assert(a[i + 1] == x);
                before_irreflexive(x);
                assert(before(a[0], a[i + 1]));
                assert(a.contains(x));
                let j = choose|j: int| 0 <= j < b.len() && b[j] == x;
                assert(b1[j - 1] == x);
            }
            if b1.contains(x) {
                let i = choose|i: int| 0 <= i < b1.len() && b1[i] == x;
                assert(b[i + 1] == x);
                before_irreflexive(x);
                assert(before(b[0], b[i + 1]));
                assert(b.contains(x));
                let j = choose|j: int| 0 <= j < a.len() && a[j] == x;
                assert(a1[j - 1] == x);
            }
        }
        assert forall|i: int, j: int| 0 <= i < j < a1.len() implies before(a1[i], a1[j]) by {
            assert(before(a[i + 1], a[j + 1]));
        }
        assert forall|i: int, j: int| 0 <= i < j < b1.len() implies before(b1[i], b1[j]) by {
            assert(before(b[i + 1], b[j + 1]));
        }
        ascending_is_determined(a1, b1);
        assert(a =~= seq![a[0]] + a1);
        assert(b =~= seq![b[0]] + b1);
    }
}

/// Puts `item` at its place in an ascending list unless it is already there.
pub fn insert_ascending(list: &mut Vec<String>, item: String)
    requires
        ascending(texts(old(list)@)),
    ensures
        ascending(texts(final(list)@)),
        forall|x: Seq<char>|
            texts(final(list)@).contains(x) <==> texts(old(list)@).contains(x) || x == item@,
{
    let ghost before_insert = texts(list@);
    let n: usize = list.len();
    let mut at: usize = 0;
    while at < n && is_before(list[at].as_str(), item.as_str())
        invariant
            n == list.len(),
            at <= n,
            before_insert == texts(list@),
            list@ == old(list)@,
            forall|j: int| 0 <= j < at ==> before(#[trigger] before_insert[j], item@),
        decreases n - at,
    {
        assert(before_insert[at as int] == list@[at as int]@);
        at += 1;
    }
    if at < n && same(list[at].as_str(), item.as_str()) {
        proof {
            assert(before_insert[at as int] == item@);
        }
        return;
    }
    let ghost item_text = item@;
    list.insert(at, item);
    proof {
        let after_insert = texts(list@);
        assert(after_insert =~= before_insert.insert(at as int, item_text));
        if at < n {
            before_total(before_insert[at as int], item_text);
        }
        assert forall|i: int, j: int| 0 <= i < j < after_insert.len() implies before(
            #[trigger] after_insert[i],
            #[trigger] after_insert[j],
        ) by {
            if j < at {
                assert(before(before_insert[i], before_insert[j]));
            } else if i < at && j == at {
                assert(before(before_insert[i], item_text));
            } else if i < at {
                assert(before(before_insert[i], before_insert[j - 1]));
            } else if i == at {
                if j - 1 > at {
                    assert(before(before_insert[at as int], before_insert[j - 1]));
                    before_transitive(item_text, before_insert[at as int], before_insert[j - 1]);
                }
            } else {
                assert(before(before_insert[i - 1], before_insert[j - 1]));
            }
        }
        assert forall|x: Seq<char>|
            after_insert.contains(x) <==> before_insert.contains(x) || x == item_text by {
            if before_insert.contains(x) {
                let k = choose|k: int| 0 <= k < before_insert.len() && before_insert[k] == x;
                if k < at {
                    assert(after_insert[k] == x);
                } else {
                    assert(after_insert[k + 1] == x);
                }
            }
            if x == item_text {
                assert(after_insert[at as int] == x);
            }
            if after_insert.contains(x) {
                let k = choose|k: int| 0 <= k < after_insert.len() && after_insert[k] == x;
                if k < at {
                    assert(before_insert[k] == x);
                } else if k > at {
                    assert(before_insert[k - 1] == x);
                }
            }
        }
    }
}

/// The members of `list` in ascending order, each once.
pub fn sorted_unique(list: &Vec<String>) -> (r: Vec<String>)
    ensures
        ascending(texts(r@)),
        forall|x: Seq<char>| texts(r@).contains(x) <==> texts(list@).contains(x),
{
    let mut out: Vec<String> = Vec::new();
    let mut i: usize = 0;
    while i < list.len()
        invariant
            i <= list.len(),
            ascending(texts(out@)),
            forall|x: Seq<char>| texts(out@).contains(x) <==> texts(list@.take(i as int)).contains(x),
        decreases list.len() - i,
    {
        insert_ascending(&mut out, list[i].clone());
        proof {
            let shorter = texts(list@.take(i as int));
            let longer = texts(list@.take(i + 1));
            assert(longer =~= shorter.push(list@[i as int]@));
            assert forall|x: Seq<char>| longer.contains(x) <==> shorter.contains(x) || x
                == list@[i as int]@ by {
                if shorter.contains(x) {
                    let k = choose|k: int| 0 <= k < shorter.len() && shorter[k] == x;
                    assert(longer[k] == x);
                }
                if x == list@[i as int]@ {
                    assert(longer[i as int] == x);
                }
            }
        }
        i += 1;
    }
    assert(list@.take(list@.len() as int) =~= list@);
    out
}

/// Tests whether `item` is in `list`.
pub fn listed(list: &Vec<String>, item: &str) -> (r: bool)
    ensures
        r == texts(list@).contains(item@),
{
    let mut i: usize = 0;
    while i < list.len()
        invariant
            i <= list.len(),
            forall|j: int| 0 <= j < i ==> #[trigger] list@[j]@ != item@,
        decreases list.len() - i,
    {
        if same(list[i].as_str(), item) {
            proof {
                assert(texts(list@)[i as int] == item@);
            }
            return true;
        }
        i += 1;
    }
    proof {
        if texts(list@).contains(item@) {
            let k = choose|k: int| 0 <= k < texts(list@).len() && texts(list@)[k] == item@;
            assert(list@[k]@ == item@);
        }
    }
    false
}

/// Tests whether two lists hold the same texts in the same order.
pub fn same_list(a: &Vec<String>, b: &Vec<String>) -> (r: bool)
    ensures
        r == (texts(a@) == texts(b@)),
{
    if a.len() != b.len() {
        assert(texts(a@).len() != texts(b@).len());
        return false;
    }
    let mut i: usize = 0;
    while i < a.len()
        invariant
            i <= a.len() == b.len(),
            forall|j: int| 0 <= j < i ==> #[trigger] a@[j]@ == b@[j]@,
        decreases a.len() - i,
    {
        if !same(a[i].as_str(), b[i].as_str()) {
            proof {
                assert(texts(a@)[i as int] != texts(b@)[i as int]);
            }
            return false;
        }
        i += 1;
    }
    assert(texts(a@) =~= texts(b@));
    true
}

/// A copy of `list`.
pub fn copy_list(list: &Vec<String>) -> (r: Vec<String>)
    ensures
        r@ == list@,
{
    let mut out: Vec<String> = Vec::new();
    let mut i: usize = 0;
    while i < list.len()
        invariant
            i <= list.len(),
            out@ == list@.take(i as int),
        decreases list.len() - i,
    {
        out.push(list[i].clone());
        assert(list@.take(i + 1) =~= list@.take(i as int).push(list@[i as int]));
        i += 1;
    }
    assert(list@.take(list@.len() as int) =~= list@);
    out
}

/// A copy of an optional text.
pub fn copy_option(value: &Option<String>) -> (r: Option<String>)
    ensures
        r == *value,
{
    match value {
        Some(t) => Some(t.clone()),
        None => None,
    }
}

/// The view of an optional text.
pub open spec fn option_text(value: Option<String>) -> Option<Seq<char>> {
    match value {
        Some(t) => Some(t@),
        None => None,
    }
}

/// Whether two texts that there may be are the same.
pub fn same_option(a: &Option<String>, b: &Option<String>) -> (r: bool)
    ensures
        r == (option_text(*a) == option_text(*b)),
{
    match (a, b) {
        (Some(x), Some(y)) => same(x.as_str(), y.as_str()),
        (None, None) => true,
        _ => false,
    }
}

/// The parts of `s` between occurrences of `sep`.
pub open spec fn split_on(s: Seq<char>, sep: char) -> Seq<Seq<char>>
    decreases s.len(),
{
    if s.len() == 0 {
        seq![Seq::empty()]
    } else {
        let earlier = split_on(s.drop_last(), sep);
        if s.last() == sep {
            earlier.push(Seq::empty())
        } else {
            earlier.drop_last().push(earlier.last().push(s.last()))
        }
    }
}

/// There is always at least one part.
pub proof fn split_is_not_empty(s: Seq<char>, sep: char)
    ensures
        split_on(s, sep).len() > 0,
    decreases s.len(),
{
    if s.len() > 0 {
        split_is_not_empty(s.drop_last(), sep);
    }
}

/// Splits `text` at each occurrence of `sep`.
pub fn split(text: &str, sep: char) -> (r: Vec<String>)
    ensures
        texts(r@) == split_on(text@, sep),
        r@.len() > 0,
{
    let chars = chars_of(text);
    let mut parts: Vec<String> = Vec::new();
    let mut current: String = String::new();
    let mut i: usize = 0;
    proof {
        assert(texts(parts@).push(current@) =~= seq![Seq::<char>::empty()]);
        assert(chars@.take(0) =~= Seq::empty());
    }
    while i < chars.len()
        invariant
            i <= chars.len(),
            chars@ == text@,
            texts(parts@).push(current@) == split_on(chars@.take(i as int), sep),
        decreases chars.len() - i,
    {
        let ghost earlier = texts(parts@);
        let ghost open_part = current@;
        proof {
            assert(chars@.take(i + 1).drop_last() =~= chars@.take(i as int));
            assert(chars@.take(i + 1).last() == chars@[i as int]);
            assert(earlier.push(open_part).drop_last() =~= earlier);
        }
        if chars[i] == sep {
            parts.push(current);
            current = String::new();
            proof {
                assert(texts(parts@) =~= earlier.push(open_part));
            }
        } else {
            current.push(chars[i]);
        }
        i += 1;
    }
    let ghost earlier = texts(parts@);
    let ghost open_part = current@;
    parts.push(current);
    proof {
        assert(texts(parts@) =~= earlier.push(open_part));
        assert(chars@.take(chars@.len() as int) =~= chars@);
    }
    parts
}

/// A line that ended in a line feed, without the carriage return before that.
pub open spec fn without_return(line: Seq<char>) -> Seq<char> {
    if line.len() > 0 && line.last() == '\r' {
        line.drop_last()
    } else {
        line
    }
}

/// The lines of `s`: each ends in a line feed, or a carriage return and a line feed;
/// the last one may lack it.
pub open spec fn lines(s: Seq<char>) -> Seq<Seq<char>> {
    let parts = split_on(s, '\n');
    let ended = Seq::new((parts.len() - 1) as nat, |i: int| without_return(parts[i]));
    if parts.last().len() == 0 {
        ended
    } else {
        ended.push(parts.last())
    }
}

fn cut_return(line: &str) -> (r: String)
    ensures
        r@ == without_return(line@),
{
    let chars = chars_of(line);
    let n: usize = chars.len();
    if n > 0 && chars[n - 1] == '\r' {
        let r = slice_text(&chars, 0, n - 1);
        assert(chars@.subrange(0, n - 1) =~= line@.drop_last());
        r
    } else {
        line.to_owned()
    }
}

/// Cuts `text` into its lines.
pub fn lines_of(text: &str) -> (r: Vec<String>)
    ensures
        texts(r@) == lines(text@),
{
    let parts = split(text, '\n');
    let ghost shown = split_on(text@, '\n');
    let n: usize = parts.len();
    let mut out: Vec<String> = Vec::new();
    let mut i: usize = 0;
    while i < n - 1
        invariant
            0 < n == parts@.len(),
            i <= n - 1,
            texts(parts@) == shown,
            texts(out@) == Seq::new(i as nat, |k: int| without_return(shown[k])),
        decreases n - i,
    {
        let line = cut_return(parts[i].as_str());
        let ghost before = texts(out@);
        assert(parts@[i as int]@ == texts(parts@)[i as int]);
        out.push(line);
        assert(texts(out@) =~= before.push(line@));
        assert(before.push(line@) =~= Seq::new((i + 1) as nat, |k: int| without_return(shown[k])));
        i += 1;
    }
    let ghost ended = texts(out@);
    let last = parts[n - 1].clone();
    assert(parts@[n - 1]@ == texts(parts@)[n - 1]);
    let some: bool = chars_of(last.as_str()).len() > 0;
    if some {
        out.push(last);
        assert(texts(out@) =~= ended.push(last@));
    }
    out
}

/// The finished words of `s` and the word that is still open at its end.
pub open spec fn words_so_far(s: Seq<char>) -> (Seq<Seq<char>>, Seq<char>)
    decreases s.len(),
{
    if s.len() == 0 {
        (Seq::empty(), Seq::empty())
    } else {
        let (done, open_word) = words_so_far(s.drop_last());
        if !is_space(s.last()) {
            (done, open_word.push(s.last()))
        } else if open_word.len() > 0 {
            (done.push(open_word), Seq::empty())
        } else {
            (done, open_word)
        }
    }
}

/// The words of `s`: what stands between white space.
pub open spec fn words(s: Seq<char>) -> Seq<Seq<char>> {
    let (done, open_word) = words_so_far(s);
    if open_word.len() > 0 {
        done.push(open_word)
    } else {
        done
    }
}

/// Splits `text` into its words.
pub fn split_words(text: &str) -> (r: Vec<String>)
    ensures
        texts(r@) == words(text@),
{
    let chars = chars_of(text);
    let mut done: Vec<String> = Vec::new();
    let mut current: String = String::new();
    let mut i: usize = 0;
    proof {
        assert(texts(done@) =~= Seq::empty());
        assert(chars@.take(0) =~= Seq::empty());
    }
    while i < chars.len()
        invariant
            i <= chars.len(),
            chars@ == text@,
            words_so_far(chars@.take(i as int)) == (texts(done@), current@),
        decreases chars.len() - i,
    {
        let ghost earlier = texts(done@);
        let ghost open_word = current@;
        proof {
            assert(chars@.take(i + 1).drop_last() =~= chars@.take(i as int));
            assert(chars@.take(i + 1).last() == chars@[i as int]);
        }
        if !char_is_space(chars[i]) {
            current.push(chars[i]);
        } else if !current.as_str().is_empty() {
            done.push(current);
            current = String::new();
            proof {
                assert(texts(done@) =~= earlier.push(open_word));
            }
        }
        i += 1;
    }
    assert(chars@.take(chars@.len() as int) =~= chars@);
    if !current.as_str().is_empty() {
        let ghost earlier = texts(done@);
        let ghost open_word = current@;
        done.push(current);
        proof {
            assert(texts(done@) =~= earlier.push(open_word));
        }
    }
    done
}

/// The parts one after the other with `glue` between them.
pub open spec fn joined(parts: Seq<Seq<char>>, glue: Seq<char>) -> Seq<char>
    decreases parts.len(),
{
    if parts.len() == 0 {
        Seq::empty()
    } else if parts.len() == 1 {
        parts[0]
    } else {
        joined(parts.drop_last(), glue) + glue + parts.last()
    }
}

/// Joins the parts with `glue` between them.
pub fn join(parts: &Vec<String>, glue: &str) -> (r: String)
    ensures
        r@ == joined(texts(parts@), glue@),
{
    let ghost all = texts(parts@);
    if parts.len() == 0 {
        return String::new();
    }
    let mut out: String = parts[0].clone();
    let mut i: usize = 1;
    proof {
        assert(all.take(1) =~= seq![all[0]]);
    }
    while i < parts.len()
        invariant
            1 <= i <= parts.len(),
            all == texts(parts@),
            out@ == joined(all.take(i as int), glue@),
        decreases parts.len() - i,
    {
        out.append(glue);
        out.append(parts[i].as_str());
        proof {
            assert(all.take(i + 1).drop_last() =~= all.take(i as int));
            assert(all.take(i + 1).last() == parts@[i as int]@);
        }
        i += 1;
    }
    assert(all.take(all.len() as int) =~= all);
    out
}

/// Whether every character of `s` is a decimal digit and there is one.
pub open spec fn is_numeral(s: Seq<char>) -> bool {
    s.len() > 0 && forall|i: int| 0 <= i < s.len() ==> is_digit(#[trigger] s[i])
}

/// The number that a numeral stands for.
pub open spec fn number_of(s: Seq<char>) -> nat
    decreases s.len(),
{
    if s.len() == 0 {
        0
    } else {
        10 * number_of(s.drop_last()) + (s.last() as nat - '0' as nat) as nat
    }
}

proof fn number_grows(s: Seq<char>, i: int)
    requires
        0 <= i <= s.len(),
        forall|k: int| 0 <= k < s.len() ==> is_digit(#[trigger] s[k]),
    ensures
        number_of(s.take(i)) <= number_of(s),
    decreases s.len(),
{
    if i == s.len() {
        assert(s.take(i) =~= s);
    } else {
        assert(s.drop_last().take(i) =~= s.take(i));
        number_grows(s.drop_last(), i);
        assert(is_digit(s[s.len() - 1]));
    }
}

/// The value of a decimal digit.
fn digit_value(ch: char) -> (r: u64)
    requires
        is_digit(ch),
    ensures
        r == ch as nat - '0' as nat,
        r < 10,
{
    (ch as u32 - 48) as u64
}

/// Reads a numeral whose number is at most `most`.
pub fn parse_numeral(text: &str, most: u64) -> (r: Option<u64>)
    ensures
        match r {
            Some(n) => is_numeral(text@) && n == number_of(text@) && n <= most,
            None => !is_numeral(text@) || number_of(text@) > most,
        },
{
    let chars = chars_of(text);
    if chars.len() == 0 {
        return None;
    }
    let mut all: usize = 0;
    while all < chars.len()
        invariant
            all <= chars.len(),
            chars@ == text@,
            forall|k: int| 0 <= k < all ==> is_digit(#[trigger] chars@[k]),
        decreases chars.len() - all,
    {
        if !char_is_digit(chars[all]) {
            return None;
        }
        all += 1;
    }
    let mut n: u64 = 0;
    let mut i: usize = 0;
    while i < chars.len()
        invariant
            i <= chars.len(),
            chars@ == text@,
            forall|k: int| 0 <= k < chars.len() ==> is_digit(#[trigger] chars@[k]),
            n == number_of(chars@.take(i as int)),
            n <= most,
        decreases chars.len() - i,
    {
        let c: char = chars[i];
        let d: u64 = digit_value(c);
        proof {
            assert(chars@.take(i + 1).drop_last() =~= chars@.take(i as int));
            assert(chars@.take(i + 1).last() == c);
            number_grows(chars@, i + 1);
        }
        if n > most / 10 {
            return None;
        }
        if d > most - n * 10 {
            return None;
        }
        n = n * 10 + d;
        i += 1;
    }
    assert(chars@.take(chars@.len() as int) =~= chars@);
    Some(n)
}

/// A text without the slashes at its end.
pub open spec fn without_slashes(s: Seq<char>) -> Seq<char>
    decreases s.len(),
{
    if s.len() > 0 && s.last() == '/' {
        without_slashes(s.drop_last())
    } else {
        s
    }
}

/// Takes the slashes off the end of a text.
pub fn trim_slashes(value: &str) -> (r: String)
    ensures
        r@ == without_slashes(value@),
{
    let chars = chars_of(value);
    let mut n: usize = chars.len();
    assert(chars@.take(n as int) =~= value@);
    while n > 0 && chars[n - 1] == '/'
        invariant
            n <= chars.len(),
            without_slashes(chars@.take(n as int)) == without_slashes(value@),
        decreases n,
    {
        proof {
            assert(chars@.take(n as int).drop_last() =~= chars@.take(n - 1));
            assert(chars@.take(n as int).last() == chars@[n - 1]);
        }
        n -= 1;
    }
    proof {
        if n > 0 {
            assert(chars@.take(n as int).last() == chars@[n - 1]);
        }
    }
    let r = slice_text(&chars, 0, n);
    proof {
        assert(chars@.subrange(0, n as int) =~= chars@.take(n as int));
    }
    r
}

} // verus!
