//! What reading a text keeps: trimming takes white space away and nothing else, a numeral is read
//! back as its number, and words are what stands between white space.

use vstd::prelude::*;

use crate::text;

verus! {

proof fn left_is_trimmed(s: Seq<char>)
    ensures
        ({
            let rest = text::trim_left(s);
            &&& rest.len() <= s.len()
            &&& s == s.take(s.len() - rest.len()) + rest
            &&& text::is_blank(s.take(s.len() - rest.len()))
            &&& rest.len() > 0 ==> !text::is_space(rest[0])
        }),
    decreases s.len(),
{
    let rest = text::trim_left(s);
    if s.len() > 0 && text::is_space(s[0]) {
        let tail = s.drop_first();
        left_is_trimmed(tail);
        let n = s.len() - rest.len();
        let gone = s.take(n);
        assert(tail =~= tail.take(n - 1) + rest);
        assert forall|i: int| 0 <= i < gone.len() implies text::is_space(#[trigger] gone[i]) by {
            if i > 0 {
                assert(gone[i] == tail.take(n - 1)[i - 1]);
            }
        }
        assert(s =~= gone + rest) by {
            assert forall|i: int| 0 <= i < s.len() implies s[i] == (gone + rest)[i] by {
                if i >= n {
                    assert(tail[i - 1] == (tail.take(n - 1) + rest)[i - 1]);
                }
            }
        }
    } else {
        assert(s.take(0) =~= Seq::<char>::empty());
        assert(s =~= s.take(0) + rest);
    }
}

proof fn right_is_trimmed(s: Seq<char>)
    ensures
        ({
            let rest = text::trim_right(s);
            &&& rest.len() <= s.len()
            &&& s == rest + s.skip(rest.len() as int)
            &&& text::is_blank(s.skip(rest.len() as int))
            &&& rest.len() > 0 ==> !text::is_space(rest.last())
        }),
    decreases s.len(),
{
    let rest = text::trim_right(s);
    if s.len() > 0 && text::is_space(s.last()) {
        let head = s.drop_last();
        right_is_trimmed(head);
        let gone = s.skip(rest.len() as int);
        let before = head.skip(rest.len() as int);
        assert forall|i: int| 0 <= i < gone.len() implies text::is_space(#[trigger] gone[i]) by {
            if i < before.len() {
                assert(gone[i] == before[i]);
            } else {
                assert(gone[i] == s.last());
            }
        }
        assert(s =~= rest + gone) by {
            assert forall|i: int| 0 <= i < s.len() implies s[i] == (rest + gone)[i] by {
                if i < rest.len() {
                    assert(head[i] == (rest + before)[i]);
                }
            }
        }
    } else {
        assert(s.skip(s.len() as int) =~= Seq::<char>::empty());
        assert(s =~= rest + s.skip(rest.len() as int));
    }
}

/// Trimming takes white space away at both ends and nothing else: what is left neither begins nor
/// ends with any, and nothing is left just of a blank text.
pub proof fn trimming_takes_the_space_around(s: Seq<char>)
    ensures
        text::trimmed(s).len() > 0 ==> !text::is_space(text::trimmed(s)[0]) && !text::is_space(
            text::trimmed(s).last(),
        ),
        exists|a: Seq<char>, b: Seq<char>|
            text::is_blank(a) && text::is_blank(b) && s == #[trigger] (a + text::trimmed(s) + b),
        text::is_blank(s) <==> text::trimmed(s).len() == 0,
{
    let middle = text::trim_left(s);
    let kept = text::trimmed(s);
    left_is_trimmed(s);
    right_is_trimmed(middle);
    let a = s.take(s.len() - middle.len());
    let b = middle.skip(kept.len() as int);
    assert(s =~= a + kept + b);
    if kept.len() > 0 {
        assert(kept[0] == middle[0]);
        let at = a.len() as int;
        assert(s[at] == middle[0]);
        assert(!text::is_blank(s));
    } else {
        assert(middle =~= b);
        assert forall|i: int| 0 <= i < s.len() implies text::is_space(#[trigger] s[i]) by {
            if i < a.len() {
                assert(s[i] == a[i]);
            } else {
                assert(s[i] == b[i - a.len()]);
            }
        }
    }
}

/// A text without white space at its ends is left as it is.
pub proof fn plain_text_is_left_as_it_is(s: Seq<char>)
    requires
        s.len() > 0,
        !text::is_space(s[0]),
        !text::is_space(s.last()),
    ensures
        text::trimmed(s) == s,
{
}

/// A number is read back from the numeral that it is written in.
pub proof fn numeral_is_read_back(n: nat)
    ensures
        text::is_numeral(text::decimal(n)),
        text::number_of(text::decimal(n)) == n,
    decreases n,
{
    let written = text::decimal(n);
    if n < 10 {
        assert(written =~= seq![text::digit_char(n)]);
        assert(written.drop_last() =~= Seq::<char>::empty());
        assert(written.last() == text::digit_char(n));
        assert(text::number_of(written.drop_last()) == 0);
    } else {
        let head = text::decimal(n / 10);
        numeral_is_read_back(n / 10);
        assert(written.drop_last() =~= head);
        assert(written.last() == text::digit_char(n % 10));
        assert forall|i: int| 0 <= i < written.len() implies text::is_digit(#[trigger] written[i]) by {
            if i < head.len() {
                assert(written[i] == head[i]);
            }
        }
    }
}

/// Different numbers are written in different numerals, and only a negative one has a sign.
pub proof fn numerals_differ_with_their_numbers(a: int, b: int)
    ensures
        text::signed_decimal(a) == text::signed_decimal(b) <==> a == b,
        a < 0 <==> text::signed_decimal(a)[0] == '-',
{
    unsigned_numeral_has_no_sign(if a < 0 {
        (-a) as nat
    } else {
        a as nat
    });
    unsigned_numeral_has_no_sign(if b < 0 {
        (-b) as nat
    } else {
        b as nat
    });
    if a < 0 {
        assert(text::signed_decimal(a)[0] == '-');
        assert(text::signed_decimal(a).skip(1) =~= text::decimal((-a) as nat));
    }
    if b < 0 {
        assert(text::signed_decimal(b)[0] == '-');
        assert(text::signed_decimal(b).skip(1) =~= text::decimal((-b) as nat));
    }
}

proof fn unsigned_numeral_has_no_sign(n: nat)
    ensures
        text::decimal(n).len() > 0,
        text::decimal(n)[0] != '-',
        text::number_of(text::decimal(n)) == n,
{
    numeral_is_read_back(n);
    assert(text::is_digit(text::decimal(n)[0]));
}

/// Whether a text holds no white space.
pub open spec fn is_unbroken(s: Seq<char>) -> bool {
    forall|j: int| 0 <= j < s.len() ==> !text::is_space(#[trigger] s[j])
}

proof fn words_are_plain(s: Seq<char>)
    ensures
        forall|i: int|
            0 <= i < text::words_so_far(s).0.len() ==> is_unbroken(
                #[trigger] text::words_so_far(s).0[i],
            ) && text::words_so_far(s).0[i].len() > 0,
        is_unbroken(text::words_so_far(s).1),
    decreases s.len(),
{
    if s.len() > 0 {
        words_are_plain(s.drop_last());
        let earlier = text::words_so_far(s.drop_last());
        let now = text::words_so_far(s);
        assert forall|i: int| 0 <= i < now.0.len() implies is_unbroken(#[trigger] now.0[i])
            && now.0[i].len() > 0 by {
            if i < earlier.0.len() {
                assert(now.0[i] == earlier.0[i]);
            } else {
                assert(now.0[i] == earlier.1);
            }
        }
        assert forall|j: int| 0 <= j < now.1.len() implies !text::is_space(#[trigger] now.1[j]) by {
            if j < earlier.1.len() {
                assert(now.1[j] == earlier.1[j]);
            }
        }
    }
}

/// A word holds something, and no white space.
pub proof fn word_holds_no_space(s: Seq<char>, i: int, j: int)
    requires
        0 <= i < text::words(s).len(),
        0 <= j < text::words(s)[i].len(),
    ensures
        text::words(s)[i].len() > 0,
        !text::is_space(text::words(s)[i][j]),
{
    words_are_plain(s);
    let (done, open_word) = text::words_so_far(s);
    if i < done.len() {
        assert(text::words(s)[i] == done[i]);
    } else {
        assert(text::words(s)[i] == open_word);
    }
}

/// A word behind others with one space between is the last word, and the others stay.
pub proof fn next_word_is_the_last(s: Seq<char>, word: Seq<char>)
    requires
        word.len() > 0,
        forall|j: int| 0 <= j < word.len() ==> !text::is_space(#[trigger] word[j]),
    ensures
        text::words(s.push(' ') + word) == text::words(s).push(word),
{
    let spaced = s.push(' ');
    assert(spaced.drop_last() =~= s);
    assert(spaced.last() == ' ');
    assert(text::is_space(' '));
    assert(text::words_so_far(spaced).0 =~= text::words(s));
    assert(text::words_so_far(spaced).1.len() == 0);
    word_stays_open(spaced, word);
}

proof fn word_stays_open(s: Seq<char>, word: Seq<char>)
    requires
        text::words_so_far(s).1.len() == 0,
        forall|j: int| 0 <= j < word.len() ==> !text::is_space(#[trigger] word[j]),
    ensures
        text::words_so_far(s + word) == (text::words_so_far(s).0, word),
    decreases word.len(),
{
    let all = s + word;
    if word.len() == 0 {
        assert(all =~= s);
        assert(text::words_so_far(s).1 =~= word);
    } else {
        let shorter = word.drop_last();
        assert forall|j: int| 0 <= j < shorter.len() implies !text::is_space(
            #[trigger] shorter[j],
        ) by {
            assert(shorter[j] == word[j]);
        }
        word_stays_open(s, shorter);
        assert(all.drop_last() =~= s + shorter);
        assert(all.last() == word[word.len() - 1]);
        assert(shorter.push(word.last()) =~= word);
    }
}

/// Lowering changes capitals alone, one for one.
pub proof fn lowering_changes_capitals_alone(s: Seq<char>, i: int)
    requires
        0 <= i < s.len(),
    ensures
        text::lowered(s).len() == s.len(),
        !('A' <= s[i] <= 'Z') ==> text::lowered(s)[i] == s[i],
        'A' <= s[i] <= 'Z' ==> text::lowered(s)[i] as u32 == s[i] as u32 + 32,
{
}

} // verus!
