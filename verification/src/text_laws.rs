//! What holds of texts: searching, trimming, lines, numbers and order.

use crate::text::{
    ascii_capital, ascii_small, begins, decimal, digit, digits_of, digits_value, has, is_blank,
    is_digit, is_plain, is_space, joined, line_feed_at, lines_of, parsed_number, precedes,
    same_but_case, stands_at, trimmed,
};
use vstd::prelude::*;
use vstd::string::*;

verus! {

/// The text is set to more than the empty text.
pub open spec fn given(t: Option<String>) -> bool {
    t is Some && t->0@.len() > 0
}

/// A text holds another wherever that stands in it, at the beginning, in the
/// middle or at the end.
pub proof fn law_a_text_holds_what_stands_in_it(a: Seq<char>, needle: Seq<char>, b: Seq<char>)
    ensures
        has(a + needle + b, needle),
{
    let all = a + needle + b;
    assert(all.subrange(a.len() as int, (a.len() + needle.len()) as int) =~= needle);
    assert(stands_at(all, needle, a.len() as int));
}

/// A text holds another only where it can be taken apart into what stands
/// before it, the other, and what stands behind it.
pub proof fn law_what_a_text_holds_stands_in_it(hay: Seq<char>, needle: Seq<char>) -> (parts: (
    Seq<char>,
    Seq<char>,
))
    requires
        has(hay, needle),
    ensures
        hay == parts.0 + needle + parts.1,
{
    let i = choose|i: int| stands_at(hay, needle, i);
    let a = hay.take(i);
    let b = hay.skip(i + needle.len());
    assert(hay =~= a + needle + b) by {
        assert(hay.subrange(i, i + needle.len()) == needle);
        assert forall|k: int| 0 <= k < hay.len() implies hay[k] == (a + needle + b)[k] by {
            if i <= k < i + needle.len() {
                assert(hay.subrange(i, i + needle.len())[k - i] == hay[k]);
            }
        }
    }
    (a, b)
}

/// A text begins with another exactly where the rest of it follows.
pub proof fn law_a_text_begins_with_its_prefix(s: Seq<char>, prefix: Seq<char>, rest: Seq<char>)
    ensures
        begins(prefix + rest, prefix),
        begins(s, prefix) ==> s == prefix + s.skip(prefix.len() as int),
{
    assert((prefix + rest).subrange(0, prefix.len() as int) =~= prefix);
    if begins(s, prefix) {
        assert(s =~= prefix + s.skip(prefix.len() as int)) by {
            assert forall|k: int| 0 <= k < prefix.len() implies s[k] == prefix[k] by {
                assert(s.subrange(0, prefix.len() as int)[k] == s[k]);
            }
        }
    }
}

/// The white space of Unicode.
pub proof fn law_white_space(c: char)
    ensures
        is_space(c) <==> {
            ||| '\u{9}' <= c <= '\u{d}'
            ||| '\u{2000}' <= c <= '\u{200a}'
            ||| seq![
                ' ', '\u{85}', '\u{a0}', '\u{1680}', '\u{2028}', '\u{2029}', '\u{202f}', '\u{205f}',
                '\u{3000}',
            ].contains(c)
        },
{
    let all = seq![
        ' ', '\u{85}', '\u{a0}', '\u{1680}', '\u{2028}', '\u{2029}', '\u{202f}', '\u{205f}',
        '\u{3000}',
    ];
    assert(all[0] == ' ' && all[1] == '\u{85}' && all[2] == '\u{a0}' && all[3] == '\u{1680}'
        && all[4] == '\u{2028}' && all[5] == '\u{2029}' && all[6] == '\u{202f}' && all[7]
        == '\u{205f}' && all[8] == '\u{3000}');
    if all.contains(c) {
        let i = choose|i: int| 0 <= i < all.len() && all[i] == c;
        assert(all[i] == c);
    }
}

/// Trimming takes the white space at both ends and nothing else: what begins
/// and ends with other characters comes out whole, whatever white space stands
/// around it or in it.
pub proof fn law_trimming_leaves_the_middle(x: Seq<char>, m: Seq<char>, y: Seq<char>)
    requires
        forall|i: int| 0 <= i < x.len() ==> is_space(#[trigger] x[i]),
        forall|i: int| 0 <= i < y.len() ==> is_space(#[trigger] y[i]),
        m.len() > 0 ==> !is_space(m[0]) && !is_space(m[m.len() - 1]),
    ensures
        trimmed(x + m + y) == m,
    decreases x.len() + y.len(),
{
    let s = x + m + y;
    if x.len() > 0 {
        assert(s[0] == x[0]);
        let rest = x.drop_first();
        assert forall|i: int| 0 <= i < rest.len() implies is_space(#[trigger] rest[i]) by {
            assert(rest[i] == x[i + 1]);
        }
        law_trimming_leaves_the_middle(rest, m, y);
        assert(s.drop_first() =~= rest + m + y);
    } else if y.len() > 0 {
        assert(s[s.len() - 1] == y[y.len() - 1]);
        if m.len() > 0 {
            assert(s[0] == m[0]);
            let rest = y.drop_last();
            assert forall|i: int| 0 <= i < rest.len() implies is_space(#[trigger] rest[i]) by {
                assert(rest[i] == y[i]);
            }
            law_trimming_leaves_the_middle(x, m, rest);
            assert(s.drop_last() =~= x + m + rest);
        } else {
            assert(s[0] == y[0]);
            let rest = y.drop_first();
            assert forall|i: int| 0 <= i < rest.len() implies is_space(#[trigger] rest[i]) by {
                assert(rest[i] == y[i + 1]);
            }
            law_trimming_leaves_the_middle(x, m, rest);
            assert(s.drop_first() =~= x + m + rest);
        }
    } else {
        assert(s =~= m);
        if m.len() > 0 {
            assert(s.first() == m[0] && s.last() == m[m.len() - 1]);
        }
    }
}

/// A text is the trimmed one between white space.
pub proof fn law_trimming_takes_only_white_space(s: Seq<char>) -> (ends: (Seq<char>, Seq<char>))
    ensures
        s == ends.0 + trimmed(s) + ends.1,
        forall|i: int| 0 <= i < ends.0.len() ==> is_space(#[trigger] ends.0[i]),
        forall|i: int| 0 <= i < ends.1.len() ==> is_space(#[trigger] ends.1[i]),
        trimmed(s).len() > 0 ==> !is_space(trimmed(s)[0]) && !is_space(
            trimmed(s)[trimmed(s).len() - 1],
        ),
    decreases s.len(),
{
    if s.len() > 0 && is_space(s.first()) {
        let (x, y) = law_trimming_takes_only_white_space(s.drop_first());
        let more = seq![s.first()] + x;
        assert forall|i: int| 0 <= i < more.len() implies is_space(#[trigger] more[i]) by {
            if i > 0 {
                assert(more[i] == x[i - 1]);
            }
        }
        assert(s =~= more + trimmed(s) + y) by {
            assert(s =~= seq![s.first()] + s.drop_first());
        }
        (more, y)
    } else if s.len() > 0 && is_space(s.last()) {
        let (x, y) = law_trimming_takes_only_white_space(s.drop_last());
        let more = y.push(s.last());
        assert forall|i: int| 0 <= i < more.len() implies is_space(#[trigger] more[i]) by {
            if i < y.len() {
                assert(more[i] == y[i]);
            }
        }
        assert(s =~= x + trimmed(s) + more) by {
            assert(s =~= s.drop_last().push(s.last()));
        }
        (x, more)
    } else {
        assert(s =~= Seq::<char>::empty() + s + Seq::<char>::empty());
        (Seq::empty(), Seq::empty())
    }
}

/// A text is blank exactly where trimming leaves nothing of it.
pub proof fn law_blank_is_what_trims_away(s: Seq<char>)
    ensures
        is_blank(s) <==> trimmed(s).len() == 0,
{
    let (x, y) = law_trimming_takes_only_white_space(s);
    if is_blank(s) {
        law_trimming_leaves_the_middle(s, Seq::empty(), Seq::empty());
        assert(s + Seq::<char>::empty() + Seq::<char>::empty() =~= s);
    }
    if trimmed(s).len() == 0 {
        assert forall|i: int| 0 <= i < s.len() implies is_space(#[trigger] s[i]) by {
            if i < x.len() {
                assert(s[i] == x[i]);
            } else {
                assert(s[i] == y[i - x.len()]);
            }
        }
    }
}

/// The text holds no line feed.
pub open spec fn on_one_line(s: Seq<char>) -> bool {
    forall|i: int| 0 <= i < s.len() ==> s[i] != '\n'
}

proof fn lemma_first_feed(a: Seq<char>, b: Seq<char>)
    requires
        on_one_line(a),
    ensures
        line_feed_at(a + seq!['\n'] + b) == a.len(),
        line_feed_at(a) == a.len(),
    decreases a.len(),
{
    let s = a + seq!['\n'] + b;
    if a.len() > 0 {
        assert(s[0] == a[0]);
        let rest = a.drop_first();
        assert forall|i: int| 0 <= i < rest.len() implies rest[i] != '\n' by {
            assert(rest[i] == a[i + 1]);
        }
        lemma_first_feed(rest, b);
        assert(s.drop_first() =~= rest + seq!['\n'] + b);
    } else {
        assert(s[0] == '\n');
    }
}

/// Lines end at line feeds and nowhere else: what stands before the first line
/// feed is the first line, without one carriage return at its end, and the
/// lines of the rest follow. What stands behind the last line feed is a line
/// as it stands, where there is anything.
pub proof fn law_lines_end_at_line_feeds(a: Seq<char>, b: Seq<char>)
    requires
        on_one_line(a),
    ensures
        lines_of(a + seq!['\n'] + b) == seq![
            if a.len() > 0 && a[a.len() - 1] == '\r' {
                a.take(a.len() - 1)
            } else {
                a
            },
        ] + lines_of(b),
        a.len() > 0 ==> lines_of(a) == seq![a],
        lines_of(Seq::empty()).len() == 0,
{
    lemma_first_feed(a, b);
    let s = a + seq!['\n'] + b;
    assert(s.take(a.len() as int) =~= a);
    assert(s.skip((a.len() + 1) as int) =~= b);
    assert(a.len() > 0 ==> a.drop_last() =~= a.take(a.len() - 1));
}

/// A number in decimal is digits without a leading zero, and reads as the
/// number.
pub proof fn law_decimal_reads_as_the_number(n: nat)
    ensures
        decimal(n).len() > 0,
        forall|i: int| 0 <= i < decimal(n).len() ==> '0' <= (#[trigger] decimal(n)[i]) <= '9',
        n > 0 ==> decimal(n)[0] != '0',
        n == 0 ==> decimal(n) == seq!['0'],
        digits_value(decimal(n)) == n,
    decreases n,
{
    let d = decimal(n);
    if n < 10 {
        assert(d =~= seq![digit(n)]);
        assert(d.drop_last() =~= Seq::empty());
        assert(digits_value(d.drop_last()) == 0);
        assert(d.last() as u32 == n + 0x30);
    } else {
        let rest = decimal(n / 10);
        law_decimal_reads_as_the_number(n / 10);
        assert(d.drop_last() =~= rest);
        assert(d.last() == digit(n % 10));
        assert(d.last() as u32 == n % 10 + 0x30);
        assert(d[0] == rest[0]);
        assert forall|i: int| 0 <= i < d.len() implies '0' <= (#[trigger] d[i]) <= '9' by {
            if i < rest.len() {
                assert(d[i] == rest[i]);
            }
        }
    }
}

/// Digits stand for their number: each further one counts ten times what
/// stands before it, and itself.
pub proof fn law_digits_count_by_tens(s: Seq<char>, c: char)
    requires
        '0' <= c <= '9',
    ensures
        digits_value(s.push(c)) == 10 * digits_value(s) + (c as u32 - '0' as u32),
        digits_value(Seq::empty()) == 0,
{
    assert(s.push(c).drop_last() =~= s);
}

/// A number of 64 bits is read from its decimal digits, with or without a plus
/// sign.
pub proof fn law_numbers_are_read_back(n: u64)
    ensures
        parsed_number(decimal(n as nat)) == Some(n),
        parsed_number(seq!['+'] + decimal(n as nat)) == Some(n),
{
    let d = decimal(n as nat);
    law_decimal_reads_as_the_number(n as nat);
    assert(d[0] != '+');
    assert(digits_of(d) == d);
    assert forall|i: int| 0 <= i < d.len() implies is_digit(#[trigger] d[i]) by {
        assert('0' <= d[i] <= '9');
    }
    let signed = seq!['+'] + d;
    assert(signed.drop_first() =~= d);
}

proof fn lemma_digits(c: char)
    ensures
        is_digit(c) <==> '0' <= c <= '9',
{
}

/// A text is no number where it holds no digit, anything but digits behind an
/// optional plus sign, or more than 64 bits; and where it is one, its digits
/// stand for it.
pub proof fn law_nothing_else_is_a_number(s: Seq<char>, i: int)
    ensures
        s.len() == 0 ==> parsed_number(s) is None,
        s == seq!['+'] ==> parsed_number(s) is None,
        0 <= i < s.len() && !('0' <= s[i] <= '9') && !(i == 0 && s[0] == '+') ==> parsed_number(
            s,
        ) is None,
        parsed_number(s) matches Some(n) ==> n == digits_value(
            if s[0] == '+' {
                s.skip(1)
            } else {
                s
            },
        ),
{
    let d = digits_of(s);
    if s.len() > 0 && s[0] == '+' {
        assert(s.drop_first() =~= s.skip(1));
        if s == seq!['+'] {
            assert(d.len() == 0);
        }
    }
    if 0 <= i < s.len() && !('0' <= s[i] <= '9') && !(i == 0 && s[0] == '+') {
        lemma_digits(s[i]);
        if s[0] == '+' {
            assert(d[i - 1] == s[i]);
        } else {
            assert(d[i] == s[i]);
        }
    }
}

/// Joined parts stand one behind the other with the separator between each two:
/// one more part adds the separator and itself.
pub proof fn law_joining_puts_the_separator_between(
    parts: Seq<Seq<char>>,
    separator: Seq<char>,
    more: Seq<char>,
)
    ensures
        joined(Seq::empty(), separator).len() == 0,
        joined(seq![more], separator) == more,
        parts.len() > 0 ==> joined(parts.push(more), separator) == joined(parts, separator)
            + separator + more,
{
    assert(parts.push(more).drop_last() =~= parts);
}

/// The order of names: a text stands before what continues it, and of two that
/// part ways the one with the smaller character comes first.
pub proof fn law_order_goes_by_the_first_difference(
    p: Seq<char>,
    c: char,
    d: char,
    x: Seq<char>,
    y: Seq<char>,
)
    requires
        c < d,
    ensures
        precedes(p + seq![c] + x, p + seq![d] + y),
        !precedes(p + seq![d] + y, p + seq![c] + x),
        precedes(p, p + seq![c] + x),
        !precedes(p + seq![c] + x, p),
        !precedes(p, p),
    decreases p.len(),
{
    let a = p + seq![c] + x;
    let b = p + seq![d] + y;
    if p.len() > 0 {
        let q = p.drop_first();
        law_order_goes_by_the_first_difference(q, c, d, x, y);
        assert(a[0] == p[0] && b[0] == p[0]);
        assert(a.drop_first() =~= q + seq![c] + x);
        assert(b.drop_first() =~= q + seq![d] + y);
    } else {
        assert(a[0] == c && b[0] == d);
    }
}

/// The letters of ASCII have a small and a capital form, and every other
/// character is left alone.
pub proof fn law_case_of_ascii_letters(c: char)
    ensures
        'A' <= c <= 'Z' ==> ascii_small(c) as u32 == c as u32 + 32 && ascii_capital(c) == c,
        'a' <= c <= 'z' ==> ascii_capital(c) as u32 == c as u32 - 32 && ascii_small(c) == c,
        !('A' <= c <= 'Z') && !('a' <= c <= 'z') ==> ascii_small(c) == c && ascii_capital(c) == c,
{
}

proof fn lemma_ascii(c: char)
    ensures
        c as u32 <= 0x7f <==> c <= '\u{7f}',
{
}

/// A text is plain where each of its characters is one of ASCII.
pub proof fn law_plain_is_ascii(s: Seq<char>)
    ensures
        is_plain(s) <==> forall|i: int| 0 <= i < s.len() ==> (#[trigger] s[i]) <= '\u{7f}',
{
    assert forall|i: int| 0 <= i < s.len() implies ((#[trigger] s[i]) as u32 <= 0x7f <==> s[i]
        <= '\u{7f}') by {
        lemma_ascii(s[i]);
    }
}

/// Two texts are the same but for case where each character of the one is that
/// of the other, in whatever case.
pub proof fn law_same_but_case(a: Seq<char>, b: Seq<char>)
    ensures
        same_but_case(a, b) <==> a.len() == b.len() && forall|i: int|
            0 <= i < a.len() ==> (#[trigger] a[i] == b[i] || ascii_small(a[i]) == b[i]
                || ascii_small(b[i]) == a[i]),
{
    if same_but_case(a, b) {
        assert forall|i: int| 0 <= i < a.len() implies (#[trigger] a[i] == b[i] || ascii_small(
            a[i],
        ) == b[i] || ascii_small(b[i]) == a[i]) by {
            assert(ascii_small(a[i]) == ascii_small(b[i]));
            law_case_of_ascii_letters(a[i]);
            law_case_of_ascii_letters(b[i]);
        }
    }
    if a.len() == b.len() && forall|i: int|
        0 <= i < a.len() ==> (#[trigger] a[i] == b[i] || ascii_small(a[i]) == b[i] || ascii_small(
            b[i],
        ) == a[i]) {
        assert forall|i: int| 0 <= i < a.len() implies ascii_small(#[trigger] a[i])
            == ascii_small(b[i]) by {
            assert(a[i] == b[i] || ascii_small(a[i]) == b[i] || ascii_small(b[i]) == a[i]);
            law_case_of_ascii_letters(a[i]);
            law_case_of_ascii_letters(b[i]);
        }
    }
}

} // verus!
