//! What holds of texts, whatever they hold.

use crate::text;
use crate::text::NumberError;
use vstd::prelude::*;

verus! {

/// Lower case changes the twenty-six capitals into their small letters, each in its place, and
/// nothing else.
pub proof fn law_only_capitals_become_small(s: Seq<char>, i: int)
    requires
        0 <= i < s.len(),
    ensures
        text::lowered(s).len() == s.len(),
        65 <= s[i] as int <= 90 ==> text::lowered(s)[i] as int == s[i] as int + 32,
        !(65 <= s[i] as int <= 90) ==> text::lowered(s)[i] == s[i],
{
}

/// Of the characters of ASCII the space, the tabulators, the ends of lines and the end of a page
/// are white space, and no other one is; beyond ASCII the nineteen that Unicode names are.
pub proof fn law_white_space(c: char)
    ensures
        (c as int) < 128 ==> (text::white(c) <==> c == ' ' || c == '\t' || c == '\n' || c == '\r'
            || c as int == 11 || c as int == 12),
        (c as int) >= 128 ==> (text::white(c) <==> seq![
            0x85int,
            0xa0,
            0x1680,
            0x2000,
            0x2001,
            0x2002,
            0x2003,
            0x2004,
            0x2005,
            0x2006,
            0x2007,
            0x2008,
            0x2009,
            0x200a,
            0x2028,
            0x2029,
            0x202f,
            0x205f,
            0x3000,
        ].contains(c as int)),
{
    let wide = seq![
        0x85int,
        0xa0,
        0x1680,
        0x2000,
        0x2001,
        0x2002,
        0x2003,
        0x2004,
        0x2005,
        0x2006,
        0x2007,
        0x2008,
        0x2009,
        0x200a,
        0x2028,
        0x2029,
        0x202f,
        0x205f,
        0x3000,
    ];
    let n = c as int;
    if n == 0x85 {
        assert(wide[0] == n);
    } else if n == 0xa0 {
        assert(wide[1] == n);
    } else if n == 0x1680 {
        assert(wide[2] == n);
    } else if 0x2000 <= n <= 0x200a {
        assert(wide[3 + (n - 0x2000)] == n);
    } else if n == 0x2028 {
        assert(wide[14] == n);
    } else if n == 0x2029 {
        assert(wide[15] == n);
    } else if n == 0x202f {
        assert(wide[16] == n);
    } else if n == 0x205f {
        assert(wide[17] == n);
    } else if n == 0x3000 {
        assert(wide[18] == n);
    }
}

proof fn lemma_start_is_cut(s: Seq<char>) -> (from: int)
    ensures
        0 <= from <= s.len(),
        text::trimmed_start(s) == s.skip(from),
        forall|i: int| 0 <= i < from ==> text::white(#[trigger] s[i]),
        from < s.len() ==> !text::white(s[from]),
    decreases s.len(),
{
    if s.len() > 0 && text::white(s[0]) {
        let rest = s.drop_first();
        let from = lemma_start_is_cut(rest);
        assert(rest.skip(from) =~= s.skip(from + 1));
        assert forall|i: int| 0 <= i < from + 1 implies text::white(#[trigger] s[i]) by {
            if i > 0 {
                assert(rest[i - 1] == s[i]);
            }
        }
        from + 1
    } else {
        assert(s.skip(0) =~= s);
        0
    }
}

proof fn lemma_end_is_cut(s: Seq<char>) -> (to: int)
    ensures
        0 <= to <= s.len(),
        text::trimmed_end(s) == s.take(to),
        forall|i: int| to <= i < s.len() ==> text::white(#[trigger] s[i]),
        to > 0 ==> !text::white(s[to - 1]),
    decreases s.len(),
{
    if s.len() > 0 && text::white(s.last()) {
        let rest = s.drop_last();
        let to = lemma_end_is_cut(rest);
        assert(rest.take(to) =~= s.take(to));
        assert forall|i: int| to <= i < s.len() implies text::white(#[trigger] s[i]) by {
            if i < rest.len() {
                assert(rest[i] == s[i]);
            }
        }
        to
    } else {
        assert(s.take(s.len() as int) =~= s);
        s.len() as int
    }
}

/// What trimming leaves is a stretch of the text that neither begins nor ends with white space,
/// and there is nothing but white space before and after it.
pub proof fn law_trimming_takes_white_space_alone(s: Seq<char>)
    ensures
        exists|from: int, to: int|
            0 <= from <= to <= s.len() && #[trigger] s.subrange(from, to) == text::trimmed(s) && (
            forall|i: int|
                0 <= i < s.len() && !(from <= i < to) ==> text::white(#[trigger] s[i])),
        text::trimmed(s).len() > 0 ==> !text::white(text::trimmed(s)[0]) && !text::white(
            text::trimmed(s).last(),
        ),
{
    let from = lemma_start_is_cut(s);
    let rest = s.skip(from);
    let end = lemma_end_is_cut(rest);
    let to = from + end;
    assert(rest.take(end) =~= s.subrange(from, to));
    assert forall|i: int| 0 <= i < s.len() && !(from <= i < to) implies text::white(
        #[trigger] s[i],
    ) by {
        if i >= to {
            assert(rest[i - from] == s[i]);
        }
    }
    if text::trimmed(s).len() > 0 {
        assert(text::trimmed(s)[0] == s[from]);
        assert(text::trimmed(s).last() == rest[end - 1]);
    }
    assert(s.subrange(from, to) == text::trimmed(s));
}

proof fn lemma_pieces_are_some(s: Seq<char>, sep: char)
    ensures
        text::pieces(s, sep).len() > 0,
    decreases s.len(),
{
    if s.len() > 0 {
        lemma_pieces_are_some(s.drop_last(), sep);
    }
}

/// Cutting a text that holds no separator leaves it whole, and cutting one that does gives what
/// stands before the first separator, and then the pieces of what follows it.
pub proof fn law_text_is_cut_at_each_separator(first: Seq<char>, rest: Seq<char>, sep: char)
    requires
        forall|i: int| 0 <= i < first.len() ==> #[trigger] first[i] != sep,
    ensures
        text::pieces(first, sep) == seq![first],
        text::pieces(first + seq![sep] + rest, sep) == seq![first] + text::pieces(rest, sep),
    decreases first.len() + rest.len(),
{
    let none = Seq::<char>::empty();
    if first.len() > 0 {
        law_text_is_cut_at_each_separator(first.drop_last(), none, sep);
        assert(text::pieces(first, sep) =~= seq![first.drop_last().push(first.last())]);
        assert(first.drop_last().push(first.last()) =~= first);
    } else {
        assert(first =~= none);
        assert(text::pieces(first, sep) =~= seq![first]);
    }
    let all = first + seq![sep] + rest;
    if rest.len() == 0 {
        assert(all.drop_last() =~= first);
        assert(all.last() == sep);
        assert(rest =~= none);
        assert(text::pieces(all, sep) =~= seq![first] + text::pieces(rest, sep));
    } else {
        let before = first + seq![sep] + rest.drop_last();
        assert(all.drop_last() =~= before);
        assert(all.last() == rest.last());
        law_text_is_cut_at_each_separator(first, rest.drop_last(), sep);
        let tail = text::pieces(rest.drop_last(), sep);
        lemma_pieces_are_some(rest.drop_last(), sep);
        assert((seq![first] + tail).last() == tail.last());
        assert((seq![first] + tail).drop_last() =~= seq![first] + tail.drop_last());
        assert(text::pieces(all, sep) =~= seq![first] + text::pieces(rest, sep));
    }
}

/// A number is written by its digits: one more digit behind it makes ten times the number and the
/// digit, and only nothing begins with a zero.
pub proof fn law_numbers_are_written_in_base_ten(n: nat, digit: nat)
    requires
        digit < 10,
    ensures
        digit > 0 || n > 0 ==> text::decimal(10 * n + digit) == (if n > 0 {
            text::decimal(n)
        } else {
            Seq::empty()
        }).push((48 + digit) as char),
        text::decimal(0) == seq!['0'],
        n > 0 ==> text::decimal(n)[0] != '0',
    decreases n,
{
    let all = 10 * n + digit;
    assert(all % 10 == digit);
    assert(all / 10 == n);
    assert('0' as int == 48);
    if n == 0 {
        assert(text::decimal(all) =~= Seq::empty().push((48 + digit) as char));
    }
    if n > 0 {
        let more = n / 10;
        let last = n % 10;
        if more > 0 {
            law_numbers_are_written_in_base_ten(more, 0);
            text::lemma_decimal_reads_back(more);
            assert(text::decimal(n)[0] == text::decimal(more)[0]);
        }
    }
}

/// A whole number as it is usually written.
pub open spec fn signed(n: int) -> Seq<char> {
    if n < 0 {
        seq!['-'] + text::decimal((-n) as nat)
    } else {
        text::decimal(n as nat)
    }
}

/// A number of thirty-two bits that is written as usual is read as that number, with a plus sign
/// too, and one that does not fit is not read at all.
pub proof fn law_numbers_are_read_back(n: int)
    ensures
        text::written_i32(signed(n)) == if i32::MIN <= n <= i32::MAX {
            Some(n as i32)
        } else {
            None
        },
        0 <= n ==> text::written_i32(seq!['+'] + signed(n)) == text::written_i32(signed(n)),
{
    let size = if n < 0 {
        (-n) as nat
    } else {
        n as nat
    };
    let digits = text::decimal(size);
    text::lemma_decimal_reads_back(size);
    assert(text::digit(digits[0]));
    assert((seq!['-'] + digits).skip(1) =~= digits);
    assert((seq!['+'] + digits).skip(1) =~= digits);
}

/// What is read as a number is made of digits, with a sign in front of them at most.
pub proof fn law_only_digits_are_read(s: Seq<char>)
    requires
        text::written_i32(s) is Some,
    ensures
        s.len() > 0,
        48 <= s.last() as int <= 57,
        forall|i: int|
            0 <= i < s.len() ==> 48 <= (#[trigger] s[i]) as int <= 57 || (i == 0 && (s[0] == '+'
                || s[0] == '-')),
        s[0] == '-' ==> text::written_i32(s)->0 <= 0,
        s[0] != '-' ==> text::written_i32(s)->0 >= 0,
{
    let signed = s.len() > 0 && (s[0] == '+' || s[0] == '-');
    let digits = if signed {
        s.skip(1)
    } else {
        s
    };
    assert(text::all_digits(digits));
    assert(text::digit(digits.last()));
    assert forall|i: int| 0 <= i < s.len() implies 48 <= (#[trigger] s[i]) as int <= 57 || (i == 0
        && (s[0] == '+' || s[0] == '-')) by {
        if signed && i > 0 {
            assert(text::digit(digits[i - 1]));
        } else if !signed {
            assert(text::digit(digits[i]));
        }
    }
}

/// A text begins with its own beginning and ends with its own end, and with nothing else.
pub proof fn law_beginnings_and_ends(a: Seq<char>, b: Seq<char>, s: Seq<char>)
    ensures
        text::starts_with(a + b, a),
        text::ends_with(a + b, b),
        text::starts_with(s, a) ==> s == a + s.skip(a.len() as int),
        text::ends_with(s, b) ==> s == s.take(s.len() - b.len()) + b,
{
    assert((a + b).take(a.len() as int) =~= a);
    assert((a + b).skip(a.len() as int) =~= b);
    if text::starts_with(s, a) {
        assert(s =~= s.take(a.len() as int) + s.skip(a.len() as int));
    }
    if text::ends_with(s, b) {
        assert(s =~= s.take(s.len() - b.len()) + s.skip(s.len() - b.len()));
    }
}

proof fn lemma_all_are_counted(s: Seq<char>)
    requires
        text::all_digits(s),
    ensures
        text::digit_count(s) == s.len(),
    decreases s.len(),
{
    if s.len() > 0 {
        let rest = s.drop_first();
        assert(text::digit(s[0]));
        assert forall|i: int| 0 <= i < rest.len() implies text::digit(#[trigger] rest[i]) by {
            assert(text::digit(s[i + 1]));
        }
        lemma_all_are_counted(rest);
    }
}

/// Why a text is no number: there is none, or the number is too large or too small for thirty-two
/// bits, or it does not begin with what a number begins with.
pub proof fn law_unreadable_numbers_have_a_reason(n: int, s: Seq<char>)
    ensures
        text::number_fault(Seq::empty()) == NumberError::Empty,
        n > i32::MAX ==> text::number_fault(signed(n)) == NumberError::TooLarge,
        n < i32::MIN ==> text::number_fault(signed(n)) == NumberError::TooSmall,
        s.len() > 0 && s[0] != '+' && s[0] != '-' && !(48 <= s[0] as int <= 57)
            ==> text::number_fault(s) == NumberError::InvalidDigit,
        text::number_message(NumberError::Empty) == "cannot parse integer from empty string"@,
        text::number_message(NumberError::InvalidDigit) == "invalid digit found in string"@,
        text::number_message(NumberError::TooLarge) == "number too large to fit in target type"@,
        text::number_message(NumberError::TooSmall) == "number too small to fit in target type"@,
{
    let size = if n < 0 {
        (-n) as nat
    } else {
        n as nat
    };
    let digits = text::decimal(size);
    text::lemma_decimal_reads_back(size);
    lemma_all_are_counted(digits);
    assert(text::digit(digits[0]));
    assert((seq!['-'] + digits).skip(1) =~= digits);
    assert(digits.take(digits.len() as int) =~= digits);
    if s.len() > 0 {
        assert(s.take(0) =~= Seq::<char>::empty());
    }
}

} // verus!
