//! Text as a sequence of characters: trimming, case, numbers, paths.

pub mod laws;

use vstd::prelude::*;
use vstd::string::*;

verus! {

/// `String::push` appends the given character to the end of the string.
pub assume_specification[ String::push ](s: &mut String, c: char)
    ensures
        final(s)@ == old(s)@.push(c),
;

/// The characters of `s`, in order.
pub fn chars_of(s: &str) -> (chars: Vec<char>)
    ensures
        chars@ == s@,
{
    let mut chars: Vec<char> = Vec::new();
    for c in it: s.chars()
        invariant
            it.seq() == s@,
            chars@ == s@.take(it.index() as int),
    {
        chars.push(c);
    }
    assert(s@.take(s@.len() as int) == s@);
    chars
}

/// The string that holds the given characters.
pub fn text_of(chars: &Vec<char>) -> (s: String)
    ensures
        s@ == chars@,
{
    let mut s = String::new();
    let mut i: usize = 0;
    while i < chars.len()
        invariant
            i <= chars.len(),
            s@ == chars@.take(i as int),
        decreases chars.len() - i,
    {
        s.push(chars[i]);
        i += 1;
    }
    assert(chars@.take(chars@.len() as int) == chars@);
    s
}

/// Whether two texts hold the same characters.
pub fn same_text(a: &str, b: &str) -> (same: bool)
    ensures
        same == (a@ == b@),
{
    let left = chars_of(a);
    let right = chars_of(b);
    same_chars(&left, &right)
}

/// Whether two character lists are equal.
pub fn same_chars(a: &Vec<char>, b: &Vec<char>) -> (same: bool)
    ensures
        same == (a@ == b@),
{
    if a.len() != b.len() {
        return false;
    }
    let mut i: usize = 0;
    while i < a.len()
        invariant
            i <= a.len(),
            a.len() == b.len(),
            forall|j: int| 0 <= j < i ==> a@[j] == b@[j],
        decreases a.len() - i,
    {
        if a[i] != b[i] {
            return false;
        }
        i += 1;
    }
    assert(a@ =~= b@);
    true
}

/// A text that may be left out, with what stands for it then.
pub open spec fn text_or(given: Option<String>, default: Seq<char>) -> Seq<char> {
    match given {
        Some(s) => s@,
        None => default,
    }
}

/// The given text, or the default where there is none.
pub fn given_or<'a>(given: &'a Option<String>, default: &'static str) -> (s: &'a str)
    ensures
        s@ == text_or(*given, default@),
{
    match given {
        Some(s) => s.as_str(),
        None => default,
    }
}

/// A list of strings by the characters that each holds.
pub open spec fn contents(list: Seq<String>) -> Seq<Seq<char>> {
    list.map_values(|s: String| s@)
}

/// A list of its own with the same strings.
pub fn copy_strings(list: &[String]) -> (copy: Vec<String>)
    ensures
        copy@ == list@,
{
    let mut copy: Vec<String> = Vec::new();
    let mut i: usize = 0;
    while i < list.len()
        invariant
            i <= list@.len(),
            copy@ == list@.take(i as int),
        decreases list.len() - i,
    {
        copy.push(list[i].clone());
        i += 1;
    }
    assert(list@.take(list@.len() as int) == list@);
    copy
}

/// Whether the list holds a string with these characters.
pub fn holds(list: &Vec<String>, s: &str) -> (found: bool)
    ensures
        found == contents(list@).contains(s@),
{
    let mut i: usize = 0;
    while i < list.len()
        invariant
            i <= list.len(),
            forall|j: int| 0 <= j < i ==> (#[trigger] list@[j])@ != s@,
        decreases list.len() - i,
    {
        if same_text(list[i].as_str(), s) {
            assert(contents(list@)[i as int] == s@);
            return true;
        }
        i += 1;
    }
    assert forall|j: int| 0 <= j < contents(list@).len() implies contents(list@)[j] != s@ by {
        assert(contents(list@)[j] == list@[j]@);
    }
    false
}

/// The empty literal holds no characters.
pub proof fn lemma_empty_literal()
    ensures
        ""@ == Seq::<char>::empty(),
{
    reveal_strlit("");
    assert(""@ =~= Seq::<char>::empty());
}

/// An optional text by its characters.
pub open spec fn optional(s: Option<String>) -> Option<Seq<char>> {
    match s {
        Some(s) => Some(s@),
        None => None,
    }
}

/// The ASCII lower-case form of a character; every other character is itself.
pub open spec fn lower_char(c: char) -> char {
    if 'A' <= c <= 'Z' {
        (c as int + 32) as char
    } else {
        c
    }
}

/// A text with each of its ASCII capitals in lower case.
pub open spec fn lowered(s: Seq<char>) -> Seq<char> {
    Seq::new(s.len(), |i: int| lower_char(s[i]))
}

/// The lower-case form of one character.
pub fn lower(c: char) -> (l: char)
    ensures
        l == lower_char(c),
{
    if 'A' <= c && c <= 'Z' {
        (c as u8 + 32) as char
    } else {
        c
    }
}

/// The text with each of its ASCII capitals in lower case.
pub fn to_lower(s: &str) -> (l: String)
    ensures
        l@ == lowered(s@),
{
    let chars = chars_of(s);
    let mut l = String::new();
    let mut i: usize = 0;
    while i < chars.len()
        invariant
            chars@ == s@,
            i <= chars.len(),
            l@ == lowered(s@).take(i as int),
        decreases chars.len() - i,
    {
        l.push(lower(chars[i]));
        i += 1;
        assert(l@ =~= lowered(s@).take(i as int));
    }
    assert(lowered(s@).take(s@.len() as int) == lowered(s@));
    l
}

/// The characters with the Unicode property `White_Space`.
pub open spec fn white(c: char) -> bool {
    let n = c as int;
    ||| 0x9 <= n <= 0xd
    ||| n == 0x20
    ||| n == 0x85
    ||| n == 0xa0
    ||| n == 0x1680
    ||| 0x2000 <= n <= 0x200a
    ||| n == 0x2028
    ||| n == 0x2029
    ||| n == 0x202f
    ||| n == 0x205f
    ||| n == 0x3000
}

/// Whether a character is white space.
pub fn is_white(c: char) -> (b: bool)
    ensures
        b == white(c),
{
    let n: u32 = c as u32;
    (0x9 <= n && n <= 0xd) || n == 0x20 || n == 0x85 || n == 0xa0 || n == 0x1680 || (0x2000 <= n
        && n <= 0x200a) || n == 0x2028 || n == 0x2029 || n == 0x202f || n == 0x205f || n == 0x3000
}

/// Whether some character of a text is white space.
pub open spec fn has_white(s: Seq<char>) -> bool {
    exists|i: int| 0 <= i < s.len() && white(#[trigger] s[i])
}

/// Whether the list holds a white-space character.
pub fn contains_white(chars: &Vec<char>) -> (b: bool)
    ensures
        b == has_white(chars@),
{
    let mut i: usize = 0;
    while i < chars.len()
        invariant
            i <= chars.len(),
            forall|j: int| 0 <= j < i ==> !white(#[trigger] chars@[j]),
        decreases chars.len() - i,
    {
        if is_white(chars[i]) {
            return true;
        }
        i += 1;
    }
    false
}

/// A text without its leading white space.
pub open spec fn trimmed_start(s: Seq<char>) -> Seq<char>
    decreases s.len(),
{
    if s.len() > 0 && white(s[0]) {
        trimmed_start(s.drop_first())
    } else {
        s
    }
}

/// A text without its trailing white space.
pub open spec fn trimmed_end(s: Seq<char>) -> Seq<char>
    decreases s.len(),
{
    if s.len() > 0 && white(s.last()) {
        trimmed_end(s.drop_last())
    } else {
        s
    }
}

/// A text without its leading and trailing white space.
pub open spec fn trimmed(s: Seq<char>) -> Seq<char> {
    trimmed_end(trimmed_start(s))
}

/// Trimming leaves nothing to trim, and leaves a text without white space at its ends as it is.
pub proof fn lemma_trimmed(s: Seq<char>)
    ensures
        trimmed(trimmed(s)) == trimmed(s),
        s.len() > 0 && !white(s[0]) && !white(s.last()) ==> trimmed(s) == s,
{
    lemma_trimmed_start(s);
    lemma_trimmed_end(trimmed_start(s));
}

proof fn lemma_trimmed_start(s: Seq<char>)
    ensures
        trimmed_start(s).len() > 0 ==> !white(trimmed_start(s)[0]),
    decreases s.len(),
{
    if s.len() > 0 && white(s[0]) {
        lemma_trimmed_start(s.drop_first());
    }
}

proof fn lemma_trimmed_end(s: Seq<char>)
    ensures
        trimmed_end(s).len() > 0 ==> !white(trimmed_end(s).last()) && trimmed_end(s)[0] == s[0],
        trimmed_end(s).len() <= s.len(),
    decreases s.len(),
{
    if s.len() > 0 && white(s.last()) {
        lemma_trimmed_end(s.drop_last());
    }
}

/// The characters without the white space at either end.
pub fn trim_chars(chars: &Vec<char>) -> (t: Vec<char>)
    ensures
        t@ == trimmed(chars@),
{
    let mut from: usize = 0;
    assert(chars@.skip(0) == chars@);
    while from < chars.len() && is_white(chars[from])
        invariant
            from <= chars.len(),
            trimmed_start(chars@.skip(from as int)) == trimmed_start(chars@),
        decreases chars.len() - from,
    {
        assert(chars@.skip(from as int).drop_first() == chars@.skip(from + 1));
        from += 1;
    }
    let ghost rest = chars@.skip(from as int);
    assert(rest == trimmed_start(chars@));
    let mut to: usize = chars.len();
    assert(chars@.subrange(from as int, to as int) == rest);
    while from < to && is_white(chars[to - 1])
        invariant
            from <= to <= chars.len(),
            trimmed_end(chars@.subrange(from as int, to as int)) == trimmed_end(rest),
        decreases to,
    {
        assert(chars@.subrange(from as int, to as int).drop_last() == chars@.subrange(
            from as int,
            to - 1,
        ));
        to -= 1;
    }
    slice_of(chars, from, to)
}

/// The characters from position `from` up to, not including, position `to`.
pub fn slice_of(chars: &Vec<char>, from: usize, to: usize) -> (part: Vec<char>)
    requires
        from <= to <= chars@.len(),
    ensures
        part@ == chars@.subrange(from as int, to as int),
{
    let mut part: Vec<char> = Vec::new();
    let mut i: usize = from;
    while i < to
        invariant
            from <= i <= to <= chars@.len(),
            part@ == chars@.subrange(from as int, i as int),
        decreases to - i,
    {
        part.push(chars[i]);
        i += 1;
        assert(part@ =~= chars@.subrange(from as int, i as int));
    }
    part
}

/// The text without the white space at either end.
pub fn trim(s: &str) -> (t: String)
    ensures
        t@ == trimmed(s@),
{
    text_of(&trim_chars(&chars_of(s)))
}

/// Whether a character is an ASCII digit.
pub open spec fn digit(c: char) -> bool {
    '0' <= c <= '9'
}

/// Whether every character of a text is an ASCII digit.
pub open spec fn all_digits(s: Seq<char>) -> bool {
    forall|i: int| 0 <= i < s.len() ==> digit(#[trigger] s[i])
}

/// The number that a text of digits writes in base ten.
pub open spec fn digits_value(s: Seq<char>) -> nat
    decreases s.len(),
{
    if s.len() == 0 {
        0
    } else {
        10 * digits_value(s.drop_last()) + (s.last() as int - '0' as int) as nat
    }
}

/// The integer that a text writes: an optional sign, then digits only.
pub open spec fn written_int(s: Seq<char>) -> Option<int> {
    let signed = s.len() > 0 && (s[0] == '+' || s[0] == '-');
    let digits = if signed {
        s.skip(1)
    } else {
        s
    };
    if digits.len() == 0 || !all_digits(digits) {
        None
    } else if signed && s[0] == '-' {
        Some(-(digits_value(digits) as int))
    } else {
        Some(digits_value(digits) as int)
    }
}

/// The integer that a text writes, where it fits in 32 bits.
pub open spec fn written_i32(s: Seq<char>) -> Option<i32> {
    match written_int(s) {
        Some(n) if i32::MIN <= n <= i32::MAX => Some(n as i32),
        _ => None,
    }
}

/// Why a text writes no signed 32-bit integer.
#[derive(Debug, Clone, Copy, PartialEq, Eq, Structural)]
pub enum NumberError {
    /// There is no text.
    Empty,
    /// Something stands where a digit should.
    InvalidDigit,
    TooLarge,
    TooSmall,
}

/// How many digits a text begins with.
pub open spec fn digit_count(s: Seq<char>) -> nat
    decreases s.len(),
{
    if s.len() > 0 && digit(s[0]) {
        1 + digit_count(s.drop_first())
    } else {
        0
    }
}

/// Why a text that writes no signed 32-bit integer does not, read from left to right.
pub open spec fn number_fault(s: Seq<char>) -> NumberError {
    let signed = s.len() > 0 && (s[0] == '+' || s[0] == '-');
    let digits = if signed {
        s.skip(1)
    } else {
        s
    };
    let value = digits_value(digits.take(digit_count(digits) as int));
    if s.len() == 0 {
        NumberError::Empty
    } else if s[0] == '-' && -value < i32::MIN {
        NumberError::TooSmall
    } else if s[0] != '-' && value > i32::MAX {
        NumberError::TooLarge
    } else {
        NumberError::InvalidDigit
    }
}

/// What is said of a text that writes no signed 32-bit integer.
pub open spec fn number_message(e: NumberError) -> Seq<char> {
    match e {
        NumberError::Empty => "cannot parse integer from empty string"@,
        NumberError::InvalidDigit => "invalid digit found in string"@,
        NumberError::TooLarge => "number too large to fit in target type"@,
        NumberError::TooSmall => "number too small to fit in target type"@,
    }
}

impl NumberError {
    /// The fault as a sentence for the user.
    pub fn message(&self) -> (s: String)
        ensures
            s@ == number_message(*self),
    {
        match self {
            NumberError::Empty => "cannot parse integer from empty string".to_owned(),
            NumberError::InvalidDigit => "invalid digit found in string".to_owned(),
            NumberError::TooLarge => "number too large to fit in target type".to_owned(),
            NumberError::TooSmall => "number too small to fit in target type".to_owned(),
        }
    }
}

proof fn lemma_digit_count(s: Seq<char>, n: int)
    requires
        0 <= n <= s.len(),
        forall|j: int| 0 <= j < n ==> digit(#[trigger] s[j]),
        n < s.len() ==> !digit(s[n]),
    ensures
        digit_count(s) == n,
    decreases n,
{
    if n > 0 {
        assert(digit(s[0]));
        assert forall|j: int| 0 <= j < n - 1 implies digit(#[trigger] s.drop_first()[j]) by {
            assert(digit(s[j + 1]));
        }
        lemma_digit_count(s.drop_first(), n - 1);
    }
}

/// Reads a signed 32-bit integer: an optional sign, then digits only.
pub fn parse_i32(chars: &Vec<char>) -> (n: Result<i32, NumberError>)
    ensures
        match n {
            Ok(n) => written_i32(chars@) == Some(n),
            Err(e) => written_i32(chars@) is None && e == number_fault(chars@),
        },
{
    if chars.len() == 0 {
        return Err(NumberError::Empty);
    }
    let negative = chars[0] == '-';
    let signed = negative || chars[0] == '+';
    let from: usize = if signed {
        1
    } else {
        0
    };
    let limit: u64 = if negative {
        0x8000_0000
    } else {
        0x7fff_ffff
    };
    let overflow = if negative {
        NumberError::TooSmall
    } else {
        NumberError::TooLarge
    };
    let ghost digits = chars@.skip(from as int);
    assert(digits == if signed { chars@.skip(1) } else { chars@ });
    let mut value: u64 = 0;
    let mut large = false;
    let mut i: usize = from;
    while i < chars.len()
        invariant
            chars@.len() > 0,
            from <= i <= chars.len(),
            from == if signed { 1int } else { 0 },
            digits == chars@.skip(from as int),
            negative == (chars@[0] == '-'),
            signed == (chars@[0] == '+' || chars@[0] == '-'),
            digits == if signed { chars@.skip(1) } else { chars@ },
            limit == if negative { 0x8000_0000int } else { 0x7fff_ffff },
            overflow == if negative { NumberError::TooSmall } else { NumberError::TooLarge },
            forall|j: int| 0 <= j < i - from ==> digit(#[trigger] digits[j]),
            large == (digits_value(digits.take(i - from)) > limit),
            !large ==> value == digits_value(digits.take(i - from)),
        decreases chars.len() - i,
    {
        let c = chars[i];
        if c < '0' || c > '9' {
            proof {
                assert(!digit(digits[i - from]));
                lemma_digit_count(digits, i - from);
            }
            return Err(
                if large {
                    overflow
                } else {
                    NumberError::InvalidDigit
                },
            );
        }
        proof {
            assert(digits.take(i + 1 - from).drop_last() == digits.take(i - from));
            assert(digits.take(i + 1 - from).last() == c);
        }
        if !large {
            value = value * 10 + (c as u64 - '0' as u64);
            large = value > limit;
        }
        i += 1;
    }
    proof {
        assert(digits.take(digits.len() as int) == digits);
        lemma_digit_count(digits, digits.len() as int);
    }
    if large {
        Err(overflow)
    } else if from == chars.len() {
        Err(NumberError::InvalidDigit)
    } else if negative {
        Ok((-(value as i64)) as i32)
    } else {
        Ok(value as i32)
    }
}

/// The digits that write a number in base ten, without leading zeros.
pub open spec fn decimal(n: nat) -> Seq<char>
    decreases n,
{
    let last = ('0' as int + n % 10) as char;
    if n < 10 {
        seq![last]
    } else {
        decimal(n / 10).push(last)
    }
}

/// Writes a number in base ten.
pub fn decimal_text(n: u64) -> (s: String)
    ensures
        s@ == decimal(n as nat),
    decreases n,
{
    let last: char = (48 + (n % 10) as u8) as char;
    let mut s = if n < 10 {
        String::new()
    } else {
        decimal_text(n / 10)
    };
    s.push(last);
    assert(n < 10 ==> s@ =~= seq![last]);
    s
}

/// Reading back what `decimal` writes gives the number again, so two numbers never share a
/// text.
pub proof fn lemma_decimal_reads_back(n: nat)
    ensures
        decimal(n).len() > 0,
        all_digits(decimal(n)),
        digits_value(decimal(n)) == n,
    decreases n,
{
    let last = ('0' as int + n % 10) as char;
    if n < 10 {
        assert(decimal(n) == seq![last]);
        assert(decimal(n).drop_last() == Seq::<char>::empty());
        assert(digits_value(Seq::<char>::empty()) == 0);
    } else {
        lemma_decimal_reads_back(n / 10);
        assert(decimal(n).drop_last() == decimal(n / 10));
    }
}

/// Whether `s` ends with `tail`.
pub open spec fn ends_with(s: Seq<char>, tail: Seq<char>) -> bool {
    tail.len() <= s.len() && s.skip(s.len() - tail.len()) == tail
}

/// Whether `s` begins with `head`.
pub open spec fn starts_with(s: Seq<char>, head: Seq<char>) -> bool {
    head.len() <= s.len() && s.take(head.len() as int) == head
}

/// What stands before `tail`, where the list ends with it.
pub fn strip_suffix(chars: &Vec<char>, tail: &str) -> (rest: Option<Vec<char>>)
    ensures
        rest is Some == ends_with(chars@, tail@),
        rest matches Some(r) ==> r@ == chars@.take(chars@.len() - tail@.len()),
{
    let end = chars_of(tail);
    if chars.len() < end.len() {
        return None;
    }
    let cut: usize = chars.len() - end.len();
    let found = slice_of(chars, cut, chars.len());
    assert(found@ == chars@.skip(cut as int));
    if same_chars(&found, &end) {
        let rest = slice_of(chars, 0, cut);
        assert(rest@ == chars@.take(cut as int));
        Some(rest)
    } else {
        None
    }
}

/// What follows `head`, where the list begins with it.
pub fn strip_prefix(chars: &Vec<char>, head: &str) -> (rest: Option<Vec<char>>)
    ensures
        rest is Some == starts_with(chars@, head@),
        rest matches Some(r) ==> r@ == chars@.skip(head@.len() as int),
{
    let start = chars_of(head);
    if chars.len() < start.len() {
        return None;
    }
    let found = slice_of(chars, 0, start.len());
    assert(found@ == chars@.take(start@.len() as int));
    if same_chars(&found, &start) {
        let rest = slice_of(chars, start.len(), chars.len());
        assert(rest@ == chars@.skip(start@.len() as int));
        Some(rest)
    } else {
        None
    }
}

/// The pieces of a text between the occurrences of `sep`.
pub open spec fn pieces(s: Seq<char>, sep: char) -> Seq<Seq<char>>
    decreases s.len(),
{
    if s.len() == 0 {
        seq![Seq::<char>::empty()]
    } else {
        let before = pieces(s.drop_last(), sep);
        if s.last() == sep {
            before.push(Seq::<char>::empty())
        } else {
            before.drop_last().push(before.last().push(s.last()))
        }
    }
}

/// A list of texts by the characters that each holds.
pub open spec fn texts(list: Seq<Vec<char>>) -> Seq<Seq<char>> {
    list.map_values(|v: Vec<char>| v@)
}

/// Cuts the characters at each occurrence of `sep`.
pub fn split(chars: &Vec<char>, sep: char) -> (parts: Vec<Vec<char>>)
    ensures
        texts(parts@) == pieces(chars@, sep),
        parts@.len() > 0,
{
    let mut done: Vec<Vec<char>> = Vec::new();
    let mut current: Vec<char> = Vec::new();
    let mut i: usize = 0;
    assert(chars@.take(0) == Seq::<char>::empty());
    assert(texts(done@).push(current@) == seq![Seq::<char>::empty()]);
    while i < chars.len()
        invariant
            i <= chars.len(),
            texts(done@).push(current@) == pieces(chars@.take(i as int), sep),
        decreases chars.len() - i,
    {
        let c = chars[i];
        let ghost before = texts(done@).push(current@);
        assert(chars@.take(i + 1).drop_last() == chars@.take(i as int));
        assert(before.drop_last() == texts(done@));
        i += 1;
        if c == sep {
            done.push(current);
            assert(texts(done@) == before);
            current = Vec::new();
        } else {
            current.push(c);
        }
    }
    assert(chars@.take(chars@.len() as int) == chars@);
    let ghost before = texts(done@).push(current@);
    done.push(current);
    assert(texts(done@) == before);
    done
}

/// The position of the last slash, or -1.
pub open spec fn last_slash(s: Seq<char>) -> int
    decreases s.len(),
{
    if s.len() == 0 {
        -1
    } else if s.last() == '/' {
        s.len() - 1
    } else {
        last_slash(s.drop_last())
    }
}

/// The last slash, where there is one, stands inside the text.
pub proof fn lemma_last_slash_range(s: Seq<char>)
    ensures
        -1 <= last_slash(s) < s.len(),
    decreases s.len(),
{
    if s.len() > 0 && s.last() != '/' {
        lemma_last_slash_range(s.drop_last());
    }
}

/// The final component of a Unix path: empty components and `.` are passed over, and a path
/// that ends in `..`, or has no component, has none.
pub open spec fn final_component(s: Seq<char>) -> Option<Seq<char>>
    decreases s.len(),
    via final_component_decreases
{
    let cut = last_slash(s);
    let part = s.skip(cut + 1);
    if part.len() == 0 || part == seq!['.'] {
        if cut < 0 {
            None
        } else {
            final_component(s.take(cut))
        }
    } else if part == seq!['.', '.'] {
        None
    } else {
        Some(part)
    }
}

#[via_fn]
proof fn final_component_decreases(s: Seq<char>) {
    lemma_last_slash_range(s);
}

/// The final component of a Unix path, where it has one that names a file or directory.
pub fn file_name(path: &str) -> (name: Option<String>)
    ensures
        name is Some == final_component(path@) is Some,
        name matches Some(n) ==> n@ == final_component(path@)->0,
{
    let chars = chars_of(path);
    let mut end: usize = chars.len();
    assert(chars@.take(end as int) == chars@);
    loop
        invariant
            end <= chars.len(),
            chars@ == path@,
            final_component(chars@.take(end as int)) == final_component(path@),
        decreases end,
    {
        let ghost s = chars@.take(end as int);
        let mut from: usize = end;
        assert(s.take(from as int) == s);
        while from > 0 && chars[from - 1] != '/'
            invariant
                from <= end <= chars.len(),
                s == chars@.take(end as int),
                last_slash(s.take(from as int)) == last_slash(s),
            decreases from,
        {
            assert(s.take(from as int).drop_last() == s.take(from - 1));
            from -= 1;
        }
        assert(last_slash(s) == from - 1);
        let part = slice_of(&chars, from, end);
        assert(part@ == s.skip(last_slash(s) + 1));
        if part.len() == 0 || (part.len() == 1 && part[0] == '.') {
            assert(part@.len() == 1 ==> part@ == seq!['.']);
            if from == 0 {
                return None;
            }
            assert(s.take(from - 1) == chars@.take(from - 1));
            end = from - 1;
        } else if part.len() == 2 && part[0] == '.' && part[1] == '.' {
            assert(part@ == seq!['.', '.']);
            assert(part@ != seq!['.']);
            return None;
        } else {
            assert(part@ != seq!['.'] && part@ != seq!['.', '.']) by {
                if part@ == seq!['.'] {
                    assert(part@[0] == '.');
                }
                if part@ == seq!['.', '.'] {
                    assert(part@[0] == '.' && part@[1] == '.');
                }
            }
            return Some(text_of(&part));
        }
    }
}

} // verus!
