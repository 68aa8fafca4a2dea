//! Hotkeys as users write them, and the key sequences that the desktop registers.

use crate::text;
use vstd::prelude::*;
use vstd::string::*;

verus! {

/// A key that is held while another one is pressed.
#[derive(Debug, Clone, Copy, PartialEq, Eq, Structural)]
pub enum Modifier {
    Meta,
    Ctrl,
    Alt,
    Shift,
}

/// A hotkey: the text it was written as, and the key sequence it stands for.
#[derive(Debug)]
pub struct Hotkey {
    raw: String,
    sequence: String,
}

/// Why a text is no hotkey: the token that is not known.
#[derive(Debug, PartialEq, Eq)]
pub enum HotkeyError {
    UnknownModifier(String),
    UnknownKey(String),
}

/// Why a text is no hotkey, by the text of the token.
pub enum HotkeyFault {
    UnknownModifier(Seq<char>),
    UnknownKey(Seq<char>),
}

impl View for HotkeyError {
    type V = HotkeyFault;

    open spec fn view(&self) -> HotkeyFault {
        match *self {
            HotkeyError::UnknownModifier(token) => HotkeyFault::UnknownModifier(token@),
            HotkeyError::UnknownKey(token) => HotkeyFault::UnknownKey(token@),
        }
    }
}

/// What is said of a text that is no hotkey.
pub open spec fn fault_message(fault: HotkeyFault) -> Seq<char> {
    match fault {
        HotkeyFault::UnknownModifier(token) => "unknown modifier '"@ + token + "'"@,
        HotkeyFault::UnknownKey(token) => "unknown key '"@ + token + "'"@,
    }
}

impl HotkeyError {
    /// The fault as a sentence for the user.
    pub fn message(&self) -> (s: String)
        ensures
            s@ == fault_message(self@),
    {
        match self {
            HotkeyError::UnknownModifier(token) => "unknown modifier '".to_owned().concat(
                token.as_str(),
            ).concat("'"),
            HotkeyError::UnknownKey(token) => "unknown key '".to_owned().concat(
                token.as_str(),
            ).concat("'"),
        }
    }
}

/// The modifier that a lower-case token names.
pub open spec fn modifier_named(token: Seq<char>) -> Option<Modifier> {
    if token == "super"@ || token == "meta"@ {
        Some(Modifier::Meta)
    } else if token == "ctrl"@ {
        Some(Modifier::Ctrl)
    } else if token == "alt"@ {
        Some(Modifier::Alt)
    } else if token == "shift"@ {
        Some(Modifier::Shift)
    } else {
        None
    }
}

/// The desktop's name of a key that has a word for a name.
pub open spec fn word_key(token: Seq<char>) -> Option<Seq<char>> {
    if token == "grave"@ {
        Some("`"@)
    } else if token == "space"@ {
        Some("Space"@)
    } else if token == "tab"@ {
        Some("Tab"@)
    } else if token == "return"@ || token == "enter"@ {
        Some("Return"@)
    } else if token == "escape"@ || token == "esc"@ {
        Some("Esc"@)
    } else if token == "backspace"@ {
        Some("Backspace"@)
    } else if token == "insert"@ {
        Some("Ins"@)
    } else if token == "delete"@ {
        Some("Del"@)
    } else if token == "home"@ {
        Some("Home"@)
    } else if token == "end"@ {
        Some("End"@)
    } else if token == "pageup"@ {
        Some("PgUp"@)
    } else if token == "pagedown"@ {
        Some("PgDown"@)
    } else if token == "up"@ {
        Some("Up"@)
    } else if token == "down"@ {
        Some("Down"@)
    } else if token == "left"@ {
        Some("Left"@)
    } else if token == "right"@ {
        Some("Right"@)
    } else if token == "minus"@ {
        Some("-"@)
    } else if token == "equal"@ {
        Some("="@)
    } else {
        None
    }
}

/// The number of the function key that a lower-case token names.
pub open spec fn function_key(token: Seq<char>) -> Option<nat> {
    let digits = token.skip(1);
    let n = text::digits_value(digits);
    if token.len() > 1 && token[0] == 'f' && text::all_digits(digits) && 1 <= n <= 35 && digits
        == text::decimal(n) {
        Some(n)
    } else {
        None
    }
}

/// The desktop's name of the key that a lower-case token names.
pub open spec fn key_named(token: Seq<char>) -> Option<Seq<char>> {
    if token.len() == 1 && 'a' <= token[0] <= 'z' {
        Some(seq![(token[0] as int - 32) as char])
    } else if token.len() == 1 && text::digit(token[0]) {
        Some(token)
    } else if function_key(token) is Some {
        Some(seq!['F'] + text::decimal(function_key(token)->0))
    } else {
        word_key(token)
    }
}

/// The tokens of a hotkey: its pieces between plus signs, in lower case, without the white
/// space around them.
pub open spec fn tokens(raw: Seq<char>) -> Seq<Seq<char>> {
    text::pieces(text::lowered(raw), '+').map_values(|t: Seq<char>| text::trimmed(t))
}

/// Whether one of the tokens before the last names the modifier.
pub open spec fn held(tokens: Seq<Seq<char>>, m: Modifier) -> bool {
    exists|i: int| 0 <= i < tokens.len() - 1 && modifier_named(#[trigger] tokens[i]) == Some(m)
}

/// The part of a key sequence that stands for one modifier.
pub open spec fn modifier_part(tokens: Seq<Seq<char>>, m: Modifier, part: Seq<char>) -> Seq<char> {
    if held(tokens, m) {
        part
    } else {
        Seq::empty()
    }
}

/// The key sequence that a hotkey stands for: every token but the last names a modifier, and
/// the last one names a key.
pub open spec fn sequence_of(raw: Seq<char>) -> Option<Seq<char>> {
    let t = tokens(raw);
    if (forall|i: int| 0 <= i < t.len() - 1 ==> modifier_named(#[trigger] t[i]) is Some)
        && key_named(t.last()) is Some {
        Some(
            modifier_part(t, Modifier::Meta, "Meta+"@) + modifier_part(t, Modifier::Ctrl, "Ctrl+"@)
                + modifier_part(t, Modifier::Alt, "Alt+"@) + modifier_part(
                t,
                Modifier::Shift,
                "Shift+"@,
            ) + key_named(t.last())->0,
        )
    } else {
        None
    }
}

/// The first token that names no modifier.
pub open spec fn first_unknown(tokens: Seq<Seq<char>>) -> Option<int>
    decreases tokens.len(),
{
    if tokens.len() == 0 {
        None
    } else {
        match first_unknown(tokens.drop_last()) {
            Some(i) => Some(i),
            None => if modifier_named(tokens.last()) is None {
                Some(tokens.len() - 1)
            } else {
                None
            },
        }
    }
}

/// Why a text that is no hotkey is none: the first of the tokens before the last that names no
/// modifier, or else the last one, which then names no key.
pub open spec fn fault_of(raw: Seq<char>) -> HotkeyFault {
    let t = tokens(raw);
    match first_unknown(t.drop_last()) {
        Some(i) => HotkeyFault::UnknownModifier(t[i]),
        None => HotkeyFault::UnknownKey(t.last()),
    }
}

proof fn lemma_first_unknown(tokens: Seq<Seq<char>>, n: int)
    requires
        0 <= n <= tokens.len(),
        forall|j: int| 0 <= j < n ==> modifier_named(#[trigger] tokens[j]) is Some,
        n < tokens.len() ==> modifier_named(tokens[n]) is None,
    ensures
        first_unknown(tokens) == if n < tokens.len() {
            Some(n)
        } else {
            None
        },
    decreases tokens.len(),
{
    if tokens.len() > 0 {
        let before = tokens.drop_last();
        assert forall|j: int| 0 <= j < before.len() implies before[j] == #[trigger] tokens[j] by {}
        lemma_first_unknown(
            before,
            if n < before.len() {
                n
            } else {
                before.len() as int
            },
        );
    }
}

fn find_modifier(token: &str) -> (m: Option<Modifier>)
    ensures
        m == modifier_named(token@),
{
    if text::same_text(token, "super") || text::same_text(token, "meta") {
        Some(Modifier::Meta)
    } else if text::same_text(token, "ctrl") {
        Some(Modifier::Ctrl)
    } else if text::same_text(token, "alt") {
        Some(Modifier::Alt)
    } else if text::same_text(token, "shift") {
        Some(Modifier::Shift)
    } else {
        None
    }
}

fn find_word_key(token: &str) -> (name: Option<&'static str>)
    ensures
        name is Some == word_key(token@) is Some,
        name matches Some(n) ==> n@ == word_key(token@)->0,
{
    if text::same_text(token, "grave") {
        Some("`")
    } else if text::same_text(token, "space") {
        Some("Space")
    } else if text::same_text(token, "tab") {
        Some("Tab")
    } else if text::same_text(token, "return") || text::same_text(token, "enter") {
        Some("Return")
    } else if text::same_text(token, "escape") || text::same_text(token, "esc") {
        Some("Esc")
    } else if text::same_text(token, "backspace") {
        Some("Backspace")
    } else if text::same_text(token, "insert") {
        Some("Ins")
    } else if text::same_text(token, "delete") {
        Some("Del")
    } else if text::same_text(token, "home") {
        Some("Home")
    } else if text::same_text(token, "end") {
        Some("End")
    } else if text::same_text(token, "pageup") {
        Some("PgUp")
    } else if text::same_text(token, "pagedown") {
        Some("PgDown")
    } else if text::same_text(token, "up") {
        Some("Up")
    } else if text::same_text(token, "down") {
        Some("Down")
    } else if text::same_text(token, "left") {
        Some("Left")
    } else if text::same_text(token, "right") {
        Some("Right")
    } else if text::same_text(token, "minus") {
        Some("-")
    } else if text::same_text(token, "equal") {
        Some("=")
    } else {
        None
    }
}

fn find_function_key(token: &Vec<char>) -> (n: Option<u64>)
    ensures
        n is Some == function_key(token@) is Some,
        n matches Some(k) ==> k as nat == function_key(token@)->0,
{
    if token.len() < 2 || token[0] != 'f' {
        return None;
    }
    let digits = text::slice_of(token, 1, token.len());
    assert(digits@ == token@.skip(1));
    let mut k: u64 = 1;
    while k <= 35
        invariant
            1 <= k <= 36,
            digits@ == token@.skip(1),
            token@.len() >= 2,
            token@[0] == 'f',
            forall|j: nat| 1 <= j < k ==> digits@ != #[trigger] text::decimal(j),
        decreases 36 - k,
    {
        proof {
            text::lemma_decimal_reads_back(k as nat);
        }
        if text::same_chars(&digits, &text::chars_of(text::decimal_text(k).as_str())) {
            return Some(k);
        }
        k += 1;
    }
    None
}

fn find_key(token: &Vec<char>) -> (name: Option<String>)
    ensures
        name is Some == key_named(token@) is Some,
        name matches Some(n) ==> n@ == key_named(token@)->0,
{
    if token.len() == 1 && 'a' <= token[0] && token[0] <= 'z' {
        let mut name = String::new();
        name.push((token[0] as u8 - 32) as char);
        assert(name@ =~= seq![(token@[0] as int - 32) as char]);
        return Some(name);
    }
    if token.len() == 1 && '0' <= token[0] && token[0] <= '9' {
        return Some(text::text_of(token));
    }
    match find_function_key(token) {
        Some(n) => {
            let mut name = String::new();
            name.push('F');
            name.append(text::decimal_text(n).as_str());
            assert(name@ =~= seq!['F'] + text::decimal(n as nat));
            Some(name)
        },
        None => match find_word_key(text::text_of(token).as_str()) {
            Some(word) => Some(word.to_owned()),
            None => None,
        },
    }
}

impl Hotkey {
    /// The hotkey as it was written.
    pub closed spec fn raw_text(&self) -> Seq<char> {
        self.raw@
    }

    /// The key sequence that the hotkey stands for.
    pub closed spec fn sequence_text(&self) -> Seq<char> {
        self.sequence@
    }

    /// Reads a hotkey such as `ctrl+grave`: modifiers, then one key.
    pub fn parse(raw: &str) -> (hotkey: Result<Hotkey, HotkeyError>)
        ensures
            match hotkey {
                Ok(h) => h.raw_text() == raw@ && sequence_of(raw@) == Some(h.sequence_text()),
                Err(e) => sequence_of(raw@) is None && e@ == fault_of(raw@),
            },
    {
        let parts = text::split(&text::chars_of(text::to_lower(raw).as_str()), '+');
        let ghost t = tokens(raw@);
        assert(t.len() == parts@.len());
        assert forall|i: int| 0 <= i < t.len() implies t[i] == text::trimmed(#[trigger] parts@[i]@) by {
            assert(text::texts(parts@)[i] == parts@[i]@);
        }
        let mut meta = false;
        let mut ctrl = false;
        let mut alt = false;
        let mut shift = false;
        let mut i: usize = 0;
        while i < parts.len() - 1
            invariant
                0 <= i <= parts@.len() - 1,
                t == tokens(raw@),
                t.len() == parts@.len(),
                forall|j: int| 0 <= j < t.len() ==> t[j] == text::trimmed(#[trigger] parts@[j]@),
                forall|j: int| 0 <= j < i ==> modifier_named(#[trigger] t[j]) is Some,
                meta == exists|j: int|
                    0 <= j < i && modifier_named(#[trigger] t[j]) == Some(Modifier::Meta),
                ctrl == exists|j: int|
                    0 <= j < i && modifier_named(#[trigger] t[j]) == Some(Modifier::Ctrl),
                alt == exists|j: int|
                    0 <= j < i && modifier_named(#[trigger] t[j]) == Some(Modifier::Alt),
                shift == exists|j: int|
                    0 <= j < i && modifier_named(#[trigger] t[j]) == Some(Modifier::Shift),
            decreases parts.len() - i,
        {
            let token = text::text_of(&text::trim_chars(&parts[i]));
            assert(token@ == t[i as int]);
            match find_modifier(token.as_str()) {
                None => {
                    proof {
                        lemma_first_unknown(t.drop_last(), i as int);
                    }
                    return Err(HotkeyError::UnknownModifier(token));
                },
                Some(Modifier::Meta) => {
                    meta = true;
                },
                Some(Modifier::Ctrl) => {
                    ctrl = true;
                },
                Some(Modifier::Alt) => {
                    alt = true;
                },
                Some(Modifier::Shift) => {
                    shift = true;
                },
            }
            i += 1;
        }
        let last = text::trim_chars(&parts[parts.len() - 1]);
        assert(last@ == t.last());
        let key = match find_key(&last) {
            None => {
                proof {
                    lemma_first_unknown(t.drop_last(), t.len() - 1);
                }
                return Err(HotkeyError::UnknownKey(text::text_of(&last)));
            },
            Some(key) => key,
        };
        let mut sequence = String::new();
        if meta {
            sequence.append("Meta+");
        }
        if ctrl {
            sequence.append("Ctrl+");
        }
        if alt {
            sequence.append("Alt+");
        }
        if shift {
            sequence.append("Shift+");
        }
        sequence.append(key.as_str());
        assert(meta == held(t, Modifier::Meta));
        assert(ctrl == held(t, Modifier::Ctrl));
        assert(alt == held(t, Modifier::Alt));
        assert(shift == held(t, Modifier::Shift));
        assert(sequence@ =~= sequence_of(raw@)->0);
        Ok(Hotkey { raw: raw.to_owned(), sequence })
    }

    /// The key sequence to register with the desktop.
    pub fn sequence(&self) -> (s: &str)
        ensures
            s@ == self.sequence_text(),
    {
        self.sequence.as_str()
    }

    /// The hotkey as the user wrote it.
    pub fn raw(&self) -> (s: &str)
        ensures
            s@ == self.raw_text(),
    {
        self.raw.as_str()
    }
}

impl Clone for Hotkey {
    fn clone(&self) -> (copy: Self)
        ensures
            copy == *self,
    {
        Hotkey { raw: self.raw.clone(), sequence: self.sequence.clone() }
    }
}

proof fn lemma_lowered_twice(s: Seq<char>)
    ensures
        text::lowered(text::lowered(s)) == text::lowered(s),
{
    assert(text::lowered(text::lowered(s)) =~= text::lowered(s));
}

/// It does not matter which letters of a hotkey are capitals.
pub proof fn law_capitals_do_not_matter(a: Seq<char>, b: Seq<char>)
    requires
        text::lowered(a) == text::lowered(b),
    ensures
        sequence_of(a) == sequence_of(b),
        sequence_of(text::lowered(a)) == sequence_of(a),
{
    lemma_lowered_twice(a);
}

/// A hotkey is cut at its plus signs, and the white space around each part does not matter.
pub proof fn law_hotkey_is_cut_at_plus_signs(first: Seq<char>, rest: Seq<char>)
    requires
        forall|i: int| 0 <= i < first.len() ==> #[trigger] first[i] != '+',
    ensures
        tokens(first) == seq![text::trimmed(text::lowered(first))],
        tokens(first + seq!['+'] + rest) == seq![text::trimmed(text::lowered(first))] + tokens(
            rest,
        ),
{
    let low = text::lowered(first);
    assert forall|i: int| 0 <= i < low.len() implies #[trigger] low[i] != '+' by {
        assert(first[i] != '+');
        assert('+' as int == 43);
    }
    assert(text::lowered(first + seq!['+'] + rest) =~= low + seq!['+'] + text::lowered(rest));
    text::laws::law_text_is_cut_at_each_separator(low, text::lowered(rest), '+');
    assert(tokens(first) =~= seq![text::trimmed(low)]);
    assert(tokens(first + seq!['+'] + rest) =~= seq![text::trimmed(low)] + tokens(rest));
}

/// Whether one of the parts before the last is a word.
pub open spec fn before_the_last(tokens: Seq<Seq<char>>, word: Seq<char>) -> bool {
    exists|i: int| 0 <= i < tokens.len() - 1 && #[trigger] tokens[i] == word
}

/// Whether a word is one for a key that is held.
pub open spec fn is_modifier(word: Seq<char>) -> bool {
    word == "super"@ || word == "meta"@ || word == "ctrl"@ || word == "alt"@ || word == "shift"@
}

/// A text is a hotkey exactly where every part of it but the last is a word for a key that is held,
/// and the last one names a key. Its key sequence names the held keys in one order, each once, and
/// then the key, whatever order they are written in.
pub proof fn law_held_keys_come_in_one_order(raw: Seq<char>)
    ensures
        ({
            let t = tokens(raw);
            let known = forall|i: int| 0 <= i < t.len() - 1 ==> is_modifier(#[trigger] t[i]);
            let none = Seq::<char>::empty();
            sequence_of(raw) == if known && key_named(t.last()) is Some {
                Some(
                    (if before_the_last(t, "super"@) || before_the_last(t, "meta"@) {
                        "Meta+"@
                    } else {
                        none
                    }) + (if before_the_last(t, "ctrl"@) {
                        "Ctrl+"@
                    } else {
                        none
                    }) + (if before_the_last(t, "alt"@) {
                        "Alt+"@
                    } else {
                        none
                    }) + (if before_the_last(t, "shift"@) {
                        "Shift+"@
                    } else {
                        none
                    }) + key_named(t.last())->0,
                )
            } else {
                None
            }
        }),
{
    reveal_strlit("super");
    reveal_strlit("meta");
    reveal_strlit("ctrl");
    reveal_strlit("alt");
    reveal_strlit("shift");
    assert("super"@[1] == 'u' && "shift"@[1] == 'h' && "meta"@[0] == 'm' && "ctrl"@[0] == 'c'
        && "alt"@[0] == 'a' && "super"@[0] == 's' && "shift"@[0] == 's');
    let t = tokens(raw);
    assert(forall|i: int|
        0 <= i < t.len() - 1 ==> (modifier_named(#[trigger] t[i]) is Some <==> is_modifier(t[i])));
    assert(held(t, Modifier::Meta) <==> before_the_last(t, "super"@) || before_the_last(
        t,
        "meta"@,
    )) by {
        if held(t, Modifier::Meta) {
            let i = choose|i: int|
                0 <= i < t.len() - 1 && modifier_named(#[trigger] t[i]) == Some(Modifier::Meta);
            assert(t[i] == "super"@ || t[i] == "meta"@);
        }
    }
    assert(held(t, Modifier::Ctrl) <==> before_the_last(t, "ctrl"@));
    assert(held(t, Modifier::Alt) <==> before_the_last(t, "alt"@));
    assert(held(t, Modifier::Shift) <==> before_the_last(t, "shift"@));
    if forall|i: int| 0 <= i < t.len() - 1 ==> is_modifier(#[trigger] t[i]) {
        assert(forall|i: int| 0 <= i < t.len() - 1 ==> modifier_named(#[trigger] t[i]) is Some);
    } else {
        let i = choose|i: int| 0 <= i < t.len() - 1 && !is_modifier(#[trigger] t[i]);
        assert(modifier_named(t[i]) is None);
    }
}

/// The keys that have a word for a name, each with what the desktop calls it.
pub open spec fn words() -> Seq<(Seq<char>, Seq<char>)> {
    seq![
        ("grave"@, "`"@),
        ("space"@, "Space"@),
        ("tab"@, "Tab"@),
        ("return"@, "Return"@),
        ("enter"@, "Return"@),
        ("escape"@, "Esc"@),
        ("esc"@, "Esc"@),
        ("backspace"@, "Backspace"@),
        ("insert"@, "Ins"@),
        ("delete"@, "Del"@),
        ("home"@, "Home"@),
        ("end"@, "End"@),
        ("pageup"@, "PgUp"@),
        ("pagedown"@, "PgDown"@),
        ("up"@, "Up"@),
        ("down"@, "Down"@),
        ("left"@, "Left"@),
        ("right"@, "Right"@),
        ("minus"@, "-"@),
        ("equal"@, "="@),
    ]
}

/// A key is a letter, which the desktop calls by its capital, a digit, a function key from the first
/// to the thirty-fifth, or has one of the words for a name; nothing else is a key.
pub proof fn law_keys_have_names(token: Seq<char>, n: nat)
    requires
        1 <= n <= 35,
    ensures
        token.len() == 1 && 97 <= token[0] as int <= 122 ==> key_named(token) == Some(
            seq![(token[0] as int - 32) as char],
        ),
        token.len() == 1 && 48 <= token[0] as int <= 57 ==> key_named(token) == Some(token),
        key_named(seq!['f'] + text::decimal(n)) == Some(seq!['F'] + text::decimal(n)),
        match key_named(token) {
            Some(name) => {
                ||| token.len() == 1 && (97 <= token[0] as int <= 122 || 48 <= token[0] as int
                    <= 57)
                ||| words().contains((token, name))
                ||| exists|k: nat|
                    1 <= k <= 35 && token == seq!['f'] + #[trigger] text::decimal(k) && name
                        == seq!['F'] + text::decimal(k)
            },
            None => forall|i: int| 0 <= i < words().len() ==> (#[trigger] words()[i]).0 != token,
        },
{
    text::lemma_decimal_reads_back(n);
    let written = seq!['f'] + text::decimal(n);
    assert(written.skip(1) =~= text::decimal(n));
    assert(function_key(written) == Some(n));
    assert('a' as int == 97 && 'z' as int == 122 && '0' as int == 48 && '9' as int == 57);
    if let Some(name) = key_named(token) {
        if token.len() == 1 && ('a' <= token[0] <= 'z' || text::digit(token[0])) {
        } else if function_key(token) is Some {
            let k = function_key(token)->0;
            assert(token =~= seq!['f'] + text::decimal(k));
        } else {
            let all = words();
            assert(all[0].0 == "grave"@ && all[1].0 == "space"@ && all[2].0 == "tab"@);
            let i: int = if token == "grave"@ {
                0
            } else if token == "space"@ {
                1
            } else if token == "tab"@ {
                2
            } else if token == "return"@ {
                3
            } else if token == "enter"@ {
                4
            } else if token == "escape"@ {
                5
            } else if token == "esc"@ {
                6
            } else if token == "backspace"@ {
                7
            } else if token == "insert"@ {
                8
            } else if token == "delete"@ {
                9
            } else if token == "home"@ {
                10
            } else if token == "end"@ {
                11
            } else if token == "pageup"@ {
                12
            } else if token == "pagedown"@ {
                13
            } else if token == "up"@ {
                14
            } else if token == "down"@ {
                15
            } else if token == "left"@ {
                16
            } else if token == "right"@ {
                17
            } else if token == "minus"@ {
                18
            } else {
                19
            };
            assert(all[i] == (token, name));
        }
    }
}

/// Where a text is no hotkey, the first part before the last that is no word for a key that is held
/// is named, and where all of them are, the last part.
pub proof fn law_first_unknown_part_is_named(raw: Seq<char>, i: int)
    requires
        0 <= i < tokens(raw).len(),
        forall|j: int| 0 <= j < i ==> is_modifier(#[trigger] tokens(raw)[j]),
        i < tokens(raw).len() - 1 ==> !is_modifier(tokens(raw)[i]),
    ensures
        fault_of(raw) == if i < tokens(raw).len() - 1 {
            HotkeyFault::UnknownModifier(tokens(raw)[i])
        } else {
            HotkeyFault::UnknownKey(tokens(raw)[i])
        },
{
    let t = tokens(raw);
    let before = t.drop_last();
    assert forall|j: int| 0 <= j < i implies modifier_named(#[trigger] before[j]) is Some by {
        assert(before[j] == t[j]);
    }
    lemma_first_unknown(before, i);
}

} // verus!
