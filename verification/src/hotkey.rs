//! Hotkeys of the capture toolbar: turning a text such as `Ctrl+Shift+S`
//! into the key strokes that press it.
//!
//! A hotkey is a list of parts joined by `+`.  A part is read without the
//! white space around it and without regard to letter case.  What the
//! uppercase form of a text is, `str::to_uppercase` says; everything else
//! is proved.

use vstd::prelude::*;
use vstd::string::StrSliceExecFns;

verus! {

/// Virtual key code of the shift key.
pub const VK_SHIFT: u16 = 0x10;

/// Virtual key code of the control key.
pub const VK_CONTROL: u16 = 0x11;

/// Virtual key code of the alt key.
pub const VK_ALT: u16 = 0x12;

/// What one part of a hotkey stands for.
#[derive(Debug, Clone, Copy, PartialEq, Eq, Structural)]
pub enum KeyPart {
    Control,
    Shift,
    Alt,
    /// A letter key, by its virtual key code.
    Letter(u16),
    /// Anything else; it presses nothing.
    Other,
}

/// One key going down or up.
#[derive(Debug, Clone, Copy, PartialEq, Eq, Structural)]
pub struct KeyStroke {
    pub key: u16,
    pub release: bool,
}

/// The uppercase form of a string, as Unicode defines it.
pub uninterp spec fn uppercase_of(s: Seq<char>) -> Seq<char>;

/// `str::to_uppercase`: the uppercase equivalent of the text.
#[verifier::external_body]
fn uppercase_chars(text: &Vec<char>) -> (upper: Vec<char>)
    ensures
        upper@ == uppercase_of(text@),
{
    text.iter().collect::<String>().to_uppercase().chars().collect()
}

/// Whether `c` is white space: one of the 25 characters that Unicode gives
/// the property White_Space.
pub open spec fn is_white_space(c: char) -> bool {
    let code = c as u32;
    ||| 0x09 <= code <= 0x0D
    ||| code == 0x20
    ||| code == 0x85
    ||| code == 0xA0
    ||| code == 0x1680
    ||| 0x2000 <= code <= 0x200A
    ||| code == 0x2028
    ||| code == 0x2029
    ||| code == 0x202F
    ||| code == 0x205F
    ||| code == 0x3000
}

/// Index of the first character at or after `from` that is no white space;
/// the length of the text where there is none.
pub open spec fn solid_start(text: Seq<char>, from: int) -> int
    decreases text.len() - from,
{
    if from >= text.len() {
        text.len() as int
    } else if !is_white_space(text[from]) {
        from
    } else {
        solid_start(text, from + 1)
    }
}

/// Index just behind the last character before `to` and not before `start`
/// that is no white space; `start` where there is none.
pub open spec fn solid_end(text: Seq<char>, start: int, to: int) -> int
    decreases to - start,
{
    if to <= start {
        start
    } else if !is_white_space(text[to - 1]) {
        to
    } else {
        solid_end(text, start, to - 1)
    }
}

/// A text without the white space at its two ends.
pub open spec fn trimmed(text: Seq<char>) -> Seq<char> {
    let start = solid_start(text, 0);
    text.subrange(start, solid_end(text, start, text.len() as int))
}

/// Decides `is_white_space`.
pub fn white_space(c: char) -> (yes: bool)
    ensures
        yes == is_white_space(c),
{
    let code: u32 = c as u32;
    (0x09 <= code && code <= 0x0D) || code == 0x20 || code == 0x85 || code == 0xA0 || code == 0x1680
        || (0x2000 <= code && code <= 0x200A) || code == 0x2028 || code == 0x2029 || code == 0x202F
        || code == 0x205F || code == 0x3000
}

/// The characters of a string slice, in order.
pub fn chars_of(s: &str) -> (chars: Vec<char>)
    ensures
        chars@ == s@,
{
    let count: usize = s.unicode_len();
    let mut chars: Vec<char> = Vec::new();
    let mut i: usize = 0;
    while i < count
        invariant
            i <= count,
            count == s@.len(),
            chars@ == s@.take(i as int),
        decreases count - i,
    {
        chars.push(s.get_char(i));
        i = i + 1;
        assert(chars@ =~= s@.take(i as int));
    }
    assert(s@.take(count as int) =~= s@);
    chars
}

/// Removes the white space at the two ends of a text.
pub fn trim(text: &Vec<char>) -> (kept: Vec<char>)
    ensures
        kept@ == trimmed(text@),
{
    let mut start: usize = 0;
    while start < text.len() && white_space(text[start])
        invariant
            start <= text.len(),
            solid_start(text@, 0) == solid_start(text@, start as int),
        decreases text.len() - start,
    {
        start = start + 1;
    }
    let mut end: usize = text.len();
    while end > start && white_space(text[end - 1])
        invariant
            start <= end <= text.len(),
            solid_end(text@, start as int, text@.len() as int) == solid_end(
                text@,
                start as int,
                end as int,
            ),
        decreases end - start,
    {
        end = end - 1;
    }
    let mut kept: Vec<char> = Vec::new();
    let mut i: usize = start;
    while i < end
        invariant
            start <= i <= end <= text.len(),
            kept@ == text@.subrange(start as int, i as int),
        decreases end - i,
    {
        kept.push(text[i]);
        i = i + 1;
        assert(kept@ =~= text@.subrange(start as int, i as int));
    }
    kept
}

/// Whether `c` is one of the letters `A` to `Z` or `a` to `z`.
pub open spec fn is_letter(c: char) -> bool {
    ('A' <= c && c <= 'Z') || ('a' <= c && c <= 'z')
}

/// Virtual key code of the key for the letter `c`: the code of its capital.
pub open spec fn letter_key(c: char) -> u16 {
    if 'a' <= c && c <= 'z' {
        (c as u32 - 32) as u16
    } else {
        c as u32 as u16
    }
}

/// What a part stands for, given in uppercase and without white space
/// around it.
pub open spec fn key_part(upper: Seq<char>) -> KeyPart {
    if upper == seq!['C', 'T', 'R', 'L'] || upper == seq!['C', 'O', 'N', 'T', 'R', 'O', 'L'] {
        KeyPart::Control
    } else if upper == seq!['S', 'H', 'I', 'F', 'T'] {
        KeyPart::Shift
    } else if upper == seq!['A', 'L', 'T'] {
        KeyPart::Alt
    } else if upper.len() == 1 && is_letter(upper[0]) {
        KeyPart::Letter(letter_key(upper[0]))
    } else {
        KeyPart::Other
    }
}

/// The virtual key code of a modifier.
pub open spec fn modifier_key(part: KeyPart) -> Option<u16> {
    match part {
        KeyPart::Control => Some(VK_CONTROL),
        KeyPart::Shift => Some(VK_SHIFT),
        KeyPart::Alt => Some(VK_ALT),
        _ => None,
    }
}

/// The modifiers among `parts`, in their order.
pub open spec fn modifiers_of(parts: Seq<KeyPart>) -> Seq<u16>
    decreases parts.len(),
{
    if parts.len() == 0 {
        Seq::empty()
    } else {
        match modifier_key(parts.last()) {
            Some(key) => modifiers_of(parts.drop_last()).push(key),
            None => modifiers_of(parts.drop_last()),
        }
    }
}

/// The letter among `parts`: the last one, where there are several.
pub open spec fn main_key_of(parts: Seq<KeyPart>) -> Option<u16>
    decreases parts.len(),
{
    if parts.len() == 0 {
        None
    } else {
        match parts.last() {
            KeyPart::Letter(key) => Some(key),
            _ => main_key_of(parts.drop_last()),
        }
    }
}

/// The key strokes that press a hotkey: every modifier down, the letter
/// down and up, every modifier up again in reverse order.
pub open spec fn stroke_sequence(parts: Seq<KeyPart>) -> Seq<KeyStroke> {
    let held = modifiers_of(parts);
    let down = Seq::new(held.len(), |i: int| KeyStroke { key: held[i], release: false });
    let up = Seq::new(
        held.len(),
        |i: int| KeyStroke { key: held[held.len() - 1 - i], release: true },
    );
    let tap = match main_key_of(parts) {
        Some(key) => seq![
            KeyStroke { key, release: false },
            KeyStroke { key, release: true },
        ],
        None => Seq::empty(),
    };
    down + tap + up
}

/// The pieces of `text` between the separators, in order.  A text without
/// separator is one piece; two separators in a row have an empty piece
/// between them.
pub open spec fn pieces(text: Seq<char>, separator: char) -> Seq<Seq<char>>
    decreases text.len(),
{
    if text.len() == 0 {
        seq![Seq::empty()]
    } else {
        let before = pieces(text.drop_last(), separator);
        if text.last() == separator {
            before.push(Seq::empty())
        } else {
            before.drop_last().push(before.last().push(text.last()))
        }
    }
}

/// What the parts of a hotkey stand for.
pub open spec fn hotkey_parts(hotkey: Seq<char>) -> Seq<KeyPart> {
    pieces(hotkey, '+').map_values(|piece: Seq<char>| key_part(uppercase_of(trimmed(piece))))
}

/// Compares a text with a word of capital letters.
fn is_word(text: &Vec<char>, word: &Vec<char>) -> (same: bool)
    ensures
        same == (text@ == word@),
{
    if text.len() != word.len() {
        return false;
    }
    let mut i: usize = 0;
    while i < text.len()
        invariant
            i <= text.len(),
            text.len() == word.len(),
            forall|k: int| 0 <= k < i ==> text@[k] == word@[k],
        decreases text.len() - i,
    {
        if text[i] != word[i] {
            return false;
        }
        i = i + 1;
    }
    assert(text@ =~= word@);
    true
}

/// Reads one part, given in uppercase and without white space around it.
pub fn classify(upper: &Vec<char>) -> (part: KeyPart)
    ensures
        part == key_part(upper@),
{
    if is_word(upper, &vec!['C', 'T', 'R', 'L']) || is_word(
        upper,
        &vec!['C', 'O', 'N', 'T', 'R', 'O', 'L'],
    ) {
        KeyPart::Control
    } else if is_word(upper, &vec!['S', 'H', 'I', 'F', 'T']) {
        KeyPart::Shift
    } else if is_word(upper, &vec!['A', 'L', 'T']) {
        KeyPart::Alt
    } else if upper.len() == 1 {
        let c: char = upper[0];
        if 'a' <= c && c <= 'z' {
            KeyPart::Letter((c as u32 - 32) as u16)
        } else if 'A' <= c && c <= 'Z' {
            KeyPart::Letter(c as u32 as u16)
        } else {
            KeyPart::Other
        }
    } else {
        KeyPart::Other
    }
}

/// Builds the key strokes that press a hotkey from what its parts stand
/// for.
pub fn key_strokes(parts: &Vec<KeyPart>) -> (strokes: Vec<KeyStroke>)
    ensures
        strokes@ == stroke_sequence(parts@),
{
    let mut held: Vec<u16> = Vec::new();
    let mut main_key: Option<u16> = None;
    let mut i: usize = 0;
    while i < parts.len()
        invariant
            i <= parts.len(),
            held@ == modifiers_of(parts@.take(i as int)),
            main_key == main_key_of(parts@.take(i as int)),
        decreases parts.len() - i,
    {
        assert(parts@.take(i + 1).drop_last() =~= parts@.take(i as int));
        match parts[i] {
            KeyPart::Control => {
                held.push(VK_CONTROL);
            },
            KeyPart::Shift => {
                held.push(VK_SHIFT);
            },
            KeyPart::Alt => {
                held.push(VK_ALT);
            },
            KeyPart::Letter(key) => {
                main_key = Some(key);
            },
            KeyPart::Other => {},
        }
        i = i + 1;
    }
    assert(parts@.take(parts.len() as int) =~= parts@);
    let mut strokes: Vec<KeyStroke> = Vec::new();
    let mut d: usize = 0;
    while d < held.len()
        invariant
            d <= held.len(),
            strokes@ == Seq::new(d as nat, |k: int| KeyStroke { key: held@[k], release: false }),
        decreases held.len() - d,
    {
        strokes.push(KeyStroke { key: held[d], release: false });
        d = d + 1;
        assert(strokes@ =~= Seq::new(
            d as nat,
            |k: int| KeyStroke { key: held@[k], release: false },
        ));
    }
    match main_key {
        Some(key) => {
            strokes.push(KeyStroke { key, release: false });
            strokes.push(KeyStroke { key, release: true });
        },
        None => {},
    }
    let ghost pressed = strokes@;
    let mut u: usize = 0;
    while u < held.len()
        invariant
            u <= held.len(),
            strokes@ == pressed + Seq::new(
                u as nat,
                |k: int| KeyStroke { key: held@[held@.len() - 1 - k], release: true },
            ),
        decreases held.len() - u,
    {
        strokes.push(KeyStroke { key: held[held.len() - 1 - u], release: true });
        u = u + 1;
        assert(strokes@ =~= pressed + Seq::new(
            u as nat,
            |k: int| KeyStroke { key: held@[held@.len() - 1 - k], release: true },
        ));
    }
    assert(strokes@ =~= stroke_sequence(parts@));
    strokes
}

/// The texts that a list of character vectors holds.
pub open spec fn texts_of(list: Seq<Vec<char>>) -> Seq<Seq<char>> {
    list.map_values(|text: Vec<char>| text@)
}

/// Cuts `text` into its pieces between the separators.
pub fn split(text: &Vec<char>, separator: char) -> (cut: Vec<Vec<char>>)
    ensures
        texts_of(cut@) == pieces(text@, separator),
{
    let mut done: Vec<Vec<char>> = Vec::new();
    let mut current: Vec<char> = Vec::new();
    let mut i: usize = 0;
    assert(text@.take(0) =~= Seq::<char>::empty());
    assert(texts_of(done@).push(current@) =~= pieces(text@.take(0), separator));
    while i < text.len()
        invariant
            i <= text.len(),
            texts_of(done@).push(current@) == pieces(text@.take(i as int), separator),
        decreases text.len() - i,
    {
        let ghost before = texts_of(done@).push(current@);
        assert(text@.take(i + 1).drop_last() =~= text@.take(i as int));
        assert(text@.take(i + 1).last() == text@[i as int]);
        if text[i] == separator {
            done.push(current);
            current = Vec::new();
            assert(texts_of(done@) =~= before);
            assert(texts_of(done@).push(current@) =~= before.push(Seq::empty()));
        } else {
            current.push(text[i]);
            assert(texts_of(done@).push(current@) =~= before.drop_last().push(
                before.last().push(text@[i as int]),
            ));
        }
        i = i + 1;
    }
    assert(text@.take(text.len() as int) =~= text@);
    let ghost all = texts_of(done@).push(current@);
    done.push(current);
    assert(texts_of(done@) =~= all);
    done
}

/// Reads a hotkey and builds the key strokes that press it.
pub fn parse_hotkey(hotkey: &str) -> (strokes: Vec<KeyStroke>)
    ensures
        strokes@ == stroke_sequence(hotkey_parts(hotkey@)),
{
    let text = chars_of(hotkey);
    let cut = split(&text, '+');
    let mut parts: Vec<KeyPart> = Vec::new();
    let mut i: usize = 0;
    while i < cut.len()
        invariant
            i <= cut.len(),
            texts_of(cut@) == pieces(hotkey@, '+'),
            parts@.len() == i,
            forall|k: int|
                0 <= k < i ==> parts@[k] == key_part(
                    uppercase_of(trimmed(#[trigger] pieces(hotkey@, '+')[k])),
                ),
        decreases cut.len() - i,
    {
        assert(texts_of(cut@)[i as int] == cut@[i as int]@);
        let kept = trim(&cut[i]);
        let upper = uppercase_chars(&kept);
        parts.push(classify(&upper));
        i = i + 1;
    }
    assert(texts_of(cut@).len() == cut@.len());
    assert(parts@ =~= hotkey_parts(hotkey@));
    key_strokes(&parts)
}

} // verus!
