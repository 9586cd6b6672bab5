//! The wide-character encoding of text at the boundary.
//!
//! Text crosses the boundary as a run of 16-bit units. A character below
//! `0x1_0000` is one unit; any other is a pair of surrogates, a high one
//! followed by a low one. Reading a run of units never fails: a surrogate
//! that has no partner is read as the replacement character.
use vstd::prelude::*;

verus! {

/// What stands in for a unit that is no character.
pub const REPLACEMENT: char = '\u{FFFD}';

/// `char::from_u32`: the character with the given number, where there is
/// one, that is for every number up to `0x10FFFF` that is not a surrogate.
pub assume_specification[ char::from_u32 ](i: u32) -> (r: Option<char>)
    ensures
        r == (if i < 0xD800 || 0xE000 <= i <= 0x10FFFF {
            Some(i as char)
        } else {
            None::<char>
        }),
;

/// `String::push`: the string with one character more at its end.
pub assume_specification[ String::push ](s: &mut String, ch: char)
    ensures
        final(s)@ == old(s)@.push(ch),
;

/// A unit that opens a surrogate pair.
pub open spec fn is_high_surrogate(unit: u16) -> bool {
    0xD800 <= unit <= 0xDBFF
}

/// A unit that closes a surrogate pair.
pub open spec fn is_low_surrogate(unit: u16) -> bool {
    0xDC00 <= unit <= 0xDFFF
}

/// The character that a surrogate pair stands for, as a number.
pub open spec fn joined(high: u16, low: u16) -> int {
    0x1_0000 + (high - 0xD800) * 0x400 + (low - 0xDC00)
}

/// The units of one character.
pub open spec fn units_of(c: char) -> Seq<u16> {
    let v = c as u32;
    if v < 0x1_0000 {
        seq![v as u16]
    } else {
        seq![(0xD800 + (v - 0x1_0000) / 0x400) as u16, (0xDC00 + (v - 0x1_0000) % 0x400) as u16]
    }
}

/// The units of a text: those of its characters, in order.
pub open spec fn encode(text: Seq<char>) -> Seq<u16>
    decreases text.len(),
{
    if text.len() == 0 {
        Seq::empty()
    } else {
        encode(text.drop_last()) + units_of(text.last())
    }
}

/// The text that a run of units is read as. A high surrogate directly
/// followed by a low one is the character of the pair; any other surrogate
/// is the replacement character; any other unit is the character with its
/// number.
pub open spec fn decode(units: Seq<u16>) -> Seq<char>
    decreases units.len(),
{
    if units.len() == 0 {
        Seq::empty()
    } else if units.len() >= 2 && is_high_surrogate(units[0]) && is_low_surrogate(units[1]) {
        seq![joined(units[0], units[1]) as char] + decode(units.skip(2))
    } else if is_high_surrogate(units[0]) || is_low_surrogate(units[0]) {
        seq![REPLACEMENT] + decode(units.skip(1))
    } else {
        seq![units[0] as char] + decode(units.skip(1))
    }
}

/// A run of units in which every surrogate has its partner, so that
/// reading it replaces nothing.
pub open spec fn well_paired(units: Seq<u16>) -> bool
    decreases units.len(),
{
    if units.len() == 0 {
        true
    } else if units.len() >= 2 && is_high_surrogate(units[0]) && is_low_surrogate(units[1]) {
        well_paired(units.skip(2))
    } else {
        !is_high_surrogate(units[0]) && !is_low_surrogate(units[0]) && well_paired(units.skip(1))
    }
}

/// Adding a character to a text adds its units.
pub proof fn lemma_encode_push(text: Seq<char>, c: char)
    ensures
        encode(text.push(c)) == encode(text) + units_of(c),
{
    assert(text.push(c).drop_last() =~= text);
}

/// A character's units, read back, are that character, whatever follows.
pub proof fn lemma_decode_units_of(c: char, rest: Seq<u16>)
    ensures
        decode(units_of(c) + rest) == seq![c] + decode(rest),
{
    let units = units_of(c) + rest;
    if (c as u32) < 0x1_0000 {
        assert(units.skip(1) =~= rest);
    } else {
        assert(units.skip(2) =~= rest);
    }
}

/// A text's units, read back, are that text, whatever follows.
pub proof fn lemma_decode_encoded_prefix(text: Seq<char>, rest: Seq<u16>)
    ensures
        decode(encode(text) + rest) == text + decode(rest),
    decreases text.len(),
{
    if text.len() > 0 {
        let front = text.drop_last();
        let c = text.last();
        lemma_decode_encoded_prefix(front, units_of(c) + rest);
        lemma_decode_units_of(c, rest);
        assert(encode(text) + rest =~= encode(front) + (units_of(c) + rest));
    }
}

/// Text survives the trip: what is written as units is read back as the
/// same text.
pub proof fn law_text_round_trip(text: Seq<char>)
    ensures
        decode(encode(text)) == text,
        well_paired(encode(text)),
{
    lemma_decode_encoded_prefix(text, Seq::empty());
    lemma_encoded_well_paired(text, Seq::empty());
}

/// A character's units are well paired wherever what follows them is.
pub proof fn lemma_units_of_well_paired(c: char, rest: Seq<u16>)
    requires
        well_paired(rest),
    ensures
        well_paired(units_of(c) + rest),
{
    let tail = units_of(c) + rest;
    if (c as u32) < 0x1_0000 {
        assert(tail.skip(1) =~= rest);
    } else {
        assert(tail.skip(2) =~= rest);
    }
}

/// A text's units are well paired wherever what follows them is.
pub proof fn lemma_encoded_well_paired(text: Seq<char>, rest: Seq<u16>)
    requires
        well_paired(rest),
    ensures
        well_paired(encode(text) + rest),
    decreases text.len(),
{
    if text.len() > 0 {
        let front = text.drop_last();
        let tail = units_of(text.last()) + rest;
        lemma_units_of_well_paired(text.last(), rest);
        lemma_encoded_well_paired(front, tail);
        assert(encode(text) + rest =~= encode(front) + tail);
    }
}

/// Well-paired units survive the trip the other way: read as text and
/// written again, they are the same units.
pub proof fn law_units_round_trip(units: Seq<u16>)
    requires
        well_paired(units),
    ensures
        encode(decode(units)) == units,
    decreases units.len(),
{
    if units.len() >= 2 && is_high_surrogate(units[0]) && is_low_surrogate(units[1]) {
        let rest = units.skip(2);
        law_units_round_trip(rest);
        lemma_encode_prepend(joined(units[0], units[1]) as char, decode(rest));
    } else if units.len() > 0 {
        let rest = units.skip(1);
        law_units_round_trip(rest);
        lemma_encode_prepend(units[0] as char, decode(rest));
    }
}

/// Putting a character in front of a text puts its units in front.
pub proof fn lemma_encode_prepend(c: char, text: Seq<char>)
    ensures
        encode(seq![c] + text) == units_of(c) + encode(text),
    decreases text.len(),
{
    if text.len() == 0 {
        lemma_encode_push(Seq::empty(), c);
    } else {
        let whole = seq![c] + text;
        assert(whole.drop_last() =~= seq![c] + text.drop_last());
        lemma_encode_prepend(c, text.drop_last());
    }
}

/// Writes a text as 16-bit units.
pub fn encode_wide(text: &str) -> (units: Vec<u16>)
    ensures
        units@ == encode(text@),
{
    let mut units: Vec<u16> = Vec::new();
    for c in it: text.chars()
        invariant
            it.seq() == text@,
            units@ == encode(text@.take(it.index() as int)),
    {
        proof {
            let done = text@.take(it.index() as int);
            assert(text@.take(it.index() + 1) =~= done.push(c));
            lemma_encode_push(done, c);
        }
        let v: u32 = c as u32;
        if v < 0x1_0000 {
            units.push(v as u16);
        } else {
            let w: u32 = v - 0x1_0000;
            units.push((0xD800 + w / 0x400) as u16);
            units.push((0xDC00 + w % 0x400) as u16);
        }
    }
    assert(text@.take(text@.len() as int) =~= text@);
    units
}

/// Reads a run of 16-bit units as text.
pub fn decode_wide(units: &[u16]) -> (text: String)
    ensures
        text@ == decode(units@),
{
    let mut text = String::new();
    let mut i: usize = 0;
    assert(units@.skip(0) =~= units@);
    while i < units.len()
        invariant
            i <= units.len(),
            decode(units@) == text@ + decode(units@.skip(i as int)),
        decreases units.len() - i,
    {
        let unit: u16 = units[i];
        let ghost rest = units@.skip(i as int);
        if 0xD800 <= unit && unit <= 0xDBFF && i + 1 < units.len() && 0xDC00 <= units[i + 1]
            && units[i + 1] <= 0xDFFF {
            let low: u16 = units[i + 1];
            let v: u32 = 0x1_0000 + (unit as u32 - 0xD800) * 0x400 + (low as u32 - 0xDC00);
            let c: char = match char::from_u32(v) {
                Some(c) => c,
                None => REPLACEMENT,
            };
            text.push(c);
            i += 2;
            assert(rest.skip(2) =~= units@.skip(i as int));
        } else if 0xD800 <= unit && unit <= 0xDFFF {
            text.push(REPLACEMENT);
            i += 1;
            assert(rest.skip(1) =~= units@.skip(i as int));
        } else {
            let c: char = match char::from_u32(unit as u32) {
                Some(c) => c,
                None => REPLACEMENT,
            };
            text.push(c);
            i += 1;
            assert(rest.skip(1) =~= units@.skip(i as int));
        }
    }
    text
}

} // verus!
