//! UTF-16, the text encoding of the scripting engine: encoding a text to
//! 16-bit units and decoding units back to a text.

use vstd::prelude::*;

verus! {

/// Whether `unit` is the first half of a surrogate pair.
pub open spec fn is_high_surrogate(unit: u16) -> bool {
    0xD800 <= unit <= 0xDBFF
}

/// Whether `unit` is the second half of a surrogate pair.
pub open spec fn is_low_surrogate(unit: u16) -> bool {
    0xDC00 <= unit <= 0xDFFF
}

/// Whether `unit` is either half of a surrogate pair.
pub open spec fn is_surrogate(unit: u16) -> bool {
    0xD800 <= unit <= 0xDFFF
}

/// The code point that the surrogate pair `high`, `low` stands for.
pub open spec fn pair_value(high: u16, low: u16) -> int {
    0x10000 + (high - 0xD800) * 0x400 + (low - 0xDC00)
}

/// The character with the code point `value`.
pub open spec fn char_of(value: int) -> char {
    (value as u32) as char
}

/// The units of one character: the character itself where it fits in 16
/// bits, a surrogate pair otherwise.
pub open spec fn char_units(c: char) -> Seq<u16> {
    let value = (c as u32) as int;
    if value < 0x10000 {
        seq![value as u16]
    } else {
        seq![
            (0xD800 + (value - 0x10000) / 0x400) as u16,
            (0xDC00 + (value - 0x10000) % 0x400) as u16,
        ]
    }
}

/// The UTF-16 encoding of a text: the units of its characters, in order.
pub open spec fn encode_utf16(text: Seq<char>) -> Seq<u16>
    decreases text.len(),
{
    if text.len() == 0 {
        Seq::empty()
    } else {
        char_units(text[0]) + encode_utf16(text.drop_first())
    }
}

/// The text that a sequence of units stands for, or `None` where a surrogate
/// stands without its partner.
pub open spec fn decode_utf16(units: Seq<u16>) -> Option<Seq<char>>
    decreases units.len(),
{
    if units.len() == 0 {
        Some(Seq::empty())
    } else if !is_surrogate(units[0]) {
        match decode_utf16(units.skip(1)) {
            Some(rest) => Some(seq![char_of(units[0] as int)] + rest),
            None => None,
        }
    } else if is_high_surrogate(units[0]) && units.len() >= 2 && is_low_surrogate(units[1]) {
        match decode_utf16(units.skip(2)) {
            Some(rest) => Some(seq![char_of(pair_value(units[0], units[1]))] + rest),
            None => None,
        }
    } else {
        None
    }
}

/// `String::push` appends one character to the text.
pub assume_specification[ String::push ](text: &mut String, c: char)
    ensures
        final(text)@ == old(text)@.push(c),
;

/// `char::from_u32` answers with the character of the given value exactly
/// when the value is a Unicode scalar value: at most 0x10FFFF and no
/// surrogate.
pub assume_specification[ char::from_u32 ](value: u32) -> (c: Option<char>)
    ensures
        c is Some <==> (value <= 0xD7FF || 0xE000 <= value <= 0x10FFFF),
        c is Some ==> c.unwrap() as u32 == value,
;

/// Encoding a text with one more character appends that character's units.
pub proof fn lemma_encode_push(text: Seq<char>, c: char)
    ensures
        encode_utf16(text.push(c)) == encode_utf16(text) + char_units(c),
    decreases text.len(),
{
    if text.len() == 0 {
        assert(text.push(c).drop_first() =~= Seq::<char>::empty());
        assert(text.push(c)[0] == c);
        assert(encode_utf16(text.push(c)) == char_units(c) + encode_utf16(
            text.push(c).drop_first(),
        ));
        assert(encode_utf16(text.push(c)) =~= char_units(c));
        assert(encode_utf16(text) + char_units(c) =~= char_units(c));
    } else {
        assert(text.push(c).drop_first() =~= text.drop_first().push(c));
        lemma_encode_push(text.drop_first(), c);
        assert(encode_utf16(text.push(c)) =~= encode_utf16(text) + char_units(c));
    }
}

/// Decoding the units of one character followed by more units gives that
/// character followed by what the other units decode to.
pub proof fn lemma_decode_char_units(c: char, rest: Seq<u16>)
    ensures
        decode_utf16(char_units(c) + rest) == match decode_utf16(rest) {
            Some(text) => Some(seq![c] + text),
            None => None,
        },
{
    broadcast use {vstd::utf8::char_is_scalar, vstd::utf8::char_u32_cast};

    let units = char_units(c) + rest;
    let value = (c as u32) as int;
    if value < 0x10000 {
        assert(units[0] == value as u16);
        assert(!is_surrogate(units[0]));
        assert(units.skip(1) =~= rest);
        assert(units[0] as int == value);
        assert(char_of(units[0] as int) == c);
    } else {
        let offset = value - 0x10000;
        assert(0 <= offset < 0x100000);
        assert(units[0] == (0xD800 + offset / 0x400) as u16);
        assert(units[1] == (0xDC00 + offset % 0x400) as u16);
        assert(is_high_surrogate(units[0]));
        assert(is_low_surrogate(units[1]));
        assert(units.skip(2) =~= rest);
        assert(pair_value(units[0], units[1]) == value);
        assert(char_of(pair_value(units[0], units[1])) == c);
    }
}

/// A text survives the way to units and back: decoding the encoding of any
/// text gives that text again.
pub proof fn lemma_decode_encode(text: Seq<char>)
    ensures
        decode_utf16(encode_utf16(text)) == Some(text),
    decreases text.len(),
{
    if text.len() == 0 {
    } else {
        lemma_decode_encode(text.drop_first());
        lemma_decode_char_units(text[0], encode_utf16(text.drop_first()));
        assert(seq![text[0]] + text.drop_first() =~= text);
    }
}

/// Units that stand for a text are the encoding of that text: no two
/// sequences of units decode to the same text.
pub proof fn lemma_encode_decode(units: Seq<u16>)
    requires
        decode_utf16(units) is Some,
    ensures
        encode_utf16(decode_utf16(units).unwrap()) == units,
    decreases units.len(),
{
    broadcast use {vstd::utf8::char_is_scalar, vstd::utf8::char_u32_cast};

    if units.len() == 0 {
    } else if !is_surrogate(units[0]) {
        let rest = decode_utf16(units.skip(1)).unwrap();
        let c = char_of(units[0] as int);
        lemma_encode_decode(units.skip(1));
        let text = seq![c] + rest;
        assert(text[0] == c);
        assert(text.drop_first() =~= rest);
        lemma_char_of(units[0] as int);
        assert(char_units(c) =~= seq![units[0]]);
        assert(encode_utf16(text) =~= units);
    } else {
        let rest = decode_utf16(units.skip(2)).unwrap();
        let value = pair_value(units[0], units[1]);
        let c = char_of(value);
        lemma_encode_decode(units.skip(2));
        let text = seq![c] + rest;
        assert(text[0] == c);
        assert(text.drop_first() =~= rest);
        lemma_char_of(value);
        assert(0x10000 <= value <= 0x10FFFF);
        assert((value - 0x10000) / 0x400 == units[0] - 0xD800);
        assert((value - 0x10000) % 0x400 == units[1] - 0xDC00);
        assert(char_units(c) =~= seq![units[0], units[1]]);
        assert(encode_utf16(text) =~= units);
    }
}

/// The character of a scalar value has that value.
pub proof fn lemma_char_of(value: int)
    requires
        0 <= value <= 0xD7FF || 0xE000 <= value <= 0x10FFFF,
    ensures
        char_of(value) as u32 == value,
{
}

/// The UTF-16 units of `text`.
pub fn encode(text: &str) -> (units: Vec<u16>)
    ensures
        units@ == encode_utf16(text@),
{
    let mut units: Vec<u16> = Vec::new();
    let ghost mut done: Seq<char> = Seq::empty();
    broadcast use vstd::utf8::char_is_scalar;

    for c in iter: text.chars()
        invariant
            iter.seq() == text@,
            done == iter.seq().take(iter.index() as int),
            units@ == encode_utf16(done),
    {
        proof {
            lemma_encode_push(done, c);
            assert(iter.seq().take(iter.index() + 1) =~= done.push(c));
            done = done.push(c);
        }
        let value: u32 = c as u32;
        if value < 0x10000 {
            units.push(value as u16);
            assert(units@ =~= encode_utf16(done));
        } else {
            let offset: u32 = value - 0x10000;
            units.push((0xD800 + offset / 0x400) as u16);
            units.push((0xDC00 + offset % 0x400) as u16);
            assert(units@ =~= encode_utf16(done));
        }
    }
    assert(done =~= text@);
    units
}

/// The text that `units` stand for; `None` where a surrogate stands without
/// its partner.
pub fn decode(units: &[u16]) -> (text: Option<String>)
    ensures
        match text {
            Some(t) => decode_utf16(units@) == Some(t@),
            None => decode_utf16(units@) is None,
        },
{
    let mut text = String::new();
    let mut i: usize = 0;
    proof {
        assert(units@.skip(0) =~= units@);
        assert forall|rest: Seq<char>| #[trigger] (text@ + rest) == rest by {
            assert(text@ + rest =~= rest);
        }
    }
    while i < units.len()
        invariant
            i <= units.len(),
            decode_utf16(units@) == match decode_utf16(units@.skip(i as int)) {
                Some(rest) => Some(text@ + rest),
                None => None,
            },
        decreases units.len() - i,
    {
        let ghost tail = units@.skip(i as int);
        let ghost before = text@;
        let unit: u16 = units[i];
        assert(tail[0] == unit);
        if unit < 0xD800 || unit > 0xDFFF {
            match char::from_u32(unit as u32) {
                Some(c) => {
                    text.push(c);
                    proof {
                        assert(tail.skip(1) =~= units@.skip(i + 1));
                        let ghost scalar: u32 = unit as u32;
                        vstd::utf8::char_u32_cast(c, scalar);
                        assert(c == char_of(unit as int));
                        assert forall|rest: Seq<char>|
                            before + (seq![c] + rest) == #[trigger] (before.push(c) + rest) by {
                            assert(before + (seq![c] + rest) =~= before.push(c) + rest);
                        }
                    }
                    i = i + 1;
                },
                None => {
                    return None;
                },
            }
        } else if unit <= 0xDBFF && i + 1 < units.len() && 0xDC00 <= units[i + 1] && units[i + 1]
            <= 0xDFFF {
            let low: u16 = units[i + 1];
            assert(tail[1] == low);
            let high_part: u32 = (unit - 0xD800) as u32;
            let low_part: u32 = (low - 0xDC00) as u32;
            let value: u32 = 0x10000 + high_part * 0x400 + low_part;
            match char::from_u32(value) {
                Some(c) => {
                    text.push(c);
                    proof {
                        assert(tail.skip(2) =~= units@.skip(i + 2));
                        assert(value == pair_value(unit, low));
                        vstd::utf8::char_u32_cast(c, value);
                        assert(c == char_of(pair_value(unit, low)));
                        assert forall|rest: Seq<char>|
                            before + (seq![c] + rest) == #[trigger] (before.push(c) + rest) by {
                            assert(before + (seq![c] + rest) =~= before.push(c) + rest);
                        }
                    }
                    i = i + 2;
                },
                None => {
                    return None;
                },
            }
        } else {
            return None;
        }
    }
    proof {
        assert(units@.skip(i as int) =~= Seq::<u16>::empty());
        assert(text@ + Seq::<char>::empty() =~= text@);
    }
    Some(text)
}

} // verus!
