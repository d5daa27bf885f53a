//! Rendering and bounding of diagnostic text.

use vstd::prelude::*;
use vstd::std_specs::iter::IteratorSpec;
use vstd::string::*;
use vstd::utf8::{encode_scalar, encode_utf8};

verus! {

/// `String::push` appends one character at the end.
pub assume_specification[ String::push ](text: &mut String, character: char)
    ensures
        final(text)@ == old(text)@.push(character),
;

/// A text as Rust's debug form shows it: in quotes, with escapes.
pub uninterp spec fn debug_form(text: Seq<char>) -> Seq<char>;

/// `<str as Debug>::fmt`, through `format!`: the debug form of a text. It is a
/// function of the text alone; which characters are escaped, and how, is left
/// unsaid.
#[verifier::external_body]
pub(crate) fn quoted(text: &str) -> (quote: String)
    ensures
        quote@ == debug_form(text@),
{
    format!("{:?}", text)
}

/// A text that may be missing, as Rust's debug form shows it.
pub open spec fn debug_option(text: Option<String>) -> Seq<char> {
    match text {
        None => "None"@,
        Some(text) => "Some("@ + debug_form(text@) + ")"@,
    }
}

/// Append the debug form of a text that may be missing.
pub fn push_debug_option(line: &mut String, text: &Option<String>)
    ensures
        final(line)@ == old(line)@ + debug_option(*text),
{
    match text {
        None => {
            line.append("None");
        },
        Some(text) => {
            line.append("Some(");
            line.append(quoted(text.as_str()).as_str());
            line.append(")");
        },
    }
    proof {
        assert(line@ =~= old(line)@ + debug_option(*text));
    }
}

/// The decimal digit for a number below ten.
pub open spec fn digit(value: nat) -> char {
    if value == 0 { '0' }
    else if value == 1 { '1' }
    else if value == 2 { '2' }
    else if value == 3 { '3' }
    else if value == 4 { '4' }
    else if value == 5 { '5' }
    else if value == 6 { '6' }
    else if value == 7 { '7' }
    else if value == 8 { '8' }
    else { '9' }
}

/// A number in decimal, without leading zeros.
pub open spec fn decimal(value: nat) -> Seq<char>
    decreases value,
{
    if value < 10 {
        seq![digit(value)]
    } else {
        decimal(value / 10).push(digit(value % 10))
    }
}

fn digit_char(value: u64) -> (character: char)
    requires
        value < 10,
    ensures
        character == digit(value as nat),
{
    match value {
        0 => '0',
        1 => '1',
        2 => '2',
        3 => '3',
        4 => '4',
        5 => '5',
        6 => '6',
        7 => '7',
        8 => '8',
        _ => '9',
    }
}

/// Append `value` in decimal.
pub fn push_decimal(text: &mut String, value: u64)
    ensures
        final(text)@ == old(text)@ + decimal(value as nat),
    decreases value,
{
    if value >= 10 {
        push_decimal(text, value / 10);
    }
    text.push(digit_char(value % 10));
    proof {
        assert(text@ =~= old(text)@ + decimal(value as nat));
    }
}

/// A number in decimal, with a sign if it is below zero.
pub open spec fn signed_decimal(value: int) -> Seq<char> {
    if value < 0 {
        "-"@ + decimal((-value) as nat)
    } else {
        decimal(value as nat)
    }
}

/// Append `value` in decimal, with a sign if it is below zero.
pub fn push_signed_decimal(text: &mut String, value: i32)
    ensures
        final(text)@ == old(text)@ + signed_decimal(value as int),
{
    if value < 0 {
        text.append("-");
        push_decimal(text, (-(value as i64)) as u64);
        proof {
            assert(text@ =~= old(text)@ + signed_decimal(value as int));
        }
    } else {
        push_decimal(text, value as u64);
    }
}

/// The lower-case hexadecimal digit for a number below sixteen.
pub open spec fn hex_digit(value: nat) -> char {
    if value < 10 { digit(value) }
    else if value == 10 { 'a' }
    else if value == 11 { 'b' }
    else if value == 12 { 'c' }
    else if value == 13 { 'd' }
    else if value == 14 { 'e' }
    else { 'f' }
}

/// A byte as two hexadecimal digits.
pub open spec fn hex_byte(value: u8) -> Seq<char> {
    seq![hex_digit((value / 16) as nat), hex_digit((value % 16) as nat)]
}

pub fn hex_char(value: u8) -> (character: char)
    requires
        value < 16,
    ensures
        character == hex_digit(value as nat),
{
    match value {
        10 => 'a',
        11 => 'b',
        12 => 'c',
        13 => 'd',
        14 => 'e',
        15 => 'f',
        _ => digit_char(value as u64),
    }
}

/// Append `value` as two hexadecimal digits.
pub fn push_hex_byte(text: &mut String, value: u8)
    ensures
        final(text)@ == old(text)@ + hex_byte(value),
{
    text.push(hex_char(value / 16));
    text.push(hex_char(value % 16));
    proof {
        assert(text@ =~= old(text)@ + hex_byte(value));
    }
}

/// The number of bytes that UTF-8 uses for one character.
pub open spec fn utf8_width(character: char) -> nat {
    encode_scalar(character as u32).len()
}

/// The longest prefix of `text` whose UTF-8 form has at most `maximum` bytes.
pub open spec fn clip(text: Seq<char>, maximum: nat) -> Seq<char>
    decreases text.len(),
{
    if text.len() == 0 || utf8_width(text[0]) > maximum {
        Seq::empty()
    } else {
        seq![text[0]] + clip(text.drop_first(), (maximum - utf8_width(text[0])) as nat)
    }
}

fn width(character: char) -> (bytes: usize)
    ensures
        bytes == utf8_width(character),
        1 <= bytes <= 4,
{
    let scalar: u32 = character as u32;
    if scalar <= 0x7f {
        1
    } else if scalar <= 0x7ff {
        2
    } else if scalar <= 0xffff {
        3
    } else {
        4
    }
}

/// The longest prefix of `text` that fits in `maximum` bytes.
pub fn clipped(text: &str, maximum: usize) -> (result: String)
    ensures
        result@ == clip(text@, maximum as nat),
{
    let mut result = String::new();
    let mut room: usize = maximum;
    let mut rest = text.chars();
    let ghost mut taken: int = 0;
    proof {
        assert(text@.skip(0) =~= text@);
        assert(Seq::<char>::empty() + clip(text@, maximum as nat) =~= clip(text@, maximum as nat));
    }
    loop
        invariant
            rest.obeys_prophetic_iter_laws(),
            0 <= taken <= text@.len(),
            rest.remaining() == text@.skip(taken),
            clip(text@, maximum as nat) == result@ + clip(text@.skip(taken), room as nat),
        decreases text@.len() - taken,
    {
        let ghost before = text@.skip(taken);
        let next = rest.next();
        match next {
            None => {
                proof {
                    assert(result@ + clip(before, room as nat) =~= result@);
                }
                return result;
            },
            Some(character) => {
                let bytes: usize = width(character);
                if bytes > room {
                    proof {
                        assert(result@ + clip(before, room as nat) =~= result@);
                    }
                    return result;
                }
                let ghost shorter = result@;
                result.push(character);
                proof {
                    assert(before.drop_first() =~= text@.skip(taken + 1));
                    assert(shorter + (seq![character] + clip(before.drop_first(), (room
                        - bytes) as nat)) =~= result@ + clip(
                        before.drop_first(),
                        (room - bytes) as nat,
                    ));
                    taken = taken + 1;
                }
                room = room - bytes;
            },
        }
    }
}

/// A clipped text is a prefix, fits its bound, and could not be one character
/// longer; a text that fits is kept whole.
pub proof fn clip_is_the_longest_fitting_prefix(text: Seq<char>, maximum: nat)
    ensures
        clip(text, maximum).is_prefix_of(text),
        encode_utf8(clip(text, maximum)).len() <= maximum,
        clip(text, maximum).len() < text.len() ==> encode_utf8(
            text.take(clip(text, maximum).len() as int + 1),
        ).len() > maximum,
        encode_utf8(text).len() <= maximum ==> clip(text, maximum) == text,
    decreases text.len(),
{
    let clipped = clip(text, maximum);
    if text.len() == 0 {
        assert(clipped =~= text);
    } else if utf8_width(text[0]) > maximum {
        let one = text.take(1);
        assert(one.drop_first() =~= Seq::<char>::empty());
        assert(encode_utf8(one) =~= encode_scalar(text[0] as u32) + encode_utf8(one.drop_first()));
        assert(text.take(0int + 1) =~= one);
    } else {
        let left = (maximum - utf8_width(text[0])) as nat;
        let tail = clip(text.drop_first(), left);
        clip_is_the_longest_fitting_prefix(text.drop_first(), left);
        assert(clipped.drop_first() =~= tail);
        assert(text.drop_first().take(tail.len() as int) =~= tail);
        assert(text.take(clipped.len() as int) =~= clipped);
        if clipped.len() < text.len() {
            let longer = text.take(clipped.len() as int + 1);
            assert(longer.drop_first() =~= text.drop_first().take(tail.len() as int + 1));
        }
        if encode_utf8(text).len() <= maximum {
            assert(clipped =~= text);
        }
    }
}


/// The contents of a list of texts.
pub open spec fn texts_view(texts: Seq<String>) -> Seq<Seq<char>> {
    texts.map_values(|text: String| text@)
}

/// All parts, with a separator between each two.
pub open spec fn joined(parts: Seq<Seq<char>>, separator: Seq<char>) -> Seq<char>
    decreases parts.len(),
{
    if parts.len() == 0 {
        Seq::empty()
    } else if parts.len() == 1 {
        parts[0]
    } else {
        joined(parts.drop_last(), separator) + separator + parts.last()
    }
}

/// Put texts together, with a separator between each two.
pub fn join(parts: &Vec<String>, separator: &str) -> (text: String)
    ensures
        text@ == joined(texts_view(parts@), separator@),
{
    let ghost all = texts_view(parts@);
    let mut text = String::new();
    let mut index: usize = 0;
    proof {
        assert(all.take(0) =~= Seq::empty());
    }
    while index < parts.len()
        invariant
            index <= parts@.len(),
            all == texts_view(parts@),
            text@ == joined(all.take(index as int), separator@),
        decreases parts@.len() - index,
    {
        let ghost before = text@;
        proof {
            assert(all.take(index + 1).drop_last() =~= all.take(index as int));
            assert(all.take(index + 1).last() == parts@[index as int]@);
        }
        if index > 0 {
            text.append(separator);
        }
        text.append(parts[index].as_str());
        proof {
            if index == 0 {
                assert(text@ =~= parts@[0]@);
            }
        }
        index += 1;
    }
    proof {
        assert(all.take(index as int) =~= all);
    }
    text
}

/// Two texts one after the other.
pub fn concat(left: &str, right: &str) -> (text: String)
    ensures
        text@ == left@ + right@,
{
    let mut text = left.to_owned();
    text.append(right);
    text
}


/// The encoded lengths of two texts add up.
pub proof fn encoded_length_adds_up(left: Seq<char>, right: Seq<char>)
    ensures
        encode_utf8(left + right).len() == encode_utf8(left).len() + encode_utf8(right).len(),
    decreases left.len(),
{
    if left.len() == 0 {
        assert(left + right =~= right);
    } else {
        assert((left + right).drop_first() =~= left.drop_first() + right);
        encoded_length_adds_up(left.drop_first(), right);
    }
}

/// An ASCII text has one byte for each character.
pub proof fn ascii_length(text: Seq<char>)
    requires
        forall|i: int| 0 <= i < text.len() ==> (#[trigger] text[i] as u32) < 128,
    ensures
        encode_utf8(text).len() == text.len(),
    decreases text.len(),
{
    if text.len() > 0 {
        assert forall|i: int| 0 <= i < text.drop_first().len() implies (
        #[trigger] text.drop_first()[i] as u32) < 128 by {
            assert(text.drop_first()[i] == text[i + 1]);
        }
        ascii_length(text.drop_first());
        assert((text[0] as u32) < 128);
    }
}

/// The number that decimal digits stand for, read from the left.
pub open spec fn read_decimal(digits: Seq<char>) -> int
    decreases digits.len(),
{
    if digits.len() == 0 {
        0
    } else {
        10 * read_decimal(digits.drop_last()) + (digits.last() as int - 48)
    }
}

/// A number that is written in decimal is read back as itself; it is made of the
/// digits 0 to 9, and begins with a zero only if it is zero.
pub proof fn decimals_are_read_back(value: nat)
    ensures
        read_decimal(decimal(value)) == value,
        decimal(value).len() > 0,
        forall|i: int| 0 <= i < decimal(value).len() ==> '0' <= #[trigger] decimal(value)[i] <= '9',
        decimal(value)[0] == '0' <==> value == 0,
    decreases value,
{
    if value < 10 {
        let digits = decimal(value);
        assert(digits.drop_last() =~= Seq::empty());
        assert(read_decimal(digits.drop_last()) == 0);
        assert(digits.last() as int - 48 == value);
    } else {
        decimals_are_read_back(value / 10);
        let digits = decimal(value);
        assert(digits.drop_last() =~= decimal(value / 10));
        assert(digits.last() as int - 48 == value % 10);
        assert(digits[0] == decimal(value / 10)[0]);
    }
}

/// A number below zero has a minus sign before its amount; no other number has.
pub proof fn signs_tell_negative_numbers(value: int)
    ensures
        value < 0 <==> signed_decimal(value)[0] == '-',
        value < 0 ==> read_decimal(signed_decimal(value).skip(1)) == -value,
        value >= 0 ==> read_decimal(signed_decimal(value)) == value,
{
    reveal_strlit("-");
    if value < 0 {
        decimals_are_read_back((-value) as nat);
        assert(signed_decimal(value).skip(1) =~= decimal((-value) as nat));
    } else {
        decimals_are_read_back(value as nat);
    }
}

/// A byte is written as two lower-case hexadecimal digits, the high one first.
pub proof fn hexadecimal_bytes_are_read_back(value: u8)
    ensures
        hex_byte(value).len() == 2,
        forall|i: int|
            0 <= i < 2 ==> '0' <= #[trigger] hex_byte(value)[i] <= '9' || 'a' <= hex_byte(value)[i]
                <= 'f',
        value == 16 * (if hex_byte(value)[0] <= '9' {
            hex_byte(value)[0] as int - 48
        } else {
            hex_byte(value)[0] as int - 87
        }) + (if hex_byte(value)[1] <= '9' {
            hex_byte(value)[1] as int - 48
        } else {
            hex_byte(value)[1] as int - 87
        }),
{
}

/// Parts that are put together stay whole and in order: joining two lists is
/// joining each, with one separator between them.
pub proof fn joined_lists_stay_in_order(
    parts: Seq<Seq<char>>,
    more: Seq<Seq<char>>,
    separator: Seq<char>,
)
    requires
        parts.len() > 0,
        more.len() > 0,
    ensures
        joined(parts + more, separator) == joined(parts, separator) + separator + joined(
            more,
            separator,
        ),
        joined(seq![parts[0]], separator) == parts[0],
        joined(Seq::empty(), separator).len() == 0,
    decreases more.len(),
{
    let all = parts + more;
    if more.len() == 1 {
        assert(all.drop_last() =~= parts);
        assert(all.last() == more[0]);
    } else {
        joined_lists_stay_in_order(parts, more.drop_last(), separator);
        assert(all.drop_last() =~= parts + more.drop_last());
        assert(all.last() == more.last());
        assert(joined(all, separator) =~= joined(parts, separator) + separator + joined(
            more,
            separator,
        ));
    }
}

/// A missing text is told from every text that is there.
pub proof fn missing_texts_are_told(text: String)
    ensures
        debug_option(None) == seq!['N', 'o', 'n', 'e'],
        debug_option(Some(text)).len() == debug_form(text@).len() + 6,
        debug_option(Some(text)).subrange(
            5,
            5 + debug_form(text@).len() as int,
        ) == debug_form(text@),
        debug_option(Some(text))[0] == 'S',
{
    reveal_strlit("None");
    reveal_strlit("Some(");
    reveal_strlit(")");
    assert("None"@ =~= seq!['N', 'o', 'n', 'e']);
    assert(debug_option(Some(text)).subrange(5, 5 + debug_form(text@).len() as int) =~= debug_form(
        text@,
    ));
}

} // verus!
