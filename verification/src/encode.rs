//! The wire encoding of committed and preedit text: UTF-8 between two fixed
//! escape sequences.

use vstd::prelude::*;
use vstd::utf8::encode_scalar;

verus! {

/// The three bytes that open an escape-wrapped text.
pub open spec fn start_escape() -> Seq<u8> {
    seq![0x1Bu8, 0x25u8, 0x47u8]
}

/// The three bytes that close an escape-wrapped text.
pub open spec fn end_escape() -> Seq<u8> {
    seq![0x1Bu8, 0x25u8, 0x40u8]
}

/// The UTF-8 bytes of one character.
pub open spec fn utf8_of(ch: char) -> Seq<u8> {
    encode_scalar(ch as u32)
}

/// The number of bytes that the UTF-8 form of a character takes.
pub open spec fn utf8_len(ch: char) -> int {
    let c = ch as u32;
    if c <= 0x7F {
        1
    } else if c <= 0x7FF {
        2
    } else if c <= 0xFFFF {
        3
    } else {
        4
    }
}

/// A payload between the opening and the closing escape.
pub open spec fn wrapped(payload: Seq<u8>) -> Seq<u8> {
    start_escape() + payload + end_escape()
}

/// The wire form of one character.
pub open spec fn encoded_char(ch: char) -> Seq<u8> {
    wrapped(utf8_of(ch))
}

/// The wire form of two characters sent as one text.
pub open spec fn encoded_pair(ch1: char, ch2: char) -> Seq<u8> {
    wrapped(utf8_of(ch1) + utf8_of(ch2))
}

/// The UTF-8 form of a character is as long as `utf8_len` says.
pub proof fn lemma_utf8_of_len(ch: char)
    ensures
        utf8_of(ch).len() == utf8_len(ch),
        1 <= utf8_len(ch) <= 4,
{
}

/// The number of bytes that the UTF-8 form of `ch` takes.
pub fn len_utf8(ch: char) -> (n: usize)
    ensures
        n == utf8_len(ch),
        1 <= n <= 4,
{
    let c: u32 = ch as u32;
    if c <= 0x7F {
        1
    } else if c <= 0x7FF {
        2
    } else if c <= 0xFFFF {
        3
    } else {
        4
    }
}

/// Appends the UTF-8 form of `ch` to `buf`.
pub fn push_utf8(buf: &mut Vec<u8>, ch: char)
    ensures
        final(buf)@ == old(buf)@ + utf8_of(ch),
{
    let c: u32 = ch as u32;
    let last: u8 = 0x80u8 | (c & 0x3F) as u8;
    let second_last: u8 = 0x80u8 | ((c >> 6) & 0x3F) as u8;
    let third_last: u8 = 0x80u8 | ((c >> 12) & 0x3F) as u8;
    if c <= 0x7F {
        buf.push((c & 0x7F) as u8);
        assert(buf@ =~= old(buf)@ + utf8_of(ch));
    } else if c <= 0x7FF {
        buf.push(0xC0u8 | ((c >> 6) & 0x1F) as u8);
        buf.push(last);
        assert(buf@ =~= old(buf)@ + utf8_of(ch));
    } else if c <= 0xFFFF {
        buf.push(0xE0u8 | ((c >> 12) & 0x0F) as u8);
        buf.push(second_last);
        buf.push(last);
        assert(buf@ =~= old(buf)@ + utf8_of(ch));
    } else {
        buf.push(0xF0u8 | ((c >> 18) & 0x7) as u8);
        buf.push(third_last);
        buf.push(second_last);
        buf.push(last);
        assert(buf@ =~= old(buf)@ + utf8_of(ch));
    }
}

/// Appends the opening escape to `buf`.
fn push_start(buf: &mut Vec<u8>)
    ensures
        final(buf)@ == old(buf)@ + start_escape(),
{
    buf.push(0x1B);
    buf.push(0x25);
    buf.push(0x47);
    assert(buf@ =~= old(buf)@ + start_escape());
}

/// Appends the closing escape to `buf`.
fn push_end(buf: &mut Vec<u8>)
    ensures
        final(buf)@ == old(buf)@ + end_escape(),
{
    buf.push(0x1B);
    buf.push(0x25);
    buf.push(0x40);
    assert(buf@ =~= old(buf)@ + end_escape());
}

/// Encodes one character for the wire.
pub fn encode_char(ch: char) -> (text: Vec<u8>)
    ensures
        text@ == encoded_char(ch),
        text@.len() == 6 + utf8_len(ch),
{
    let mut text: Vec<u8> = Vec::new();
    push_start(&mut text);
    push_utf8(&mut text, ch);
    push_end(&mut text);
    assert(text@ =~= encoded_char(ch));
    text
}

/// Encodes two characters for the wire as one text, the first before the
/// second.
pub fn encode_pair(ch1: char, ch2: char) -> (text: Vec<u8>)
    ensures
        text@ == encoded_pair(ch1, ch2),
        text@.len() == 6 + utf8_len(ch1) + utf8_len(ch2),
{
    let mut text: Vec<u8> = Vec::new();
    push_start(&mut text);
    push_utf8(&mut text, ch1);
    push_utf8(&mut text, ch2);
    push_end(&mut text);
    assert(text@ =~= encoded_pair(ch1, ch2));
    text
}

/// The wire form of one character is six bytes longer than its UTF-8 form; it
/// opens with the opening escape, closes with the closing escape, and holds
/// the UTF-8 form between them.
pub proof fn lemma_encoded_char_shape(ch: char)
    ensures
        encoded_char(ch).len() == 6 + utf8_len(ch),
        encoded_char(ch).subrange(0, 3) == start_escape(),
        encoded_char(ch).subrange(3, 3 + utf8_len(ch)) == utf8_of(ch),
        encoded_char(ch).subrange(3 + utf8_len(ch), 6 + utf8_len(ch)) == end_escape(),
{
    let t = encoded_char(ch);
    let n = utf8_len(ch);
    assert(t.subrange(0, 3) =~= start_escape());
    assert(t.subrange(3, 3 + n) =~= utf8_of(ch));
    assert(t.subrange(3 + n, 6 + n) =~= end_escape());
}

/// The wire form of two characters is six bytes longer than their UTF-8 forms
/// together; the bytes of the first follow the opening escape at once, and
/// those of the second stand directly before the closing escape.
pub proof fn lemma_encoded_pair_shape(ch1: char, ch2: char)
    ensures
        encoded_pair(ch1, ch2).len() == 6 + utf8_len(ch1) + utf8_len(ch2),
        encoded_pair(ch1, ch2).subrange(0, 3) == start_escape(),
        encoded_pair(ch1, ch2).subrange(3, 3 + utf8_len(ch1)) == utf8_of(ch1),
        encoded_pair(ch1, ch2).subrange(
            3 + utf8_len(ch1),
            3 + utf8_len(ch1) + utf8_len(ch2),
        ) == utf8_of(ch2),
        encoded_pair(ch1, ch2).subrange(
            3 + utf8_len(ch1) + utf8_len(ch2),
            6 + utf8_len(ch1) + utf8_len(ch2),
        ) == end_escape(),
{
    let t = encoded_pair(ch1, ch2);
    let n1 = utf8_len(ch1);
    let n2 = utf8_len(ch2);
    assert(t.subrange(0, 3) =~= start_escape());
    assert(t.subrange(3, 3 + n1) =~= utf8_of(ch1));
    assert(t.subrange(3 + n1, 3 + n1 + n2) =~= utf8_of(ch2));
    assert(t.subrange(3 + n1 + n2, 6 + n1 + n2) =~= end_escape());
}

} // verus!
