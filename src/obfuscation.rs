//! The reversible byte shift that keeps a stored password from being read
//! at a glance. It is an obfuscation, not encryption: anyone who knows the
//! shift reverses it. The shifted bytes need not be UTF-8, so the obfuscated
//! form writes each of them as the character with that code (U+0000 to
//! U+00FF), which every text can hold.

use vstd::prelude::*;
use vstd::string::*;
use vstd::utf8::*;

verus! {

/// Every byte one up, 255 wrapping round to 0.
pub open spec fn shift_up(bytes: Seq<u8>) -> Seq<u8> {
    bytes.map_values(|b: u8| b.wrapping_add(1))
}

/// Every byte one down, 0 wrapping round to 255.
pub open spec fn shift_down(bytes: Seq<u8>) -> Seq<u8> {
    bytes.map_values(|b: u8| b.wrapping_sub(1))
}

/// Each byte as the character with that code.
pub open spec fn bytes_as_text(bytes: Seq<u8>) -> Seq<char> {
    bytes.map_values(|b: u8| b as char)
}

/// Every character of `text` has a code of at most 0xFF.
pub open spec fn is_byte_text(text: Seq<char>) -> bool {
    forall|i: int| 0 <= i < text.len() ==> (#[trigger] text[i] as u32) <= 0xFF
}

/// The codes of the characters of `text`, as bytes.
pub open spec fn text_as_bytes(text: Seq<char>) -> Seq<u8> {
    text.map_values(|c: char| (c as u32) as u8)
}

/// The obfuscated form of `text`.
pub open spec fn obfuscated(text: Seq<char>) -> Seq<char> {
    bytes_as_text(shift_up(encode_utf8(text)))
}

/// Relies on std's `String::from_utf8`: the text that the bytes encode in
/// UTF-8, where they are valid UTF-8.
#[verifier::external_body]
fn string_from_utf8(bytes: Vec<u8>) -> (r: Option<String>)
    ensures
        r is Some <==> valid_utf8(bytes@),
        r matches Some(s) ==> s@ == decode_utf8(bytes@),
{
    String::from_utf8(bytes).ok()
}

/// Relies on std's `String::push`: appends the character.
#[verifier::external_body]
fn push_char(out: &mut String, c: char)
    ensures
        final(out)@ == old(out)@.push(c),
{
    out.push(c)
}

fn shifted(bytes: &[u8], up: bool) -> (r: Vec<u8>)
    ensures
        r@ == (if up {
            shift_up(bytes@)
        } else {
            shift_down(bytes@)
        }),
{
    let ghost src = bytes@;
    let mut out: Vec<u8> = Vec::new();
    let mut i: usize = 0;
    while i < bytes.len()
        invariant
            bytes@ == src,
            i <= src.len(),
            out@ == (if up {
                shift_up(src.take(i as int))
            } else {
                shift_down(src.take(i as int))
            }),
        decreases src.len() - i,
    {
        let b = bytes[i];
        if up {
            out.push(b.wrapping_add(1));
        } else {
            out.push(b.wrapping_sub(1));
        }
        assert(src.take(i as int + 1) =~= src.take(i as int).push(b));
        i = i + 1;
        assert(out@ =~= (if up {
            shift_up(src.take(i as int))
        } else {
            shift_down(src.take(i as int))
        }));
    }
    assert(src.take(src.len() as int) =~= src);
    out
}

/// Obfuscates `text`: shifts each byte of its UTF-8 encoding up by one and
/// writes each shifted byte as the character with that code.
pub fn encrypt(text: &str) -> (r: String)
    ensures
        r@ == obfuscated(text@),
{
    let bytes = shifted(text.as_bytes(), true);
    let ghost src = bytes@;
    let mut out = String::new();
    let mut i: usize = 0;
    while i < bytes.len()
        invariant
            bytes@ == src,
            i <= src.len(),
            out@ == bytes_as_text(src.take(i as int)),
        decreases src.len() - i,
    {
        push_char(&mut out, bytes[i] as char);
        assert(src.take(i as int + 1) =~= src.take(i as int).push(src[i as int]));
        i = i + 1;
        assert(out@ =~= bytes_as_text(src.take(i as int)));
    }
    assert(src.take(src.len() as int) =~= src);
    out
}

/// Reverses [`encrypt`]: reads each character of `text` as a byte, shifts
/// it down by one and decodes the bytes as UTF-8. `None` where a character
/// has a code above 0xFF or the bytes are not UTF-8, which no result of
/// [`encrypt`] gives.
pub fn decrypt(text: &str) -> (r: Option<String>)
    ensures
        r is Some <==> is_byte_text(text@) && valid_utf8(shift_down(text_as_bytes(text@))),
        r matches Some(s) ==> s@ == decode_utf8(shift_down(text_as_bytes(text@))),
{
    let n = text.unicode_len();
    let mut bytes: Vec<u8> = Vec::new();
    let mut i: usize = 0;
    while i < n
        invariant
            n == text@.len(),
            i <= n,
            is_byte_text(text@.take(i as int)),
            bytes@ == text_as_bytes(text@.take(i as int)),
        decreases n - i,
    {
        let c = text.get_char(i);
        let code = c as u32;
        if code > 0xFF {
            assert(!is_byte_text(text@)) by {
                assert(text@[i as int] as u32 > 0xFF);
            }
            return None;
        }
        bytes.push(code as u8);
        assert(text@.take(i as int + 1) =~= text@.take(i as int).push(c));
        i = i + 1;
        assert(bytes@ =~= text_as_bytes(text@.take(i as int)));
    }
    assert(text@.take(n as int) =~= text@);
    string_from_utf8(shifted(bytes.as_slice(), false))
}

/// Shifting down undoes shifting up, for every byte sequence.
pub proof fn lemma_shift_round_trip(bytes: Seq<u8>)
    ensures
        shift_down(shift_up(bytes)) == bytes,
{
    assert(shift_down(shift_up(bytes)) =~= bytes);
}

/// Revealing the obfuscated form of any text gives back the text: the
/// obfuscated form is a byte text, its shifted bytes are UTF-8, and they
/// decode to the text.
pub proof fn lemma_obfuscation_round_trip(text: Seq<char>)
    ensures
        is_byte_text(obfuscated(text)),
        valid_utf8(shift_down(text_as_bytes(obfuscated(text)))),
        decode_utf8(shift_down(text_as_bytes(obfuscated(text)))) == text,
{
    let up = shift_up(encode_utf8(text));
    assert(text_as_bytes(obfuscated(text)) =~= up);
    lemma_shift_round_trip(encode_utf8(text));
    encode_utf8_valid_utf8(text);
    encode_utf8_decode_utf8(text);
}

} // verus!
