//! Turning the bytes of a STEP file into text: UTF-8 where the bytes are
//! valid UTF-8, ISO-8859-1 where they are not.
//!
//! ISO-8859-1 maps every byte to the code point of the same value, so the
//! fallback is total and lossless: no input is refused, nothing is dropped or
//! replaced, and every ASCII byte (all of the geometry) decodes to itself.

use vstd::prelude::*;
use vstd::utf8::*;
use vstd::string::*;

verus! {

/// The ISO-8859-1 reading of `bytes`: each byte is the character with that
/// code point.
pub open spec fn latin1(bytes: Seq<u8>) -> Seq<char> {
    Seq::new(bytes.len(), |i: int| bytes[i] as char)
}

/// The text a STEP file's bytes are read as.
pub open spec fn step_text(bytes: Seq<u8>) -> Seq<char> {
    if valid_utf8(bytes) {
        decode_utf8(bytes)
    } else {
        latin1(bytes)
    }
}

/// `std::str::from_utf8`: the bytes as a string slice when they are valid
/// UTF-8 (the slice then holds exactly those bytes), and an error otherwise.
#[verifier::external_body]
fn utf8_str(bytes: &[u8]) -> (text: Option<&str>)
    ensures
        text is Some <==> valid_utf8(bytes@),
        text matches Some(s) ==> s.spec_bytes() == bytes@,
{
    std::str::from_utf8(bytes).ok()
}

/// `String::push`: appends one character.
#[verifier::external_body]
pub(crate) fn push_char(text: &mut String, c: char)
    ensures
        final(text)@ == old(text)@.push(c),
{
    text.push(c)
}

/// The ISO-8859-1 decoding of `bytes`.
pub fn decode_latin1(bytes: &[u8]) -> (text: String)
    ensures
        text@ == latin1(bytes@),
{
    let mut text = String::new();
    let mut i: usize = 0;
    while i < bytes.len()
        invariant
            i <= bytes@.len(),
            text@ == latin1(bytes@.subrange(0, i as int)),
        decreases bytes.len() - i,
    {
        let byte = bytes[i];
        push_char(&mut text, byte as char);
        i = i + 1;
        assert(text@ =~= latin1(bytes@.subrange(0, i as int)));
    }
    assert(bytes@.subrange(0, bytes@.len() as int) =~= bytes@);
    text
}

/// The text of a STEP file: the UTF-8 decoding when the bytes are valid
/// UTF-8, the ISO-8859-1 decoding otherwise. It never fails.
pub fn decode_step_bytes(bytes: &[u8]) -> (text: String)
    ensures
        text@ == step_text(bytes@),
{
    match utf8_str(bytes) {
        Some(s) => {
            proof {
                encode_utf8_decode_utf8(s@);
            }
            s.to_owned()
        },
        None => decode_latin1(bytes),
    }
}

proof fn lemma_latin1_code_points(a: Seq<u8>)
    ensures
        latin1(a).len() == a.len(),
        forall|i: int| 0 <= i < a.len() ==> (#[trigger] latin1(a)[i]) as int == a[i] as int,
{
    assert forall|i: int| 0 <= i < a.len() implies (#[trigger] latin1(a)[i]) as int == a[i] as int by {
        let x = a[i];
        assert((x as char) as int == x as int);
    }
}

/// The ISO-8859-1 fallback is total and lossless: it keeps one character per
/// byte, each with the byte's value as its code point, so distinct byte
/// strings read as distinct texts.
pub proof fn law_latin1_is_lossless(a: Seq<u8>, b: Seq<u8>)
    ensures
        latin1(a).len() == a.len(),
        forall|i: int| 0 <= i < a.len() ==> (#[trigger] latin1(a)[i]) as int == a[i] as int,
        latin1(a) == latin1(b) ==> a == b,
{
    lemma_latin1_code_points(a);
    lemma_latin1_code_points(b);
    if latin1(a) == latin1(b) {
        assert forall|i: int| 0 <= i < a.len() implies a[i] == b[i] by {
            assert(latin1(a)[i] == latin1(b)[i]);
        }
        assert(a =~= b);
    }
}

} // verus!
