//! Digit runs of STEP text whose value does not fit in an `i64`.
//!
//! The STEP parser reads every integer and every exponent of a real as an
//! `i64` and cannot read one that does not fit. Such a number is a maximal
//! run of ASCII digits in the text's code: outside string literals
//! (`'...'`, with `''` for a quote), comments (`/* ... */`) and resource
//! names (`<...>`), not naming an instance (`#123`, `@123`) and not part of
//! a keyword (after a letter or `_`). The one letter an `i64` follows is the
//! `E` of an exponent, so every run after an `E` counts. A run right before
//! the point of a real is read as a real in a parameter, but as an `i64`
//! first in an anchor section, so it counts when the text holds `ANCHOR;`.
//! The scan here finds any such run in the UTF-8 bytes of a text.

use vstd::prelude::*;

verus! {

/// Where a byte of STEP text stands.
#[derive(Clone, Copy, Debug, PartialEq, Eq, Structural)]
pub enum LexState {
    /// In the code.
    Code,
    /// In the code, right after a `/`.
    Slash,
    /// Inside a string literal.
    StringBody,
    /// Right after a quote inside a string literal: the quote either closes
    /// the string or, doubled, stands for a quote.
    StringQuote,
    /// Inside a comment.
    Comment,
    /// Inside a comment, right after a `*`.
    CommentStar,
    /// Inside a resource name.
    Resource,
}

/// The state after a code byte `b`.
pub open spec fn after_code(b: u8) -> LexState {
    if b == 39 {
        LexState::StringBody
    } else if b == 47 {
        LexState::Slash
    } else if b == 60 {
        LexState::Resource
    } else {
        LexState::Code
    }
}

/// The state after byte `b` read in state `state`.
pub open spec fn next_state(state: LexState, b: u8) -> LexState {
    match state {
        LexState::Code => after_code(b),
        LexState::Slash => if b == 42 { LexState::Comment } else { after_code(b) },
        LexState::StringBody => if b == 39 { LexState::StringQuote } else { LexState::StringBody },
        LexState::StringQuote => if b == 39 { LexState::StringBody } else { after_code(b) },
        LexState::Comment => if b == 42 { LexState::CommentStar } else { LexState::Comment },
        LexState::CommentStar => if b == 47 {
            LexState::Code
        } else if b == 42 {
            LexState::CommentStar
        } else {
            LexState::Comment
        },
        LexState::Resource => if b == 62 { LexState::Code } else { LexState::Resource },
    }
}

/// The state in which byte `i` is read.
pub open spec fn state_at(bytes: Seq<u8>, i: int) -> LexState
    decreases i,
{
    if i <= 0 || i > bytes.len() {
        LexState::Code
    } else {
        next_state(state_at(bytes, i - 1), bytes[i - 1])
    }
}

/// A byte read in `state` belongs to the code.
pub open spec fn in_code(state: LexState) -> bool {
    state == LexState::Code || state == LexState::Slash || state == LexState::StringQuote
}

/// `0` to `9`.
pub open spec fn is_digit_byte(b: u8) -> bool {
    48 <= b <= 57
}

/// The first position at or after `j` that does not hold a digit.
pub open spec fn digit_run_end(bytes: Seq<u8>, j: int) -> int
    decreases bytes.len() - j,
{
    if 0 <= j < bytes.len() && is_digit_byte(bytes[j]) {
        digit_run_end(bytes, j + 1)
    } else {
        j
    }
}

/// The value of the decimal digits `bytes[i..j]`.
pub open spec fn digits_value(bytes: Seq<u8>, i: int, j: int) -> nat
    decreases j - i,
{
    if j <= i {
        0
    } else {
        digits_value(bytes, i, j - 1) * 10 + (bytes[j - 1] - 48) as nat
    }
}

/// A letter or `_` that a digit run after it belongs to: any but `E`, which
/// opens the exponent of a real.
pub open spec fn is_keyword_byte(b: u8) -> bool {
    (65 <= b <= 90 && b != 69) || 97 <= b <= 122 || b == 95
}

/// The bytes of `ANCHOR;` start at byte `i`.
pub open spec fn anchor_tag_at(bytes: Seq<u8>, i: int) -> bool {
    &&& 0 <= i && i + 7 <= bytes.len()
    &&& bytes[i] == 65 && bytes[i + 1] == 78 && bytes[i + 2] == 67 && bytes[i + 3] == 72
    &&& bytes[i + 4] == 79 && bytes[i + 5] == 82 && bytes[i + 6] == 59
}

/// The text holds `ANCHOR;`, which opens an anchor section.
pub open spec fn has_anchor_tag(bytes: Seq<u8>) -> bool {
    exists|i: int| anchor_tag_at(bytes, i)
}

/// A maximal digit run of the code that is not an instance name and not part
/// of a keyword starts at byte `i`.
pub open spec fn number_start(bytes: Seq<u8>, i: int) -> bool {
    &&& 0 <= i < bytes.len()
    &&& is_digit_byte(bytes[i])
    &&& in_code(state_at(bytes, i))
    &&& i == 0 || !(is_digit_byte(bytes[i - 1]) || bytes[i - 1] == 35 || bytes[i - 1] == 64 || is_keyword_byte(
        bytes[i - 1],
    ))
}

/// The run that starts at byte `i` is read as an `i64`: it is not the
/// integral part of a real, or the text has an anchor section.
pub open spec fn read_as_integer(bytes: Seq<u8>, i: int) -> bool {
    let end = digit_run_end(bytes, i);
    has_anchor_tag(bytes) || !(end < bytes.len() && bytes[end] == 46)
}

/// A number starts at byte `i` whose value exceeds `i64::MAX`.
pub open spec fn oversized_at(bytes: Seq<u8>, i: int) -> bool {
    &&& number_start(bytes, i)
    &&& read_as_integer(bytes, i)
    &&& digits_value(bytes, i, digit_run_end(bytes, i)) > i64::MAX
}

/// `bytes` hold a number whose value exceeds `i64::MAX`.
pub open spec fn has_oversized_number(bytes: Seq<u8>) -> bool {
    exists|i: int| oversized_at(bytes, i)
}

fn is_digit(b: u8) -> (digit: bool)
    ensures
        digit == is_digit_byte(b),
{
    48 <= b && b <= 57
}

fn is_keyword(b: u8) -> (keyword: bool)
    ensures
        keyword == is_keyword_byte(b),
{
    (65 <= b && b <= 90 && b != 69) || (97 <= b && b <= 122) || b == 95
}

/// Whether `bytes` hold `ANCHOR;`.
fn holds_anchor_tag(bytes: &[u8]) -> (found: bool)
    ensures
        found == has_anchor_tag(bytes@),
{
    let ghost b = bytes@;
    let mut i: usize = 0;
    while i < bytes.len() && bytes.len() - i >= 7
        invariant
            b == bytes@,
            forall|k: int| 0 <= k < i ==> !anchor_tag_at(b, k),
        decreases b.len() - i,
    {
        if bytes[i] == 65 && bytes[i + 1] == 78 && bytes[i + 2] == 67 && bytes[i + 3] == 72 && bytes[i + 4] == 79
            && bytes[i + 5] == 82 && bytes[i + 6] == 59 {
            assert(anchor_tag_at(b, i as int));
            return true;
        }
        i = i + 1;
    }
    assert forall|k: int| !anchor_tag_at(b, k) by {
        if 0 <= k && k >= i {
            assert(k + 7 > b.len());
        }
    }
    false
}

fn step_state(state: LexState, b: u8) -> (next: LexState)
    ensures
        next == next_state(state, b),
{
    let after = if b == 39 {
        LexState::StringBody
    } else if b == 47 {
        LexState::Slash
    } else if b == 60 {
        LexState::Resource
    } else {
        LexState::Code
    };
    match state {
        LexState::Code => after,
        LexState::Slash => if b == 42 { LexState::Comment } else { after },
        LexState::StringBody => if b == 39 { LexState::StringQuote } else { LexState::StringBody },
        LexState::StringQuote => if b == 39 { LexState::StringBody } else { after },
        LexState::Comment => if b == 42 { LexState::CommentStar } else { LexState::Comment },
        LexState::CommentStar => {
            if b == 47 {
                LexState::Code
            } else if b == 42 {
                LexState::CommentStar
            } else {
                LexState::Comment
            }
        },
        LexState::Resource => if b == 62 { LexState::Code } else { LexState::Resource },
    }
}

fn is_code(state: LexState) -> (code: bool)
    ensures
        code == in_code(state),
{
    match state {
        LexState::Code | LexState::Slash | LexState::StringQuote => true,
        _ => false,
    }
}

/// Whether `bytes` hold a number of the code that the parser reads as an
/// `i64` and whose value exceeds `i64::MAX`.
pub fn holds_oversized_number(bytes: &[u8]) -> (found: bool)
    ensures
        found == has_oversized_number(bytes@),
{
    let ghost b = bytes@;
    let anchored = holds_anchor_tag(bytes);
    let max: u128 = 0x7fff_ffff_ffff_ffff;
    let mut state = LexState::Code;
    let mut i: usize = 0;
    while i < bytes.len()
        invariant
            b == bytes@,
            max == i64::MAX,
            anchored == has_anchor_tag(b),
            i <= b.len(),
            state == state_at(b, i as int),
            forall|k: int| 0 <= k < i ==> !oversized_at(b, k),
            0 < i < b.len() && is_digit_byte(b[i as int]) && in_code(state) ==> !is_digit_byte(b[i - 1]),
        decreases b.len() - i,
    {
        if !is_digit(bytes[i]) || !is_code(state) {
            assert(!oversized_at(b, i as int));
            state = step_state(state, bytes[i]);
            i = i + 1;
        } else {
            let start = i;
            let eligible = start == 0 || (bytes[start - 1] != 35u8 && bytes[start - 1] != 64u8 && !is_keyword(
                bytes[start - 1],
            ));
            assert(number_start(b, start as int) == eligible);
            let mut value: u64 = 0;
            let mut over = false;
            while i < bytes.len() && is_digit(bytes[i])
                invariant
                    b == bytes@,
                    max == i64::MAX,
                    anchored == has_anchor_tag(b),
                    start <= i <= b.len(),
                    state == state_at(b, i as int),
                    in_code(state),
                    digit_run_end(b, start as int) == digit_run_end(b, i as int),
                    over <==> digits_value(b, start as int, i as int) > i64::MAX,
                    !over ==> value == digits_value(b, start as int, i as int),
                    forall|k: int| 0 <= k < start ==> !oversized_at(b, k),
                    forall|k: int| start < k < i ==> !oversized_at(b, k),
                    i > start ==> is_digit_byte(b[i - 1]),
                decreases b.len() - i,
            {
                let digit = bytes[i] - 48;
                if !over {
                    let next: u128 = (value as u128) * 10 + (digit as u128);
                    if next > max {
                        over = true;
                    } else {
                        value = next as u64;
                    }
                }
                proof {
                    if i > start {
                        assert(!number_start(b, i as int));
                    }
                }
                state = step_state(state, bytes[i]);
                i = i + 1;
            }
            assert(digit_run_end(b, i as int) == i);
            let integral = i < bytes.len() && bytes[i] == 46u8;
            if eligible && over && (anchored || !integral) {
                assert(oversized_at(b, start as int));
                return true;
            }
            assert(!oversized_at(b, start as int));
        }
    }
    false
}

} // verus!
