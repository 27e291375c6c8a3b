//! The words a load uses to report a record it could not keep: the entity
//! name of a complex instance, and what a positional record's parameter was
//! expected to look like.

use vstd::prelude::*;
use vstd::string::*;
use super::decode::push_char;
use super::dispatch::{ListShape, ParameterShape};

verus! {

/// The character of decimal digit `d`.
pub open spec fn digit_char(d: nat) -> char {
    ((48 + d) as u8) as char
}

/// The decimal rendering of `n`, without leading zeros.
pub open spec fn decimal_text(n: nat) -> Seq<char>
    decreases n,
{
    if n < 10 {
        seq![digit_char(n)]
    } else {
        decimal_text(n / 10).push(digit_char(n % 10))
    }
}

/// The decimal rendering of `n`.
pub fn decimal(n: usize) -> (text: String)
    ensures
        text@ == decimal_text(n as nat),
    decreases n,
{
    let digit = ((48u8 + (n % 10) as u8) as char);
    if n < 10 {
        let mut text = String::new();
        push_char(&mut text, digit);
        assert(text@ =~= decimal_text(n as nat));
        text
    } else {
        let mut text = decimal(n / 10);
        push_char(&mut text, digit);
        text
    }
}

/// `a list of N`, or `a list of N or more`.
pub open spec fn list_shape_text(shape: ListShape) -> Seq<char> {
    match shape {
        ListShape::Exactly(n) => "a list of "@ + decimal_text(n as nat),
        ListShape::AtLeast(n) => "a list of "@ + decimal_text(n as nat) + " or more"@,
    }
}

/// `a list of N` for a list parameter, `a non-list parameter` otherwise.
pub open spec fn parameter_shape_text(parameter: ParameterShape) -> Seq<char> {
    match parameter {
        ParameterShape::List(n) => "a list of "@ + decimal_text(n as nat),
        ParameterShape::Other => "a non-list parameter"@,
    }
}

/// `expected <shape>, got <shape>`.
pub open spec fn shape_mismatch_text(expected: ListShape, got: ParameterShape) -> Seq<char> {
    "expected "@ + list_shape_text(expected) + ", got "@ + parameter_shape_text(got)
}

/// The report of a positional record whose parameter does not have the
/// shape its entity requires.
pub fn shape_mismatch_message(expected: ListShape, got: ParameterShape) -> (message: String)
    ensures
        message@ == shape_mismatch_text(expected, got),
{
    let mut message = String::from_str("expected a list of ");
    match expected {
        ListShape::Exactly(n) => {
            let digits = decimal(n);
            message.append(digits.as_str());
        },
        ListShape::AtLeast(n) => {
            let digits = decimal(n);
            message.append(digits.as_str());
            message.append(" or more");
        },
    }
    message.append(", got ");
    match got {
        ParameterShape::List(n) => {
            message.append("a list of ");
            let digits = decimal(n);
            message.append(digits.as_str());
        },
        ParameterShape::Other => {
            message.append("a non-list parameter");
        },
    }
    proof {
        reveal_strlit("expected a list of ");
        reveal_strlit("expected ");
        reveal_strlit("a list of ");
        assert("expected a list of "@ =~= "expected "@ + "a list of "@);
    }
    assert(message@ =~= shape_mismatch_text(expected, got));
    message
}

/// `names` joined with `+`.
pub open spec fn joined(names: Seq<Seq<char>>) -> Seq<char>
    decreases names.len(),
{
    if names.len() == 0 {
        Seq::empty()
    } else if names.len() == 1 {
        names[0]
    } else {
        joined(names.drop_last()) + "+"@ + names.last()
    }
}

/// The entity name a complex instance is tallied under: the names of its
/// partial records joined with `+`.
pub fn complex_entity_name(names: &Vec<String>) -> (name: String)
    ensures
        name@ == joined(names@.map_values(|n: String| n@)),
{
    let ghost views = names@.map_values(|n: String| n@);
    let mut name = String::new();
    let mut i: usize = 0;
    while i < names.len()
        invariant
            i <= names@.len(),
            views == names@.map_values(|n: String| n@),
            name@ == joined(views.subrange(0, i as int)),
        decreases names.len() - i,
    {
        if i > 0 {
            name.append("+");
        }
        name.append(names[i].as_str());
        proof {
            let next = views.subrange(0, i + 1);
            assert(next.drop_last() =~= views.subrange(0, i as int));
            if i == 0 {
                assert(name@ =~= joined(next));
            }
        }
        i = i + 1;
    }
    assert(views.subrange(0, names@.len() as int) =~= views);
    name
}

/// Every decimal rendering is non-empty and made of digits only, so it never
/// runs into the words around it.
pub proof fn law_decimal_text_is_digits(n: nat)
    ensures
        decimal_text(n).len() >= 1,
        forall|i: int| 0 <= i < decimal_text(n).len() ==> 48 <= (#[trigger] decimal_text(n)[i]) as int <= 57,
    decreases n,
{
    assert(digit_char(n % 10) as int == 48 + n % 10) by {
        let d: u8 = (48 + n % 10) as u8;
        assert((d as char) as int == d as int);
    }
    if n >= 10 {
        law_decimal_text_is_digits(n / 10);
    }
}

} // verus!
