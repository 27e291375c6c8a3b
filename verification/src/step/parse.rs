//! Parsing STEP text with `step_p21`.
//!
//! A [`ParsedExchange`] can only come out of [`parse_exchange`]: it holds the
//! exchange structure `step_p21` built, the heads of the entity instances of
//! each of its data sections, and, as a ghost, the text it was parsed from.
//! So the heads and the structure that the later reads take their parameter
//! values from always belong to the same text.

use vstd::prelude::*;
use super::dispatch::{ParameterShape, RecordHead};
use super::numbers::has_oversized_number;
use vstd::utf8::encode_utf8;
use step_p21::ast::{EntityInstance, Parameter, Record};
use step_p21::parser::parse;

verus! {

/// `step_p21`'s exchange structure: the sections of a parsed STEP file.
#[verifier::external_type_specification]
#[verifier::external_body]
pub struct ExExchange(step_p21::ast::Exchange);

/// `step_p21`'s parse error.
#[verifier::external_type_specification]
#[verifier::external_body]
pub struct ExParseError(step_p21::error::Error);

/// The heads of one entity instance: its id, whether it is a complex
/// instance, and the name and parameter shape of each partial record (a
/// simple instance has one).
pub struct InstanceHeads {
    pub id: u64,
    pub complex: bool,
    pub heads: Vec<RecordHead>,
}

/// An instance's heads as plain values.
pub open spec fn instance_view(instance: InstanceHeads) -> (u64, bool, Seq<(Seq<char>, ParameterShape)>) {
    (instance.id, instance.complex, instance.heads@.map_values(|head: RecordHead| (head.name@, head.parameter)))
}

/// The heads of a data section's instances as plain values, in order.
pub open spec fn section_view(section: Vec<InstanceHeads>) -> Seq<(u64, bool, Seq<(Seq<char>, ParameterShape)>)> {
    section@.map_values(|instance: InstanceHeads| instance_view(instance))
}

/// The heads of every data section, in order.
pub open spec fn sections_view(sections: Seq<Vec<InstanceHeads>>) -> Seq<Seq<(u64, bool, Seq<(Seq<char>, ParameterShape)>)>> {
    sections.map_values(|section: Vec<InstanceHeads>| section_view(section))
}

/// What `step_p21` reads of STEP text: `None` when the text is not a valid
/// exchange structure; otherwise, for each of its data sections in order,
/// the heads of that section's instances in order.
pub uninterp spec fn parsed_heads(text: Seq<char>) -> Option<Seq<Seq<(u64, bool, Seq<(Seq<char>, ParameterShape)>)>>>;

/// A parsed exchange: the structure, the heads of each data section's
/// instances, and the text both were read from.
pub struct ParsedExchange {
    exchange: step_p21::ast::Exchange,
    sections: Vec<Vec<InstanceHeads>>,
    source: Ghost<Seq<char>>,
}

impl ParsedExchange {
    /// The text this exchange was parsed from.
    pub closed spec fn source(&self) -> Seq<char> {
        self.source@
    }

    /// The heads of each data section, in order.
    pub closed spec fn section_list(&self) -> Seq<Vec<InstanceHeads>> {
        self.sections@
    }

    /// The exchange structure, for reading parameter values.
    pub fn exchange(&self) -> &step_p21::ast::Exchange {
        &self.exchange
    }

    /// The heads of each data section, in order.
    pub fn sections(&self) -> (sections: &Vec<Vec<InstanceHeads>>)
        ensures
            sections@ == self.section_list(),
    {
        &self.sections
    }
}

/// `step_p21::parser::parse`: parses STEP text into an exchange structure,
/// or fails with the parser's error. The claim is that success, and the
/// heads read off each data section of the result, depend on the text alone
/// (`parsed_heads`), and that the result is the parse of this text; nothing
/// is claimed about which texts parse. The parser reads every integer and
/// every exponent as an `i64` and panics on one that does not fit, so such
/// texts are left out.
#[verifier::external_body]
pub(crate) fn parse_exchange(text: &str) -> (parsed: Result<ParsedExchange, step_p21::error::Error>)
    requires
        !has_oversized_number(encode_utf8(text@)),
    ensures
        parsed is Ok <==> parsed_heads(text@) is Some,
        parsed matches Ok(p) ==> p.source() == text@ && sections_view(p.section_list()) == parsed_heads(text@)->0,
{
    let exchange = parse(text)?;
    let head = |r: &Record| RecordHead { name: r.name.clone(), parameter: match &r.parameter {
        Parameter::List(items) => ParameterShape::List(items.len()),
        _ => ParameterShape::Other,
    } };
    let sections = exchange.data.iter().map(|section| section.entities.iter().map(|instance| match instance {
        EntityInstance::Simple { id, record } => InstanceHeads { id: *id, complex: false, heads: vec![head(record)] },
        EntityInstance::Complex { id, subsuper } => InstanceHeads { id: *id, complex: true, heads: subsuper.0.iter().map(head).collect() },
    }).collect()).collect();
    Ok(ParsedExchange { exchange, sections, source: Ghost(text@) })
}

} // verus!
