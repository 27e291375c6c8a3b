//! From STEP text to routed entity instances.
//!
//! `step_p21` parses the text into an exchange structure (see
//! [`super::parse`]); what the routing reads of it is, for each entity
//! instance of the first data section, its id, whether it is complex, and the
//! entity name and parameter shape of each of its partial records. Those
//! heads are routed by the tables of [`super::dispatch`]. The parameter values
//! stay inside the exchange, which carries the text it was parsed from, for
//! the reads that follow the routing. A text holding a number the parser
//! cannot read as an `i64` (see [`super::numbers`]) is refused before it is
//! parsed.

use vstd::prelude::*;
use super::decode::{decode_step_bytes, step_text};
use super::numbers::{has_oversized_number, holds_oversized_number};
use vstd::utf8::encode_utf8;
use super::dispatch::{complex_dispatch, dispatch_complex, dispatch_simple, simple_dispatch, ComplexDispatch, Dispatch, ParameterShape};
use super::parse::{parse_exchange, parsed_heads, sections_view, InstanceHeads, ParsedExchange};

verus! {

/// Where one instance goes.
#[derive(Clone, Copy, Debug, PartialEq, Eq, Structural)]
pub enum Dispatched {
    Simple(Dispatch),
    Complex(ComplexDispatch),
}

/// The route of an instance: a simple instance by its one head, a complex
/// one by the sequence of its heads.
pub open spec fn route_of(instance: InstanceHeads) -> Dispatched {
    if !instance.complex && instance.heads@.len() == 1 {
        Dispatched::Simple(simple_dispatch(instance.heads@[0].name@, instance.heads@[0].parameter))
    } else {
        Dispatched::Complex(complex_dispatch(instance.heads@))
    }
}

/// Why STEP text yields no routes.
pub enum StepTextError {
    /// The text is not a valid exchange structure.
    Syntax(step_p21::error::Error),
    /// The exchange has no data section.
    NoDataSection,
    /// The text holds a number (a digit run that names no instance) too
    /// large for an `i64`, which the parser cannot read.
    OversizedNumber,
}

/// A parsed exchange with the route of each instance of its first data
/// section: `routes[i]` is where instance `i` of that section goes.
pub struct RoutedExchange {
    pub parsed: ParsedExchange,
    pub routes: Vec<Dispatched>,
}

/// `routed` is the routing of `text`: parsed from it, with a first data
/// section whose instances are routed one by one, in order.
pub open spec fn routes_text(routed: RoutedExchange, text: Seq<char>) -> bool {
    let sections = routed.parsed.section_list();
    &&& !has_oversized_number(encode_utf8(text))
    &&& routed.parsed.source() == text
    &&& parsed_heads(text) == Some(sections_view(sections))
    &&& sections.len() > 0
    &&& routed.routes@.len() == sections[0]@.len()
    &&& forall|i: int| 0 <= i < sections[0]@.len() ==> routed.routes@[i] == route_of(#[trigger] sections[0]@[i])
}

/// The routes of `instances`, in order.
fn route_instances(instances: &Vec<InstanceHeads>) -> (routes: Vec<Dispatched>)
    ensures
        routes@.len() == instances@.len(),
        forall|i: int| 0 <= i < instances@.len() ==> routes@[i] == route_of(#[trigger] instances@[i]),
{
    let mut routes: Vec<Dispatched> = Vec::new();
    let mut i: usize = 0;
    while i < instances.len()
        invariant
            i <= instances@.len(),
            routes@.len() == i,
            forall|k: int| 0 <= k < i ==> routes@[k] == route_of(#[trigger] instances@[k]),
        decreases instances.len() - i,
    {
        let instance = &instances[i];
        let route = if !instance.complex && instance.heads.len() == 1 {
            Dispatched::Simple(dispatch_simple(instance.heads[0].name.as_str(), instance.heads[0].parameter))
        } else {
            Dispatched::Complex(dispatch_complex(&instance.heads))
        };
        routes.push(route);
        i = i + 1;
    }
    routes
}

/// Parses STEP text and routes every instance of its first data section:
/// a text with a number too large for an `i64`, a syntax error or a missing
/// data section is refused; otherwise there is one route per instance, in
/// order, each the route of that instance's heads, beside the exchange
/// parsed from this very text.
pub fn route_step_text(text: &str) -> (routed: Result<RoutedExchange, StepTextError>)
    ensures
        routed matches Err(StepTextError::OversizedNumber) <==> has_oversized_number(encode_utf8(text@)),
        routed matches Err(StepTextError::Syntax(_)) <==> !has_oversized_number(encode_utf8(text@))
            && parsed_heads(text@) is None,
        routed matches Err(StepTextError::NoDataSection) <==> !has_oversized_number(encode_utf8(text@))
            && parsed_heads(text@) == Some(Seq::<Seq<(u64, bool, Seq<(Seq<char>, ParameterShape)>)>>::empty()),
        routed matches Ok(r) ==> routes_text(r, text@),
{
    if holds_oversized_number(text.as_bytes()) {
        return Err(StepTextError::OversizedNumber);
    }
    match parse_exchange(text) {
        Err(error) => Err(StepTextError::Syntax(error)),
        Ok(parsed) => {
            if parsed.sections().len() == 0 {
                proof {
                    assert(sections_view(parsed.section_list()) =~= Seq::empty());
                }
                return Err(StepTextError::NoDataSection);
            }
            let routes = route_instances(&parsed.sections()[0]);
            proof {
                assert(sections_view(parsed.section_list()).len() > 0);
            }
            Ok(RoutedExchange { parsed, routes })
        },
    }
}

/// Routes the instances of a STEP file given as bytes, read as UTF-8 where
/// valid and as ISO-8859-1 otherwise.
pub fn route_step_bytes(bytes: &[u8]) -> (routed: Result<RoutedExchange, StepTextError>)
    ensures
        routed matches Err(StepTextError::OversizedNumber) <==> has_oversized_number(encode_utf8(step_text(bytes@))),
        routed matches Err(StepTextError::Syntax(_)) <==> !has_oversized_number(encode_utf8(step_text(bytes@)))
            && parsed_heads(step_text(bytes@)) is None,
        routed matches Err(StepTextError::NoDataSection) <==> !has_oversized_number(encode_utf8(step_text(bytes@)))
            && parsed_heads(step_text(bytes@)) == Some(
            Seq::<Seq<(u64, bool, Seq<(Seq<char>, ParameterShape)>)>>::empty(),
        ),
        routed matches Ok(r) ==> routes_text(r, step_text(bytes@)),
{
    let text = decode_step_bytes(bytes);
    route_step_text(text.as_str())
}

} // verus!
