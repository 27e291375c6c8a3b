use monstertruck::step::dispatch::{
    ComplexDispatch, Dispatch, LabelUse, ListShape, NonRationalCurveForm, ParameterShape, PositionalLayout, Source,
    TableField,
};
use monstertruck::step::exchange::{route_step_bytes, route_step_text, Dispatched, StepTextError};
use monstertruck::step::numbers::holds_oversized_number;

const HEADER: &str = "ISO-10303-21;\nHEADER;\nFILE_DESCRIPTION(('a part'),'2;1');\nFILE_NAME('part.stp','2024-01-01T00:00:00',('me'),('us'),'pre','sys','');\nFILE_SCHEMA(('CONFIG_CONTROL_DESIGN'));\nENDSEC;\n";

fn file(data: &str) -> String { format!("{HEADER}DATA;\n{data}ENDSEC;\nEND-ISO-10303-21;\n") }

#[test]
fn every_instance_of_the_data_section_is_routed_in_order() {
    let text = file(&[
        "#1=CARTESIAN_POINT('',(0.,0.,0.));\n",
        "#2=ORIENTED_EDGE('',*,*,#3,.T.);\n",
        "#3=ORIENTED_EDGE('',*,#3,.T.);\n",
        "#4=NO_SUCH_ENTITY(1);\n",
        "#5=(BOUNDED_CURVE()B_SPLINE_CURVE(1,(#1,#1),.UNSPECIFIED.,.F.,.F.)B_SPLINE_CURVE_WITH_KNOTS((2,2),(0.,1.),.UNSPECIFIED.)CURVE()GEOMETRIC_REPRESENTATION_ITEM()RATIONAL_B_SPLINE_CURVE((1.,1.))REPRESENTATION_ITEM(''));\n",
        "#6=(CARTESIAN_POINT('',(0.,0.,0.)));\n",
    ]
    .concat());
    let routed = match route_step_text(&text) {
        Ok(routed) => routed,
        Err(_) => panic!("the file parses"),
    };
    let instances = &routed.parsed.sections()[0];
    let ids: Vec<u64> = instances.iter().map(|i| i.id).collect();
    assert_eq!(ids, vec![1, 2, 3, 4, 5, 6]);
    assert_eq!(
        routed.routes,
        vec![
            Dispatched::Simple(Dispatch::Deserialize { field: TableField::CartesianPoint, source: Source::Record }),
            Dispatched::Simple(Dispatch::Positional {
                field: TableField::OrientedEdge,
                layout: PositionalLayout::OrientedEdge
            }),
            Dispatched::Simple(Dispatch::UnexpectedShape { expected: ListShape::Exactly(5) }),
            Dispatched::Simple(Dispatch::Dummy),
            Dispatched::Complex(ComplexDispatch::RationalCurve {
                form: NonRationalCurveForm::BsplineCurveWithKnots,
                label: 6,
                label_use: LabelUse::WholeList,
                bspline: 1,
                knots: Some(2),
                weights: 5,
            }),
            // A complex instance of one partial record is still complex.
            Dispatched::Complex(ComplexDispatch::Dummy),
        ]
    );
    assert_eq!(instances[2].heads[0].parameter, ParameterShape::List(4));
    assert!(instances[4].complex);
    // The exchange beside the routes is the one parsed from this text.
    assert_eq!(routed.parsed.exchange().data.len(), 1);
    assert_eq!(routed.parsed.exchange().data[0].entities.len(), 6);
}

#[test]
fn text_that_is_not_an_exchange_is_refused() {
    assert!(matches!(route_step_text("this is not STEP"), Err(StepTextError::Syntax(_))));
}

#[test]
fn an_exchange_without_a_data_section_is_refused() {
    let text = format!("{HEADER}END-ISO-10303-21;\n");
    assert!(matches!(route_step_text(&text), Err(StepTextError::NoDataSection)));
}

#[test]
fn latin1_bytes_route_like_their_decoded_text() {
    let mut bytes = file("#1=PRODUCT('id','caf\u{e9}','',(#2));\n").into_bytes();
    // Replace the two-byte UTF-8 'é' by the single ISO-8859-1 byte.
    let at = bytes.windows(2).position(|w| w == [0xc3, 0xa9]).unwrap();
    bytes.splice(at..at + 2, [0xe9]);
    assert!(std::str::from_utf8(&bytes).is_err());
    let routed = match route_step_bytes(&bytes) {
        Ok(routed) => routed,
        Err(_) => panic!("the bytes decode and parse"),
    };
    assert_eq!(routed.parsed.sections()[0][0].heads[0].name, "PRODUCT");
    assert_eq!(
        routed.routes,
        vec![Dispatched::Simple(Dispatch::Deserialize { field: TableField::Product, source: Source::Parameter })]
    );
}

#[test]
fn numbers_too_large_for_the_parser_are_refused() {
    let at_limit = file("#1=A(9223372036854775807);\n");
    assert!(route_step_text(&at_limit).is_ok());
    let over = file("#1=A(9223372036854775808);\n");
    assert!(matches!(route_step_text(&over), Err(StepTextError::OversizedNumber)));
    let exponent = file("#1=A(1.5E99999999999999999999);\n");
    assert!(matches!(route_step_text(&exponent), Err(StepTextError::OversizedNumber)));
    assert!(matches!(route_step_bytes(over.as_bytes()), Err(StepTextError::OversizedNumber)));
    // An instance name too long for a `u64` is a syntax error, not a panic.
    let name = file("#99999999999999999999=A(1);\n");
    assert!(matches!(route_step_text(&name), Err(StepTextError::Syntax(_))));
    // Leading zeros do not make a number large.
    let zeros = file("#1=A(000000000000000000000000001);\n");
    assert!(route_step_text(&zeros).is_ok());
}

#[test]
fn the_number_scan_sees_only_digit_runs_that_name_no_instance() {
    assert!(!holds_oversized_number(b"#99999999999999999999 @99999999999999999999"));
    assert!(holds_oversized_number(b"(99999999999999999999)"));
    assert!(!holds_oversized_number(b"(9223372036854775807, 12)"));
    assert!(holds_oversized_number(b"99999999999999999999"));
    assert!(!holds_oversized_number(b""));
}

#[test]
fn digit_runs_the_parser_never_reads_as_integers_are_accepted() {
    // Inside a string literal, a quote doubled inside it included.
    let in_string = file("#1=A('it''s 99999999999999999999');\n");
    assert!(route_step_text(&in_string).is_ok());
    // Inside a comment or a resource name.
    assert!(!holds_oversized_number(b"#1=A(1); /* 99999999999999999999 **/ #2=A(2);"));
    assert!(!holds_oversized_number(b"(<http://x/99999999999999999999>)"));
    // After the letters of a keyword or an enumeration.
    assert!(!holds_oversized_number(b"(.X99999999999999999999.)"));
    assert!(!holds_oversized_number(b"A_99999999999999999999(1)"));
    // The integral part of a real, read as a real in a parameter.
    let real = file("#1=A(99999999999999999999.5);\n");
    assert!(route_step_text(&real).is_ok());
    // After a string or a comment closes, the code counts again.
    assert!(holds_oversized_number(b"('x')99999999999999999999"));
    assert!(holds_oversized_number(b"/* x */99999999999999999999"));
}

#[test]
fn digit_runs_an_integer_may_be_read_from_still_count() {
    // The exponent of a real, after its `E`.
    assert!(holds_oversized_number(b"(1.E99999999999999999999)"));
    // An anchor section reads an integer before a real, so with one the
    // integral part of a real counts.
    assert!(holds_oversized_number(b"ANCHOR; <a>=99999999999999999999.5; ENDSEC;"));
    assert!(!holds_oversized_number(b"ANCHOR 99999999999999999999.5"));
}
