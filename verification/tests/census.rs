use monstertruck::step::census::raw_entity_counts;

/// The raw counter must see both STEP formatting styles, and a longer entity
/// name is not double-counted as its own suffix.
#[test]
fn raw_entity_counter_sees_both_step_formatting_styles() {
    let compact = b"#145=DEGENERATE_TOROIDAL_SURFACE('',#1,0.6,1.,.T.);\n#146=TOROIDAL_SURFACE('',#2,3.,1.);\n";
    let spaced = b"#5 = ADVANCED_FACE ( 'NONE' , ( #6 ) , #7 , .F. ) ;\r\n#8 = ADVANCED_FACE ( '' , ( ) , #9 , .T. ) ;\r\n";

    let c = raw_entity_counts(compact);
    assert_eq!(c.get("DEGENERATE_TOROIDAL_SURFACE"), Some(1));
    assert_eq!(
        c.get("TOROIDAL_SURFACE"),
        Some(1),
        "the degenerate name must not also count as a plain torus",
    );

    let s = raw_entity_counts(spaced);
    assert_eq!(
        s.get("ADVANCED_FACE"),
        Some(2),
        "space-separated records must be counted; three corpus files use this form",
    );
}

#[test]
fn names_not_followed_by_a_paren_are_not_counted() {
    let text = b"ISO-10303-21;\nHEADER;\nFILE_SCHEMA(('X'));\nENDSEC;\nDATA;\n#1=LINE('',#2,#3);\nENDSEC;";
    let c = raw_entity_counts(text);
    assert_eq!(c.get("LINE"), Some(1));
    assert_eq!(c.get("FILE_SCHEMA"), Some(1));
    assert_eq!(c.get("HEADER"), None);
    assert_eq!(c.get("DATA"), None);
    assert_eq!(c.get("ENDSEC"), None);
    assert_eq!(c.get("X"), None, "a name inside a string is followed by a quote");
}

#[test]
fn counting_is_byte_level_and_ignores_lowercase_prefixes() {
    // A name that starts after a lower-case letter still starts at its
    // upper-case letter; a digit run is not a name start.
    let text: &[u8] = &[b'x', b'L', b'I', b'N', b'E', b'(', 0xE9, b'9', b'A', b'(', b' ', b'\t', b'B', b'(', b'B', b'('];
    let c = raw_entity_counts(text);
    assert_eq!(c.get("LINE"), Some(1));
    assert_eq!(c.get("A"), Some(1));
    assert_eq!(c.get("B"), Some(2));
    assert_eq!(c.get("9A"), None);
}

#[test]
fn an_empty_input_counts_nothing() {
    let c = raw_entity_counts(b"");
    assert_eq!(c.get("ADVANCED_FACE"), None);
}
