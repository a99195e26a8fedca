use serial_contrast::config::{load, load_outline, LoadError, TopEntry};
use serial_contrast::engine::{contrast_with, extract, Channel, Outcome};

#[test]
fn loads_both_sections_in_document_order() {
    let text = "[sn_rules]\nb = 'X(\\d)'\na = 'Y(\\d)'\n\n[paper_rules]\n";
    let set = match load(text) {
        Ok(set) => set,
        Err(e) => panic!("{:?}", e),
    };
    assert_eq!(set.identifier.len(), 2);
    assert_eq!(set.identifier[0].pattern(), "X(\\d)");
    assert_eq!(set.identifier[1].pattern(), "Y(\\d)");
    assert_eq!(set.reference.len(), 0);
    assert_eq!(extract("Y1 X2", &set.identifier), "2");
}

#[test]
fn empty_sections_pass_inputs_through() {
    let set = match load("[sn_rules]\n[paper_rules]\n") {
        Ok(set) => set,
        Err(e) => panic!("{:?}", e),
    };
    let c = contrast_with(Some(&set), "  ABC123  ", "ABC123", 0);
    assert_eq!(c.outcome, Outcome::Match);
}

#[test]
fn missing_reference_section_fails() {
    let r = load("[sn_rules]\na = 'SN:(\\w+)'\n");
    assert!(matches!(r, Err(LoadError::MissingSection(Channel::Reference))));
}

#[test]
fn missing_identifier_section_fails() {
    let r = load("[paper_rules]\n");
    assert!(matches!(r, Err(LoadError::MissingSection(Channel::Identifier))));
}

#[test]
fn malformed_document_fails() {
    assert!(matches!(load("[sn_rules\n"), Err(LoadError::Malformed)));
}

#[test]
fn section_that_is_not_a_table_fails() {
    let r = load("sn_rules = 5\n[paper_rules]\n");
    assert!(matches!(r, Err(LoadError::MalformedSection(Channel::Identifier))));
}

#[test]
fn value_that_is_not_a_string_fails() {
    let r = load("[sn_rules]\n[paper_rules]\na = 1\n");
    assert!(matches!(r, Err(LoadError::MalformedSection(Channel::Reference))));
}

#[test]
fn pattern_that_does_not_compile_fails() {
    let r = load("[sn_rules]\na = 'ok'\n[paper_rules]\nb = 'P('\n");
    match r {
        Err(LoadError::RuleCompile(c, p)) => {
            assert_eq!(c, Channel::Reference);
            assert_eq!(p, "P(");
        }
        _ => panic!("expected a compile error"),
    }
}

#[test]
fn identifier_section_is_checked_first() {
    let r = load("[paper_rules]\nb = 'P('\n[sn_rules]\na = 'S('\n");
    match r {
        Err(LoadError::RuleCompile(c, p)) => {
            assert_eq!(c, Channel::Identifier);
            assert_eq!(p, "S(");
        }
        _ => panic!("expected a compile error"),
    }
}

#[test]
fn loads_from_entries() {
    let outline = vec![
        TopEntry { key: String::from("other"), table: None },
        TopEntry { key: String::from("paper_rules"), table: Some(vec![Some(String::from("P(\\d+)"))]) },
        TopEntry { key: String::from("sn_rules"), table: Some(Vec::new()) },
    ];
    let set = match load_outline(&outline) {
        Ok(set) => set,
        Err(e) => panic!("{:?}", e),
    };
    assert_eq!(set.identifier.len(), 0);
    assert_eq!(set.reference[0].pattern(), "P(\\d+)");
}
