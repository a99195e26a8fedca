use serial_contrast::engine::{contrast, contrast_with, extract, classify, Channel, Outcome, RuleSet};
use serial_contrast::normalize::trim_whitespace;
use serial_contrast::pattern::PatternRule;

fn rules(patterns: &[&str]) -> Vec<PatternRule> {
    patterns.iter().map(|p| PatternRule::compile(p).expect("valid pattern")).collect()
}

#[test]
fn trims_surrounding_whitespace() {
    assert_eq!(trim_whitespace("  ABC123  "), "ABC123");
    assert_eq!(trim_whitespace("\t\n A B \r"), "A B");
    assert_eq!(trim_whitespace("\u{3000}x\u{a0}"), "x");
    assert_eq!(trim_whitespace("   "), "");
    assert_eq!(trim_whitespace(""), "");
}

#[test]
fn normalizing_twice_equals_once() {
    for s in ["  a b  ", "\u{2003} q\t", "", "plain"] {
        let once = trim_whitespace(s);
        assert_eq!(trim_whitespace(&once), once);
    }
}

#[test]
fn empty_rules_pass_input_through() {
    assert_eq!(extract("  ABC123  ", &[]), "ABC123");
    assert_eq!(extract("SN:XYZ99", &[]), "SN:XYZ99");
}

#[test]
fn empty_rules_on_both_channels_match() {
    let r = contrast("  ABC123  ", "ABC123", &[], &[], 0);
    assert_eq!(r.identifier.as_deref(), Some("ABC123"));
    assert_eq!(r.reference.as_deref(), Some("ABC123"));
    assert_eq!(r.outcome, Outcome::Match);
}

#[test]
fn capture_group_is_extracted() {
    let r = rules(&[r"SN:(\w+)"]);
    assert_eq!(extract("SN:XYZ99 extra", &r), "XYZ99");
}

#[test]
fn no_match_falls_back_to_input() {
    let r = rules(&[r"SN:(\w+)"]);
    assert_eq!(extract("  no marker here ", &r), "no marker here");
    let c = contrast("no marker here", "XYZ99", &r, &[], 0);
    assert_eq!(c.identifier.as_deref(), Some("no marker here"));
    assert_eq!(c.reference.as_deref(), Some("XYZ99"));
    assert_eq!(c.outcome, Outcome::Mismatch);
}

#[test]
fn second_rule_used_when_first_does_not_match() {
    let r = rules(&[r"ID:(\d+)", r"SN:(\w+)"]);
    assert_eq!(extract("label SN:AB12", &r), "AB12");
}

#[test]
fn first_matching_rule_wins() {
    let r = rules(&[r"SN:(\w+)", r"(\d+)"]);
    assert_eq!(extract("SN:AB12 99", &r), "AB12");
    let r = rules(&[r"(\d+)", r"SN:(\w+)"]);
    assert_eq!(extract("SN:AB12 99", &r), "12");
}

#[test]
fn whole_match_used_without_group() {
    let r = rules(&[r"\d+ "]);
    assert_eq!(extract("abc 123 def", &r), "123");
}

#[test]
fn whole_match_used_when_group_does_not_take_part() {
    let r = rules(&[r"x(y)?z?"]);
    assert_eq!(extract("ab xz", &r), "xz");
}

#[test]
fn matched_group_is_normalized() {
    let r = rules(&[r"\[(.*)\]"]);
    assert_eq!(extract("code [  K7 ] end", &r), "K7");
}

#[test]
fn each_channel_uses_its_own_rules_and_input() {
    let id = rules(&[r"SN:(\w+)"]);
    let rf = rules(&[r"P/(\w+)"]);
    let c = contrast("SN:A1", "P/A1", &id, &rf, 5);
    assert_eq!(c.identifier.as_deref(), Some("A1"));
    assert_eq!(c.reference.as_deref(), Some("A1"));
    assert_eq!(c.outcome, Outcome::Match);
    assert_eq!(c.timestamp, 5);
}

#[test]
fn swapping_channels_keeps_outcome() {
    let id = rules(&[r"SN:(\w+)"]);
    let rf = rules(&[r"P/(\w+)"]);
    for (a, b) in [("SN:A1", "P/A1"), ("SN:A1", "P/B2"), ("x", "y")] {
        let one = contrast(a, b, &id, &rf, 0);
        let two = contrast(b, a, &rf, &id, 0);
        assert_eq!(one.outcome, two.outcome);
    }
}

#[test]
fn missing_rule_set_is_incomplete() {
    let c = contrast_with(None, "a", "a", 3);
    assert_eq!(c.identifier, None);
    assert_eq!(c.reference, None);
    assert_eq!(c.outcome, Outcome::Incomplete);
}

#[test]
fn rule_set_selects_channel_rules() {
    let set = RuleSet { identifier: rules(&[r"SN:(\w+)"]), reference: Vec::new() };
    assert_eq!(set.rules_for(Channel::Identifier).len(), 1);
    assert_eq!(set.rules_for(Channel::Reference).len(), 0);
    let c = contrast_with(Some(&set), "SN:Q9", " Q9 ", 0);
    assert_eq!(c.outcome, Outcome::Match);
}

#[test]
fn classify_outcomes() {
    let a = Some(String::from("A"));
    let b = Some(String::from("B"));
    assert_eq!(classify(&a, &a.clone()), Outcome::Match);
    assert_eq!(classify(&a, &b), Outcome::Mismatch);
    assert_eq!(classify(&None, &b), Outcome::Incomplete);
    assert_eq!(classify(&a, &None), Outcome::Incomplete);
}

#[test]
fn invalid_pattern_does_not_compile() {
    assert!(PatternRule::compile("(").is_none());
    assert_eq!(PatternRule::compile(r"SN:(\w+)").unwrap().pattern(), r"SN:(\w+)");
}

#[test]
fn search_reports_groups() {
    let rule = PatternRule::compile(r"SN:(\w+)").unwrap();
    let f = rule.search("x SN:AB y").unwrap();
    assert_eq!(f.whole, "SN:AB");
    assert_eq!(f.group.as_deref(), Some("AB"));
    assert!(rule.search("nothing").is_none());
}
