//! Extraction of a canonical value from each channel's raw input, and the
//! comparison of the two values.
use vstd::prelude::*;
use crate::normalize::{normalized, trim_whitespace};
use crate::pattern::{captures_of, PatternRule};

verus! {

/// One of the two comparison roles.
#[derive(Clone, Copy, Debug, PartialEq, Eq, Structural)]
pub enum Channel {
    /// The scanned source, such as a device serial number.
    Identifier,
    /// The paper label.
    Reference,
}

/// How a comparison came out.
#[derive(Clone, Copy, Debug, PartialEq, Eq, Structural)]
pub enum Outcome {
    /// Both values are present and equal.
    Match,
    /// Both values are present and differ.
    Mismatch,
    /// A value is absent.
    Incomplete,
}

/// The pattern texts of a list of rules, in order.
pub open spec fn patterns(rules: Seq<PatternRule>) -> Seq<Seq<char>> {
    rules.map_values(|r: PatternRule| r@)
}

/// The value that one match yields: the first group's text where that group
/// took part in the match, else the whole matched text.
pub open spec fn match_value(f: (Seq<char>, Option<Seq<char>>)) -> Seq<char> {
    match f.1 {
        Some(g) => g,
        None => f.0,
    }
}

/// What the rule list `rules` extracts from `s`: the normalized value of the
/// first rule that matches, or the normalized `s` where none does (in
/// particular where the list is empty).
pub open spec fn extracted(rules: Seq<Seq<char>>, s: Seq<char>) -> Seq<char>
    decreases rules.len(),
{
    if rules.len() == 0 {
        normalized(s)
    } else {
        match captures_of(rules[0], s) {
            Some(f) => normalized(match_value(f)),
            None => extracted(rules.drop_first(), s),
        }
    }
}

/// The view of a possibly absent text.
pub open spec fn opt_view(o: Option<String>) -> Option<Seq<char>> {
    match o {
        Some(x) => Some(x@),
        None => None,
    }
}

/// The outcome of comparing two possibly absent values.
pub open spec fn outcome_of(a: Option<Seq<char>>, b: Option<Seq<char>>) -> Outcome {
    match (a, b) {
        (Some(x), Some(y)) => if x == y {
            Outcome::Match
        } else {
            Outcome::Mismatch
        },
        _ => Outcome::Incomplete,
    }
}

/// The outcome of comparing what each channel's rules extract from its own input.
pub open spec fn contrast_outcome(
    identifier_raw: Seq<char>,
    reference_raw: Seq<char>,
    identifier_rules: Seq<Seq<char>>,
    reference_rules: Seq<Seq<char>>,
) -> Outcome {
    outcome_of(
        Some(extracted(identifier_rules, identifier_raw)),
        Some(extracted(reference_rules, reference_raw)),
    )
}

/// Extracts the canonical value of `raw` with `rules`: the first rule that
/// matches decides; where none matches, the whole input is used.
pub fn extract(raw: &str, rules: &[PatternRule]) -> (r: String)
    ensures
        r@ == extracted(patterns(rules@), raw@),
{
    let ghost all = patterns(rules@);
    let mut k: usize = 0;
    assert(all.skip(0) == all);
    while k < rules.len()
        invariant
            k <= rules@.len(),
            all == patterns(rules@),
            extracted(all, raw@) == extracted(all.skip(k as int), raw@),
        decreases rules@.len() - k,
    {
        assert(all.skip(k as int)[0] == rules@[k as int]@);
        assert(all.skip(k as int).drop_first() == all.skip(k + 1));
        match rules[k].search(raw) {
            Some(found) => {
                return match found.group {
                    Some(g) => trim_whitespace(g.as_str()),
                    None => trim_whitespace(found.whole.as_str()),
                };
            },
            None => {},
        }
        k = k + 1;
    }
    assert(all.skip(k as int).len() == 0);
    trim_whitespace(raw)
}

/// Compares two possibly absent values.
pub fn classify(a: &Option<String>, b: &Option<String>) -> (r: Outcome)
    ensures
        r == outcome_of(opt_view(*a), opt_view(*b)),
{
    match (a, b) {
        (Some(x), Some(y)) => if x.eq(y) {
            Outcome::Match
        } else {
            Outcome::Mismatch
        },
        _ => Outcome::Incomplete,
    }
}

/// The rule lists of both channels, each in declaration order.
pub struct RuleSet {
    pub identifier: Vec<PatternRule>,
    pub reference: Vec<PatternRule>,
}

impl View for RuleSet {
    type V = (Seq<Seq<char>>, Seq<Seq<char>>);

    open spec fn view(&self) -> (Seq<Seq<char>>, Seq<Seq<char>>) {
        (patterns(self.identifier@), patterns(self.reference@))
    }
}

impl RuleSet {
    /// The rule list of `channel`.
    pub fn rules_for(&self, channel: Channel) -> (r: &[PatternRule])
        ensures
            patterns(r@) == match channel {
                Channel::Identifier => self@.0,
                Channel::Reference => self@.1,
            },
    {
        match channel {
            Channel::Identifier => self.identifier.as_slice(),
            Channel::Reference => self.reference.as_slice(),
        }
    }
}

/// The result of one comparison.
pub struct ContrastResult {
    /// When the comparison was made, in seconds since the Unix epoch (UTC).
    pub timestamp: i64,
    /// The value extracted from the identifier input, if any.
    pub identifier: Option<String>,
    /// The value extracted from the reference input, if any.
    pub reference: Option<String>,
    pub outcome: Outcome,
}

impl ContrastResult {
    /// The outcome agrees with the two values.
    pub open spec fn consistent(&self) -> bool {
        self.outcome == outcome_of(opt_view(self.identifier), opt_view(self.reference))
    }
}

/// Extracts a value from each channel's input with that channel's own rules,
/// and compares the two.
pub fn contrast(
    identifier_raw: &str,
    reference_raw: &str,
    identifier_rules: &[PatternRule],
    reference_rules: &[PatternRule],
    timestamp: i64,
) -> (r: ContrastResult)
    ensures
        r.timestamp == timestamp,
        opt_view(r.identifier) == Some(extracted(patterns(identifier_rules@), identifier_raw@)),
        opt_view(r.reference) == Some(extracted(patterns(reference_rules@), reference_raw@)),
        r.outcome == contrast_outcome(
            identifier_raw@,
            reference_raw@,
            patterns(identifier_rules@),
            patterns(reference_rules@),
        ),
        r.consistent(),
{
    let identifier = Some(extract(identifier_raw, identifier_rules));
    let reference = Some(extract(reference_raw, reference_rules));
    let outcome = classify(&identifier, &reference);
    ContrastResult { timestamp, identifier, reference, outcome }
}

/// Compares the two inputs with a loaded rule set; without one nothing can be
/// extracted and the result is incomplete.
pub fn contrast_with(
    rules: Option<&RuleSet>,
    identifier_raw: &str,
    reference_raw: &str,
    timestamp: i64,
) -> (r: ContrastResult)
    ensures
        r.timestamp == timestamp,
        r.consistent(),
        match rules {
            Some(set) => {
                &&& opt_view(r.identifier) == Some(extracted(set@.0, identifier_raw@))
                &&& opt_view(r.reference) == Some(extracted(set@.1, reference_raw@))
                &&& r.outcome == contrast_outcome(identifier_raw@, reference_raw@, set@.0, set@.1)
            },
            None => r.identifier is None && r.reference is None && r.outcome == Outcome::Incomplete,
        },
{
    match rules {
        Some(set) => contrast(
            identifier_raw,
            reference_raw,
            set.rules_for(Channel::Identifier),
            set.rules_for(Channel::Reference),
            timestamp,
        ),
        None => ContrastResult {
            timestamp,
            identifier: None,
            reference: None,
            outcome: Outcome::Incomplete,
        },
    }
}

/// With no rules, the extracted value is the normalized input.
pub proof fn lemma_no_rules_passes_through(s: Seq<char>)
    ensures
        extracted(Seq::empty(), s) == normalized(s),
{
}

/// The first rule that matches decides the extracted value, whatever the rules
/// after it: its first group's text where that group took part in the match,
/// else the whole matched text, normalized.
pub proof fn lemma_first_match_wins(rules: Seq<Seq<char>>, s: Seq<char>, i: int)
    requires
        0 <= i < rules.len(),
        forall|j: int| 0 <= j < i ==> captures_of(#[trigger] rules[j], s) is None,
        captures_of(rules[i], s) is Some,
    ensures
        extracted(rules, s) == normalized(match_value(captures_of(rules[i], s)->0)),
        captures_of(rules[i], s) matches Some((_, Some(g))) ==> extracted(rules, s) == normalized(g),
    decreases i,
{
    if i > 0 {
        assert(captures_of(rules[0], s) is None);
        let rest = rules.drop_first();
        assert forall|j: int| 0 <= j < i - 1 implies captures_of(#[trigger] rest[j], s) is None by {
            assert(rest[j] == rules[j + 1]);
        }
        assert(rest[i - 1] == rules[i]);
        lemma_first_match_wins(rest, s, i - 1);
    }
}

/// Where no rule matches, the extracted value is the normalized input.
pub proof fn lemma_no_match_passes_through(rules: Seq<Seq<char>>, s: Seq<char>)
    requires
        forall|j: int| 0 <= j < rules.len() ==> captures_of(#[trigger] rules[j], s) is None,
    ensures
        extracted(rules, s) == normalized(s),
    decreases rules.len(),
{
    if rules.len() > 0 {
        assert(captures_of(rules[0], s) is None);
        let rest = rules.drop_first();
        assert forall|j: int| 0 <= j < rest.len() implies captures_of(#[trigger] rest[j], s)
            is None by {
            assert(rest[j] == rules[j + 1]);
        }
        lemma_no_match_passes_through(rest, s);
    }
}

/// Swapping the two channels, with their inputs and rule lists, leaves the
/// outcome unchanged.
pub proof fn lemma_contrast_symmetric(
    identifier_raw: Seq<char>,
    reference_raw: Seq<char>,
    identifier_rules: Seq<Seq<char>>,
    reference_rules: Seq<Seq<char>>,
)
    ensures
        contrast_outcome(identifier_raw, reference_raw, identifier_rules, reference_rules)
            == contrast_outcome(reference_raw, identifier_raw, reference_rules, identifier_rules),
{
}

} // verus!
