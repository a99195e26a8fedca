//! Compiled pattern rules and the searches made with them.
use vstd::prelude::*;

verus! {

#[verifier::external_type_specification]
#[verifier::external_body]
pub struct ExRegex(regex::Regex);

#[verifier::external_type_specification]
#[verifier::external_body]
pub struct ExRegexError(regex::Error);

/// Whether `Regex::new` accepts the pattern `p`.
pub uninterp spec fn compiles(p: Seq<char>) -> bool;

/// What `Regex::captures` finds when the pattern `p` is searched for in `s`:
/// nothing, or the text of the leftmost-first match and the text of its first
/// capturing group where that group took part in the match.
pub uninterp spec fn captures_of(p: Seq<char>, s: Seq<char>) -> Option<(Seq<char>, Option<Seq<char>>)>;

/// One match of a rule: the matched text, and the text of the first capturing
/// group where it took part in the match.
pub struct Found {
    pub whole: String,
    pub group: Option<String>,
}

impl View for Found {
    type V = (Seq<char>, Option<Seq<char>>);

    open spec fn view(&self) -> (Seq<char>, Option<Seq<char>>) {
        (
            self.whole@,
            match self.group {
                Some(g) => Some(g@),
                None => None,
            },
        )
    }
}

/// The view of a search result.
pub open spec fn found_view(r: Option<Found>) -> Option<(Seq<char>, Option<Seq<char>>)> {
    match r {
        Some(f) => Some(f@),
        None => None,
    }
}

/// A rule: a pattern text and the regular expression compiled from it.
///
/// Its fields are private and `compile` is its only constructor, so the
/// expression is always the one compiled from the text.
pub struct PatternRule {
    pattern: String,
    regex: regex::Regex,
}

impl View for PatternRule {
    type V = Seq<char>;

    closed spec fn view(&self) -> Seq<char> {
        self.pattern@
    }
}

/// Relies on `regex::Regex::new`: it accepts a pattern or refuses it, by the
/// pattern alone; the rule keeps the pattern text beside the compiled expression.
#[verifier::external_body]
fn compile_regex(p: &str) -> (r: Result<PatternRule, regex::Error>)
    ensures
        r is Ok <==> compiles(p@),
        r matches Ok(rule) ==> rule@ == p@,
{
    match regex::Regex::new(p) {
        Ok(regex) => Ok(PatternRule { pattern: p.to_string(), regex }),
        Err(e) => Err(e),
    }
}

/// Relies on `regex::Regex::captures` (with `Captures::get` for groups 0 and 1):
/// the leftmost-first match of the rule's expression in `s`, if any.
#[verifier::external_body]
fn regex_captures(rule: &PatternRule, s: &str) -> (r: Option<Found>)
    ensures
        found_view(r) == captures_of(rule@, s@),
{
    match rule.regex.captures(s) {
        Some(caps) => Some(
            Found {
                whole: caps[0].to_string(),
                group: match caps.get(1) {
                    Some(m) => Some(m.as_str().to_string()),
                    None => None,
                },
            },
        ),
        None => None,
    }
}

impl PatternRule {
    /// Compiles `pattern`; `None` where it is not a valid regular expression.
    pub fn compile(pattern: &str) -> (r: Option<PatternRule>)
        ensures
            r is Some <==> compiles(pattern@),
            r matches Some(rule) ==> rule@ == pattern@,
    {
        match compile_regex(pattern) {
            Ok(rule) => Some(rule),
            Err(_) => None,
        }
    }

    /// The pattern text of this rule.
    pub fn pattern(&self) -> (r: &str)
        ensures
            r@ == self@,
    {
        self.pattern.as_str()
    }

    /// Searches for this rule's expression in `s`.
    pub fn search(&self, s: &str) -> (r: Option<Found>)
        ensures
            found_view(r) == captures_of(self@, s@),
    {
        regex_captures(self, s)
    }
}

} // verus!
