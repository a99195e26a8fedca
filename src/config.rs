//! Loading the two channels' rule lists from a configuration document.
use vstd::prelude::*;
use crate::engine::{opt_view, patterns, Channel, RuleSet};
use crate::pattern::{compiles, PatternRule};

verus! {

#[verifier::external_type_specification]
#[verifier::external_body]
pub struct ExTomlError(toml::de::Error);

/// A section's values in document order: each the pattern text where the
/// value is a string, else `None`.
pub type SectionView = Seq<Option<Seq<char>>>;

/// A document's top-level entries in document order: each a key, and the
/// section's values where the entry is a table.
pub type OutlineView = Seq<(Seq<char>, Option<SectionView>)>;

/// What `toml::from_str` reads from `text` into a table, seen through
/// `Value::as_table` and `Value::as_str`; `None` where `text` is not a TOML
/// document.
pub uninterp spec fn toml_outline(text: Seq<char>) -> Option<OutlineView>;

/// One top-level entry of a configuration document.
pub struct TopEntry {
    pub key: String,
    /// Where the entry is a table, its values in document order, each with
    /// its text where it is a string.
    pub table: Option<Vec<Option<String>>>,
}

impl View for TopEntry {
    type V = (Seq<char>, Option<SectionView>);

    open spec fn view(&self) -> (Seq<char>, Option<SectionView>) {
        (
            self.key@,
            match self.table {
                Some(v) => Some(v@.map_values(|o: Option<String>| opt_view(o))),
                None => None,
            },
        )
    }
}

/// The view of a list of entries.
pub open spec fn outline_view(entries: Seq<TopEntry>) -> OutlineView {
    entries.map_values(|e: TopEntry| e@)
}

/// Relies on `toml::from_str` into a `toml::Table`, whose keys keep document
/// order (feature `preserve_order`), read through `Value::as_table` and
/// `Value::as_str`.
#[verifier::external_body]
fn parse_toml(text: &str) -> (r: Result<Vec<TopEntry>, toml::de::Error>)
    ensures
        match r {
            Ok(v) => toml_outline(text@) == Some(outline_view(v@)),
            Err(_) => toml_outline(text@) is None,
        },
{
    match toml::from_str::<toml::Table>(text) {
        Ok(t) => Ok(t.iter().map(|(k, v)| TopEntry {
            key: k.clone(),
            table: v.as_table().map(|s| s.values().map(|e| e.as_str().map(String::from)).collect()),
        }).collect()),
        Err(e) => Err(e),
    }
}

/// Why a configuration could not be loaded.
#[derive(Debug)]
pub enum LoadError {
    /// The text is not a valid document.
    Malformed,
    /// The channel's section is absent.
    MissingSection(Channel),
    /// The channel's section is not a table, or holds a value that is not a string.
    MalformedSection(Channel),
    /// A pattern of the channel's section is not a valid regular expression.
    RuleCompile(Channel, String),
}

/// The view of a [`LoadError`].
pub enum LoadFailure {
    Malformed,
    MissingSection(Channel),
    MalformedSection(Channel),
    RuleCompile(Channel, Seq<char>),
}

impl View for LoadError {
    type V = LoadFailure;

    open spec fn view(&self) -> LoadFailure {
        match self {
            LoadError::Malformed => LoadFailure::Malformed,
            LoadError::MissingSection(c) => LoadFailure::MissingSection(*c),
            LoadError::MalformedSection(c) => LoadFailure::MalformedSection(*c),
            LoadError::RuleCompile(c, p) => LoadFailure::RuleCompile(*c, p@),
        }
    }
}

/// The name of a channel's section.
pub open spec fn section_name(channel: Channel) -> Seq<char> {
    match channel {
        Channel::Identifier => "sn_rules"@,
        Channel::Reference => "paper_rules"@,
    }
}

/// The value of the first entry keyed `name`, if any.
pub open spec fn section_named(outline: OutlineView, name: Seq<char>) -> Option<Option<SectionView>>
    decreases outline.len(),
{
    if outline.len() == 0 {
        None
    } else if outline[0].0 == name {
        Some(outline[0].1)
    } else {
        section_named(outline.drop_first(), name)
    }
}

/// The patterns of a section, or the first value that fails: `None` for a
/// value that is not a string, the pattern text for one that does not compile.
pub open spec fn compiled_section(values: SectionView) -> Result<Seq<Seq<char>>, Option<Seq<char>>>
    decreases values.len(),
{
    if values.len() == 0 {
        Ok(Seq::empty())
    } else {
        match values[0] {
            None => Err(None),
            Some(p) => if !compiles(p) {
                Err(Some(p))
            } else {
                match compiled_section(values.drop_first()) {
                    Ok(rest) => Ok(seq![p] + rest),
                    Err(e) => Err(e),
                }
            },
        }
    }
}

/// The rule list that a document gives a channel, or why it gives none.
pub open spec fn channel_load(outline: OutlineView, channel: Channel) -> Result<
    Seq<Seq<char>>,
    LoadFailure,
> {
    match section_named(outline, section_name(channel)) {
        None => Err(LoadFailure::MissingSection(channel)),
        Some(None) => Err(LoadFailure::MalformedSection(channel)),
        Some(Some(values)) => match compiled_section(values) {
            Ok(ps) => Ok(ps),
            Err(None) => Err(LoadFailure::MalformedSection(channel)),
            Err(Some(p)) => Err(LoadFailure::RuleCompile(channel, p)),
        },
    }
}

/// The rule lists that a document gives both channels, or why it gives none;
/// the identifier channel is read first.
pub open spec fn outline_load(outline: OutlineView) -> Result<
    (Seq<Seq<char>>, Seq<Seq<char>>),
    LoadFailure,
> {
    match channel_load(outline, Channel::Identifier) {
        Err(e) => Err(e),
        Ok(a) => match channel_load(outline, Channel::Reference) {
            Err(e) => Err(e),
            Ok(b) => Ok((a, b)),
        },
    }
}

/// What loading the text `text` gives.
pub open spec fn document_load(text: Seq<char>) -> Result<
    (Seq<Seq<char>>, Seq<Seq<char>>),
    LoadFailure,
> {
    match toml_outline(text) {
        None => Err(LoadFailure::Malformed),
        Some(outline) => outline_load(outline),
    }
}

/// The view of a load result.
pub open spec fn load_view(r: Result<RuleSet, LoadError>) -> Result<
    (Seq<Seq<char>>, Seq<Seq<char>>),
    LoadFailure,
> {
    match r {
        Ok(set) => Ok(set@),
        Err(e) => Err(e@),
    }
}

/// `done` put before the patterns of a section result.
spec fn after(done: Seq<Seq<char>>, r: Result<Seq<Seq<char>>, Option<Seq<char>>>) -> Result<
    Seq<Seq<char>>,
    Option<Seq<char>>,
> {
    match r {
        Ok(rest) => Ok(done + rest),
        Err(e) => Err(e),
    }
}

/// The position of the first entry keyed `name`.
fn find_section(outline: &[TopEntry], name: &String) -> (r: Option<usize>)
    ensures
        match section_named(outline_view(outline@), name@) {
            None => r is None,
            Some(v) => r matches Some(i) && i < outline@.len() && outline@[i as int]@.1 == v,
        },
{
    let ghost all = outline_view(outline@);
    let mut k: usize = 0;
    assert(all.skip(0) == all);
    while k < outline.len()
        invariant
            k <= outline@.len(),
            all == outline_view(outline@),
            section_named(all, name@) == section_named(all.skip(k as int), name@),
        decreases outline@.len() - k,
    {
        assert(all.skip(k as int)[0] == outline@[k as int]@);
        assert(all.skip(k as int).drop_first() == all.skip(k + 1));
        if outline[k].key.eq(name) {
            return Some(k);
        }
        k = k + 1;
    }
    None
}

/// Compiles a section's values in order, stopping at the first that fails.
fn compile_section(values: &Vec<Option<String>>) -> (r: Result<Vec<PatternRule>, Option<String>>)
    ensures
        match compiled_section(values@.map_values(|o: Option<String>| opt_view(o))) {
            Ok(ps) => r matches Ok(rules) && patterns(rules@) == ps,
            Err(None) => r matches Err(None),
            Err(Some(p)) => r matches Err(Some(q)) && q@ == p,
        },
{
    let ghost all = values@.map_values(|o: Option<String>| opt_view(o));
    let mut out: Vec<PatternRule> = Vec::new();
    let mut k: usize = 0;
    assert(all.skip(0) == all);
    assert(patterns(out@) + Seq::<Seq<char>>::empty() == patterns(out@));
    while k < values.len()
        invariant
            k <= values@.len(),
            all == values@.map_values(|o: Option<String>| opt_view(o)),
            compiled_section(all) == after(patterns(out@), compiled_section(all.skip(k as int))),
        decreases values@.len() - k,
    {
        let ghost rest = all.skip(k as int);
        assert(rest[0] == opt_view(values@[k as int]));
        assert(rest.drop_first() == all.skip(k + 1));
        match &values[k] {
            None => {
                return Err(None);
            },
            Some(p) => match PatternRule::compile(p.as_str()) {
                None => {
                    return Err(Some(p.clone()));
                },
                Some(rule) => {
                    let ghost before = patterns(out@);
                    out.push(rule);
                    assert(patterns(out@) == before.push(p@));
                    assert forall|tail: Seq<Seq<char>>|
                        before + (seq![p@] + tail) == #[trigger] (before.push(p@) + tail) by {
                        assert(before + (seq![p@] + tail) =~= before.push(p@) + tail);
                    }
                },
            },
        }
        k = k + 1;
    }
    assert(all.skip(k as int).len() == 0);
    assert(patterns(out@) + Seq::<Seq<char>>::empty() == patterns(out@));
    Ok(out)
}

/// The section name of a channel.
fn section_key(channel: Channel) -> (r: String)
    ensures
        r@ == section_name(channel),
{
    match channel {
        Channel::Identifier => String::from_str("sn_rules"),
        Channel::Reference => String::from_str("paper_rules"),
    }
}

/// Reads and compiles one channel's rule list from a document's entries.
pub fn load_channel(outline: &[TopEntry], channel: Channel) -> (r: Result<Vec<PatternRule>, LoadError>)
    ensures
        match r {
            Ok(rules) => channel_load(outline_view(outline@), channel) == Ok::<
                Seq<Seq<char>>,
                LoadFailure,
            >(patterns(rules@)),
            Err(e) => channel_load(outline_view(outline@), channel) == Err::<
                Seq<Seq<char>>,
                LoadFailure,
            >(e@),
        },
{
    let name = section_key(channel);
    match find_section(outline, &name) {
        None => Err(LoadError::MissingSection(channel)),
        Some(i) => match &outline[i].table {
            None => Err(LoadError::MalformedSection(channel)),
            Some(values) => match compile_section(values) {
                Ok(rules) => Ok(rules),
                Err(None) => Err(LoadError::MalformedSection(channel)),
                Err(Some(p)) => Err(LoadError::RuleCompile(channel, p)),
            },
        },
    }
}

/// Builds the rule set from a document's top-level entries: both sections
/// must be present, be tables of strings, and every pattern must compile.
pub fn load_outline(outline: &[TopEntry]) -> (r: Result<RuleSet, LoadError>)
    ensures
        load_view(r) == outline_load(outline_view(outline@)),
{
    let identifier = match load_channel(outline, Channel::Identifier) {
        Ok(rules) => rules,
        Err(e) => {
            return Err(e);
        },
    };
    let reference = match load_channel(outline, Channel::Reference) {
        Ok(rules) => rules,
        Err(e) => {
            return Err(e);
        },
    };
    Ok(RuleSet { identifier, reference })
}

/// Loads the rule set from the text of a configuration document.
pub fn load(text: &str) -> (r: Result<RuleSet, LoadError>)
    ensures
        load_view(r) == document_load(text@),
{
    match parse_toml(text) {
        Ok(outline) => load_outline(outline.as_slice()),
        Err(_) => Err(LoadError::Malformed),
    }
}

} // verus!
