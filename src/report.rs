//! What a host makes of a comparison: its time, its message and its cue.
use vstd::prelude::*;
use crate::engine::{contrast_with, contrast_outcome, extracted, opt_view, ContrastResult, Outcome, RuleSet};

verus! {

/// The text that chrono gives the UTC time `secs` seconds after the Unix
/// epoch in the form `%Y-%m-%d %H:%M:%S`; `None` where chrono cannot
/// represent that time.
pub uninterp spec fn utc_text(secs: int) -> Option<Seq<char>>;

/// Relies on `chrono::Utc::now` and `DateTime::timestamp`: the current time
/// in seconds since the Unix epoch. Nothing is known of its value.
#[verifier::external_body]
fn now_seconds() -> (r: i64) {
    chrono::Utc::now().timestamp()
}

/// Relies on `chrono::DateTime::from_timestamp` and its `format`: the time
/// `secs` written as `%Y-%m-%d %H:%M:%S` in UTC.
#[verifier::external_body]
fn utc_format(secs: i64) -> (r: Option<String>)
    ensures
        opt_view(r) == utc_text(secs as int),
{
    match chrono::DateTime::from_timestamp(secs, 0) {
        Some(t) => Some(t.format("%Y-%m-%d %H:%M:%S").to_string()),
        None => None,
    }
}

/// Compares the two inputs now: as `contrast_with`, with the current time as
/// the result's timestamp.
pub fn contrast_now(rules: Option<&RuleSet>, identifier_raw: &str, reference_raw: &str) -> (r:
    ContrastResult)
    ensures
        r.consistent(),
        match rules {
            Some(set) => {
                &&& opt_view(r.identifier) == Some(extracted(set@.0, identifier_raw@))
                &&& opt_view(r.reference) == Some(extracted(set@.1, reference_raw@))
                &&& r.outcome == contrast_outcome(identifier_raw@, reference_raw@, set@.0, set@.1)
            },
            None => r.identifier is None && r.reference is None && r.outcome == Outcome::Incomplete,
        },
{
    let now = now_seconds();
    contrast_with(rules, identifier_raw, reference_raw, now)
}

/// The feedback cue of an outcome.
#[derive(Clone, Copy, Debug, PartialEq, Eq, Structural)]
pub enum Cue {
    Pass,
    Fail,
}

/// Only a match passes.
pub open spec fn cue_of(outcome: Outcome) -> Cue {
    if outcome == Outcome::Match {
        Cue::Pass
    } else {
        Cue::Fail
    }
}

/// The cue that announces `outcome`.
pub fn cue_for(outcome: Outcome) -> (r: Cue)
    ensures
        r == cue_of(outcome),
{
    match outcome {
        Outcome::Match => Cue::Pass,
        _ => Cue::Fail,
    }
}

impl Cue {
    /// The sound file that plays this cue.
    pub fn sound_file(&self) -> (r: &'static str)
        ensures
            r@ == match self {
                Cue::Pass => "audio/pass.wav"@,
                Cue::Fail => "audio/fail.wav"@,
            },
    {
        match self {
            Cue::Pass => "audio/pass.wav",
            Cue::Fail => "audio/fail.wav",
        }
    }
}

/// The message for a comparison made at the time written `stamp`: both
/// values and the verdict, or a note that a value is absent.
pub open spec fn message_of(stamp: Seq<char>, identifier: Option<Seq<char>>, reference: Option<Seq<char>>) -> Seq<char> {
    match (identifier, reference) {
        (Some(a), Some(b)) => stamp + ": "@ + a + " "@ + b + if a == b {
            "  对比成功！"@
        } else {
            "  对比失败！"@
        },
        _ => "有一个为 None"@,
    }
}

/// The message for `result`, with `stamp` as its time.
pub fn message_text(stamp: &str, result: &ContrastResult) -> (r: String)
    ensures
        r@ == message_of(stamp@, opt_view(result.identifier), opt_view(result.reference)),
{
    match (&result.identifier, &result.reference) {
        (Some(a), Some(b)) => {
            let verdict = if a.eq(b) {
                "  对比成功！"
            } else {
                "  对比失败！"
            };
            String::from_str(stamp).concat(": ").concat(a.as_str()).concat(" ").concat(
                b.as_str(),
            ).concat(verdict)
        },
        _ => String::from_str("有一个为 None"),
    }
}

/// The message for `result`, stamped with its time in UTC (or with nothing
/// where that time cannot be written).
pub fn render_message(result: &ContrastResult) -> (r: String)
    ensures
        r@ == message_of(
            match utc_text(result.timestamp as int) {
                Some(t) => t,
                None => Seq::empty(),
            },
            opt_view(result.identifier),
            opt_view(result.reference),
        ),
{
    match utc_format(result.timestamp) {
        Some(stamp) => message_text(stamp.as_str(), result),
        None => {
            proof {
                reveal_strlit("");
            }
            message_text("", result)
        },
    }
}

/// The reply once the cue was played: the message, or the playback error.
pub fn play_audio_and_return_message(played: Result<(), String>, message: &str) -> (r: String)
    ensures
        r@ == match played {
            Ok(_) => message@,
            Err(e) => "Error: "@ + e@,
        },
{
    match played {
        Ok(_) => String::from_str(message),
        Err(e) => String::from_str("Error: ").concat(e.as_str()),
    }
}

} // verus!
