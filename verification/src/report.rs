//! The human-readable status output: one line per listed pull request,
//! with a glyph for its state and fallbacks for the optional display
//! fields, and the warning surfaced for a record of unknown state.

use vstd::prelude::*;
use vstd::string::*;
use crate::model::{PrRecordModel, PrState, PullRequestRecord};
use crate::naming::{spec_decimal, u64_decimal};

verus! {

/// The status glyph for a pull-request state.
pub open spec fn spec_glyph(state: PrState) -> Seq<char> {
    match state {
        PrState::Open => "🟢"@,
        PrState::Closed => "🔴"@,
        PrState::Unknown => "⚪"@,
    }
}

/// The displayed title: the record's own, or a fallback when absent.
pub open spec fn spec_title(title: Option<Seq<char>>) -> Seq<char> {
    match title {
        Option::Some(t) => t,
        Option::None => "No title"@,
    }
}

/// The displayed author login: the record's own, or a fallback.
pub open spec fn spec_author(author: Option<Seq<char>>) -> Seq<char> {
    match author {
        Option::Some(a) => a,
        Option::None => "???"@,
    }
}

/// The status line for one record: glyph, number, title and author.
pub open spec fn spec_log_line(r: PrRecordModel) -> Seq<char> {
    spec_glyph(r.state) + " #"@ + spec_decimal(r.number) + " - "@ + spec_title(r.title) + " ("@
        + spec_author(r.author_login) + ")"@
}

/// The warning surfaced when a record's state resolves to neither open
/// nor closed and the record is skipped.
pub open spec fn spec_skip_warning(n: nat) -> Seq<char> {
    "warning: skipping PR #"@ + spec_decimal(n) + ": unknown state"@
}

/// The status glyph for `state`.
pub fn state_glyph(state: PrState) -> (glyph: &'static str)
    ensures
        glyph@ == spec_glyph(state),
{
    match state {
        PrState::Open => "🟢",
        PrState::Closed => "🔴",
        PrState::Unknown => "⚪",
    }
}

/// Render the status line for one listed record.
pub fn log_line(record: &PullRequestRecord) -> (line: String)
    ensures
        line@ == spec_log_line(record@),
{
    let mut line = String::from_str(state_glyph(record.state));
    line.append(" #");
    let digits = u64_decimal(record.number);
    line.append(digits.as_str());
    line.append(" - ");
    match &record.title {
        Option::Some(t) => line.append(t.as_str()),
        Option::None => line.append("No title"),
    }
    line.append(" (");
    match &record.author_login {
        Option::Some(a) => line.append(a.as_str()),
        Option::None => line.append("???"),
    }
    line.append(")");
    proof {
        assert(line@ =~= spec_log_line(record@));
    }
    line
}

/// Render the warning for a skipped record of unknown state.
pub fn skip_warning(number: u64) -> (line: String)
    ensures
        line@ == spec_skip_warning(number as nat),
{
    let mut line = String::from_str("warning: skipping PR #");
    let digits = u64_decimal(number);
    line.append(digits.as_str());
    line.append(": unknown state");
    proof {
        assert(line@ =~= spec_skip_warning(number as nat));
    }
    line
}

} // verus!
