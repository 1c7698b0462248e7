//! Output format selection.
//!
//! A process's log lines carry a timestamp and ANSI color, a timestamp
//! alone, or neither, depending on where standard error goes: a journal
//! collector supplies its own timestamps, an interactive terminal benefits
//! from color, and a plain redirection gets timestamps without color.

use vstd::prelude::*;

verus! {

/// How log lines written to standard error are to be formatted.
#[derive(Clone, Copy, Debug, PartialEq, Eq, Structural)]
pub enum FormatMode {
    /// Standard error feeds a journal collector: no timestamps, no color.
    Journal,
    /// Standard error is an interactive terminal: local timestamps and
    /// ANSI color.
    TimestampedColor,
    /// Standard error is neither a journal nor a terminal: local
    /// timestamps, no color.
    TimestampedPlain,
}

impl FormatMode {
    /// Whether log lines in this mode embed their own timestamps.
    pub open spec fn has_timestamp(self) -> bool {
        !(self is Journal)
    }

    /// Whether log lines in this mode carry ANSI color codes.
    pub open spec fn has_ansi(self) -> bool {
        self is TimestampedColor
    }
}

/// The formatting policy: a journal connection suppresses timestamps and
/// color; otherwise timestamps are on and color follows interactivity.
pub open spec fn spec_select_format(journal_connected: bool, is_terminal: bool) -> FormatMode {
    if journal_connected {
        FormatMode::Journal
    } else if is_terminal {
        FormatMode::TimestampedColor
    } else {
        FormatMode::TimestampedPlain
    }
}

/// Pick the output format from the two environment signals.
pub fn select_format(journal_connected: bool, is_terminal: bool) -> (m: FormatMode)
    ensures
        m == spec_select_format(journal_connected, is_terminal),
        m.has_timestamp() == !journal_connected,
        m.has_ansi() == (!journal_connected && is_terminal),
{
    if journal_connected {
        FormatMode::Journal
    } else if is_terminal {
        FormatMode::TimestampedColor
    } else {
        FormatMode::TimestampedPlain
    }
}

/// A journal connection selects the mode without timestamps and without
/// color, whatever the terminal flag says.
pub proof fn lemma_journal_overrides_terminal(is_terminal: bool)
    ensures
        spec_select_format(true, is_terminal) == FormatMode::Journal,
        !spec_select_format(true, is_terminal).has_timestamp(),
        !spec_select_format(true, is_terminal).has_ansi(),
{
}

/// Without a journal connection the mode always embeds timestamps, and
/// carries color exactly when standard error is interactive.
pub proof fn lemma_no_journal_keeps_timestamps(is_terminal: bool)
    ensures
        spec_select_format(false, is_terminal).has_timestamp(),
        spec_select_format(false, is_terminal).has_ansi() == is_terminal,
{
}

} // verus!
