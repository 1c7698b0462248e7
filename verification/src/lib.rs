//! Process-wide logger initialization with environment-aware formatting.
//!
//! The library decides, from plain environment signals (a filter string, a
//! journal stream hint, the identity and interactivity of standard error),
//! how a process-wide logging subscriber should format its output, and
//! installs it. The decision logic is verified; the operating-system and
//! backend calls stand behind a small set of trusted wrappers.

use vstd::prelude::*;

mod format;
mod journal;
mod setup;

pub use format::FormatMode;
pub use format::select_format;
pub use journal::is_connected_to_journald;
pub use journal::parse_journal_stream;
pub use setup::SetupError;
pub use setup::choose_filter;
pub use setup::interpret_install;
pub use setup::plan_format;
pub use setup::setup_logging;

verus! {

/// A hint that names exactly the standard-error identity selects the
/// journal mode, which embeds no timestamps and no color, whatever the
/// terminal flag says.
pub proof fn lemma_matching_hint_selects_journal_mode(
    h: Seq<char>,
    id: (u64, u64),
    is_terminal: bool,
)
    requires
        journal::spec_parse_hint(h) == Some(id),
    ensures
        ({
            let m = format::spec_select_format(
                journal::spec_journal_connected(Some(h), Some(id)),
                is_terminal,
            );
            m == FormatMode::Journal && !m.has_timestamp() && !m.has_ansi()
        }),
{
}

/// A hint that names a different pair than the standard-error identity
/// falls back to the terminal decision: timestamps are embedded, and
/// color follows interactivity.
pub proof fn lemma_mismatched_hint_selects_timestamps(
    h: Seq<char>,
    hinted: (u64, u64),
    actual: (u64, u64),
    is_terminal: bool,
)
    requires
        journal::spec_parse_hint(h) == Some(hinted),
        hinted != actual,
    ensures
        ({
            let m = format::spec_select_format(
                journal::spec_journal_connected(Some(h), Some(actual)),
                is_terminal,
            );
            m.has_timestamp() && m.has_ansi() == is_terminal
        }),
{
}

/// With no hint at all the process is never journal-connected: the mode
/// embeds timestamps, and colors exactly on an interactive terminal.
pub proof fn lemma_absent_hint_selects_timestamps(
    stderr_id: Option<(u64, u64)>,
    is_terminal: bool,
)
    ensures
        ({
            let m = format::spec_select_format(
                journal::spec_journal_connected(None, stderr_id),
                is_terminal,
            );
            m.has_timestamp() && m.has_ansi() == is_terminal
        }),
{
}

/// A hint that does not parse selects exactly the mode an absent hint
/// would select, whatever the descriptor identity and terminal flag.
pub proof fn lemma_malformed_hint_selects_like_absent(
    h: Seq<char>,
    stderr_id: Option<(u64, u64)>,
    is_terminal: bool,
)
    requires
        journal::spec_parse_hint(h) is None,
    ensures
        format::spec_select_format(
            journal::spec_journal_connected(Some(h), stderr_id),
            is_terminal,
        ) == format::spec_select_format(
            journal::spec_journal_connected(None, stderr_id),
            is_terminal,
        ),
{
}

} // verus!
