//! One-shot logger initialization.
//!
//! `setup_logging` chooses the active filter directives (an environment
//! override when it parses, the caller's default otherwise), decides the
//! output format from the journal and terminal signals, and installs the
//! process-wide subscriber. Installation happens at most once per process:
//! the backend's global slot rejects a second installation.

use vstd::prelude::*;
use vstd::string::is_ascii;
use vstd::utf8::is_ascii_chars;

use crate::format::FormatMode;
use crate::format::select_format;
use crate::format::spec_select_format;
use crate::journal::is_connected_to_journald;
use crate::journal::opt_str_view;
use crate::journal::spec_journal_connected;

verus! {

/// Why logger initialization failed.
#[derive(Clone, Copy, Debug, PartialEq, Eq, Structural)]
pub enum SetupError {
    /// The filter directives (from the override or the default) are not
    /// usable: not ASCII, or rejected by the backend's parser.
    InvalidFilter,
    /// The process-wide logging backend was already claimed: a subscriber
    /// — or the `log` crate's global logger, which the backend registers
    /// too — was installed before.
    AlreadyInitialized,
}

/// Whether `s` is a filter-directive string that the logging backend
/// accepts.
pub uninterp spec fn filter_parses(s: Seq<char>) -> bool;

/// Relies on `tracing_subscriber::EnvFilter::try_new`: whether a
/// directive string parses is a function of the string alone, and
/// `try_new` returns `Err` exactly on the strings it cannot parse. The
/// string must be ASCII: the backend's directive parser takes character
/// positions on a trimmed copy of each comma-segment but slices the
/// untrimmed text with them, and on non-ASCII text such a slice can end
/// inside a character and panic. On ASCII text every byte offset is a
/// character boundary, so every slice succeeds.
#[verifier::external_body]
fn filter_is_valid(s: &str) -> (r: bool)
    requires
        is_ascii(s),
    ensures
        r == filter_parses(s@),
{
    tracing_subscriber::EnvFilter::try_new(s).is_ok()
}

/// A directive string the library will act on: ASCII text that the
/// backend's parser accepts. The parser is only consulted on ASCII text
/// (see `filter_is_valid`), so anything else counts as invalid rather
/// than reaching it.
pub open spec fn filter_usable(s: Seq<char>) -> bool {
    is_ascii_chars(s) && filter_parses(s)
}

/// The directive string that initialization acts on: the override when
/// it is present and usable, the default otherwise.
pub open spec fn spec_effective_filter(
    default_level: Seq<char>,
    env_override: Option<Seq<char>>,
) -> Seq<char> {
    match env_override {
        Some(e) => if filter_usable(e) {
            e
        } else {
            default_level
        },
        None => default_level,
    }
}

/// Pick the directive string to act on: a usable override wins; an
/// absent, non-ASCII or unparseable one falls back to the default.
pub fn choose_filter<'a>(default_level: &'a str, env_override: Option<&'a str>) -> (r: &'a str)
    ensures
        r@ == spec_effective_filter(default_level@, opt_str_view(env_override)),
{
    match env_override {
        Some(e) => if e.is_ascii() && filter_is_valid(e) {
            e
        } else {
            default_level
        },
        None => default_level,
    }
}

/// Relies on `tracing_subscriber::fmt`'s subscriber builder —
/// `with_writer`, `with_env_filter`, `with_ansi`, `with_timer` with a
/// `ChronoLocal` layout — and on `SubscriberBuilder::try_init`: installs
/// a subscriber that writes timestamped lines to standard error, and
/// returns whether installation succeeded. `try_init` fails when the
/// process-wide dispatcher — or the `log` crate's global logger, which
/// the backend registers too — was already set. The filter must be
/// ASCII text that `EnvFilter::try_new` accepts: the directive parser
/// can panic on non-ASCII text (see `filter_is_valid`), and on an
/// accepted string the re-parse here returns the same filter.
#[verifier::external_body]
fn install_timestamped(filter: &str, ansi: bool, timer_format: &str) -> (installed: bool)
    requires
        is_ascii(filter),
        filter_parses(filter@),
        timer_format@ == "%Y-%m-%d %H:%M:%S%.6f %z"@,
{
    tracing_subscriber::fmt::fmt()
        .with_writer(std::io::stderr)
        .with_env_filter(tracing_subscriber::EnvFilter::try_new(filter).unwrap_or_default())
        .with_ansi(ansi)
        .with_timer(tracing_subscriber::fmt::time::ChronoLocal::new(timer_format.to_string()))
        .try_init()
        .is_ok()
}

/// Relies on the same `tracing_subscriber::fmt` builder chain, with
/// `without_time` in place of a timer: installs a subscriber whose lines
/// carry no timestamp, and returns whether installation succeeded, as
/// above. This is the journal-mode install, whose lines carry no color
/// either, so it only takes a cleared ANSI flag.
#[verifier::external_body]
fn install_without_time(filter: &str, ansi: bool) -> (installed: bool)
    requires
        is_ascii(filter),
        filter_parses(filter@),
        !ansi,
{
    tracing_subscriber::fmt::fmt()
        .with_writer(std::io::stderr)
        .with_env_filter(tracing_subscriber::EnvFilter::try_new(filter).unwrap_or_default())
        .with_ansi(ansi)
        .without_time()
        .try_init()
        .is_ok()
}

/// Decide the output format from the raw environment signals: the journal
/// hint and standard error's device/inode identity decide journal
/// attachment, and the terminal flag decides color among the timestamped
/// modes.
pub fn plan_format(
    journal_hint: Option<&str>,
    stderr_id: Option<(u64, u64)>,
    stderr_is_terminal: bool,
) -> (m: FormatMode)
    ensures
        m == spec_select_format(
            spec_journal_connected(opt_str_view(journal_hint), stderr_id),
            stderr_is_terminal,
        ),
{
    let journal = is_connected_to_journald(journal_hint, stderr_id);
    select_format(journal, stderr_is_terminal)
}

/// Map the backend's installation outcome to the library's result: an
/// occupied process-wide slot is the AlreadyInitialized failure.
pub fn interpret_install(installed: bool) -> (r: Result<(), SetupError>)
    ensures
        installed ==> r == Ok::<(), SetupError>(()),
        !installed ==> r == Err::<(), SetupError>(SetupError::AlreadyInitialized),
{
    if installed {
        Ok(())
    } else {
        Err(SetupError::AlreadyInitialized)
    }
}

/// Configure and install the process-wide logging subscriber.
///
/// The filter is the environment override when it is usable, else
/// `default_level`; an unusable effective filter — not ASCII, or not
/// parsed by the backend — is the InvalidFilter failure, and nothing is
/// installed. Otherwise the output format follows the journal and
/// terminal signals — no timestamps and no color when standard error
/// feeds the journal collector, timestamps with color on an interactive
/// terminal, timestamps without color elsewhere — and the subscriber is
/// installed unless the backend was already claimed, which is the
/// AlreadyInitialized failure.
pub fn setup_logging(
    default_level: &str,
    env_override: Option<&str>,
    journal_hint: Option<&str>,
    stderr_id: Option<(u64, u64)>,
    stderr_is_terminal: bool,
) -> (r: Result<(), SetupError>)
    ensures
        ({
            let eff = spec_effective_filter(default_level@, opt_str_view(env_override));
            &&& (r == Err::<(), SetupError>(SetupError::InvalidFilter) <==> !filter_usable(eff))
            &&& filter_usable(eff) ==> (r == Ok::<(), SetupError>(()) || r == Err::<
                (),
                SetupError,
            >(SetupError::AlreadyInitialized))
        }),
{
    let filter = choose_filter(default_level, env_override);
    if !filter.is_ascii() {
        return Err(SetupError::InvalidFilter);
    }
    if !filter_is_valid(filter) {
        return Err(SetupError::InvalidFilter);
    }
    let mode = plan_format(journal_hint, stderr_id, stderr_is_terminal);
    let installed = match mode {
        FormatMode::Journal => install_without_time(filter, false),
        FormatMode::TimestampedColor => install_timestamped(filter, true, "%Y-%m-%d %H:%M:%S%.6f %z"),
        FormatMode::TimestampedPlain => install_timestamped(
            filter,
            false,
            "%Y-%m-%d %H:%M:%S%.6f %z",
        ),
    };
    interpret_install(installed)
}

} // verus!
