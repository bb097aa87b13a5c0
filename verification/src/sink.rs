//! What each of the two sinks is told about formatting.

use crate::resolver::{shows_target, shows_target_at};
use crossterm::tty::IsTty;
use tokio::sync::mpsc::Sender;
use vstd::prelude::*;

verus! {

/// The formatting of one sink.
#[derive(Clone, Copy, Debug, PartialEq, Eq, Structural)]
pub struct SinkOptions {
    /// Whether records carry ANSI colour sequences.
    pub ansi: bool,
    /// Whether records name the module they come from.
    pub with_target: bool,
}

/// The formatting of the terminal sink. Colour is for a person at a
/// terminal: it is on exactly where the writer has no channel to feed and
/// standard output is interactive.
pub open spec fn terminal_options_at(
    verbosity: u8,
    has_sender: bool,
    interactive: bool,
) -> SinkOptions {
    SinkOptions { ansi: !has_sender && interactive, with_target: shows_target_at(verbosity) }
}

/// The formatting of the file sink: never any colour.
pub open spec fn file_options_at(verbosity: u8) -> SinkOptions {
    SinkOptions { ansi: false, with_target: shows_target_at(verbosity) }
}

/// `IsTty::is_tty` of crossterm on `std::io::stdout()`: whether standard
/// output is a terminal. Trusted. The answer is the operating system's, so
/// nothing is claimed of it.
#[verifier::external_body]
fn stdout_is_tty() -> bool {
    std::io::stdout().is_tty()
}

/// The formatting of the terminal sink, from what is known of its writer and
/// of standard output.
pub fn terminal_options(
    verbosity: u8,
    has_sender: bool,
    interactive: bool,
) -> (options: SinkOptions)
    ensures
        options == terminal_options_at(verbosity, has_sender, interactive),
{
    SinkOptions { ansi: !has_sender && interactive, with_target: shows_target(verbosity) }
}

/// The formatting of the file sink.
pub fn file_options(verbosity: u8) -> (options: SinkOptions)
    ensures
        options == file_options_at(verbosity),
{
    SinkOptions { ansi: false, with_target: shows_target(verbosity) }
}

/// The formatting of the terminal sink whose writer keeps `log_sender`.
/// Standard output is asked whether it is a terminal only where there is no
/// sender; with a sender there is no colour, whatever standard output is.
pub fn probe_terminal_options(
    verbosity: u8,
    log_sender: &Option<Sender<Vec<u8>>>,
) -> (options: SinkOptions)
    ensures
        options.with_target == shows_target_at(verbosity),
        options.ansi ==> log_sender is None,
{
    let interactive = log_sender.is_none() && stdout_is_tty();
    terminal_options(verbosity, log_sender.is_some(), interactive)
}

/// No configuration puts colour into the file, and none puts colour on a
/// terminal sink that feeds the channel.
pub proof fn lemma_colour_only_on_bare_terminal(
    verbosity: u8,
    has_sender: bool,
    interactive: bool,
)
    ensures
        !file_options_at(verbosity).ansi,
        terminal_options_at(verbosity, has_sender, interactive).ansi <==> (!has_sender
            && interactive),
        has_sender ==> !terminal_options_at(verbosity, has_sender, interactive).ansi,
{
}

} // verus!
