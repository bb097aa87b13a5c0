//! The two sinks and the channel, put together for one verbosity.

use crate::channel::{log_channel, receiver_bound, select_sender, sender_bound, CHANNEL_CAPACITY};
use crate::filter::{build_pair, filter_levels, rules_of};
use crate::level::Level;
use crate::resolver::{global_level, global_level_at, resolve, resolved, shows_target_at};
use crate::sink::{file_options, file_options_at, probe_terminal_options, SinkOptions};
use tokio::sync::mpsc::{Receiver, Sender};
use tracing_subscriber::EnvFilter;
use vstd::prelude::*;

verus! {

/// The sink that a person or the display reads.
pub struct TerminalSink {
    /// The filter of this sink alone.
    pub filter: EnvFilter,
    /// The formatting of its records.
    pub options: SinkOptions,
    /// The sender that its writers feed: none where the display is
    /// suppressed, and the writers then write to standard output.
    pub sender: Option<Sender<Vec<u8>>>,
}

/// The sink that appends to the log file.
pub struct FileSink {
    /// The filter of this sink alone.
    pub filter: EnvFilter,
    /// The formatting of its records.
    pub options: SinkOptions,
}

/// All that the host needs to register the subscriber.
pub struct Pipeline {
    /// The level that the process announces as its own.
    pub ambient: Level,
    /// The sink that a person or the display reads.
    pub terminal: TerminalSink,
    /// The sink that appends to the log file.
    pub file: FileSink,
    /// The consuming end of the display channel, for the caller to drain.
    pub receiver: Receiver<Vec<u8>>,
}

impl Pipeline {
    /// Whether this pipeline is the one of `verbosity` and `nodisplay`: both
    /// filters hold the directives of the verbosity, the channel holds
    /// [`CHANNEL_CAPACITY`] records, the terminal sink keeps a sender exactly
    /// where the display is shown, colour is off wherever a sender is kept
    /// and always in the file, and both sinks name the module of a record
    /// from verbosity 3 on.
    pub open spec fn assembled_for(self, verbosity: u8, nodisplay: bool) -> bool {
        &&& self.ambient == global_level_at(verbosity)
        &&& filter_levels(self.terminal.filter) == rules_of(resolved(verbosity))
        &&& filter_levels(self.file.filter) == rules_of(resolved(verbosity))
        &&& receiver_bound(self.receiver) == CHANNEL_CAPACITY
        &&& self.terminal.sender is None <==> nodisplay
        &&& self.terminal.sender matches Some(sender) ==> sender_bound(sender) == CHANNEL_CAPACITY
        &&& self.terminal.options.with_target == shows_target_at(verbosity)
        &&& self.terminal.options.ansi ==> nodisplay
        &&& self.file.options == file_options_at(verbosity)
    }
}

/// Puts the pipeline of `verbosity` together: resolves the directives,
/// compiles them once for each sink, makes the channel, and keeps its sender
/// for the terminal writer unless the display is suppressed. The consuming
/// end is part of the result either way.
pub fn assemble(verbosity: u8, nodisplay: bool) -> (pipeline: Pipeline)
    ensures
        pipeline.assembled_for(verbosity, nodisplay),
{
    let set = resolve(verbosity);
    let (terminal_filter, file_filter) = build_pair(&set);
    let (sender, receiver) = log_channel();
    let log_sender = select_sender(nodisplay, sender);
    let terminal_options = probe_terminal_options(verbosity, &log_sender);
    Pipeline {
        ambient: global_level(verbosity),
        terminal: TerminalSink {
            filter: terminal_filter,
            options: terminal_options,
            sender: log_sender,
        },
        file: FileSink { filter: file_filter, options: file_options(verbosity) },
        receiver,
    }
}

} // verus!
