//! The writer behind the terminal sink.
//!
//! A record goes to the display channel where there is one, and to standard
//! output where the display is suppressed. Offering a record to the channel
//! never waits: where the channel is full the record is dropped, and the
//! emitting thread goes on.

use crate::channel::{clone_sender, kept_sender, sender_bound, try_send, Delivery};
use tokio::sync::mpsc::Sender;
use vstd::prelude::*;
use vstd::slice::slice_to_vec;

verus! {

/// Where the terminal sink writes.
pub enum LogWriter {
    /// To standard output.
    Stdout,
    /// To the display channel.
    Sender(Sender<Vec<u8>>),
}

/// What a write came to.
#[derive(Clone, Copy, Debug, PartialEq, Eq, Structural)]
pub enum Written {
    /// The record belongs on standard output: the caller writes it there.
    Stdout,
    /// The record was offered to the channel. The whole of it counts as
    /// written, whether the channel took it or not.
    Channel(usize),
}

/// Whether `writer` is what [`LogWriter::new`] makes of `log_sender`.
pub open spec fn writer_for(log_sender: Option<Sender<Vec<u8>>>, writer: LogWriter) -> bool {
    match log_sender {
        None => writer is Stdout,
        Some(sender) => writer matches LogWriter::Sender(own) && sender_bound(own) == sender_bound(
            sender,
        ),
    }
}

impl LogWriter {
    /// What a write of `record` comes to.
    pub open spec fn outcome(self, record: Seq<u8>) -> Written {
        match self {
            LogWriter::Stdout => Written::Stdout,
            LogWriter::Sender(_) => Written::Channel(record.len() as usize),
        }
    }

    /// A writer to a handle of its own on the channel of `log_sender`, or to
    /// standard output where there is no sender.
    pub fn new(log_sender: &Option<Sender<Vec<u8>>>) -> (writer: LogWriter)
        ensures
            writer_for(*log_sender, writer),
    {
        match log_sender {
            Some(sender) => LogWriter::Sender(clone_sender(sender)),
            None => LogWriter::Stdout,
        }
    }

    /// Writes one record. To the channel it is offered as a copy of `buf`,
    /// without waiting; a record that the channel does not take is dropped
    /// and nothing is reported.
    pub fn write(&self, buf: &[u8]) -> (written: Written)
        ensures
            written == self.outcome(buf@),
    {
        match self {
            LogWriter::Stdout => Written::Stdout,
            LogWriter::Sender(sender) => {
                let record = slice_to_vec(buf);
                let delivery = try_send(sender, record);
                settle(delivery, buf.len())
            },
        }
    }
}

/// What the writer reports of a record of `len` bytes once the channel has
/// answered: all of it written, whatever the answer. A full or closed channel
/// is no error of the writer.
pub fn settle(delivery: Delivery, len: usize) -> (written: Written)
    ensures
        written == Written::Channel(len),
{
    match delivery {
        Delivery::Queued | Delivery::Full | Delivery::Closed => Written::Channel(len),
    }
}

/// Where the display is suppressed no record goes to the channel: the writer
/// that is made of the kept sender hands every record to standard output.
pub proof fn lemma_suppressed_display_bypasses_channel(
    sender: Sender<Vec<u8>>,
    writer: LogWriter,
    record: Seq<u8>,
)
    requires
        writer_for(kept_sender(true, sender), writer),
    ensures
        writer.outcome(record) == Written::Stdout,
{
}

/// Where the display is shown every record is offered to the channel, and
/// the whole record counts as written.
pub proof fn lemma_shown_display_feeds_channel(
    sender: Sender<Vec<u8>>,
    writer: LogWriter,
    record: Seq<u8>,
)
    requires
        writer_for(kept_sender(false, sender), writer),
    ensures
        writer.outcome(record) == Written::Channel(record.len() as usize),
{
}

} // verus!
