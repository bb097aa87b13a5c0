use node_logger::level::Level;
use node_logger::pipeline::assemble;
use node_logger::writer::{LogWriter, Written};
use tokio::sync::mpsc::error::TryRecvError;

#[test]
fn shown_display_gets_a_sender_and_no_colour() {
    let mut pipeline = assemble(0, false);
    assert_eq!(pipeline.ambient, Level::Info);
    assert!(pipeline.terminal.sender.is_some());
    assert!(!pipeline.terminal.options.ansi);
    assert!(!pipeline.terminal.options.with_target);
    assert!(!pipeline.file.options.ansi);
    assert!(!pipeline.file.options.with_target);
    assert_eq!(pipeline.receiver.max_capacity(), 1024);
    assert_eq!(pipeline.terminal.filter.to_string(), pipeline.file.filter.to_string());
    assert!(pipeline.file.filter.to_string().contains("snarkos_node_narwhal::gateway=debug"));
    let writer = LogWriter::new(&pipeline.terminal.sender);
    assert_eq!(writer.write(b"line\n"), Written::Channel(5));
    assert_eq!(pipeline.receiver.try_recv(), Ok(b"line\n".to_vec()));
}

#[test]
fn suppressed_display_never_feeds_the_receiver() {
    let mut pipeline = assemble(3, true);
    assert_eq!(pipeline.ambient, Level::Trace);
    assert!(pipeline.terminal.sender.is_none());
    assert!(pipeline.terminal.options.with_target);
    assert!(pipeline.file.options.with_target);
    assert!(!pipeline.file.options.ansi);
    assert_eq!(pipeline.receiver.max_capacity(), 1024);
    let writer = LogWriter::new(&pipeline.terminal.sender);
    for _ in 0..2048 {
        assert_eq!(writer.write(b"line\n"), Written::Stdout);
    }
    assert_eq!(pipeline.receiver.try_recv(), Err(TryRecvError::Disconnected));
}

#[test]
fn every_verbosity_assembles() {
    for verbosity in 0..=255u8 {
        for nodisplay in [false, true] {
            let pipeline = assemble(verbosity, nodisplay);
            assert_eq!(pipeline.terminal.sender.is_none(), nodisplay);
            assert_eq!(pipeline.terminal.options.with_target, verbosity > 2);
            assert_eq!(pipeline.file.options.with_target, verbosity > 2);
            assert!(!pipeline.file.options.ansi);
            assert!(nodisplay || !pipeline.terminal.options.ansi);
        }
    }
}
