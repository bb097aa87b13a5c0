use node_logger::channel::log_channel;
use node_logger::sink::{file_options, probe_terminal_options, terminal_options, SinkOptions};

#[test]
fn colour_needs_a_bare_interactive_terminal() {
    for verbosity in [0u8, 2, 3, 9] {
        let with_target = verbosity > 2;
        assert_eq!(
            terminal_options(verbosity, false, true),
            SinkOptions { ansi: true, with_target }
        );
        assert_eq!(
            terminal_options(verbosity, false, false),
            SinkOptions { ansi: false, with_target }
        );
        assert_eq!(
            terminal_options(verbosity, true, true),
            SinkOptions { ansi: false, with_target }
        );
        assert_eq!(
            terminal_options(verbosity, true, false),
            SinkOptions { ansi: false, with_target }
        );
    }
}

#[test]
fn file_never_has_colour() {
    for verbosity in 0..=255u8 {
        assert_eq!(
            file_options(verbosity),
            SinkOptions { ansi: false, with_target: verbosity > 2 }
        );
    }
}

#[test]
fn terminal_that_feeds_the_channel_has_no_colour() {
    let (sender, _receiver) = log_channel();
    let kept = Some(sender);
    assert_eq!(probe_terminal_options(2, &kept), SinkOptions { ansi: false, with_target: false });
    assert_eq!(probe_terminal_options(3, &kept), SinkOptions { ansi: false, with_target: true });
}

#[test]
fn probing_without_sender_reports_the_target_option() {
    assert!(!probe_terminal_options(0, &None).with_target);
    assert!(probe_terminal_options(4, &None).with_target);
}
