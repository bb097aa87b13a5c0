use node_logger::startup::{Action, Event, Failure, Registration, Stage};

fn run(events: &[Event]) -> Stage {
    let mut stage = Stage::start();
    for event in events {
        stage = stage.step(*event);
    }
    stage
}

#[test]
fn existing_directory_goes_straight_to_the_file() {
    let mut stage = Stage::start();
    assert_eq!(stage.action(), Action::ResolveParent);
    stage = stage.step(Event::ParentResolved { found: true });
    assert_eq!(stage.action(), Action::CheckParent);
    stage = stage.step(Event::ParentChecked { exists: true });
    assert_eq!(stage.action(), Action::OpenAppend);
    stage = stage.step(Event::FileOpened { opened: true });
    assert_eq!(stage.action(), Action::Register);
    assert!(!stage.finished());
    stage = stage.step(Event::Registered { installed: true });
    assert_eq!(stage, Stage::Ready(Registration::Installed));
    assert_eq!(stage.action(), Action::Finish);
    assert!(stage.finished());
}

#[test]
fn missing_directory_is_created_before_the_file_is_opened() {
    let mut stage = run(&[
        Event::ParentResolved { found: true },
        Event::ParentChecked { exists: false },
    ]);
    assert_eq!(stage, Stage::CreatingDirectories);
    assert_eq!(stage.action(), Action::CreateDirectories);
    stage = stage.step(Event::DirectoriesCreated { created: true });
    assert_eq!(stage, Stage::OpeningFile);
    assert_eq!(stage.action(), Action::OpenAppend);
}

#[test]
fn second_initialization_is_a_silent_success() {
    let stage = run(&[
        Event::ParentResolved { found: true },
        Event::ParentChecked { exists: true },
        Event::FileOpened { opened: true },
        Event::Registered { installed: false },
    ]);
    assert_eq!(stage, Stage::Ready(Registration::AlreadyInitialized));
    assert_eq!(stage.action(), Action::Finish);
}

#[test]
fn path_without_parent_fails() {
    let stage = run(&[Event::ParentResolved { found: false }]);
    assert_eq!(stage, Stage::Failed(Failure::NoParent));
    assert_eq!(stage.action(), Action::Abort(Failure::NoParent));
    assert!(stage.finished());
}

#[test]
fn directory_that_cannot_be_created_fails() {
    let stage = run(&[
        Event::ParentResolved { found: true },
        Event::ParentChecked { exists: false },
        Event::DirectoriesCreated { created: false },
    ]);
    assert_eq!(stage, Stage::Failed(Failure::CreateDirectories));
    assert_eq!(stage.action(), Action::Abort(Failure::CreateDirectories));
}

#[test]
fn file_that_cannot_be_opened_fails() {
    let stage = run(&[
        Event::ParentResolved { found: true },
        Event::ParentChecked { exists: true },
        Event::FileOpened { opened: false },
    ]);
    assert_eq!(stage, Stage::Failed(Failure::OpenFile));
    assert_eq!(stage.action(), Action::Abort(Failure::OpenFile));
}

#[test]
fn failure_is_final() {
    let failed = Stage::Failed(Failure::OpenFile);
    let all = [
        Event::ParentResolved { found: true },
        Event::ParentChecked { exists: true },
        Event::DirectoriesCreated { created: true },
        Event::FileOpened { opened: true },
        Event::Registered { installed: true },
    ];
    for event in all {
        assert_eq!(failed.step(event), failed);
        let ready = Stage::Ready(Registration::Installed);
        assert_eq!(ready.step(event), ready);
    }
}

#[test]
fn report_out_of_turn_changes_nothing() {
    assert_eq!(Stage::start().step(Event::FileOpened { opened: true }), Stage::ResolvingParent);
    assert_eq!(
        Stage::CheckingParent.step(Event::DirectoriesCreated { created: true }),
        Stage::CheckingParent
    );
    assert_eq!(Stage::OpeningFile.step(Event::Registered { installed: true }), Stage::OpeningFile);
    assert_eq!(Stage::Registering.step(Event::FileOpened { opened: false }), Stage::Registering);
}

#[test]
fn failure_messages_name_path_and_cause() {
    assert_eq!(
        Failure::NoParent.message("/", "ignored"),
        "the log file '/' has no parent directory"
    );
    assert_eq!(
        Failure::CreateDirectories.message("/var/log/node/node.log", "Permission denied"),
        "failed to create the directories of '/var/log/node/node.log': Permission denied"
    );
    assert_eq!(
        Failure::OpenFile.message("logs/node.log", "Is a directory (os error 21)"),
        "failed to open 'logs/node.log' for appending: Is a directory (os error 21)"
    );
}
