//! The order of the steps of start-up that only the host can take.
//!
//! Touching the file system and installing the process-wide subscriber are
//! the host's work. What to do next is decided here: the host performs the
//! action of the current stage, reports what came of it, and gets the next
//! stage back. The log file is opened only once its directory is known to
//! exist, a failure on the way is final, and a subscriber that was installed
//! earlier is no failure.

use vstd::prelude::*;
use vstd::string::StringExecFns;

verus! {

/// Why start-up was given up.
#[derive(Clone, Copy, Debug, PartialEq, Eq, Structural)]
pub enum Failure {
    /// The path of the log file has no parent directory.
    NoParent,
    /// The directory of the log file could not be created.
    CreateDirectories,
    /// The log file could not be opened for appending.
    OpenFile,
}

/// How the registration of the subscriber ended. Neither is an error.
#[derive(Clone, Copy, Debug, PartialEq, Eq, Structural)]
pub enum Registration {
    /// The two sinks are the process's subscriber now.
    Installed,
    /// A subscriber was installed earlier and stays in place.
    AlreadyInitialized,
}

/// Where start-up stands.
#[derive(Clone, Copy, Debug, PartialEq, Eq, Structural)]
pub enum Stage {
    /// The directory of the log file has yet to be named.
    ResolvingParent,
    /// It has yet to be seen whether the directory exists.
    CheckingParent,
    /// The directory and its missing ancestors have yet to be created.
    CreatingDirectories,
    /// The directory exists; the log file has yet to be opened.
    OpeningFile,
    /// The log file is open; the subscriber has yet to be registered.
    Registering,
    /// Start-up is done.
    Ready(Registration),
    /// Start-up was given up.
    Failed(Failure),
}

/// What the host reports.
#[derive(Clone, Copy, Debug, PartialEq, Eq, Structural)]
pub enum Event {
    /// Whether the path of the log file has a parent directory.
    ParentResolved { found: bool },
    /// Whether that directory exists.
    ParentChecked { exists: bool },
    /// Whether the directory and its missing ancestors were created.
    DirectoriesCreated { created: bool },
    /// Whether the log file was opened.
    FileOpened { opened: bool },
    /// Whether the subscriber was installed; `false` where another one had
    /// been installed before.
    Registered { installed: bool },
}

/// What the host does next.
#[derive(Clone, Copy, Debug, PartialEq, Eq, Structural)]
pub enum Action {
    /// Name the parent directory of the log file's path.
    ResolveParent,
    /// See whether that directory exists.
    CheckParent,
    /// Create the directory and all its missing ancestors.
    CreateDirectories,
    /// Open the log file for appending, creating it where it is missing and
    /// never truncating it.
    OpenAppend,
    /// Register the two sinks as the process's subscriber.
    Register,
    /// Hand the consuming end of the channel to the caller.
    Finish,
    /// Report the failure to the caller.
    Abort(Failure),
}

/// The stage after `stage` once the host has reported `event`. A report that
/// does not answer the action of the stage changes nothing.
pub open spec fn next(stage: Stage, event: Event) -> Stage {
    match (stage, event) {
        (Stage::ResolvingParent, Event::ParentResolved { found }) => if found {
            Stage::CheckingParent
        } else {
            Stage::Failed(Failure::NoParent)
        },
        (Stage::CheckingParent, Event::ParentChecked { exists }) => if exists {
            Stage::OpeningFile
        } else {
            Stage::CreatingDirectories
        },
        (Stage::CreatingDirectories, Event::DirectoriesCreated { created }) => if created {
            Stage::OpeningFile
        } else {
            Stage::Failed(Failure::CreateDirectories)
        },
        (Stage::OpeningFile, Event::FileOpened { opened }) => if opened {
            Stage::Registering
        } else {
            Stage::Failed(Failure::OpenFile)
        },
        (Stage::Registering, Event::Registered { installed }) => if installed {
            Stage::Ready(Registration::Installed)
        } else {
            Stage::Ready(Registration::AlreadyInitialized)
        },
        _ => stage,
    }
}

/// The stage that start-up reaches from `stage` over `events`, in order.
pub open spec fn run(stage: Stage, events: Seq<Event>) -> Stage
    decreases events.len(),
{
    if events.len() == 0 {
        stage
    } else {
        next(run(stage, events.drop_last()), events.last())
    }
}

/// Whether `event` tells that the directory of the log file exists.
pub open spec fn assures_directory(event: Event) -> bool {
    event == (Event::ParentChecked { exists: true }) || event == (Event::DirectoriesCreated {
        created: true,
    })
}

impl Failure {
    /// The sentence that reports this failure: it names the path, and the
    /// cause where the operating system gave one.
    pub open spec fn spec_message(self, path: Seq<char>, cause: Seq<char>) -> Seq<char> {
        match self {
            Failure::NoParent => "the log file '"@ + path + "' has no parent directory"@,
            Failure::CreateDirectories => "failed to create the directories of '"@ + path + "': "@
                + cause,
            Failure::OpenFile => "failed to open '"@ + path + "' for appending: "@ + cause,
        }
    }

    /// The sentence that reports this failure for the log file at `path`,
    /// with the operating system's `cause`.
    pub fn message(&self, path: &str, cause: &str) -> (message: String)
        ensures
            message@ == self.spec_message(path@, cause@),
    {
        match self {
            Failure::NoParent => {
                let mut message = String::from_str("the log file '");
                message.append(path);
                message.append("' has no parent directory");
                message
            },
            Failure::CreateDirectories => {
                let mut message = String::from_str("failed to create the directories of '");
                message.append(path);
                message.append("': ");
                message.append(cause);
                message
            },
            Failure::OpenFile => {
                let mut message = String::from_str("failed to open '");
                message.append(path);
                message.append("' for appending: ");
                message.append(cause);
                message
            },
        }
    }
}

impl Stage {
    /// What the host does at this stage.
    pub open spec fn spec_action(self) -> Action {
        match self {
            Stage::ResolvingParent => Action::ResolveParent,
            Stage::CheckingParent => Action::CheckParent,
            Stage::CreatingDirectories => Action::CreateDirectories,
            Stage::OpeningFile => Action::OpenAppend,
            Stage::Registering => Action::Register,
            Stage::Ready(_) => Action::Finish,
            Stage::Failed(failure) => Action::Abort(failure),
        }
    }

    /// Whether nothing is left to do.
    pub open spec fn is_final(self) -> bool {
        self is Ready || self is Failed
    }

    /// The stage at which start-up begins.
    pub fn start() -> (stage: Stage)
        ensures
            stage == Stage::ResolvingParent,
    {
        Stage::ResolvingParent
    }

    /// What the host does at this stage.
    pub fn action(&self) -> (action: Action)
        ensures
            action == self.spec_action(),
    {
        match self {
            Stage::ResolvingParent => Action::ResolveParent,
            Stage::CheckingParent => Action::CheckParent,
            Stage::CreatingDirectories => Action::CreateDirectories,
            Stage::OpeningFile => Action::OpenAppend,
            Stage::Registering => Action::Register,
            Stage::Ready(_) => Action::Finish,
            Stage::Failed(failure) => Action::Abort(*failure),
        }
    }

    /// Whether nothing is left to do.
    pub fn finished(&self) -> (done: bool)
        ensures
            done == self.is_final(),
    {
        match self {
            Stage::Ready(_) | Stage::Failed(_) => true,
            _ => false,
        }
    }

    /// The stage after this one once the host has reported `event`.
    pub fn step(self, event: Event) -> (stage: Stage)
        ensures
            stage == next(self, event),
    {
        match (self, event) {
            (Stage::ResolvingParent, Event::ParentResolved { found }) => if found {
                Stage::CheckingParent
            } else {
                Stage::Failed(Failure::NoParent)
            },
            (Stage::CheckingParent, Event::ParentChecked { exists }) => if exists {
                Stage::OpeningFile
            } else {
                Stage::CreatingDirectories
            },
            (Stage::CreatingDirectories, Event::DirectoriesCreated { created }) => if created {
                Stage::OpeningFile
            } else {
                Stage::Failed(Failure::CreateDirectories)
            },
            (Stage::OpeningFile, Event::FileOpened { opened }) => if opened {
                Stage::Registering
            } else {
                Stage::Failed(Failure::OpenFile)
            },
            (Stage::Registering, Event::Registered { installed }) => if installed {
                Stage::Ready(Registration::Installed)
            } else {
                Stage::Ready(Registration::AlreadyInitialized)
            },
            (stage, _) => stage,
        }
    }
}

/// How far start-up has come by `stage`: what lies behind it is never done
/// again.
pub open spec fn progress(stage: Stage) -> nat {
    match stage {
        Stage::ResolvingParent => 0,
        Stage::CheckingParent => 1,
        Stage::CreatingDirectories => 2,
        Stage::OpeningFile => 3,
        Stage::Registering => 4,
        Stage::Ready(_) => 5,
        Stage::Failed(_) => 5,
    }
}

/// A report either leaves the stage as it is or moves start-up forward, so
/// that no action is asked for a second time: the directory is created at
/// most once, and the file is opened at most once.
pub proof fn lemma_stage_only_advances(stage: Stage, event: Event)
    ensures
        next(stage, event) == stage || progress(next(stage, event)) > progress(stage),
{
}

/// Registration cannot fail start-up: whatever the host reports of it, the
/// stage after `Registering` is `Ready`.
pub proof fn lemma_registration_never_fails(installed: bool)
    ensures
        next(Stage::Registering, Event::Registered { installed }) is Ready,
{
}

/// A stage at which nothing is left to do stays as it is, whatever the host
/// reports afterwards.
pub proof fn lemma_final_stage_stays(stage: Stage, events: Seq<Event>)
    requires
        stage.is_final(),
    ensures
        run(stage, events) == stage,
    decreases events.len(),
{
    if events.len() > 0 {
        lemma_final_stage_stays(stage, events.drop_last());
    }
}

/// The file is opened only after its directory is known to exist, and the
/// subscriber is registered only after the file was opened: in every run
/// that has come to open the file, an earlier report assured the directory;
/// in every run that has come further, a report of the opened file follows
/// that one.
pub proof fn lemma_directory_before_file(events: Seq<Event>)
    ensures
        run(Stage::ResolvingParent, events) is OpeningFile ==> exists|j: int|
            0 <= j < events.len() && assures_directory(#[trigger] events[j]),
        run(Stage::ResolvingParent, events) is Registering || run(Stage::ResolvingParent, events)
            is Ready ==> exists|j: int, k: int|
            0 <= j < k < events.len() && assures_directory(#[trigger] events[j])
                && #[trigger] events[k] == (Event::FileOpened { opened: true }),
    decreases events.len(),
{
    if events.len() > 0 {
        let earlier = events.drop_last();
        let before = run(Stage::ResolvingParent, earlier);
        let after = run(Stage::ResolvingParent, events);
        let last = events.len() - 1;
        lemma_directory_before_file(earlier);
        assert(forall|i: int| 0 <= i < earlier.len() ==> earlier[i] == events[i]);
        if after is OpeningFile {
            if before is OpeningFile {
                let j = choose|j: int|
                    0 <= j < earlier.len() && assures_directory(#[trigger] earlier[j]);
                assert(assures_directory(events[j]));
            } else {
                assert(assures_directory(events[last]));
            }
        }
        if after is Registering || after is Ready {
            if before is Registering || before is Ready {
                let (j, k) = choose|j: int, k: int|
                    0 <= j < k < earlier.len() && assures_directory(#[trigger] earlier[j])
                        && #[trigger] earlier[k] == (Event::FileOpened { opened: true });
                assert(assures_directory(events[j]) && events[k] == (Event::FileOpened {
                    opened: true,
                }));
            } else {
                assert(before is OpeningFile);
                let j = choose|j: int|
                    0 <= j < earlier.len() && assures_directory(#[trigger] earlier[j]);
                assert(assures_directory(events[j]) && events[last] == (Event::FileOpened {
                    opened: true,
                }));
            }
        }
    }
}

} // verus!
