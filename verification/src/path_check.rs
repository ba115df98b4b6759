//! Deciding whether a directory may be used, as a state machine.
//!
//! A path is valid when it is, or after being asked for can be made, an
//! existing directory that is not read-only, and the secondary runtime then
//! agrees to it. The local checks come first; the secondary runtime is asked
//! only when all of them have passed.

use vstd::prelude::*;
use vstd::string::*;

verus! {

/// The state of one check.
#[derive(Debug, PartialEq, Eq)]
pub enum PathCheck {
    /// The directory is being created, as the caller asked.
    Creating { path: String },
    /// The path is being looked at.
    Inspecting { path: String },
    /// The secondary runtime is being asked.
    Consulting { path: String },
    /// The check is over.
    Decided { valid: bool },
}

/// The mathematical value of a [`PathCheck`].
pub enum PathCheckView {
    Creating { path: Seq<char> },
    Inspecting { path: Seq<char> },
    Consulting { path: Seq<char> },
    Decided { valid: bool },
}

impl View for PathCheck {
    type V = PathCheckView;

    open spec fn view(&self) -> PathCheckView {
        match self {
            PathCheck::Creating { path } => PathCheckView::Creating { path: path@ },
            PathCheck::Inspecting { path } => PathCheckView::Inspecting { path: path@ },
            PathCheck::Consulting { path } => PathCheckView::Consulting { path: path@ },
            PathCheck::Decided { valid } => PathCheckView::Decided { valid: *valid },
        }
    }
}

/// What came of the thing the check had asked for.
#[derive(Clone, Copy, Debug, PartialEq, Eq, Structural)]
pub enum PathEvent {
    /// The directory and its parents exist now.
    Created,
    /// The directory could not be created.
    CreationFailed,
    /// The path exists; whether it is a directory, and whether it is
    /// read-only.
    Inspected { is_dir: bool, readonly: bool },
    /// Nothing could be learnt about the path.
    InspectionFailed,
    /// The byte that the secondary runtime returned.
    Answered { flag: u8 },
}

/// What the check asks for next.
#[derive(Debug, PartialEq, Eq)]
pub enum PathAction<'a> {
    /// Create the directory and its parents; report `Created` or
    /// `CreationFailed`.
    CreateDirectory { path: &'a str },
    /// Look the path up; report `Inspected` or `InspectionFailed`.
    Inspect { path: &'a str },
    /// Call `IsPathValid` for the path; report `Answered`.
    AskRuntime { path: &'a str },
    /// The check is over, with this verdict.
    Conclude { valid: bool },
}

/// The mathematical value of a [`PathAction`].
pub enum PathActionView {
    CreateDirectory { path: Seq<char> },
    Inspect { path: Seq<char> },
    AskRuntime { path: Seq<char> },
    Conclude { valid: bool },
}

impl<'a> View for PathAction<'a> {
    type V = PathActionView;

    open spec fn view(&self) -> PathActionView {
        match self {
            PathAction::CreateDirectory { path } => PathActionView::CreateDirectory { path: path@ },
            PathAction::Inspect { path } => PathActionView::Inspect { path: path@ },
            PathAction::AskRuntime { path } => PathActionView::AskRuntime { path: path@ },
            PathAction::Conclude { valid } => PathActionView::Conclude { valid: *valid },
        }
    }
}

/// The state in which a check of `path` starts.
pub open spec fn spec_check_path_validity(path: Seq<char>, create: bool) -> PathCheckView {
    if create {
        PathCheckView::Creating { path }
    } else {
        PathCheckView::Inspecting { path }
    }
}

impl PathCheckView {
    /// What the check asks for in this state.
    pub open spec fn pending(self) -> PathActionView {
        match self {
            PathCheckView::Creating { path } => PathActionView::CreateDirectory { path },
            PathCheckView::Inspecting { path } => PathActionView::Inspect { path },
            PathCheckView::Consulting { path } => PathActionView::AskRuntime { path },
            PathCheckView::Decided { valid } => PathActionView::Conclude { valid },
        }
    }

    /// The state that follows when `event` arrives. The first local failure
    /// decides against the path, and so does an event that was not asked for.
    pub open spec fn step(self, event: PathEvent) -> PathCheckView {
        match self {
            PathCheckView::Creating { path } => match event {
                PathEvent::Created => PathCheckView::Inspecting { path },
                _ => PathCheckView::Decided { valid: false },
            },
            PathCheckView::Inspecting { path } => match event {
                PathEvent::Inspected { is_dir, readonly } => if is_dir && !readonly {
                    PathCheckView::Consulting { path }
                } else {
                    PathCheckView::Decided { valid: false }
                },
                _ => PathCheckView::Decided { valid: false },
            },
            PathCheckView::Consulting { path } => match event {
                PathEvent::Answered { flag } => PathCheckView::Decided { valid: flag != 0 },
                _ => PathCheckView::Decided { valid: false },
            },
            PathCheckView::Decided { .. } => self,
        }
    }
}

/// Starts the check of `path`. With `create`, the directory is created first
/// if it can be.
pub fn check_path_validity(path: &str, create: bool) -> (state: PathCheck)
    ensures
        state@ == spec_check_path_validity(path@, create),
{
    if create {
        PathCheck::Creating { path: String::from_str(path) }
    } else {
        PathCheck::Inspecting { path: String::from_str(path) }
    }
}

impl PathCheck {
    /// What the check asks for in this state.
    pub fn pending(&self) -> (action: PathAction<'_>)
        ensures
            action@ == self@.pending(),
    {
        match self {
            PathCheck::Creating { path } => PathAction::CreateDirectory { path: path.as_str() },
            PathCheck::Inspecting { path } => PathAction::Inspect { path: path.as_str() },
            PathCheck::Consulting { path } => PathAction::AskRuntime { path: path.as_str() },
            PathCheck::Decided { valid } => PathAction::Conclude { valid: *valid },
        }
    }

    /// Takes the outcome of what was asked for and moves on.
    pub fn step(self, event: PathEvent) -> (next: PathCheck)
        ensures
            next@ == self@.step(event),
    {
        match self {
            PathCheck::Creating { path } => match event {
                PathEvent::Created => PathCheck::Inspecting { path },
                _ => PathCheck::Decided { valid: false },
            },
            PathCheck::Inspecting { path } => match event {
                PathEvent::Inspected { is_dir, readonly } => if is_dir && !readonly {
                    PathCheck::Consulting { path }
                } else {
                    PathCheck::Decided { valid: false }
                },
                _ => PathCheck::Decided { valid: false },
            },
            PathCheck::Consulting { path } => match event {
                PathEvent::Answered { flag } => PathCheck::Decided { valid: flag != 0 },
                _ => PathCheck::Decided { valid: false },
            },
            PathCheck::Decided { valid } => PathCheck::Decided { valid },
        }
    }
}

/// The state that `start` is in after `events` have arrived in order.
pub open spec fn run(start: PathCheckView, events: Seq<PathEvent>) -> PathCheckView
    decreases events.len(),
{
    if events.len() == 0 {
        start
    } else {
        run(start, events.drop_last()).step(events.last())
    }
}

/// The events begin with the local checks passing: the directory created,
/// where `create` asked for that, and then seen to be a directory that is not
/// read-only.
pub open spec fn passed_local_checks(events: Seq<PathEvent>, create: bool) -> bool {
    let inspected = PathEvent::Inspected { is_dir: true, readonly: false };
    if create {
        events.len() >= 2 && events[0] == PathEvent::Created && events[1] == inspected
    } else {
        events.len() >= 1 && events[0] == inspected
    }
}

/// A verdict stands: once the check is decided, no event changes it.
pub proof fn lemma_verdict_stands(state: PathCheckView, event: PathEvent)
    requires
        state is Decided,
    ensures
        state.step(event) == state,
{
}

/// The check short-circuits: the secondary runtime is asked, or the path
/// found valid, only after the directory was created where that was asked
/// for, and then seen to be a directory that is not read-only. After any
/// local failure neither happens.
pub proof fn lemma_runtime_asked_only_after_local_checks(
    path: Seq<char>,
    create: bool,
    events: Seq<PathEvent>,
)
    requires
        ({
            let end = run(spec_check_path_validity(path, create), events);
            end is Consulting || end == (PathCheckView::Decided { valid: true })
        }),
    ensures
        passed_local_checks(events, create),
        run(spec_check_path_validity(path, create), events) is Decided ==> exists|i: int|
            0 <= i < events.len() && (#[trigger] events[i] matches PathEvent::Answered { flag }
                && flag != 0),
    decreases events.len(),
{
    let start = spec_check_path_validity(path, create);
    if events.len() > 0 {
        let before = run(start, events.drop_last());
        let end = run(start, events);
        assert(end == before.step(events.last()));
        if before is Consulting || before == (PathCheckView::Decided { valid: true }) {
            lemma_runtime_asked_only_after_local_checks(path, create, events.drop_last());
            if before is Decided {
                let i = choose|i: int|
                    0 <= i < events.drop_last().len() && (
                    #[trigger] events.drop_last()[i] matches PathEvent::Answered { flag } && flag
                        != 0);
                assert(events[i] == events.drop_last()[i]);
            }
            assert(events[0] == events.drop_last()[0]);
            if create {
                assert(events[1] == events.drop_last()[1]);
            }
        } else {
            // The last event is the inspection that let the check through.
            lemma_inspecting_history(path, create, events.drop_last());
            if create {
                assert(events[0] == events.drop_last()[0]);
            }
        }
    }
}

/// A check that is looking at the path has seen nothing yet but, where it was
/// asked to create the directory, that this was done.
proof fn lemma_inspecting_history(path: Seq<char>, create: bool, events: Seq<PathEvent>)
    requires
        run(spec_check_path_validity(path, create), events) is Inspecting,
    ensures
        create ==> events.len() == 1 && events[0] == PathEvent::Created,
        !create ==> events.len() == 0,
    decreases events.len(),
{
    let start = spec_check_path_validity(path, create);
    if events.len() > 0 {
        let before = run(start, events.drop_last());
        lemma_creating_history(path, create, events.drop_last());
    }
}

/// A check that is creating the directory has just started.
proof fn lemma_creating_history(path: Seq<char>, create: bool, events: Seq<PathEvent>)
    requires
        run(spec_check_path_validity(path, create), events) is Creating,
    ensures
        create,
        events.len() == 0,
{
    let start = spec_check_path_validity(path, create);
    if events.len() > 0 {
        let before = run(start, events.drop_last());
        assert(run(start, events) == before.step(events.last()));
    }
}

} // verus!
