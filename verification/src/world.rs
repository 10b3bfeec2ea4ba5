//! What a selection does to the output path, shown on a model of the file
//! system.
//!
//! The model holds what the source path leads to and what lies at the
//! output path. It carries out each task as a file system does, but for the
//! calls that it is told to refuse: a refused call fails and changes
//! nothing. The runs below hand the tasks of `symlink` and `relink` to the
//! model until the result is there, and the lemmas say what then holds of
//! the output path, whatever was refused.

use vstd::prelude::*;
use crate::relink::{relink_step, LinkError, Progress, Report, Task};
use crate::symlink::{
    create_step,
    remove_step,
    CreateReport,
    CreateTask,
    EntryKind,
    ErrorKind,
    IoFailure,
    RemoveReport,
    RemoveTask,
    Step,
};

verus! {

/// What lies at the output path.
pub enum LinkState {
    /// Nothing.
    Absent,
    /// A symbolic link to `target`, which leads to an entry of the kind
    /// `leads_to`, or nowhere.
    SymlinkToSomething { target: Seq<char>, leads_to: Option<EntryKind> },
    /// An entry that is no symbolic link.
    ExistsNotSymlink { kind: EntryKind },
}

/// The file system as far as a selection reads and changes it.
pub struct World {
    /// The kind of what the source path leads to, where it leads anywhere.
    pub source: Option<EntryKind>,
    /// What lies at the output path.
    pub output: LinkState,
}

/// The failures that the file system answers its next calls with, one
/// place for each call in turn: a failure, or none where the call is
/// carried out. Past the end of the sequence every call is carried out.
pub type Faults = Seq<Option<IoFailure>>;

/// The fault for the next call.
pub open spec fn next_fault(faults: Faults) -> Option<IoFailure> {
    if faults.len() > 0 {
        faults[0]
    } else {
        None
    }
}

/// The faults for the calls after the next.
pub open spec fn later_faults(faults: Faults) -> Faults {
    if faults.len() > 0 {
        faults.drop_first()
    } else {
        faults
    }
}

/// How a run ended: its result, the world after it, and the faults that it
/// has not come to.
pub struct Outcome<E> {
    pub result: Result<(), E>,
    pub after: World,
    pub rest: Faults,
}

impl World {
    /// Following a path never ends at a symbolic link.
    pub open spec fn valid(self) -> bool {
        &&& self.source != Some(EntryKind::Symlink)
        &&& match self.output {
            LinkState::Absent => true,
            LinkState::SymlinkToSomething { leads_to, .. } => leads_to != Some(EntryKind::Symlink),
            LinkState::ExistsNotSymlink { kind } => kind != EntryKind::Symlink,
        }
    }

    /// The kind of what the output path leads to, where it leads anywhere.
    pub open spec fn output_leads_to(self) -> Option<EntryKind> {
        match self.output {
            LinkState::Absent => None,
            LinkState::SymlinkToSomething { leads_to, .. } => leads_to,
            LinkState::ExistsNotSymlink { kind } => Some(kind),
        }
    }

    /// The kind of the entry at the output path itself, where there is one.
    pub open spec fn output_kind(self) -> Option<EntryKind> {
        match self.output {
            LinkState::Absent => None,
            LinkState::SymlinkToSomething { .. } => Some(EntryKind::Symlink),
            LinkState::ExistsNotSymlink { kind } => Some(kind),
        }
    }

    /// The path that the output link leads to, where it leads anywhere.
    pub open spec fn selected(self) -> Option<Seq<char>> {
        match self.output {
            LinkState::SymlinkToSomething { target, leads_to } => if leads_to is Some {
                Some(target)
            } else {
                None
            },
            _ => None,
        }
    }

    /// The world in which the output path holds a link to `target`.
    pub open spec fn linked_to(self, target: Seq<char>) -> World {
        World {
            source: self.source,
            output: LinkState::SymlinkToSomething { target, leads_to: self.source },
        }
    }

    /// The world in which nothing lies at the output path.
    pub open spec fn unlinked(self) -> World {
        World { source: self.source, output: LinkState::Absent }
    }

    /// What reading the kind of an entry answers.
    pub open spec fn probed(kind: Option<EntryKind>, fault: Option<IoFailure>) -> Result<
        EntryKind,
        IoFailure,
    > {
        match (fault, kind) {
            (Some(failure), _) => Err(failure),
            (None, Some(kind)) => Ok(kind),
            (None, None) => Err(IoFailure::NotFound),
        }
    }

    /// The report on a task of `create_symlink`, and the world after it. A
    /// link is created only where nothing lies at the output path.
    pub open spec fn create(self, orig: Seq<char>, task: CreateTask, fault: Option<IoFailure>) -> (
        CreateReport,
        World,
    ) {
        match task {
            CreateTask::ProbeLink => (
                CreateReport::LinkProbed(Self::probed(self.output_leads_to(), fault) is Ok),
                self,
            ),
            CreateTask::ProbeSource => (
                CreateReport::SourceProbed(Self::probed(self.source, fault)),
                self,
            ),
            CreateTask::LinkDir | CreateTask::LinkFile => match fault {
                Some(failure) => (CreateReport::Linked(Err(failure)), self),
                None => if self.output is Absent {
                    (CreateReport::Linked(Ok(())), self.linked_to(orig))
                } else {
                    (CreateReport::Linked(Err(IoFailure::AlreadyExists)), self)
                },
            },
        }
    }

    /// The report on a task of `remove_symlink`, and the world after it. A
    /// removal removes whatever lies at the output path.
    pub open spec fn remove(self, task: RemoveTask, fault: Option<IoFailure>) -> (
        RemoveReport,
        World,
    ) {
        match task {
            RemoveTask::InspectLink => (
                RemoveReport::LinkInspected(Self::probed(self.output_kind(), fault)),
                self,
            ),
            RemoveTask::ProbeTarget => (
                RemoveReport::TargetProbed(Self::probed(self.output_leads_to(), fault)),
                self,
            ),
            RemoveTask::RemoveFile | RemoveTask::RemoveDirAll => match fault {
                Some(failure) => (RemoveReport::Removed(Err(failure)), self),
                None => if self.output is Absent {
                    (RemoveReport::Removed(Err(IoFailure::NotFound)), self)
                } else {
                    (RemoveReport::Removed(Ok(())), self.unlinked())
                },
            },
        }
    }

    /// Creating a link at `link` to `orig`, from the report `last` on, or
    /// nothing where more than `tasks` tasks are asked for.
    pub open spec fn run_create(
        self,
        orig: String,
        link: String,
        last: Option<CreateReport>,
        faults: Faults,
        tasks: nat,
    ) -> Option<Outcome<ErrorKind>>
        decreases tasks,
    {
        match create_step(orig, link, last) {
            Step::Finish(result) => Some(Outcome { result, after: self, rest: faults }),
            Step::Ask(task) => if tasks == 0 {
                None
            } else {
                let (report, next) = self.create(orig@, task, next_fault(faults));
                next.run_create(orig, link, Some(report), later_faults(faults), (tasks - 1) as nat)
            },
        }
    }

    /// Removing the link at `link`, from the report `last` on, or nothing
    /// where more than `tasks` tasks are asked for.
    pub open spec fn run_remove(
        self,
        link: String,
        last: Option<RemoveReport>,
        faults: Faults,
        tasks: nat,
    ) -> Option<Outcome<ErrorKind>>
        decreases tasks,
    {
        match remove_step(link, last) {
            Step::Finish(result) => Some(Outcome { result, after: self, rest: faults }),
            Step::Ask(task) => if tasks == 0 {
                None
            } else {
                let (report, next) = self.remove(task, next_fault(faults));
                next.run_remove(link, Some(report), later_faults(faults), (tasks - 1) as nat)
            },
        }
    }

    /// What reading the kind of the entry at the output path reports.
    pub open spec fn inspect(self, fault: Option<IoFailure>) -> Result<EntryKind, String> {
        match Self::probed(self.output_kind(), fault) {
            Ok(kind) => Ok(kind),
            Err(_) => Err(arbitrary()),
        }
    }

    /// The report on a task of `relink`, with the world and the faults
    /// after it, or nothing where creating or removing the link asks for
    /// more than three tasks.
    pub open spec fn perform(self, orig: String, link: String, task: Task, faults: Faults) -> Option<
        (Report, World, Faults),
    > {
        match task {
            Task::Create => match self.run_create(orig, link, None, faults, 3) {
                Some(outcome) => Some((Report::Created(outcome.result), outcome.after, outcome.rest)),
                None => None,
            },
            Task::Inspect => Some(
                (Report::Inspected(self.inspect(next_fault(faults))), self, later_faults(faults)),
            ),
            Task::Remove => match self.run_remove(link, None, faults, 3) {
                Some(outcome) => Some((Report::Removed(outcome.result), outcome.after, outcome.rest)),
                None => None,
            },
            Task::CreateAgain => match self.run_create(orig, link, None, faults, 3) {
                Some(outcome) => Some(
                    (Report::Recreated(outcome.result), outcome.after, outcome.rest),
                ),
                None => None,
            },
        }
    }

    /// Pointing the output link at `link` to the selected version at `orig`,
    /// from the report `last` on, or nothing where more than `tasks` tasks
    /// are asked for.
    pub open spec fn run_relink(
        self,
        orig: String,
        link: String,
        last: Option<Report>,
        faults: Faults,
        tasks: nat,
    ) -> Option<Outcome<LinkError>>
        decreases tasks,
    {
        match relink_step(last) {
            Progress::Finish(result) => Some(Outcome { result, after: self, rest: faults }),
            Progress::Ask(task) => if tasks == 0 {
                None
            } else {
                match self.perform(orig, link, task, faults) {
                    Some((report, next, rest)) => next.run_relink(
                        orig,
                        link,
                        Some(report),
                        rest,
                        (tasks - 1) as nat,
                    ),
                    None => None,
                }
            },
        }
    }

    /// A whole selection of the version at `orig`, with the output link at
    /// `link`. No selection asks for more than four tasks.
    pub open spec fn select(self, orig: String, link: String, faults: Faults) -> Option<
        Outcome<LinkError>,
    > {
        self.run_relink(orig, link, None, faults, 4)
    }
}

/// Creating a link ends within three tasks. It changes the world in one
/// case only, in which it succeeds: nothing lay at the output path, and now
/// a link to the source lies there.
pub proof fn lemma_create(world: World, orig: String, link: String, faults: Faults)
    ensures
        world.run_create(orig, link, None, faults, 3) matches Some(outcome) && (
        if outcome.result is Ok {
            world.output is Absent && outcome.after == world.linked_to(orig@)
        } else {
            outcome.after == world
        }),
{
    reveal_with_fuel(World::run_create, 4);
}

/// Removing the link ends within three tasks. It changes the world in one
/// case only, in which it succeeds: a symbolic link lay at the output path,
/// and now nothing lies there. What is no symbolic link is never removed.
/// Where the file system refuses nothing, every symbolic link is removed,
/// wherever it leads.
pub proof fn lemma_remove(world: World, link: String, faults: Faults)
    requires
        world.valid(),
    ensures
        world.run_remove(link, None, faults, 3) matches Some(outcome) && (if outcome.result is Ok {
            world.output is SymlinkToSomething && outcome.after == world.unlinked()
        } else {
            outcome.after == world
        }) && (faults.len() == 0 && world.output is SymlinkToSomething ==> outcome.result is Ok),
{
    reveal_with_fuel(World::run_remove, 4);
}

/// A selection ends within four tasks. Where it succeeds, the output path
/// holds a symbolic link to the selected version. Where it fails, the
/// output path holds what it held before, or nothing; and it holds nothing
/// only where it held a symbolic link before.
pub proof fn lemma_select(world: World, orig: String, link: String, faults: Faults)
    requires
        world.valid(),
    ensures
        world.select(orig, link, faults) matches Some(outcome) && (if outcome.result is Ok {
            outcome.after == world.linked_to(orig@)
        } else {
            outcome.after == world || (world.output is SymlinkToSomething && outcome.after
                == world.unlinked())
        }),
{
    reveal_with_fuel(World::run_relink, 5);
    lemma_create(world, orig, link, faults);
    let first = world.run_create(orig, link, None, faults, 3)->Some_0;
    let inspected = later_faults(first.rest);
    lemma_remove(world, link, inspected);
    let removed = world.run_remove(link, None, inspected, 3)->Some_0;
    lemma_create(removed.after, orig, link, removed.rest);
}

/// After a selection that succeeded, the output link leads to the selected
/// version, where that version leads anywhere.
pub proof fn lemma_select_round_trip(world: World, orig: String, link: String, faults: Faults)
    requires
        world.valid(),
        world.select(orig, link, faults) matches Some(outcome) && outcome.result is Ok,
    ensures
        world.select(orig, link, faults) matches Some(outcome) && outcome.after.selected() == Some(
            orig@,
        ),
{
    lemma_select(world, orig, link, faults);
    reveal_with_fuel(World::run_relink, 5);
    reveal_with_fuel(World::run_create, 4);
    reveal_with_fuel(World::run_remove, 4);
}

/// Where the output path holds something that is no symbolic link, a
/// selection fails and leaves the world as it was, whatever the file system
/// refuses; where it refuses nothing, the failure is `UnsafeOverwrite`.
pub proof fn lemma_select_never_overwrites(world: World, orig: String, link: String, faults: Faults)
    requires
        world.valid(),
        world.output is ExistsNotSymlink,
    ensures
        world.select(orig, link, faults) matches Some(outcome) && outcome.result is Err
            && outcome.after == world && (faults.len() == 0 ==> outcome.result == Err::<
            (),
            LinkError,
        >(LinkError::UnsafeOverwrite)),
{
    reveal_with_fuel(World::run_relink, 5);
    lemma_create(world, orig, link, faults);
    if faults.len() == 0 {
        reveal_with_fuel(World::run_create, 4);
    }
}

/// Where the output path holds a symbolic link, wherever that leads, the
/// selected version is a file or a directory, and the file system refuses
/// nothing, a selection succeeds: the old link is gone, and the one link at
/// the output path leads to the selected version.
pub proof fn lemma_select_replaces_link(world: World, orig: String, link: String)
    requires
        world.source == Some(EntryKind::File) || world.source == Some(EntryKind::Dir),
        world.output is SymlinkToSomething,
    ensures
        world.select(orig, link, Seq::empty()) matches Some(outcome) && outcome.result == Ok::<
            (),
            LinkError,
        >(()) && outcome.after == world.linked_to(orig@),
{
    reveal_with_fuel(World::run_relink, 5);
    reveal_with_fuel(World::run_create, 4);
    reveal_with_fuel(World::run_remove, 4);
}

/// Where nothing lies at the output path, the selected version is a file or
/// a directory, and the file system refuses nothing, a selection succeeds.
pub proof fn lemma_select_creates_link(world: World, orig: String, link: String)
    requires
        world.source == Some(EntryKind::File) || world.source == Some(EntryKind::Dir),
        world.output is Absent,
    ensures
        world.select(orig, link, Seq::empty()) matches Some(outcome) && outcome.result == Ok::<
            (),
            LinkError,
        >(()) && outcome.after == world.linked_to(orig@),
{
    reveal_with_fuel(World::run_relink, 5);
    reveal_with_fuel(World::run_create, 4);
}

} // verus!
