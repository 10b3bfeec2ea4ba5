//! Creating and removing a symbolic link, as decisions over what the file
//! system answers.
//!
//! Nothing here touches the file system. Each of the two operations is a
//! function from the last report of the caller to the next task for the
//! caller, or to the result. The caller starts with no report, carries out
//! each task it is given on the file system, reports what came of it, and
//! stops at the result.

use vstd::prelude::*;

verus! {

/// Why a link could not be created or removed.
#[derive(Debug, PartialEq, Eq)]
pub enum ErrorKind {
    /// Nothing lies at this path.
    PathDoesNotExist(String),
    /// What lies at this path is not a symbolic link.
    PathNotSymlink(String),
    /// Something already lies at this path.
    PathAlreadyExists(String),
    /// The file system refused access.
    PermisionError,
    /// This path was to be linked to, and what it leads to is neither a file
    /// nor a directory.
    UnsupportedTarget(String),
}

/// The kind of a directory entry. The four kinds exclude each other.
#[derive(Clone, Copy, Debug, PartialEq, Eq, Structural)]
pub enum EntryKind {
    Dir,
    File,
    Symlink,
    Other,
}

/// The failures of a file system call that have a diagnostic of their own.
#[derive(Clone, Copy, Debug, PartialEq, Eq, Structural)]
pub enum IoFailure {
    NotFound,
    PermissionDenied,
    AlreadyExists,
}

/// What the caller is to do next while a link is created.
#[derive(Clone, Copy, Debug, PartialEq, Eq, Structural)]
pub enum CreateTask {
    /// Follow the link path and see whether it leads to anything.
    ProbeLink,
    /// Follow the source path and read the kind of what it leads to.
    ProbeSource,
    /// Create a link to a directory.
    LinkDir,
    /// Create a link to a file.
    LinkFile,
}

/// What came of a task of `create_symlink`.
#[derive(Clone, Copy, Debug, PartialEq, Eq)]
pub enum CreateReport {
    /// Whether the link path leads to anything.
    LinkProbed(bool),
    /// The kind of what the source path leads to, or why it was not read.
    SourceProbed(Result<EntryKind, IoFailure>),
    /// Whether the link was created.
    Linked(Result<(), IoFailure>),
}

/// What the caller is to do next while a link is removed.
#[derive(Clone, Copy, Debug, PartialEq, Eq, Structural)]
pub enum RemoveTask {
    /// Read the kind of the entry at the link path itself.
    InspectLink,
    /// Follow the link and read the kind of what it leads to.
    ProbeTarget,
    /// Remove the link as a file. This is the removal for every link that
    /// does not lead to a directory.
    RemoveFile,
    /// Remove the link as a directory.
    RemoveDirAll,
}

/// What came of a task of `remove_symlink`.
#[derive(Clone, Copy, Debug, PartialEq, Eq)]
pub enum RemoveReport {
    /// The kind of the entry at the link path, or why it was not read.
    LinkInspected(Result<EntryKind, IoFailure>),
    /// The kind of what the link leads to, or why it was not read.
    TargetProbed(Result<EntryKind, IoFailure>),
    /// Whether the link was removed.
    Removed(Result<(), IoFailure>),
}

/// The next task, or the result of the whole operation.
#[derive(Debug, PartialEq, Eq)]
pub enum Step<Task> {
    Ask(Task),
    Finish(Result<(), ErrorKind>),
}

/// The error for a failed file system call: `missing` is the path that a
/// `NotFound` is about, `present` the one that an `AlreadyExists` is about.
pub open spec fn failure_error(failure: IoFailure, missing: String, present: String) -> ErrorKind {
    match failure {
        IoFailure::NotFound => ErrorKind::PathDoesNotExist(missing),
        IoFailure::PermissionDenied => ErrorKind::PermisionError,
        IoFailure::AlreadyExists => ErrorKind::PathAlreadyExists(present),
    }
}

/// How a link at `link` to `orig` is created.
///
/// A link path that already leads somewhere is left alone. The source must
/// lead to a directory or a file, and the link is of the same kind.
pub open spec fn create_step(orig: String, link: String, last: Option<CreateReport>) -> Step<
    CreateTask,
> {
    match last {
        None => Step::Ask(CreateTask::ProbeLink),
        Some(CreateReport::LinkProbed(found)) => if found {
            Step::Finish(Err(ErrorKind::PathAlreadyExists(link)))
        } else {
            Step::Ask(CreateTask::ProbeSource)
        },
        Some(CreateReport::SourceProbed(Ok(kind))) => match kind {
            EntryKind::Dir => Step::Ask(CreateTask::LinkDir),
            EntryKind::File => Step::Ask(CreateTask::LinkFile),
            _ => Step::Finish(Err(ErrorKind::UnsupportedTarget(orig))),
        },
        Some(CreateReport::SourceProbed(Err(failure))) => Step::Finish(
            Err(failure_error(failure, orig, orig)),
        ),
        Some(CreateReport::Linked(Ok(()))) => Step::Finish(Ok(())),
        Some(CreateReport::Linked(Err(failure))) => Step::Finish(
            Err(failure_error(failure, orig, link)),
        ),
    }
}

/// How the link at `link` is removed.
///
/// Only a symbolic link is ever removed. What it leads to decides how, not
/// whether: a link to a directory is removed as a directory, and every
/// other link as a file, also one that leads nowhere. The removal is given
/// up only where the file system does not let the link be followed.
pub open spec fn remove_step(link: String, last: Option<RemoveReport>) -> Step<RemoveTask> {
    match last {
        None => Step::Ask(RemoveTask::InspectLink),
        Some(RemoveReport::LinkInspected(Ok(kind))) => match kind {
            EntryKind::Symlink => Step::Ask(RemoveTask::ProbeTarget),
            _ => Step::Finish(Err(ErrorKind::PathNotSymlink(link))),
        },
        Some(RemoveReport::LinkInspected(Err(failure))) => Step::Finish(
            Err(failure_error(failure, link, link)),
        ),
        Some(RemoveReport::TargetProbed(Ok(kind))) => match kind {
            EntryKind::Dir => Step::Ask(RemoveTask::RemoveDirAll),
            _ => Step::Ask(RemoveTask::RemoveFile),
        },
        Some(RemoveReport::TargetProbed(Err(failure))) => match failure {
            IoFailure::NotFound => Step::Ask(RemoveTask::RemoveFile),
            _ => Step::Finish(Err(failure_error(failure, link, link))),
        },
        Some(RemoveReport::Removed(Ok(()))) => Step::Finish(Ok(())),
        Some(RemoveReport::Removed(Err(failure))) => Step::Finish(
            Err(failure_error(failure, link, link)),
        ),
    }
}

fn error_for(failure: IoFailure, missing: &String, present: &String) -> (error: ErrorKind)
    ensures
        error == failure_error(failure, *missing, *present),
{
    match failure {
        IoFailure::NotFound => ErrorKind::PathDoesNotExist(missing.clone()),
        IoFailure::PermissionDenied => ErrorKind::PermisionError,
        IoFailure::AlreadyExists => ErrorKind::PathAlreadyExists(present.clone()),
    }
}

/// One step of creating a link at `link` to `orig`: the first task where
/// `last` is `None`, and else what follows the report.
pub fn create_symlink(orig: &String, link: &String, last: Option<CreateReport>) -> (step: Step<
    CreateTask,
>)
    ensures
        step == create_step(*orig, *link, last),
{
    match last {
        None => Step::Ask(CreateTask::ProbeLink),
        Some(CreateReport::LinkProbed(found)) => {
            if found {
                Step::Finish(Err(ErrorKind::PathAlreadyExists(link.clone())))
            } else {
                Step::Ask(CreateTask::ProbeSource)
            }
        },
        Some(CreateReport::SourceProbed(Ok(kind))) => match kind {
            EntryKind::Dir => Step::Ask(CreateTask::LinkDir),
            EntryKind::File => Step::Ask(CreateTask::LinkFile),
            _ => Step::Finish(Err(ErrorKind::UnsupportedTarget(orig.clone()))),
        },
        Some(CreateReport::SourceProbed(Err(failure))) => Step::Finish(
            Err(error_for(failure, orig, orig)),
        ),
        Some(CreateReport::Linked(Ok(()))) => Step::Finish(Ok(())),
        Some(CreateReport::Linked(Err(failure))) => Step::Finish(
            Err(error_for(failure, orig, link)),
        ),
    }
}

/// One step of removing the link at `link`: the first task where `last` is
/// `None`, and else what follows the report.
pub fn remove_symlink(link: &String, last: Option<RemoveReport>) -> (step: Step<RemoveTask>)
    ensures
        step == remove_step(*link, last),
{
    match last {
        None => Step::Ask(RemoveTask::InspectLink),
        Some(RemoveReport::LinkInspected(Ok(kind))) => match kind {
            EntryKind::Symlink => Step::Ask(RemoveTask::ProbeTarget),
            _ => Step::Finish(Err(ErrorKind::PathNotSymlink(link.clone()))),
        },
        Some(RemoveReport::LinkInspected(Err(failure))) => Step::Finish(
            Err(error_for(failure, link, link)),
        ),
        Some(RemoveReport::TargetProbed(Ok(kind))) => match kind {
            EntryKind::Dir => Step::Ask(RemoveTask::RemoveDirAll),
            _ => Step::Ask(RemoveTask::RemoveFile),
        },
        Some(RemoveReport::TargetProbed(Err(failure))) => match failure {
            IoFailure::NotFound => Step::Ask(RemoveTask::RemoveFile),
            _ => Step::Finish(Err(error_for(failure, link, link))),
        },
        Some(RemoveReport::Removed(Ok(()))) => Step::Finish(Ok(())),
        Some(RemoveReport::Removed(Err(failure))) => Step::Finish(
            Err(error_for(failure, link, link)),
        ),
    }
}

impl ErrorKind {
    /// The text of the diagnostic for this error.
    pub open spec fn message_text(self) -> Seq<char> {
        match self {
            ErrorKind::PathDoesNotExist(path) => "path `"@ + path@ + "` does not exist"@,
            ErrorKind::PathNotSymlink(path) => "path `"@ + path@ + "` is not a symlink"@,
            ErrorKind::PathAlreadyExists(path) => "path `"@ + path@ + "` already exists"@,
            ErrorKind::PermisionError => "permision error"@,
            ErrorKind::UnsupportedTarget(path) => "path `"@ + path@
                + "` is neither a file nor a directory"@,
        }
    }

    /// The diagnostic for this error, for a person to read.
    pub fn message(&self) -> (text: String)
        ensures
            text@ == self.message_text(),
    {
        match self {
            ErrorKind::PathDoesNotExist(path) => String::from_str("path `").concat(
                path.as_str(),
            ).concat("` does not exist"),
            ErrorKind::PathNotSymlink(path) => String::from_str("path `").concat(
                path.as_str(),
            ).concat("` is not a symlink"),
            ErrorKind::PathAlreadyExists(path) => String::from_str("path `").concat(
                path.as_str(),
            ).concat("` already exists"),
            ErrorKind::PermisionError => String::from_str("permision error"),
            ErrorKind::UnsupportedTarget(path) => String::from_str("path `").concat(
                path.as_str(),
            ).concat("` is neither a file nor a directory"),
        }
    }
}

} // verus!
