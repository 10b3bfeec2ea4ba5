//! Pointing the output link at the selected version.
//!
//! The link is first created as if nothing lay at the output path. Only
//! where that fails because something is there is the path inspected: a
//! symbolic link is removed and created anew, anything else is left alone.
//! As in `symlink`, nothing here touches the file system: `relink` maps the
//! caller's last report to its next task, or to the result.
//!
//! The old link is removed before the new one is created. Where the new one
//! cannot be created then, the output path is left empty. Two selections at
//! the same time are not kept apart: the one that writes last wins.

use vstd::prelude::*;
use crate::symlink::{EntryKind, ErrorKind};

verus! {

/// What the caller is to do next.
#[derive(Clone, Copy, Debug, PartialEq, Eq, Structural)]
pub enum Task {
    /// Create the link to the selected version at the output path.
    Create,
    /// Read the kind of the entry at the output path itself.
    Inspect,
    /// Remove the symbolic link at the output path.
    Remove,
    /// Create the link once more, now that the old one is gone.
    CreateAgain,
}

/// What came of a task of `relink`.
#[derive(Debug, PartialEq, Eq)]
pub enum Report {
    /// The result of `Task::Create`.
    Created(Result<(), ErrorKind>),
    /// The result of `Task::Inspect`: the kind of the entry, or the file
    /// system's own words on why it was not read.
    Inspected(Result<EntryKind, String>),
    /// The result of `Task::Remove`.
    Removed(Result<(), ErrorKind>),
    /// The result of `Task::CreateAgain`.
    Recreated(Result<(), ErrorKind>),
}

/// Why the output link does not point at the selected version.
#[derive(Debug, PartialEq, Eq)]
pub enum LinkError {
    /// The link could not be created.
    CreationFailed(ErrorKind),
    /// Something lies at the output path, and its kind could not be read.
    OutputUnreadable(String),
    /// What lies at the output path is no symbolic link. It was not touched.
    UnsafeOverwrite,
    /// The symbolic link at the output path could not be removed. It is
    /// still there.
    RemovalFailed(ErrorKind),
}

/// The next task, or the result of the selection.
#[derive(Debug, PartialEq, Eq)]
pub enum Progress {
    Ask(Task),
    Finish(Result<(), LinkError>),
}

/// How the output link is pointed at the selected version.
pub open spec fn relink_step(last: Option<Report>) -> Progress {
    match last {
        None => Progress::Ask(Task::Create),
        Some(Report::Created(Ok(()))) => Progress::Finish(Ok(())),
        Some(Report::Created(Err(ErrorKind::PathAlreadyExists(_)))) => Progress::Ask(Task::Inspect),
        Some(Report::Created(Err(error))) => Progress::Finish(
            Err(LinkError::CreationFailed(error)),
        ),
        Some(Report::Inspected(Ok(EntryKind::Symlink))) => Progress::Ask(Task::Remove),
        Some(Report::Inspected(Ok(_))) => Progress::Finish(Err(LinkError::UnsafeOverwrite)),
        Some(Report::Inspected(Err(reason))) => Progress::Finish(
            Err(LinkError::OutputUnreadable(reason)),
        ),
        Some(Report::Removed(Ok(()))) => Progress::Ask(Task::CreateAgain),
        Some(Report::Removed(Err(error))) => Progress::Finish(
            Err(LinkError::RemovalFailed(error)),
        ),
        Some(Report::Recreated(Ok(()))) => Progress::Finish(Ok(())),
        Some(Report::Recreated(Err(error))) => Progress::Finish(
            Err(LinkError::CreationFailed(error)),
        ),
    }
}

/// One step of pointing the output link at the selected version: the first
/// task where `last` is `None`, and else what follows the report.
///
/// `Task::Remove` follows one report only, that a symbolic link lies at the
/// output path.
pub fn relink(last: Option<Report>) -> (progress: Progress)
    ensures
        progress == relink_step(last),
        progress == Progress::Ask(Task::Remove) <==> last == Some(
            Report::Inspected(Ok(EntryKind::Symlink)),
        ),
{
    match last {
        None => Progress::Ask(Task::Create),
        Some(Report::Created(Ok(()))) => Progress::Finish(Ok(())),
        Some(Report::Created(Err(ErrorKind::PathAlreadyExists(_)))) => Progress::Ask(Task::Inspect),
        Some(Report::Created(Err(error))) => Progress::Finish(
            Err(LinkError::CreationFailed(error)),
        ),
        Some(Report::Inspected(Ok(EntryKind::Symlink))) => Progress::Ask(Task::Remove),
        Some(Report::Inspected(Ok(_))) => Progress::Finish(Err(LinkError::UnsafeOverwrite)),
        Some(Report::Inspected(Err(reason))) => Progress::Finish(
            Err(LinkError::OutputUnreadable(reason)),
        ),
        Some(Report::Removed(Ok(()))) => Progress::Ask(Task::CreateAgain),
        Some(Report::Removed(Err(error))) => Progress::Finish(
            Err(LinkError::RemovalFailed(error)),
        ),
        Some(Report::Recreated(Ok(()))) => Progress::Finish(Ok(())),
        Some(Report::Recreated(Err(error))) => Progress::Finish(
            Err(LinkError::CreationFailed(error)),
        ),
    }
}

impl LinkError {
    /// The text of the diagnostic for this error. `output` is the output
    /// path as it is shown to the user.
    pub open spec fn message_text(self, output: Seq<char>) -> Seq<char> {
        match self {
            LinkError::CreationFailed(error) =>
                "Error could not select version because symlink creation failed due to error `"@
                + error.message_text() + "`"@,
            LinkError::OutputUnreadable(reason) =>
                "Error could not select version because read of the ouput file failed due to error `"@
                + reason@ + "`"@,
            LinkError::UnsafeOverwrite =>
                "Error output file exists and is not a symlink so you will loose data if you select a version. Please manualy rename or remove the file `"@
                + output + "`"@,
            LinkError::RemovalFailed(error) =>
                "Error could not select version because removal of the previous version symlink failed due to error `"@
                + error.message_text() + "`"@,
        }
    }

    /// The diagnostic for this error, for a person to read. `output` is the
    /// output path as it is shown to the user.
    pub fn message(&self, output: &str) -> (text: String)
        ensures
            text@ == self.message_text(output@),
    {
        match self {
            LinkError::CreationFailed(error) => {
                let inner = error.message();
                String::from_str(
                    "Error could not select version because symlink creation failed due to error `",
                ).concat(inner.as_str()).concat("`")
            },
            LinkError::OutputUnreadable(reason) => String::from_str(
                "Error could not select version because read of the ouput file failed due to error `",
            ).concat(reason.as_str()).concat("`"),
            LinkError::UnsafeOverwrite => String::from_str(
                "Error output file exists and is not a symlink so you will loose data if you select a version. Please manualy rename or remove the file `",
            ).concat(output).concat("`"),
            LinkError::RemovalFailed(error) => {
                let inner = error.message();
                String::from_str(
                    "Error could not select version because removal of the previous version symlink failed due to error `",
                ).concat(inner.as_str()).concat("`")
            },
        }
    }
}

/// What `which` says where the output link leads nowhere.
pub const NO_SELECTED_VERSION: &'static str =
    "no selected version as the selected version path is invalid or does not exist";

/// The text that reports a selection. `selected` is the path of the
/// selected version as it is shown to the user.
pub open spec fn success_text(selected: Seq<char>) -> Seq<char> {
    "SUCSESS. `"@ + selected + "` is now the selected version of the app."@
}

/// The message that reports a selection.
pub fn success_message(selected: &str) -> (text: String)
    ensures
        text@ == success_text(selected@),
{
    String::from_str("SUCSESS. `").concat(selected).concat(
        "` is now the selected version of the app.",
    )
}

} // verus!
