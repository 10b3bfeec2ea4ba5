use std::collections::BTreeMap;
use version_selector::relink::{
    relink, success_message, LinkError, Progress, Report, Task, NO_SELECTED_VERSION,
};
use version_selector::symlink::{
    create_symlink, remove_symlink, CreateReport, CreateTask, EntryKind, ErrorKind, IoFailure,
    RemoveReport, RemoveTask, Step,
};

#[derive(Clone, Debug, PartialEq, Eq)]
enum Node {
    File,
    Dir,
    Other,
    Link(String),
}

/// A file system in memory, for the tasks of a selection.
#[derive(Clone, Debug, PartialEq, Eq)]
struct Disk {
    entries: BTreeMap<String, Node>,
    removals: usize,
}

impl Disk {
    fn new(entries: &[(&str, Node)]) -> Disk {
        Disk {
            entries: entries.iter().map(|(path, node)| (path.to_string(), node.clone())).collect(),
            removals: 0,
        }
    }

    fn kind(&self, path: &str) -> Option<EntryKind> {
        match self.entries.get(path) {
            None => None,
            Some(Node::File) => Some(EntryKind::File),
            Some(Node::Dir) => Some(EntryKind::Dir),
            Some(Node::Other) => Some(EntryKind::Other),
            Some(Node::Link(_)) => Some(EntryKind::Symlink),
        }
    }

    fn resolve(&self, path: &str) -> Option<String> {
        let mut at = path.to_string();
        for _ in 0..8 {
            match self.entries.get(&at) {
                None => return None,
                Some(Node::Link(target)) => at = target.clone(),
                Some(_) => return Some(at),
            }
        }
        None
    }

    fn follow(&self, path: &str) -> Result<EntryKind, IoFailure> {
        match self.resolve(path) {
            Some(end) => Ok(self.kind(&end).unwrap()),
            None => Err(IoFailure::NotFound),
        }
    }

    fn create(&mut self, orig: &String, link: &String) -> Result<(), ErrorKind> {
        let mut last = None;
        loop {
            let report = match create_symlink(orig, link, last) {
                Step::Finish(result) => return result,
                Step::Ask(CreateTask::ProbeLink) => CreateReport::LinkProbed(self.follow(link).is_ok()),
                Step::Ask(CreateTask::ProbeSource) => CreateReport::SourceProbed(self.follow(orig)),
                Step::Ask(CreateTask::LinkDir) | Step::Ask(CreateTask::LinkFile) => {
                    if self.entries.contains_key(link) {
                        CreateReport::Linked(Err(IoFailure::AlreadyExists))
                    } else {
                        self.entries.insert(link.clone(), Node::Link(orig.clone()));
                        CreateReport::Linked(Ok(()))
                    }
                }
            };
            last = Some(report);
        }
    }

    fn remove(&mut self, link: &String) -> Result<(), ErrorKind> {
        let mut last = None;
        loop {
            let report = match remove_symlink(link, last) {
                Step::Finish(result) => return result,
                Step::Ask(RemoveTask::InspectLink) => {
                    RemoveReport::LinkInspected(self.kind(link).ok_or(IoFailure::NotFound))
                }
                Step::Ask(RemoveTask::ProbeTarget) => RemoveReport::TargetProbed(self.follow(link)),
                Step::Ask(RemoveTask::RemoveFile) | Step::Ask(RemoveTask::RemoveDirAll) => {
                    self.removals += 1;
                    match self.entries.remove(link) {
                        Some(_) => RemoveReport::Removed(Ok(())),
                        None => RemoveReport::Removed(Err(IoFailure::NotFound)),
                    }
                }
            };
            last = Some(report);
        }
    }

    fn select(&mut self, orig: &str, output: &str) -> Result<(), LinkError> {
        let (orig, output) = (orig.to_string(), output.to_string());
        let mut last = None;
        loop {
            let report = match relink(last) {
                Progress::Finish(result) => return result,
                Progress::Ask(Task::Create) => Report::Created(self.create(&orig, &output)),
                Progress::Ask(Task::Inspect) => {
                    Report::Inspected(self.kind(&output).ok_or("entity not found".to_string()))
                }
                Progress::Ask(Task::Remove) => Report::Removed(self.remove(&output)),
                Progress::Ask(Task::CreateAgain) => Report::Recreated(self.create(&orig, &output)),
            };
            last = Some(report);
        }
    }

    fn links(&self) -> usize {
        self.entries.values().filter(|node| matches!(node, Node::Link(_))).count()
    }
}

const OUT: &str = "/opt/tool/current";
const ONE: &str = "/opt/tool/app-1.0";
const TWO: &str = "/opt/tool/app-2.0";

#[test]
fn selection_begins_with_a_creation() {
    assert_eq!(relink(None), Progress::Ask(Task::Create));
}

#[test]
fn created_link_ends_the_selection() {
    assert_eq!(relink(Some(Report::Created(Ok(())))), Progress::Finish(Ok(())));
    assert_eq!(relink(Some(Report::Recreated(Ok(())))), Progress::Finish(Ok(())));
}

#[test]
fn occupied_output_path_is_inspected() {
    let report = Report::Created(Err(ErrorKind::PathAlreadyExists(OUT.to_string())));
    assert_eq!(relink(Some(report)), Progress::Ask(Task::Inspect));
}

#[test]
fn other_failures_of_the_creation_end_the_selection() {
    let errors = [
        ErrorKind::PathDoesNotExist(ONE.to_string()),
        ErrorKind::PermisionError,
        ErrorKind::UnsupportedTarget(ONE.to_string()),
        ErrorKind::PathNotSymlink(OUT.to_string()),
    ];
    for error in errors {
        let again = match &error {
            ErrorKind::PathDoesNotExist(path) => ErrorKind::PathDoesNotExist(path.clone()),
            ErrorKind::UnsupportedTarget(path) => ErrorKind::UnsupportedTarget(path.clone()),
            ErrorKind::PathNotSymlink(path) => ErrorKind::PathNotSymlink(path.clone()),
            ErrorKind::PathAlreadyExists(path) => ErrorKind::PathAlreadyExists(path.clone()),
            ErrorKind::PermisionError => ErrorKind::PermisionError,
        };
        assert_eq!(
            relink(Some(Report::Created(Err(error)))),
            Progress::Finish(Err(LinkError::CreationFailed(again)))
        );
    }
}

#[test]
fn symbolic_link_at_the_output_path_is_removed() {
    assert_eq!(
        relink(Some(Report::Inspected(Ok(EntryKind::Symlink)))),
        Progress::Ask(Task::Remove)
    );
}

#[test]
fn anything_else_at_the_output_path_is_left_alone() {
    for kind in [EntryKind::File, EntryKind::Dir, EntryKind::Other] {
        assert_eq!(
            relink(Some(Report::Inspected(Ok(kind)))),
            Progress::Finish(Err(LinkError::UnsafeOverwrite))
        );
    }
}

#[test]
fn unread_output_path_ends_the_selection() {
    assert_eq!(
        relink(Some(Report::Inspected(Err("access denied".to_string())))),
        Progress::Finish(Err(LinkError::OutputUnreadable("access denied".to_string())))
    );
}

#[test]
fn removed_link_is_created_again() {
    assert_eq!(relink(Some(Report::Removed(Ok(())))), Progress::Ask(Task::CreateAgain));
}

#[test]
fn failed_removal_ends_the_selection() {
    assert_eq!(
        relink(Some(Report::Removed(Err(ErrorKind::PermisionError)))),
        Progress::Finish(Err(LinkError::RemovalFailed(ErrorKind::PermisionError)))
    );
}

#[test]
fn second_creation_is_not_tried_again() {
    let report = Report::Recreated(Err(ErrorKind::PathAlreadyExists(OUT.to_string())));
    assert_eq!(
        relink(Some(report)),
        Progress::Finish(Err(LinkError::CreationFailed(ErrorKind::PathAlreadyExists(
            OUT.to_string()
        ))))
    );
}

#[test]
fn first_selection_creates_the_link() {
    let mut disk = Disk::new(&[(ONE, Node::Dir), (TWO, Node::Dir)]);
    assert_eq!(disk.select(ONE, OUT), Ok(()));
    assert_eq!(disk.entries.get(OUT), Some(&Node::Link(ONE.to_string())));
    assert_eq!(disk.removals, 0);
}

#[test]
fn selected_version_is_where_the_link_leads() {
    let mut disk = Disk::new(&[(ONE, Node::Dir), (TWO, Node::File)]);
    assert_eq!(disk.select(TWO, OUT), Ok(()));
    assert_eq!(disk.resolve(OUT), disk.resolve(TWO));
    assert_eq!(disk.resolve(OUT), Some(TWO.to_string()));
}

#[test]
fn selecting_another_version_replaces_the_link() {
    let mut disk =
        Disk::new(&[(ONE, Node::Dir), (TWO, Node::Dir), (OUT, Node::Link(ONE.to_string()))]);
    assert_eq!(disk.select(TWO, OUT), Ok(()));
    assert_eq!(disk.entries.get(OUT), Some(&Node::Link(TWO.to_string())));
    assert_eq!(disk.links(), 1);
    assert_eq!(disk.entries.len(), 3);
    assert_eq!(disk.removals, 1);
}

#[test]
fn selecting_the_same_version_again_keeps_one_link() {
    let mut disk = Disk::new(&[(ONE, Node::File), (OUT, Node::Link(ONE.to_string()))]);
    assert_eq!(disk.select(ONE, OUT), Ok(()));
    assert_eq!(disk.entries.get(OUT), Some(&Node::Link(ONE.to_string())));
    assert_eq!(disk.links(), 1);
}

#[test]
fn file_or_directory_at_the_output_path_is_never_touched() {
    for node in [Node::File, Node::Dir, Node::Other] {
        let before = Disk::new(&[(ONE, Node::Dir), (OUT, node)]);
        let mut disk = before.clone();
        assert_eq!(disk.select(ONE, OUT), Err(LinkError::UnsafeOverwrite));
        assert_eq!(disk, before);
    }
}

#[test]
fn dangling_link_is_replaced() {
    let mut disk = Disk::new(&[(ONE, Node::Dir), (OUT, Node::Link("/opt/tool/gone".to_string()))]);
    assert_eq!(disk.select(ONE, OUT), Ok(()));
    assert_eq!(disk.entries.get(OUT), Some(&Node::Link(ONE.to_string())));
    assert_eq!(disk.links(), 1);
    assert_eq!(disk.removals, 1);
}

#[test]
fn link_to_another_kind_of_entry_is_replaced() {
    let mut disk = Disk::new(&[
        (ONE, Node::File),
        ("/opt/tool/pipe", Node::Other),
        (OUT, Node::Link("/opt/tool/pipe".to_string())),
    ]);
    assert_eq!(disk.select(ONE, OUT), Ok(()));
    assert_eq!(disk.entries.get(OUT), Some(&Node::Link(ONE.to_string())));
    assert_eq!(disk.entries.get("/opt/tool/pipe"), Some(&Node::Other));
    assert_eq!(disk.links(), 1);
}

#[test]
fn missing_version_is_found_out_after_the_old_link_is_gone() {
    let mut disk = Disk::new(&[(ONE, Node::Dir), (OUT, Node::Link(ONE.to_string()))]);
    assert_eq!(
        disk.select(TWO, OUT),
        Err(LinkError::CreationFailed(ErrorKind::PathDoesNotExist(TWO.to_string())))
    );
    assert_eq!(disk.entries.get(OUT), None);
}

#[test]
fn missing_version_without_a_link_changes_nothing() {
    let before = Disk::new(&[(ONE, Node::Dir)]);
    let mut disk = before.clone();
    assert_eq!(
        disk.select(TWO, OUT),
        Err(LinkError::CreationFailed(ErrorKind::PathDoesNotExist(TWO.to_string())))
    );
    assert_eq!(disk, before);
}

#[test]
fn version_that_is_neither_file_nor_directory_is_refused() {
    let before = Disk::new(&[(ONE, Node::Other)]);
    let mut disk = before.clone();
    assert_eq!(
        disk.select(ONE, OUT),
        Err(LinkError::CreationFailed(ErrorKind::UnsupportedTarget(ONE.to_string())))
    );
    assert_eq!(disk, before);
}

#[test]
fn link_error_messages() {
    assert_eq!(
        LinkError::CreationFailed(ErrorKind::PermisionError).message(OUT),
        "Error could not select version because symlink creation failed due to error `permision error`"
    );
    assert_eq!(
        LinkError::RemovalFailed(ErrorKind::PathDoesNotExist(OUT.to_string())).message(OUT),
        "Error could not select version because removal of the previous version symlink failed due to error `path `/opt/tool/current` does not exist`"
    );
    assert_eq!(
        LinkError::OutputUnreadable("access denied".to_string()).message(OUT),
        "Error could not select version because read of the ouput file failed due to error `access denied`"
    );
    assert_eq!(
        LinkError::UnsafeOverwrite.message(OUT),
        "Error output file exists and is not a symlink so you will loose data if you select a version. Please manualy rename or remove the file `/opt/tool/current`"
    );
}

#[test]
fn messages_of_a_selection() {
    assert_eq!(
        success_message(ONE),
        "SUCSESS. `/opt/tool/app-1.0` is now the selected version of the app."
    );
    assert_eq!(
        NO_SELECTED_VERSION,
        "no selected version as the selected version path is invalid or does not exist"
    );
}
