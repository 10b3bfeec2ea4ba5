//! Finding the versions among the entries of the scanned directory.

use vstd::prelude::*;
use crate::config::{config_path, Settings, SettingsView, JSON_FILE_PATH};
use crate::paths;
use crate::paths::{joined_path, parent_path, same_path};
use crate::text;

verus! {

/// An entry of the scanned directory that can be selected.
#[derive(Debug, PartialEq, Eq)]
pub struct Candidate {
    /// The name of the entry.
    pub name: String,
    /// The path of the entry: the scanned directory joined with the name.
    pub path: String,
}

/// Why there is no list of versions.
#[derive(Debug, PartialEq, Eq)]
pub enum ScanError {
    /// The scanned directory could not be listed. The text is the file
    /// system's own words on why.
    DirectoryUnreadable(String),
}

/// Whether the entry `name` of the scanned directory is a version: its name
/// begins with the prefix, and it is neither the program at `exe`, nor the
/// program's configuration file, nor the output link.
pub open spec fn is_version(settings: SettingsView, exe: Seq<char>, name: Seq<char>) -> bool {
    let path = joined_path(settings.dir_path, name);
    &&& settings.path_prefix.is_prefix_of(name)
    &&& !same_path(path, exe)
    &&& !same_path(path, joined_path(parent_path(exe), JSON_FILE_PATH@))
    &&& !same_path(path, settings.output_path)
}

/// The versions among the names of a listing, in the order of the listing.
pub open spec fn versions(settings: SettingsView, exe: Seq<char>, names: Seq<Seq<char>>) -> Seq<
    Seq<char>,
> {
    names.filter(|name: Seq<char>| is_version(settings, exe, name))
}

/// The names of a listing, as texts.
pub open spec fn texts(names: Seq<String>) -> Seq<Seq<char>> {
    names.map_values(|name: String| name@)
}

/// The names of candidates.
pub open spec fn names_of(candidates: Seq<Candidate>) -> Seq<Seq<char>> {
    candidates.map_values(|candidate: Candidate| candidate.name@)
}

impl Candidate {
    /// What holds of every candidate of a scan: it lies in the scanned
    /// directory, its name begins with the prefix, and its path is neither
    /// that of the program, nor of the configuration file, nor of the output
    /// link.
    pub open spec fn valid(self, settings: SettingsView, exe: Seq<char>) -> bool {
        &&& self.path@ == joined_path(settings.dir_path, self.name@)
        &&& settings.path_prefix.is_prefix_of(self.name@)
        &&& !same_path(self.path@, exe)
        &&& !same_path(self.path@, joined_path(parent_path(exe), JSON_FILE_PATH@))
        &&& !same_path(self.path@, settings.output_path)
    }
}

/// Whether an entry is a version, from what is known of it: whether its
/// name begins with the prefix, and whether its path is that of the
/// program, of the configuration file, of the output link.
pub fn is_version_entry(
    has_prefix: bool,
    is_program: bool,
    is_config: bool,
    is_output: bool,
) -> (keep: bool)
    ensures
        keep == (has_prefix && !is_program && !is_config && !is_output),
{
    has_prefix && !is_program && !is_config && !is_output
}

proof fn lemma_versions_step(settings: SettingsView, exe: Seq<char>, names: Seq<Seq<char>>, i: int)
    requires
        0 <= i < names.len(),
    ensures
        versions(settings, exe, names.take(i + 1)) == if is_version(settings, exe, names[i]) {
            versions(settings, exe, names.take(i)).push(names[i])
        } else {
            versions(settings, exe, names.take(i))
        },
{
    reveal(Seq::filter);
    assert(names.take(i + 1).drop_last() =~= names.take(i));
}

/// The versions among the entries of the scanned directory, in the order of
/// the listing. `listing` holds the names of the entries, or the reason why
/// the directory could not be listed; `exe` is the path of the program.
pub fn get_version_files(
    settings: &Settings,
    exe: &str,
    listing: Result<Vec<String>, String>,
) -> (found: Result<Vec<Candidate>, ScanError>)
    ensures
        match listing {
            Err(reason) => found == Err::<Vec<Candidate>, ScanError>(
                ScanError::DirectoryUnreadable(reason),
            ),
            Ok(names) => {
                &&& found matches Ok(candidates)
                &&& names_of(candidates@) == versions(settings@, exe@, texts(names@))
                &&& forall|i: int|
                    0 <= i < candidates.len() ==> (#[trigger] candidates[i]).valid(settings@, exe@)
            },
        },
{
    let names = match listing {
        Err(reason) => { return Err(ScanError::DirectoryUnreadable(reason)); },
        Ok(names) => names,
    };
    let config = config_path(exe);
    let mut candidates: Vec<Candidate> = Vec::new();
    let mut i: usize = 0;
    proof {
        reveal(Seq::filter);
        assert(texts(names@).take(0) =~= Seq::empty());
        assert(names_of(candidates@) =~= Seq::empty());
    }
    while i < names.len()
        invariant
            i <= names.len(),
            config@ == joined_path(parent_path(exe@), JSON_FILE_PATH@),
            names_of(candidates@) == versions(settings@, exe@, texts(names@).take(i as int)),
            forall|j: int|
                0 <= j < candidates.len() ==> (#[trigger] candidates[j]).valid(settings@, exe@),
        decreases names.len() - i,
    {
        let name = &names[i];
        let path = paths::join(settings.dir_path.as_str(), name.as_str());
        let keep = is_version_entry(
            text::starts_with(name.as_str(), settings.path_prefix.as_str()),
            paths::equal(path.as_str(), exe),
            paths::equal(path.as_str(), config.as_str()),
            paths::equal(path.as_str(), settings.output_path.as_str()),
        );
        proof {
            lemma_versions_step(settings@, exe@, texts(names@), i as int);
            assert(keep == is_version(settings@, exe@, texts(names@)[i as int]));
        }
        if keep {
            let ghost before = candidates@;
            let candidate = Candidate { name: name.clone(), path };
            candidates.push(candidate);
            assert(names_of(candidates@) =~= names_of(before).push(name@));
        }
        i += 1;
    }
    assert(texts(names@).take(i as int) =~= texts(names@));
    Ok(candidates)
}

impl ScanError {
    /// The text of the diagnostic for this error.
    pub open spec fn message_text(self) -> Seq<char> {
        match self {
            ScanError::DirectoryUnreadable(reason) =>
                "could not read items in dir due to error `"@ + reason@ + "`."@,
        }
    }

    /// The diagnostic for this error, for a person to read.
    pub fn message(&self) -> (text: String)
        ensures
            text@ == self.message_text(),
    {
        match self {
            ScanError::DirectoryUnreadable(reason) => String::from_str(
                "could not read items in dir due to error `",
            ).concat(reason.as_str()).concat("`."),
        }
    }
}

} // verus!
