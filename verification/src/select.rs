//! Resolving what the user asked for to one of the candidates.

use vstd::prelude::*;
use crate::scan::{names_of, Candidate};
use crate::text;
use crate::text::{parsed_index, trimmed};

verus! {

/// Why no candidate was selected.
#[derive(Debug, PartialEq, Eq)]
pub enum SelectError {
    /// No candidate has the name asked for, with or without the prefix.
    VersionNotFound(String),
    /// The number asked for is not the index of a candidate.
    IndexOutOfRange(String),
}

/// What a selection comes to: the index of a candidate, or the error with
/// the text that was asked for.
pub enum Choice {
    Picked(int),
    NotFound(Seq<char>),
    OutOfRange(Seq<char>),
}

/// What the result of a selection says.
pub open spec fn choice_view(choice: Result<usize, SelectError>) -> Choice {
    match choice {
        Ok(index) => Choice::Picked(index as int),
        Err(SelectError::VersionNotFound(token)) => Choice::NotFound(token@),
        Err(SelectError::IndexOutOfRange(token)) => Choice::OutOfRange(token@),
    }
}

/// The candidate that a name stands for: the first one with exactly that
/// name, and only where there is none, the first one whose name is the
/// prefix followed by that name.
pub open spec fn resolve_token(names: Seq<Seq<char>>, prefix: Seq<char>, token: Seq<char>)
    -> Option<int> {
    match names.index_of_first(token) {
        Some(index) => Some(index),
        None => names.index_of_first(prefix + token),
    }
}

/// The candidate that an answer stands for. `index` is the answer read as a
/// number, where it is one: then it is the index of the candidate, and must
/// be in range. Any other answer is the name of the candidate.
pub open spec fn choice_of(
    names: Seq<Seq<char>>,
    prefix: Seq<char>,
    token: Seq<char>,
    index: Option<usize>,
) -> Choice {
    match index {
        Some(index) => if index < names.len() {
            Choice::Picked(index as int)
        } else {
            Choice::OutOfRange(token)
        },
        None => match resolve_token(names, prefix, token) {
            Some(index) => Choice::Picked(index),
            None => Choice::NotFound(token),
        },
    }
}

fn position(candidates: &Vec<Candidate>, wanted: &String) -> (found: Option<usize>)
    ensures
        match found {
            Some(index) => index < candidates.len() && names_of(candidates@).index_of_first(
                wanted@,
            ) == Some(index as int),
            None => names_of(candidates@).index_of_first(wanted@) is None,
        },
{
    let ghost names = names_of(candidates@);
    let mut i: usize = 0;
    while i < candidates.len()
        invariant
            i <= candidates.len(),
            names == names_of(candidates@),
            forall|j: int| 0 <= j < i ==> names[j] != wanted@,
        decreases candidates.len() - i,
    {
        if candidates[i].name == *wanted {
            proof {
                assert(names[i as int] == wanted@);
                names.index_of_first_ensures(wanted@);
            }
            return Some(i);
        }
        i += 1;
    }
    proof {
        names.index_of_first_ensures(wanted@);
    }
    None
}

/// Resolves a name to a candidate, and returns the candidate's index. A
/// candidate with exactly this name comes before one whose name is the
/// prefix followed by this name.
pub fn find_version(candidates: &Vec<Candidate>, prefix: &str, token: &str) -> (choice: Result<
    usize,
    SelectError,
>)
    ensures
        choice_view(choice) == choice_of(names_of(candidates@), prefix@, token@, None),
        choice matches Ok(picked) ==> picked < candidates.len(),
{
    let exact = String::from_str(token);
    match position(candidates, &exact) {
        Some(index) => Ok(index),
        None => {
            let prefixed = String::from_str(prefix).concat(token);
            match position(candidates, &prefixed) {
                Some(index) => Ok(index),
                None => Err(SelectError::VersionNotFound(exact)),
            }
        },
    }
}

/// Resolves an answer to a candidate, and returns the candidate's index.
/// `index` is the answer read as a number, where it is one.
pub fn pick_version(
    candidates: &Vec<Candidate>,
    prefix: &str,
    token: &str,
    index: Option<usize>,
) -> (choice: Result<usize, SelectError>)
    ensures
        choice_view(choice) == choice_of(names_of(candidates@), prefix@, token@, index),
        choice matches Ok(picked) ==> picked < candidates.len(),
{
    match index {
        Some(index) => {
            if index < candidates.len() {
                Ok(index)
            } else {
                Err(SelectError::IndexOutOfRange(String::from_str(token)))
            }
        },
        None => find_version(candidates, prefix, token),
    }
}

/// Resolves the line that the user typed at the list of candidates, and
/// returns the candidate's index. Without the white space around it, the
/// line is the index of a candidate or, where it is no number, a name.
pub fn choose_version(candidates: &Vec<Candidate>, prefix: &str, line: &str) -> (choice: Result<
    usize,
    SelectError,
>)
    ensures
        choice_view(choice) == choice_of(
            names_of(candidates@),
            prefix@,
            trimmed(line@),
            parsed_index(trimmed(line@)),
        ),
        choice matches Ok(picked) ==> picked < candidates.len(),
{
    let token = text::trim(line);
    pick_version(candidates, prefix, token, text::parse_index(token))
}

impl SelectError {
    /// The text of the diagnostic for this error.
    pub open spec fn message_text(self) -> Seq<char> {
        match self {
            SelectError::VersionNotFound(token) => "could not find version `"@ + token@
                + "` (note when running this command without a version argument it gives you an interactive list to select from)"@,
            SelectError::IndexOutOfRange(token) => "could not find version `"@ + token@
                + "` (the number is not in the list)"@,
        }
    }

    /// The diagnostic for this error, for a person to read.
    pub fn message(&self) -> (text: String)
        ensures
            text@ == self.message_text(),
    {
        match self {
            SelectError::VersionNotFound(token) => String::from_str(
                "could not find version `",
            ).concat(token.as_str()).concat(
                "` (note when running this command without a version argument it gives you an interactive list to select from)",
            ),
            SelectError::IndexOutOfRange(token) => String::from_str(
                "could not find version `",
            ).concat(token.as_str()).concat("` (the number is not in the list)"),
        }
    }
}

/// A candidate with exactly the name asked for is selected, whatever other
/// candidate has the prefix followed by that name: the selection is the
/// first candidate with exactly that name.
pub proof fn lemma_exact_name_wins(names: Seq<Seq<char>>, prefix: Seq<char>, token: Seq<char>)
    requires
        names.contains(token),
    ensures
        resolve_token(names, prefix, token) matches Some(index) && 0 <= index < names.len()
            && names[index] == token && forall|j: int| 0 <= j < index ==> names[j] != token,
{
    names.index_of_first_ensures(token);
}

/// Where no candidate has exactly the name asked for, the selection is the
/// first candidate whose name is the prefix followed by that name; where
/// there is none either, nothing is selected.
pub proof fn lemma_prefixed_name_second(names: Seq<Seq<char>>, prefix: Seq<char>, token: Seq<char>)
    requires
        !names.contains(token),
    ensures
        match resolve_token(names, prefix, token) {
            Some(index) => 0 <= index < names.len() && names[index] == prefix + token && forall|
                j: int,
            |
                0 <= j < index ==> names[j] != prefix + token,
            None => !names.contains(prefix + token),
        },
{
    names.index_of_first_ensures(token);
    names.index_of_first_ensures(prefix + token);
}

/// A line that is a number selects by index and by nothing else: the
/// candidate at that index where there is one, and else an error, though a
/// candidate may have the number as its name. A line that is no number
/// selects as its text does by name.
pub proof fn lemma_line_is_index_or_name(
    candidates: Seq<Candidate>,
    prefix: Seq<char>,
    line: Seq<char>,
)
    ensures
        match parsed_index(trimmed(line)) {
            Some(index) => choice_of(
                names_of(candidates),
                prefix,
                trimmed(line),
                parsed_index(trimmed(line)),
            ) == if index < candidates.len() {
                Choice::Picked(index as int)
            } else {
                Choice::OutOfRange(trimmed(line))
            },
            None => choice_of(
                names_of(candidates),
                prefix,
                trimmed(line),
                parsed_index(trimmed(line)),
            ) == choice_of(names_of(candidates), prefix, trimmed(line), None),
        },
{
}

} // verus!
