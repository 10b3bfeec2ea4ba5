//! The settings of one run, and how they are read from a parsed
//! configuration.

use vstd::prelude::*;
use crate::paths;
use crate::paths::{joined_path, parent_path};

verus! {

/// The name of the configuration file. It lies beside the program.
pub const JSON_FILE_PATH: &'static str = "version-selector.json";

/// The key of the prefix that the names of all versions share.
pub const PATH_PREFIX_KEY: &'static str = "pathPrefix";

/// The key of the output link's path, relative to the scanned directory.
pub const OUTPUT_PATH_KEY: &'static str = "outputPath";

/// The key of the scanned directory's path, relative to the program's
/// directory.
pub const RELATIVE_PATH_KEY: &'static str = "relativePath";

/// The scanned directory where the configuration names none.
pub const DEFAULT_RELATIVE_PATH: &'static str = ".";

/// A key of the configuration.
#[derive(Clone, Copy, Debug, PartialEq, Eq, Structural)]
pub enum ConfigKey {
    PathPrefix,
    OutputPath,
    RelativePath,
}

/// A value of the configuration, as far as the settings depend on it.
#[derive(Debug, PartialEq, Eq)]
pub enum Value {
    /// A string.
    Text(String),
    /// Anything else.
    Other,
}

/// A key of the parsed configuration with its value.
#[derive(Debug, PartialEq, Eq)]
pub struct Entry {
    pub key: String,
    pub value: Value,
}

/// A parsed configuration.
#[derive(Debug, PartialEq, Eq)]
pub enum Document {
    /// A dictionary. Where a key occurs more than once, its first entry
    /// counts.
    Dict(Vec<Entry>),
    /// Anything else.
    Other,
}

/// Why there are no settings.
#[derive(Debug, PartialEq, Eq)]
pub enum ConfigError {
    /// The configuration file could not be read.
    SourceUnreadable,
    /// The configuration is not well-formed. The text is the parser's
    /// description of the fault.
    ParseError(String),
    /// The configuration is no dictionary.
    NotADict,
    /// The configuration lacks a key that it must have.
    MissingField(ConfigKey),
    /// The value under a key is no string.
    WrongFieldType(ConfigKey),
}

/// The settings of one run.
#[derive(Debug, PartialEq, Eq)]
pub struct Settings {
    /// The prefix that the names of all versions share.
    pub path_prefix: String,
    /// The path of the output link.
    pub output_path: String,
    /// The path of the directory that holds the versions.
    pub dir_path: String,
}

/// What settings hold.
pub struct SettingsView {
    pub path_prefix: Seq<char>,
    pub output_path: Seq<char>,
    pub dir_path: Seq<char>,
}

impl View for Settings {
    type V = SettingsView;

    open spec fn view(&self) -> SettingsView {
        SettingsView {
            path_prefix: self.path_prefix@,
            output_path: self.output_path@,
            dir_path: self.dir_path@,
        }
    }
}

/// The value of the first entry with the given key.
pub open spec fn lookup(entries: Seq<Entry>, key: Seq<char>) -> Option<Value>
    decreases entries.len(),
{
    if entries.len() == 0 {
        None
    } else if entries[0].key@ == key {
        Some(entries[0].value)
    } else {
        lookup(entries.drop_first(), key)
    }
}

/// The text of a value that is known to be absent or a string.
pub open spec fn text_or(value: Option<Value>, default: Seq<char>) -> Seq<char> {
    match value {
        Some(Value::Text(text)) => text@,
        _ => default,
    }
}

/// The settings that the entries of a dictionary give, for a program that
/// lies in the directory `base`.
///
/// The output path must be there. Each of the three values that is there
/// must be a string. The scanned directory is resolved against `base`, the
/// output path against the scanned directory.
pub open spec fn resolve_entries(entries: Seq<Entry>, base: Seq<char>) -> Result<
    SettingsView,
    ConfigError,
> {
    let prefix = lookup(entries, PATH_PREFIX_KEY@);
    let output = lookup(entries, OUTPUT_PATH_KEY@);
    let relative = lookup(entries, RELATIVE_PATH_KEY@);
    if output is None {
        Err(ConfigError::MissingField(ConfigKey::OutputPath))
    } else if prefix == Some(Value::Other) {
        Err(ConfigError::WrongFieldType(ConfigKey::PathPrefix))
    } else if output == Some(Value::Other) {
        Err(ConfigError::WrongFieldType(ConfigKey::OutputPath))
    } else if relative == Some(Value::Other) {
        Err(ConfigError::WrongFieldType(ConfigKey::RelativePath))
    } else {
        let dir_path = joined_path(base, text_or(relative, DEFAULT_RELATIVE_PATH@));
        Ok(
            SettingsView {
                path_prefix: text_or(prefix, Seq::empty()),
                output_path: joined_path(dir_path, text_or(output, Seq::empty())),
                dir_path,
            },
        )
    }
}

/// The settings that a parsed configuration gives, or that the parser's
/// failure leaves none.
pub open spec fn resolve(parsed: Result<Document, String>, base: Seq<char>) -> Result<
    SettingsView,
    ConfigError,
> {
    match parsed {
        Err(fault) => Err(ConfigError::ParseError(fault)),
        Ok(Document::Other) => Err(ConfigError::NotADict),
        Ok(Document::Dict(entries)) => resolve_entries(entries@, base),
    }
}

/// Finds the value of the first entry with the given key.
pub fn find<'a>(entries: &'a Vec<Entry>, key: &str) -> (found: Option<&'a Value>)
    ensures
        match found {
            Some(value) => lookup(entries@, key@) == Some(*value),
            None => lookup(entries@, key@) is None,
        },
{
    let wanted = String::from_str(key);
    let mut i: usize = 0;
    assert(entries@.skip(0) =~= entries@);
    while i < entries.len()
        invariant
            i <= entries.len(),
            wanted@ == key@,
            lookup(entries@, key@) == lookup(entries@.skip(i as int), key@),
        decreases entries.len() - i,
    {
        let same = entries[i].key == wanted;
        proof {
            let rest = entries@.skip(i as int);
            assert(rest[0] == entries@[i as int]);
            assert(rest.drop_first() =~= entries@.skip(i as int + 1));
        }
        if same {
            return Some(&entries[i].value);
        }
        i += 1;
    }
    assert(entries@.skip(i as int).len() == 0);
    None
}

impl Settings {
    /// Settings with the three fields as given.
    pub fn new(path_prefix: String, output_path: String, dir_path: String) -> (settings: Self)
        ensures
            settings.path_prefix == path_prefix,
            settings.output_path == output_path,
            settings.dir_path == dir_path,
    {
        Self { path_prefix, output_path, dir_path }
    }

    /// The settings that a parsed configuration gives, for a program that
    /// lies in the directory `abs_path`.
    pub fn new_from_parsed(parsed: Result<Document, String>, abs_path: &str) -> (settings: Result<
        Self,
        ConfigError,
    >)
        ensures
            match settings {
                Ok(settings) => resolve(parsed, abs_path@) == Ok::<SettingsView, ConfigError>(
                    settings@,
                ),
                Err(error) => resolve(parsed, abs_path@) == Err::<SettingsView, ConfigError>(error),
            },
    {
        let entries = match parsed {
            Err(fault) => { return Err(ConfigError::ParseError(fault)); },
            Ok(Document::Other) => { return Err(ConfigError::NotADict); },
            Ok(Document::Dict(entries)) => entries,
        };
        let output = match find(&entries, OUTPUT_PATH_KEY) {
            None => { return Err(ConfigError::MissingField(ConfigKey::OutputPath)); },
            Some(value) => value,
        };
        let path_prefix = match find(&entries, PATH_PREFIX_KEY) {
            None => String::new(),
            Some(Value::Text(text)) => text.clone(),
            Some(Value::Other) => {
                return Err(ConfigError::WrongFieldType(ConfigKey::PathPrefix));
            },
        };
        let output = match output {
            Value::Text(text) => text,
            Value::Other => { return Err(ConfigError::WrongFieldType(ConfigKey::OutputPath)); },
        };
        let dir_path = match find(&entries, RELATIVE_PATH_KEY) {
            None => paths::join(abs_path, DEFAULT_RELATIVE_PATH),
            Some(Value::Text(text)) => paths::join(abs_path, text.as_str()),
            Some(Value::Other) => {
                return Err(ConfigError::WrongFieldType(ConfigKey::RelativePath));
            },
        };
        let output_path = paths::join(dir_path.as_str(), output.as_str());
        Ok(Self::new(path_prefix, output_path, dir_path))
    }
}

/// The directory that the program at `exe` lies in.
pub fn base_directory(exe: &str) -> (directory: String)
    ensures
        directory@ == parent_path(exe@),
{
    paths::parent(exe)
}

/// The path of the configuration file of the program at `exe`.
pub fn config_path(exe: &str) -> (path: String)
    ensures
        path@ == joined_path(parent_path(exe@), JSON_FILE_PATH@),
{
    let directory = paths::parent(exe);
    paths::join(directory.as_str(), JSON_FILE_PATH)
}

impl ConfigKey {
    /// The key as the configuration writes it.
    pub open spec fn name_text(self) -> Seq<char> {
        match self {
            ConfigKey::PathPrefix => PATH_PREFIX_KEY@,
            ConfigKey::OutputPath => OUTPUT_PATH_KEY@,
            ConfigKey::RelativePath => RELATIVE_PATH_KEY@,
        }
    }

    /// The key as the configuration writes it.
    pub fn name(self) -> (name: &'static str)
        ensures
            name@ == self.name_text(),
    {
        match self {
            ConfigKey::PathPrefix => PATH_PREFIX_KEY,
            ConfigKey::OutputPath => OUTPUT_PATH_KEY,
            ConfigKey::RelativePath => RELATIVE_PATH_KEY,
        }
    }
}

impl ConfigError {
    /// The text of the diagnostic for this error.
    pub open spec fn message_text(self) -> Seq<char> {
        match self {
            ConfigError::SourceUnreadable => "Error reading file."@,
            ConfigError::ParseError(fault) => "Error Parsing JSON. "@ + fault@,
            ConfigError::NotADict => "expected a dict as the root element"@,
            ConfigError::MissingField(key) => "expected the root to contain the key `"@
                + key.name_text() + "`."@,
            ConfigError::WrongFieldType(key) => "expected a the key `"@ + key.name_text()
                + "` to have a string value."@,
        }
    }

    /// The diagnostic for this error, for a person to read.
    pub fn message(&self) -> (text: String)
        ensures
            text@ == self.message_text(),
    {
        match self {
            ConfigError::SourceUnreadable => String::from_str("Error reading file."),
            ConfigError::ParseError(fault) => String::from_str("Error Parsing JSON. ").concat(
                fault.as_str(),
            ),
            ConfigError::NotADict => String::from_str("expected a dict as the root element"),
            ConfigError::MissingField(key) => String::from_str(
                "expected the root to contain the key `",
            ).concat(key.name()).concat("`."),
            ConfigError::WrongFieldType(key) => String::from_str("expected a the key `").concat(
                key.name(),
            ).concat("` to have a string value."),
        }
    }
}

/// A configuration that lacks the output path gives no settings, whatever
/// else it holds: a dictionary without that key is refused for the missing
/// key, and so is never resolved.
pub proof fn lemma_missing_output_path(entries: Vec<Entry>, base: Seq<char>)
    requires
        lookup(entries@, OUTPUT_PATH_KEY@) is None,
    ensures
        resolve(Ok(Document::Dict(entries)), base) == Err::<SettingsView, ConfigError>(
            ConfigError::MissingField(ConfigKey::OutputPath),
        ),
{
}

} // verus!
