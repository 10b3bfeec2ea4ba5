//! Selecting one of several installed versions and exposing it through a
//! single symbolic link.
//!
//! A run reads its settings from the configuration (`config`), finds the
//! versions among the entries of the scanned directory (`scan`), resolves
//! what the user asked for to one of them (`select`), and points the output
//! link at it (`relink`, on top of `symlink`). `world` shows on a model of
//! the file system what that does to the output path.
//!
//! The library reads no file and changes none. What it needs from the file
//! system it is handed as plain values, and what is to be done there it
//! hands back as tasks. `paths` and `text` hold the few operations of the
//! standard library that it relies on without proof.

pub mod config;
pub mod paths;
pub mod relink;
pub mod scan;
pub mod select;
pub mod symlink;
pub mod text;
pub mod world;
