//! Core of a release-asset installer: resolving an asset in a release feed,
//! accounting for download progress, unpacking the archive into a sequence of
//! filesystem actions, and deciding whether the installed program can be
//! launched.
//!
//! The crate performs no input or output of its own. Callers fetch bytes and
//! touch the disk; every decision in between is made here.

pub mod archive;
pub mod download;
pub mod error;
pub mod feed;
pub mod install;
pub mod json;
pub mod launch;
pub mod progress;
pub mod text;
