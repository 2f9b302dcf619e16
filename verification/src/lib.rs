//! Core of a tray utility that keeps one dated working folder per day.
//!
//! The crate holds the rules of the utility and none of its input or output:
//! how a calendar date becomes a folder name, where the dated folder lies, in
//! which order a directory is probed before it is trusted, and how the one
//! shared settings record is replaced. Operations that need the file system are
//! written as small state machines: each hands its host one [`host::Effect`] at a
//! time and continues from the [`host::Reply`].
//!
//! - [`date`]: calendar dates and their text.
//! - [`settings`]: the settings record, its defaults, its persisted form, and
//!   the saving of a record.
//! - [`validation`]: the check that a path is a writable directory.
//! - [`folder`]: the dated folder, and its creation, lookup and showing.
//! - [`commands`]: the shared settings record and the operations of the
//!   program's surfaces.
//! - [`tray`] and [`startup`]: the tray menu's actions, and the order of
//!   startup and shutdown.
//! - [`host`]: requests, replies and steps, and what it means to run an
//!   operation against a host.
//! - [`error`]: the error that every operation reports.

pub mod commands;
pub mod date;
pub mod error;
pub mod folder;
pub mod host;
pub mod paths;
pub mod settings;
pub mod startup;
pub mod text;
pub mod tray;
pub mod validation;
