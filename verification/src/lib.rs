//! Decision core of an unattended OS installer.
//!
//! The installer drives external system tools (a partition editor, filesystem
//! formatters, a mount utility, a package installer, a chroot helper). This
//! crate holds everything that can be decided without touching the machine:
//! it turns a partitioning request into the exact ordered sequence of
//! format/mount operations, evaluates the outcome of each external command,
//! schedules retries with exponential backoff, and parses installer output
//! into a progress state. A thin unverified shell executes the plans and
//! feeds the outcomes back.

pub mod args;
pub mod base;
pub mod command;
pub mod desktops;
pub mod eval;
pub mod install;
pub mod locale;
pub mod partition;
pub mod progress;
pub mod strutil;
pub mod userkit;
