//! A declarative dotfile manager core: a manifest maps target paths to source
//! files, each placed by symlink, byte copy, or template rendering. The sync
//! engine backs up pre-existing targets, creates parent directories, and
//! applies one placement strategy per entry, continuing past per-entry
//! failures. Filesystem effects are specified against an explicit in-memory
//! filesystem state; the surrounding binary drives the same decisions against
//! the real filesystem.

pub mod bootstrap;
pub mod fsmodel;
pub mod laws;
pub mod manifest;
pub mod paths;
pub mod resolver;
pub mod sync;
pub mod template;
