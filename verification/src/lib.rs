//! Scaffolding of backend service projects: the starter templates, the
//! commands handed to the package manager, the files laid out on disk and
//! the order in which all of it happens.
//!
//! Nothing here touches the file system or starts a process. The library
//! decides what is to be done and in which order; a caller performs each
//! action and reports back whether it succeeded.

pub mod text;
pub mod template;
pub mod command;
pub mod action;
pub mod layout;
pub mod repository;
pub mod workflow;
pub mod laws;
pub mod report;
