//! Decisions of a small project-directory manager.
//!
//! A project is a directory. The library decides what is to be done for a
//! command (which path to look at, which directory to create or remove, what
//! to say and how to end) and leaves the doing to its caller: it never touches
//! the directory tree or starts a process itself. The caller tells it what it
//! observed, as plain values, and carries out the [`project::Action`] it gets
//! back.

pub mod dispatch;
pub mod error;
pub mod parser;
pub mod project;
pub mod tree;
pub mod views;
