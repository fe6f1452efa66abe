//! Scaffolding of workspace-style Rust projects, as a pure core.
//!
//! The crate decides *what* has to be done to create a project (which tool to
//! run, which file to write, when to stop) and leaves the doing to its caller.
//! The caller asks an [`init::Initializer`] for the next [`action::Action`],
//! performs it, and reports the [`action::Outcome`] back, until the
//! initializer has ended; [`error::report`] then gives the line to show.
//!
//! [`run`] follows the initializer through every sequence of outcomes and
//! proves what holds of all of them: the steps are taken in order, the first
//! failure is the end, and a success has done everything exactly once.

pub mod action;
pub mod args;
pub mod error;
pub mod init;
pub mod layout;
pub mod run;
pub mod template;
