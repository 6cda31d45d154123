//! Shortens the edit, build, test cycle for one package of a colcon
//! workspace.
//!
//! The library decides; it does not act. It finds out which invocations
//! of the build and test tools a command needs, writes each one token by
//! token in the order the tools require, and says after each run whether
//! to go on. Launching processes and reading the file system are left to
//! the caller, who reports back what happened.
//!
//! - [`args`]: the ordered token store.
//! - [`decorate`]: the lines shown around the tools' output.
//! - [`profile`]: configuration profiles and their presets.
//! - [`tokens`]: the token grammar of the build tool.
//! - [`pipeline`]: the staged builder from profile to invocation.
//! - [`locate`]: the upward search for workspace and package.
//! - [`store`]: loading and initialising the stored configuration.
//! - [`orchestrate`]: the plan of each command and its fail-fast run.
//! - [`text`]: string builders used by the rest.

pub mod args;
pub mod decorate;
pub mod locate;
pub mod orchestrate;
pub mod pipeline;
pub mod profile;
pub mod store;
pub mod text;
pub mod tokens;
