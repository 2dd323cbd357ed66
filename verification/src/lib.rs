//! Task-definition normalization and environment resolution for a
//! project-oriented task runner: merging a task with its platform override
//! and extend layers under precedence and clearing rules, and resolving
//! declared environment entries — literal or script-derived, with `${VAR}`
//! interpolation and splat argument expansion — into an explicit
//! environment store.

pub mod bootstrap;
pub mod envmap;
pub mod envstate;
pub mod expand;
pub mod paths;
pub mod setenv;
pub mod strutil;
pub mod taskexpand;
pub mod types;
