//! Toolchain installers of a project-scaffolding tool, as verified decisions.
//!
//! `installers` gives, for each toolchain and operating-system family, the plan
//! of probes and commands that installs it, and a session that walks a plan one
//! step at a time while its caller runs the commands. `selection` states what
//! those plans select, `shell` decides yes/no replies, and `config` holds the
//! settings of a new project.

pub mod config;
pub mod installers;
pub mod selection;
pub mod shell;
