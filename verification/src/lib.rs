//! Target-driven build and export orchestration for a game-engine/native-language
//! hybrid project layout.
//!
//! The library turns an abstract platform identifier and a build profile into the
//! concrete, platform-correct invocations of the native compiler, the containerized
//! cross-compiler and the engine exporter, together with the canonical artifact
//! paths those invocations produce.  Every function that computes a command line,
//! a path or a decision is verified against an exact contract; the thin shell that
//! actually spawns processes and touches the filesystem lives outside the library
//! and only executes the plans computed here.

pub mod command_spec;
pub mod ftw_build_type;
pub mod ftw_command;
pub mod ftw_compiler;
pub mod ftw_configuration;
pub mod ftw_error;
pub mod ftw_machine_type;
pub mod ftw_success;
pub mod ftw_tag;
pub mod ftw_target;
pub mod ftw_template;
pub mod node_type;
pub mod paths;
pub mod relocation;
pub mod strings;
pub mod traits;
pub mod type_alias;
pub mod util;
