//! Runtime link configuration for MSVC-style toolchains.
//!
//! When a program is built for the Microsoft-compatible C-runtime environment
//! in release mode, this library decides which C-runtime components are linked
//! statically versus dynamically: it plans a fixed set of linker directives
//! that exclude the default dynamic and debug runtime libraries and select the
//! static VC runtime together with the dynamic Universal CRT, and it can plan a
//! minimal architecture-tagged stub library that neutralizes a hard-coded
//! default library reference.
//!
//! The planning itself is pure: all build-time facts are gathered into a
//! [`context::BuildContext`] and handed to [`plan::plan`], which returns either
//! a [`plan::Plan`] describing exactly what to emit and write, or a
//! [`context::ConfigError`] when the required target-environment signal is
//! absent. A thin shell around the library reads the environment, prints the
//! planned directives and writes the planned stub file.

pub mod context;
pub mod directive;
pub mod laws;
pub mod plan;
pub mod stub;
