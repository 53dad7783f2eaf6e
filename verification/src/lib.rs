//! Core logic of a native launcher for a bundled Java application.
//!
//! The launcher locates a Java runtime, computes the path of the bundled
//! application archive next to the running executable, assembles the command
//! line for the Java interpreter, and reports fatal conditions through a
//! modal dialog. Everything the launcher decides — the order in which runtime
//! sources are consulted, the paths it builds, the exact argument sequence it
//! spawns, and the exit code it ends with — is computed here and verified.
//! The operating-system calls themselves (loading the companion module,
//! reading the environment, spawning the child process, showing the dialog)
//! are performed by a thin driver around this crate.

pub mod command;
pub mod launcher;
pub mod paths;
pub mod utf16;
