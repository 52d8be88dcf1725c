//! The control shell: themes, reading command lines, and command execution.
pub mod theme;
pub mod input;
pub mod commands;
pub mod help;
