//! Decision logic of a command-line tool that manages a university VPN profile
//! and a personal network share on Windows.
//!
//! Every operation of the tool is split in two halves: this library decides
//! which external command to run, with which arguments or script, and what
//! the captured result of that command means; the binary around it runs the
//! commands and talks to the user.
pub mod error;
pub mod text;
pub mod cli;
pub mod command;
pub mod drive;
pub mod vpn;
pub mod purge;
