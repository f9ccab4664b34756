//! The core of an unattended installer for a desktop application: what is
//! fetched, where it is unpacked, how the product is made known to the
//! system, and how all of it is removed again.
//!
//! The core decides and does nothing else. An install, an uninstall or a
//! launch is a run that hands out one command at a time and takes back how
//! the command went; the program around it touches the file system, the
//! network, the registry and the window. See `protocol` for the commands,
//! `install`, `uninstall` and `launch` for the runs, and `laws` and
//! `unpacking` for what is proved of every run.

pub mod archive;
pub mod config;
pub mod install;
pub mod launch;
pub mod laws;
pub mod progress;
pub mod protocol;
pub mod registrar;
pub mod text;
pub mod uninstall;
pub mod unpacking;
