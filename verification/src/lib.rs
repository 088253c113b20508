//! A D-Bus daemon launcher.
//!
//! A tool for starting a new isolated instance of a dbus-daemon or a
//! dbus-broker, with the option to configure and start services using D-Bus
//! activation.
//!
//! This crate holds the launcher's logic: what the configuration file says,
//! what the child is started with, how descriptors are kept from leaking
//! into it and how the parent learns whether the program was started. The
//! system calls themselves are made by the caller.

pub mod address;
pub mod channel;
pub mod child;
pub mod config;
pub mod error;
pub mod launcher;
pub mod pipe;
pub mod process;
pub mod request;
pub mod spawn;
pub mod sys;
pub mod xml;

pub use address::escape_path;
pub use config::{Auth, BusType, Config};
pub use error::Error;
pub use launcher::{Daemon, DaemonType, Launcher};
