//! A small desktop utility library: pick a `.deb` package file, check the
//! user's authorization with the system policy service, and install the file
//! through the privileged package daemon.
//!
//! The verified core holds the data model of a chosen package file, the
//! message-driven interface state machine, the install-flow state machine,
//! and the decision logic of the authorization and installation steps.
//! The surrounding process (GUI toolkit, bus connections, file-chooser
//! portal) drives these functions from the outside.

pub mod app;
pub mod flow;
pub mod package;
