//! Shims for Node.js toolchains: which binary a shim stands for, and which
//! shims there are.
//!
//! A shim is a stub registered under the name of a command. When the name is
//! called, something has to decide what runs: the toolchain that the current
//! project pins, the user's default, a binary that the project brings, or
//! whatever the system has. [`resolve`] makes that decision, as a function of
//! the name and of a [`context::Context`], a snapshot of everything the
//! decision reads. [`registry`] holds the set of registered shims with its
//! two strict operations, [`autoshim`] registers a shim for every binary of a
//! project without giving up at the first failure, [`listing`] lists what is
//! registered, and [`command`] ties them to the words of a command line.
//!
//! The library reads no file and prints nothing. Its caller reads the world
//! into plain values, and carries out on disk what the library decided.

pub mod autoshim;
pub mod class;
pub mod command;
pub mod context;
pub mod error;
pub mod listing;
pub mod location;
pub mod registry;
pub mod resolve;
pub mod target;
pub mod text;
pub mod version;
