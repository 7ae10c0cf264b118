//! A keyboard-driven manager of notes and todos.
//!
//! The crate holds the state machine of the application: the entities, the
//! modes and sections, the command line, and what is stored and exported.
//! Everything here works on values in memory; a host program reads the
//! keys, hands them to [`input::handle_key`], carries out the
//! [`app::Action`] that comes back on the files, and draws the state.

pub mod text;
pub mod error;
pub mod tags;
pub mod note;
pub mod catalog;
pub mod date;
pub mod todo;
pub mod csv_sink;
pub mod file_io;
pub mod app;
pub mod command;
pub mod input;
pub mod laws;
pub mod display;
