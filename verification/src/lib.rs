//! A SQLite virtual file system over the browser's Origin Private File System
//! (OPFS), entered through JavaScript Promise Integration (JSPI).
//!
//! The library holds every decision of the file system: names, offsets, the
//! table of open files, the life of one open file, installation and removal,
//! and the order in which SQLite is entered. Talking to JavaScript and to
//! SQLite's registry is left to the caller: where such a call is due, a
//! function here answers with the step to take, and another one takes what
//! came back.

pub mod error;
pub mod file;
pub mod guard;
pub mod install;
pub mod memory;
pub mod naming;
pub mod options;
pub mod script;
pub mod store;
pub mod text;
