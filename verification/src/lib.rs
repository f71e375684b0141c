//! The decisions of an analyzer host's file system, verified with Verus.
//!
//! The host enumerates the files of a folder, watches the folder from then on, and reports
//! every change below it to its message loop. This library holds what is decided on the way:
//! which roots are watched and which call to the operating system's watcher a request needs
//! ([`watch`]), which notification a change event becomes ([`translator`]), which files of a
//! scanned folder match a pattern ([`enumerate`]), and what the bytes of a file are as text
//! ([`contents`]). It also reads the command line of the LSIF dump ([`flags`]).
//!
//! The library does no input or output. Its caller watches, scans and reads, and hands in
//! what came of it.

pub mod address;
pub mod contents;
pub mod enumerate;
pub mod flags;
pub mod text;
pub mod translator;
pub mod watch;
