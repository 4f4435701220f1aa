//! Resolution of the on-disk location of a separate debug-information file
//! for a compiled binary.
//!
//! Given the binary's path and a debug descriptor extracted from its headers
//! (a Mach-O build UUID, Windows codeview/PDB identifying info, an ELF
//! build-id, or a GNU debug-link), the engine plans an ordered search over
//! the conventional locations for the companion debug file and validates
//! every candidate by its embedded identity, never by its name alone.
//!
//! The engine does not touch the filesystem or the process environment
//! itself: it is a step machine that emits requests (check that a path
//! exists, list a directory, read a file, read an environment variable,
//! canonicalize a path, query a content index) and consumes the answers.
//! A thin unverified driver performs the requests. Paths are byte strings,
//! interpreted as platform-native path text.

pub mod build_id;
pub mod bytes;
pub mod debuglink;
pub mod descriptor;
pub mod dsym;
pub mod engine;
pub mod hex;
pub mod names;
pub mod paths;
pub mod pdb_search;
