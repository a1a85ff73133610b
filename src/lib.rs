//! Sorts the files of one folder into subfolders named after their creation date.
//!
//! The library holds the decisions: how a typed path is cleaned, which files
//! qualify, how a creation time becomes a `YYYY.MM.DD` folder name, where each
//! file goes, and when the prompt gives up. The file system is left to callers.

pub mod text;
pub mod date;
pub mod scan;
pub mod plan;
pub mod session;
