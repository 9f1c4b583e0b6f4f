//! A daily journal: collects the day's tasks, renders them as a dated
//! markdown entry, and records the entry as a commit in a git repository.

pub mod date;
pub mod input;
pub mod entry;
pub mod repo;
