//! Settings of a listing that come from the command line.

pub mod git_status;
