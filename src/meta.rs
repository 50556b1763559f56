//! What is shown beside each listed entry.

pub mod git_file_status;
