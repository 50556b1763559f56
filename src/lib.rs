//! Version-control status of listed entries: the status taxonomy and its
//! order, a repository-wide status cache with point and subtree queries, and
//! the theme that colours each status for display.

pub mod git;
pub mod icon;
pub mod meta;
pub mod color;
pub mod flags;
mod terminal;
