use lsd::git::{
    CONFLICTED, CURRENT, IGNORED, INDEX_DELETED, INDEX_MODIFIED, INDEX_NEW, INDEX_RENAMED,
    INDEX_TYPECHANGE, WT_DELETED, WT_MODIFIED, WT_NEW, WT_RENAMED, WT_TYPECHANGE,
};
use lsd::meta::git_file_status::GitFileStatus;
use lsd::git::GitStatus;

#[test]
fn status_bits_match_git2() {
    assert_eq!(CURRENT, git2::Status::CURRENT.bits());
    assert_eq!(INDEX_NEW, git2::Status::INDEX_NEW.bits());
    assert_eq!(INDEX_MODIFIED, git2::Status::INDEX_MODIFIED.bits());
    assert_eq!(INDEX_DELETED, git2::Status::INDEX_DELETED.bits());
    assert_eq!(INDEX_RENAMED, git2::Status::INDEX_RENAMED.bits());
    assert_eq!(INDEX_TYPECHANGE, git2::Status::INDEX_TYPECHANGE.bits());
    assert_eq!(WT_NEW, git2::Status::WT_NEW.bits());
    assert_eq!(WT_MODIFIED, git2::Status::WT_MODIFIED.bits());
    assert_eq!(WT_DELETED, git2::Status::WT_DELETED.bits());
    assert_eq!(WT_TYPECHANGE, git2::Status::WT_TYPECHANGE.bits());
    assert_eq!(WT_RENAMED, git2::Status::WT_RENAMED.bits());
    assert_eq!(IGNORED, git2::Status::IGNORED.bits());
    assert_eq!(CONFLICTED, git2::Status::CONFLICTED.bits());
}

#[test]
fn git2_status_classifies() {
    let s = git2::Status::INDEX_RENAMED | git2::Status::WT_MODIFIED;
    let r = GitFileStatus::new(s.bits());
    assert_eq!(r.index, GitStatus::Renamed);
    assert_eq!(r.workdir, GitStatus::Modified);
}
