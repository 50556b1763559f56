use lsd::git::{
    GitCache, GitStatus, CONFLICTED, CURRENT, IGNORED, INDEX_DELETED, INDEX_MODIFIED, INDEX_NEW,
    INDEX_RENAMED, INDEX_TYPECHANGE, WT_DELETED, WT_MODIFIED, WT_NEW, WT_RENAMED, WT_TYPECHANGE,
};
use lsd::meta::git_file_status::GitFileStatus;

const ALL: [GitStatus; 10] = [
    GitStatus::Default,
    GitStatus::Unmodified,
    GitStatus::Ignored,
    GitStatus::NewInIndex,
    GitStatus::NewInWorkdir,
    GitStatus::Typechange,
    GitStatus::Deleted,
    GitStatus::Renamed,
    GitStatus::Modified,
    GitStatus::Conflicted,
];

fn path(parts: &[&str]) -> Vec<String> {
    parts.iter().map(|p| p.to_string()).collect()
}

fn fs(index: GitStatus, workdir: GitStatus) -> GitFileStatus {
    GitFileStatus { index, workdir }
}

fn repo_cache(entries: &[(&[&str], u32)]) -> GitCache {
    let reported: Vec<(Vec<String>, u32)> = entries.iter().map(|(p, b)| (path(p), *b)).collect();
    GitCache::new(path(&["/", "repo"]), &path(&["/", "repo"]), &reported)
}

#[test]
fn compare_git_status() {
    assert!(GitStatus::Unmodified < GitStatus::Conflicted);
}

#[test]
fn status_order_is_strict_and_total() {
    for (i, a) in ALL.iter().enumerate() {
        assert!(!(a < a));
        for (j, b) in ALL.iter().enumerate() {
            assert_eq!(a < b, i < j);
            assert!(!(a < b && b < a));
            assert!(a == b || a < b || b < a);
            for c in ALL.iter() {
                if a < b && b < c {
                    assert!(a < c);
                }
            }
        }
        if *a != GitStatus::Conflicted {
            assert!(*a < GitStatus::Conflicted);
        }
        if *a != GitStatus::Default {
            assert!(GitStatus::Default < *a);
        }
    }
}

#[test]
fn max_picks_the_later_status() {
    assert_eq!(GitStatus::NewInWorkdir.max(GitStatus::Modified), GitStatus::Modified);
    assert_eq!(GitStatus::Conflicted.max(GitStatus::Ignored), GitStatus::Conflicted);
    assert_eq!(GitStatus::Default.max(GitStatus::Unmodified), GitStatus::Unmodified);
    assert_eq!(GitStatus::Renamed.rank_of(), 7);
}

#[test]
fn combine_is_commutative_and_associative() {
    let samples = [
        fs(GitStatus::Default, GitStatus::Default),
        fs(GitStatus::NewInIndex, GitStatus::Unmodified),
        fs(GitStatus::Unmodified, GitStatus::Modified),
        fs(GitStatus::Deleted, GitStatus::Ignored),
        fs(GitStatus::Conflicted, GitStatus::NewInWorkdir),
    ];
    for a in samples.iter() {
        assert_eq!(GitFileStatus::default().combine(a), *a);
        for b in samples.iter() {
            assert_eq!(a.combine(b), b.combine(a));
            for c in samples.iter() {
                assert_eq!(a.combine(b).combine(c), a.combine(&b.combine(c)));
            }
        }
    }
    let r = fs(GitStatus::NewInIndex, GitStatus::Modified)
        .combine(&fs(GitStatus::Renamed, GitStatus::NewInWorkdir));
    assert_eq!(r, fs(GitStatus::Renamed, GitStatus::Modified));
}

#[test]
fn default_entry_status_is_default_on_both_sides() {
    assert_eq!(GitFileStatus::default(), fs(GitStatus::Default, GitStatus::Default));
}

#[test]
fn classification_of_each_flag() {
    assert_eq!(GitFileStatus::new(CURRENT), fs(GitStatus::Unmodified, GitStatus::Unmodified));
    assert_eq!(GitFileStatus::new(INDEX_NEW).index, GitStatus::NewInIndex);
    assert_eq!(GitFileStatus::new(INDEX_DELETED).index, GitStatus::Deleted);
    assert_eq!(GitFileStatus::new(INDEX_MODIFIED).index, GitStatus::Modified);
    assert_eq!(GitFileStatus::new(INDEX_RENAMED).index, GitStatus::Renamed);
    assert_eq!(GitFileStatus::new(INDEX_TYPECHANGE).index, GitStatus::Typechange);
    assert_eq!(GitFileStatus::new(WT_NEW).workdir, GitStatus::NewInWorkdir);
    assert_eq!(GitFileStatus::new(WT_DELETED).workdir, GitStatus::Deleted);
    assert_eq!(GitFileStatus::new(WT_MODIFIED).workdir, GitStatus::Modified);
    assert_eq!(GitFileStatus::new(WT_RENAMED).workdir, GitStatus::Renamed);
    assert_eq!(GitFileStatus::new(IGNORED).workdir, GitStatus::Ignored);
    assert_eq!(GitFileStatus::new(WT_TYPECHANGE).workdir, GitStatus::Typechange);
    assert_eq!(GitFileStatus::new(CONFLICTED).workdir, GitStatus::Conflicted);
    assert_eq!(GitFileStatus::new(WT_MODIFIED).index, GitStatus::Unmodified);
    assert_eq!(GitFileStatus::new(INDEX_NEW).workdir, GitStatus::Unmodified);
}

#[test]
fn classification_first_match_wins() {
    assert_eq!(
        GitFileStatus::new(INDEX_NEW | INDEX_MODIFIED | WT_MODIFIED | WT_NEW),
        fs(GitStatus::NewInIndex, GitStatus::NewInWorkdir)
    );
    assert_eq!(
        GitFileStatus::new(INDEX_RENAMED | INDEX_TYPECHANGE | IGNORED | CONFLICTED),
        fs(GitStatus::Renamed, GitStatus::Ignored)
    );
    assert_eq!(
        GitFileStatus::new(WT_TYPECHANGE | CONFLICTED),
        fs(GitStatus::Unmodified, GitStatus::Typechange)
    );
}

#[test]
fn empty_cache_answers_default() {
    let cache = GitCache::empty();
    assert_eq!(cache.len(), 0);
    for p in [path(&[]), path(&["/"]), path(&["/", "repo", "a"])].iter() {
        assert_eq!(cache.get(p, true), GitFileStatus::default());
        assert_eq!(cache.get(p, false), GitFileStatus::default());
    }
}

#[test]
fn directory_aggregates_by_fieldwise_max() {
    let cache = repo_cache(&[(&["a", "x"], WT_NEW), (&["a", "y"], WT_MODIFIED | INDEX_NEW)]);
    let r = cache.get(&path(&["/", "repo", "a"]), true);
    assert_eq!(r.workdir, GitStatus::Modified);
    assert_eq!(r.index, GitStatus::NewInIndex);
    let top = cache.get(&path(&["/", "repo"]), true);
    assert_eq!(top, r);
}

#[test]
fn directory_with_nothing_inside_is_default() {
    let cache = repo_cache(&[(&["a", "x"], WT_NEW)]);
    assert_eq!(cache.get(&path(&["/", "repo", "b"]), true), GitFileStatus::default());
}

#[test]
fn directory_prefix_is_by_component() {
    let cache = repo_cache(&[(&["ab", "x"], WT_MODIFIED)]);
    assert_eq!(cache.get(&path(&["/", "repo", "a"]), true), GitFileStatus::default());
    let r = cache.get(&path(&["/", "repo", "ab"]), true);
    assert_eq!(r.workdir, GitStatus::Modified);
}

#[test]
fn exact_match_is_not_an_aggregate() {
    let cache = repo_cache(&[(&["a", "x"], WT_NEW), (&["a", "y"], WT_MODIFIED)]);
    assert_eq!(
        cache.get(&path(&["/", "repo", "a", "x"]), false),
        fs(GitStatus::Unmodified, GitStatus::NewInWorkdir)
    );
    assert_eq!(cache.get(&path(&["/", "repo", "a"]), false), GitFileStatus::default());
    assert_eq!(cache.get(&path(&["a", "x"]), false), GitFileStatus::default());
}

#[test]
fn exact_match_takes_first_entry() {
    let cache = repo_cache(&[(&["f"], WT_DELETED), (&["f"], WT_MODIFIED)]);
    assert_eq!(cache.get(&path(&["/", "repo", "f"]), false).workdir, GitStatus::Deleted);
}

#[test]
fn modified_and_untracked_files_end_to_end() {
    let cache = repo_cache(&[(&["src", "main.x"], WT_MODIFIED), (&["new.x"], WT_NEW)]);
    assert_eq!(cache.len(), 2);
    assert_eq!(
        cache.get(&path(&["/", "repo", "src", "main.x"]), false).workdir,
        GitStatus::Modified
    );
    assert_eq!(cache.get(&path(&["/", "repo", "new.x"]), false).workdir, GitStatus::NewInWorkdir);
    assert_eq!(cache.get(&path(&["/", "repo", "src"]), true).workdir, GitStatus::Modified);
}
