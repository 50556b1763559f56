//! The pair of statuses shown for one entry, and how entries combine.

use crate::git::{
    has_flag, GitStatus, CONFLICTED, IGNORED, INDEX_DELETED, INDEX_MODIFIED, INDEX_NEW,
    INDEX_RENAMED, INDEX_TYPECHANGE, WT_DELETED, WT_MODIFIED, WT_NEW, WT_RENAMED, WT_TYPECHANGE,
};
use crate::color::{ColoredString, Colors, Elem, TermStyle};
use crate::icon::Icons;
use crate::terminal::{paint_all, painted};
use vstd::prelude::*;

verus! {

/// The index-side and working-tree-side status of one entry.
#[derive(Clone, Copy, Debug, PartialEq, Eq, Structural, Hash)]
pub struct GitFileStatus {
    pub index: GitStatus,
    pub workdir: GitStatus,
}

/// The index side of a raw status: the first change that is set, in the
/// order new, deleted, modified, renamed, type change.
pub open spec fn index_status_of(bits: u32) -> GitStatus {
    if has_flag(bits, INDEX_NEW) {
        GitStatus::NewInIndex
    } else if has_flag(bits, INDEX_DELETED) {
        GitStatus::Deleted
    } else if has_flag(bits, INDEX_MODIFIED) {
        GitStatus::Modified
    } else if has_flag(bits, INDEX_RENAMED) {
        GitStatus::Renamed
    } else if has_flag(bits, INDEX_TYPECHANGE) {
        GitStatus::Typechange
    } else {
        GitStatus::Unmodified
    }
}

/// The working-tree side of a raw status: the first change that is set, in
/// the order new, deleted, modified, renamed, ignored, type change,
/// conflicted.
pub open spec fn workdir_status_of(bits: u32) -> GitStatus {
    if has_flag(bits, WT_NEW) {
        GitStatus::NewInWorkdir
    } else if has_flag(bits, WT_DELETED) {
        GitStatus::Deleted
    } else if has_flag(bits, WT_MODIFIED) {
        GitStatus::Modified
    } else if has_flag(bits, WT_RENAMED) {
        GitStatus::Renamed
    } else if has_flag(bits, IGNORED) {
        GitStatus::Ignored
    } else if has_flag(bits, WT_TYPECHANGE) {
        GitStatus::Typechange
    } else if has_flag(bits, CONFLICTED) {
        GitStatus::Conflicted
    } else {
        GitStatus::Unmodified
    }
}

impl GitFileStatus {
    /// The status with no information on either side.
    pub open spec fn default_spec() -> GitFileStatus {
        GitFileStatus { index: GitStatus::Default, workdir: GitStatus::Default }
    }

    /// The entry status that a raw status stands for.
    pub open spec fn from_bits_spec(bits: u32) -> GitFileStatus {
        GitFileStatus { index: index_status_of(bits), workdir: workdir_status_of(bits) }
    }

    /// Side by side, the more notable status of the two entries.
    pub open spec fn combine_spec(self, other: GitFileStatus) -> GitFileStatus {
        GitFileStatus {
            index: self.index.max_spec(other.index),
            workdir: self.workdir.max_spec(other.workdir),
        }
    }

    /// Classifies a raw status, each side on its own.
    pub fn new(status: u32) -> (r: GitFileStatus)
        ensures
            r == GitFileStatus::from_bits_spec(status),
    {
        let index = if status & INDEX_NEW == INDEX_NEW {
            GitStatus::NewInIndex
        } else if status & INDEX_DELETED == INDEX_DELETED {
            GitStatus::Deleted
        } else if status & INDEX_MODIFIED == INDEX_MODIFIED {
            GitStatus::Modified
        } else if status & INDEX_RENAMED == INDEX_RENAMED {
            GitStatus::Renamed
        } else if status & INDEX_TYPECHANGE == INDEX_TYPECHANGE {
            GitStatus::Typechange
        } else {
            GitStatus::Unmodified
        };
        let workdir = if status & WT_NEW == WT_NEW {
            GitStatus::NewInWorkdir
        } else if status & WT_DELETED == WT_DELETED {
            GitStatus::Deleted
        } else if status & WT_MODIFIED == WT_MODIFIED {
            GitStatus::Modified
        } else if status & WT_RENAMED == WT_RENAMED {
            GitStatus::Renamed
        } else if status & IGNORED == IGNORED {
            GitStatus::Ignored
        } else if status & WT_TYPECHANGE == WT_TYPECHANGE {
            GitStatus::Typechange
        } else if status & CONFLICTED == CONFLICTED {
            GitStatus::Conflicted
        } else {
            GitStatus::Unmodified
        };
        GitFileStatus { index, workdir }
    }

    /// The pieces a rendering paints: the glyph of each side in that side's
    /// colour, with a plain space between them.
    pub open spec fn render_parts(self, colors: &Colors, icons: &Icons) -> Seq<(TermStyle, Seq<char>)> {
        seq![
            (colors.style_default_spec(Elem::GitStatus { status: self.index }), icons.glyph(self.index)),
            (TermStyle::plain(), seq![' ']),
            (colors.style_default_spec(Elem::GitStatus { status: self.workdir }), icons.glyph(self.workdir)),
        ]
    }

    /// What a rendering of the entry shows.
    pub open spec fn render_spec(self, colors: &Colors, icons: &Icons) -> Seq<char> {
        painted(self.render_parts(colors, icons))
    }

    /// The two glyphs of the entry, each painted in its status's colour, with
    /// a space between; shown even where both sides are `Default`, so that
    /// columns line up.
    pub fn render(&self, colors: &Colors, icons: &Icons) -> (r: String)
        ensures
            r@ == self.render_spec(colors, icons),
            !colors.uses_palette() ==> r@ == icons.glyph(self.index) + seq![' '] + icons.glyph(self.workdir),
    {
        let index = colors.colorize(icons.get_status(&self.index), &Elem::GitStatus { status: self.index });
        let space = ColoredString { style: TermStyle::default(), text: String::from_str(" ") };
        let workdir = colors.colorize(icons.get_status(&self.workdir), &Elem::GitStatus { status: self.workdir });
        proof {
            reveal_strlit(" ");
        }
        let ghost parts = self.render_parts(colors, icons);
        assert((index.style, index.text@) == parts[0]);
        assert((space.style, space.text@) == parts[1]);
        assert((workdir.style, workdir.text@) == parts[2]);
        let mut strings: Vec<ColoredString> = Vec::new();
        strings.push(index);
        strings.push(space);
        strings.push(workdir);
        proof {
            assert(crate::terminal::parts_view(strings@) =~= parts);
            assert(parts.drop_last().drop_last().drop_last() =~= Seq::<(TermStyle, Seq<char>)>::empty());
            assert(parts.drop_last().drop_last() =~= seq![parts[0]]);
            assert(parts.drop_last() =~= seq![parts[0], parts[1]]);
            let t0 = crate::terminal::texts(parts.drop_last().drop_last().drop_last());
            assert(t0 =~= Seq::<char>::empty());
            assert(parts.drop_last().drop_last().last() == parts[0]);
            let t1 = crate::terminal::texts(parts.drop_last().drop_last());
            assert(t1 =~= parts[0].1);
            let t2 = crate::terminal::texts(parts.drop_last());
            assert(t2 =~= parts[0].1 + parts[1].1);
            assert(crate::terminal::texts(parts) =~= parts[0].1 + parts[1].1 + parts[2].1);
        }
        paint_all(&strings)
    }

    /// Folds two entries into one: the more notable status on each side.
    pub fn combine(&self, other: &GitFileStatus) -> (r: GitFileStatus)
        ensures
            r == self.combine_spec(*other),
    {
        GitFileStatus { index: self.index.max(other.index), workdir: self.workdir.max(other.workdir) }
    }
}

/// Combining entries is commutative and associative, so a fold over any
/// number of entries does not depend on their order; the default status
/// changes nothing it is combined with.
pub proof fn lemma_combine_commutative_associative(a: GitFileStatus, b: GitFileStatus, c: GitFileStatus)
    ensures
        a.combine_spec(b) == b.combine_spec(a),
        a.combine_spec(b).combine_spec(c) == a.combine_spec(b.combine_spec(c)),
        GitFileStatus::default_spec().combine_spec(a) == a,
{
    crate::git::lemma_rank_injective(a.index, b.index);
    crate::git::lemma_rank_injective(a.workdir, b.workdir);
}

/// Rendering depends on the entry, the colours and the icons alone: the same
/// entry rendered twice with the same colours and icons gives the same text,
/// byte for byte.
pub proof fn lemma_render_repeatable(s: GitFileStatus, colors: &Colors, icons: &Icons, first: Seq<char>, second: Seq<char>)
    requires
        first == s.render_spec(colors, icons),
        second == s.render_spec(colors, icons),
    ensures
        first == second,
{
}

impl Default for GitFileStatus {
    fn default() -> (r: GitFileStatus)
        ensures
            r == GitFileStatus::default_spec(),
    {
        GitFileStatus { index: GitStatus::Default, workdir: GitStatus::Default }
    }
}

} // verus!
