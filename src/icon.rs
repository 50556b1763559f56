//! The glyphs shown for statuses.

use crate::git::GitStatus;
use vstd::prelude::*;

verus! {

/// The glyph of the first pair that names `status`, or nothing where no pair
/// does.
pub open spec fn glyph_of(glyphs: Seq<(GitStatus, Seq<char>)>, status: GitStatus) -> Seq<char>
    decreases glyphs.len(),
{
    if glyphs.len() == 0 {
        Seq::empty()
    } else if glyphs[0].0 == status {
        glyphs[0].1
    } else {
        glyph_of(glyphs.drop_first(), status)
    }
}

/// A glyph for some of the statuses; a status without one shows as blank.
pub struct Icons {
    status_glyphs: Vec<(GitStatus, String)>,
}

impl View for Icons {
    type V = Seq<(GitStatus, Seq<char>)>;

    closed spec fn view(&self) -> Seq<(GitStatus, Seq<char>)> {
        self.status_glyphs@.map_values(|p: (GitStatus, String)| (p.0, p.1@))
    }
}

impl Icons {
    /// The glyph shown for a status.
    pub open spec fn glyph(&self, status: GitStatus) -> Seq<char> {
        glyph_of(self@, status)
    }

    /// An icon set with the given glyph for each status it names.
    pub fn new(status_glyphs: Vec<(GitStatus, String)>) -> (r: Icons)
        ensures
            r@ == status_glyphs@.map_values(|p: (GitStatus, String)| (p.0, p.1@)),
    {
        Icons { status_glyphs }
    }

    /// The glyph of `status`, empty where the set has none.
    pub fn get_status(&self, status: &GitStatus) -> (r: String)
        ensures
            r@ == self.glyph(*status),
    {
        let ghost glyphs = self@;
        assert(glyphs.subrange(0, glyphs.len() as int) =~= glyphs);
        let mut i: usize = 0;
        while i < self.status_glyphs.len()
            invariant
                glyphs == self@,
                i <= self.status_glyphs.len(),
                glyph_of(glyphs, *status) == glyph_of(glyphs.subrange(i as int, glyphs.len() as int), *status),
            decreases self.status_glyphs.len() - i,
        {
            let ghost rest = glyphs.subrange(i as int, glyphs.len() as int);
            assert(rest[0] == (self.status_glyphs@[i as int].0, self.status_glyphs@[i as int].1@));
            assert(rest.drop_first() =~= glyphs.subrange(i + 1, glyphs.len() as int));
            if self.status_glyphs[i].0 == *status {
                return self.status_glyphs[i].1.clone();
            }
            i = i + 1;
        }
        String::new()
    }
}

} // verus!
