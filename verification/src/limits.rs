//! Limits that the platform places on windows.

use vstd::prelude::*;
use vstd::string::StringSliceAdditionalSpecFns;

verus! {

/// The longest window title, in bytes of UTF-8.
pub const SYS_WINDOW_TITLE_LENGTH_MAX: usize = 255;

/// The length that a title of `len` bytes is cut to.
pub open spec fn clamped_len(len: usize) -> usize {
    if len < SYS_WINDOW_TITLE_LENGTH_MAX {
        len
    } else {
        SYS_WINDOW_TITLE_LENGTH_MAX
    }
}

/// Whether a title can be cut to the limit: the cut falls between two
/// characters.
pub open spec fn clampable(title: &str) -> bool {
    vstd::utf8::is_char_boundary(title.spec_bytes(), clamped_len(title.len()) as int)
}

/// A window title, cut to at most `SYS_WINDOW_TITLE_LENGTH_MAX` bytes.
pub struct WindowTitle<'a> {
    pub title: &'a str,
}

impl<'a> WindowTitle<'a> {
    /// The title, cut to the limit.
    pub fn new(title: &'a str) -> (r: Self)
        requires
            clampable(title),
        ensures
            r.title.spec_bytes() == title.spec_bytes().subrange(
                0,
                clamped_len(title.len()) as int,
            ),
            r.limit_check_spec(),
    {
        let mut t = WindowTitle { title };
        t.clamp();
        t
    }

    /// The shortest title.
    pub fn min() -> (r: usize)
        ensures
            r == 0,
    {
        0
    }

    /// The longest title.
    pub fn max() -> (r: usize)
        ensures
            r == SYS_WINDOW_TITLE_LENGTH_MAX,
    {
        SYS_WINDOW_TITLE_LENGTH_MAX
    }

    /// Whether the title is within the limit.
    pub open spec fn limit_check_spec(&self) -> bool {
        self.title.len() <= SYS_WINDOW_TITLE_LENGTH_MAX
    }

    /// Cuts the title to the limit; a title within the limit is kept as it
    /// is.
    pub fn clamp(&mut self)
        requires
            clampable(old(self).title),
        ensures
            final(self).title.spec_bytes() == old(self).title.spec_bytes().subrange(
                0,
                clamped_len(old(self).title.len()) as int,
            ),
            final(self).limit_check_spec(),
            old(self).title.spec_bytes().len() <= SYS_WINDOW_TITLE_LENGTH_MAX
                ==> final(self).title.spec_bytes() == old(self).title.spec_bytes(),
    {
        let len = self.title.len();
        let n = if len < SYS_WINDOW_TITLE_LENGTH_MAX {
            len
        } else {
            SYS_WINDOW_TITLE_LENGTH_MAX
        };
        let ghost before = self.title.spec_bytes();
        proof {
            assert(len == before.len() as usize);
        }
        let (head, _) = self.title.split_at(n);
        self.title = head;
        proof {
            if before.len() <= SYS_WINDOW_TITLE_LENGTH_MAX {
                assert(before.subrange(0, before.len() as int) =~= before);
            }
        }
    }

    /// Returns whether the title is within the limit.
    pub fn limit_check(&self) -> (r: bool)
        ensures
            r == self.limit_check_spec(),
    {
        self.title.len() <= SYS_WINDOW_TITLE_LENGTH_MAX
    }

    /// The title.
    pub fn as_str(&self) -> (r: &'a str)
        ensures
            r == self.title,
    {
        self.title
    }
}

} // verus!
