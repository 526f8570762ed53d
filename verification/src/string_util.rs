//! A cursor over a string slice that can strip repeated decoration
//! characters from either end, with the stripped span described exactly.

use vstd::prelude::*;

use vstd::string::StrSliceExecFns;

verus! {

/// The first position at or after `from` whose character is not `c` (the
/// string's end if everything matches).
pub open spec fn skip_char(s: Seq<char>, from: nat, c: char) -> nat
    decreases s.len() - from,
{
    if from < s.len() && s[from as int] == c {
        skip_char(s, (from + 1) as nat, c)
    } else {
        from
    }
}

/// The first position at or after `from` where the two-character prefix
/// `c0 c1` no longer repeats.
pub open spec fn skip_pair(s: Seq<char>, from: nat, c0: char, c1: char) -> nat
    decreases s.len() - from,
{
    if from + 1 < s.len() && s[from as int] == c0 && s[from as int + 1] == c1 {
        skip_pair(s, (from + 2) as nat, c0, c1)
    } else {
        from
    }
}

/// The end of the span after dropping every trailing `c` down to `lo`.
pub open spec fn strip_back(s: Seq<char>, j: nat, lo: nat, c: char) -> nat
    decreases j,
{
    if lo < j && j <= s.len() && s[j - 1] == c {
        strip_back(s, (j - 1) as nat, lo, c)
    } else {
        j
    }
}

/// A window into a string slice.
pub struct StrCursor<'a> {
    s: &'a str,
    lo: usize,
    hi: usize,
}

impl<'a> StrCursor<'a> {
    /// The whole underlying string.
    pub closed spec fn full(&self) -> Seq<char> {
        self.s@
    }

    pub closed spec fn lo_spec(&self) -> nat {
        self.lo as nat
    }

    pub closed spec fn hi_spec(&self) -> nat {
        self.hi as nat
    }

    pub open spec fn wf(&self) -> bool {
        self.lo_spec() <= self.hi_spec() <= self.full().len()
    }

    /// The characters currently in the window.
    pub open spec fn view(&self) -> Seq<char> {
        self.full().subrange(self.lo_spec() as int, self.hi_spec() as int)
    }

    /// A cursor over the whole of `s`.
    pub fn new(s: &'a str) -> (r: StrCursor<'a>)
        ensures
            r.wf(),
            r.full() == s@,
            r.lo_spec() == 0,
            r.hi_spec() == s@.len(),
    {
        let n = s.unicode_len();
        StrCursor { s, lo: 0, hi: n }
    }

    /// Advance the start of the window past every leading `c`. (The window
    /// must still reach the string's end.)
    pub fn skip_leading(&mut self, c: char)
        requires
            old(self).wf(),
            old(self).hi_spec() == old(self).full().len(),
        ensures
            final(self).wf(),
            final(self).full() == old(self).full(),
            final(self).hi_spec() == old(self).hi_spec(),
            final(self).lo_spec() == skip_char(old(self).full(), old(self).lo_spec(), c),
    {
        while self.lo < self.hi && self.s.get_char(self.lo) == c
            invariant
                self.wf(),
                self.full() == old(self).full(),
                self.hi_spec() == old(self).hi_spec(),
                self.hi_spec() == self.full().len(),
                old(self).lo_spec() <= self.lo_spec(),
                skip_char(self.full(), old(self).lo_spec(), c) == skip_char(
                    self.full(),
                    self.lo_spec(),
                    c,
                ),
            decreases self.hi_spec() - self.lo_spec(),
        {
            self.lo = self.lo + 1;
        }
    }

    /// Advance the start of the window past every repetition of the pair
    /// `c0 c1`. (The window must still reach the string's end.)
    pub fn skip_leading_pair(&mut self, c0: char, c1: char)
        requires
            old(self).wf(),
            old(self).hi_spec() == old(self).full().len(),
        ensures
            final(self).wf(),
            final(self).full() == old(self).full(),
            final(self).hi_spec() == old(self).hi_spec(),
            final(self).lo_spec() == skip_pair(old(self).full(), old(self).lo_spec(), c0, c1),
    {
        while self.hi - self.lo > 1 && self.s.get_char(self.lo) == c0 && self.s.get_char(
            self.lo + 1,
        ) == c1
            invariant
                self.wf(),
                self.full() == old(self).full(),
                self.hi_spec() == old(self).hi_spec(),
                self.hi_spec() == self.full().len(),
                old(self).lo_spec() <= self.lo_spec(),
                skip_pair(self.full(), old(self).lo_spec(), c0, c1) == skip_pair(
                    self.full(),
                    self.lo_spec(),
                    c0,
                    c1,
                ),
            decreases self.hi_spec() - self.lo_spec(),
        {
            self.lo = self.lo + 2;
        }
    }

    /// Pull the end of the window back past every trailing `c`.
    pub fn strip_trailing(&mut self, c: char)
        requires
            old(self).wf(),
        ensures
            final(self).wf(),
            final(self).full() == old(self).full(),
            final(self).lo_spec() == old(self).lo_spec(),
            final(self).hi_spec() == strip_back(
                old(self).full(),
                old(self).hi_spec(),
                old(self).lo_spec(),
                c,
            ),
    {
        while self.lo < self.hi && self.s.get_char(self.hi - 1) == c
            invariant
                self.wf(),
                self.full() == old(self).full(),
                self.lo_spec() == old(self).lo_spec(),
                self.hi_spec() <= old(self).hi_spec(),
                strip_back(self.full(), old(self).hi_spec(), self.lo_spec(), c) == strip_back(
                    self.full(),
                    self.hi_spec(),
                    self.lo_spec(),
                    c,
                ),
            decreases self.hi_spec(),
        {
            self.hi = self.hi - 1;
        }
    }

    /// How many characters the window holds.
    pub fn len(&self) -> (r: usize)
        requires
            self.wf(),
        ensures
            r == self@.len(),
    {
        self.hi - self.lo
    }

    /// The `k`-th character of the window.
    pub fn char_at(&self, k: usize) -> (r: char)
        requires
            self.wf(),
            k < self@.len(),
        ensures
            r == self@[k as int],
    {
        self.s.get_char(self.lo + k)
    }
}

} // verus!
