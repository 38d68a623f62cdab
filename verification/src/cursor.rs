//! The lookahead cursor: wraps a character source and exposes speculative
//! peeking ahead of a committed position, a reset of the speculative
//! position, and an explicit commit ("advance by n").

use vstd::prelude::*;

verus! {

/// The mathematical model of a [`LookaheadCursor`]: the full character
/// sequence, the committed position, and the speculative peek position.
pub struct CursorModel {
    pub chars: Seq<char>,
    pub committed: int,
    pub ahead: int,
}

/// A cursor over a character source with two positions: `committed` marks how
/// many characters have been consumed for good, while `ahead` is a
/// speculative position that `peek` moves forward and `reset_peek` rewinds.
/// Committing never rewinds; resetting never touches committed progress.
pub struct LookaheadCursor<'a> {
    src: &'a str,
    len: usize,
    committed: usize,
    ahead: usize,
}

impl<'a> View for LookaheadCursor<'a> {
    type V = CursorModel;

    closed spec fn view(&self) -> CursorModel {
        CursorModel {
            chars: self.src@,
            committed: self.committed as int,
            ahead: self.ahead as int,
        }
    }
}

impl<'a> LookaheadCursor<'a> {
    /// Internal consistency: the cached character count matches the source.
    pub closed spec fn inv(self) -> bool {
        self.len == self.src@.len()
    }

    /// Well-formedness: the committed position never passes the speculative
    /// one, and both stay within the source.
    pub open spec fn wf(self) -> bool {
        &&& self.inv()
        &&& 0 <= self@.committed <= self@.ahead <= self@.chars.len()
        &&& self@.chars.len() <= usize::MAX
    }

    pub fn new(src: &'a str) -> (c: Self)
        ensures
            c.wf(),
            c@.chars == src@,
            c@.committed == 0,
            c@.ahead == 0,
    {
        let len = src.unicode_len();
        LookaheadCursor { src, len, committed: 0, ahead: 0 }
    }

    /// Returns the next not-yet-peeked character, moving the speculative
    /// position one step forward, or `None` at the end of the source.
    pub fn peek(&mut self) -> (r: Option<char>)
        requires
            old(self).wf(),
        ensures
            final(self).wf(),
            final(self)@.chars == old(self)@.chars,
            final(self)@.committed == old(self)@.committed,
            match r {
                Some(c) => {
                    &&& old(self)@.ahead < old(self)@.chars.len()
                    &&& c == old(self)@.chars[old(self)@.ahead]
                    &&& final(self)@.ahead == old(self)@.ahead + 1
                },
                None => {
                    &&& old(self)@.ahead == old(self)@.chars.len()
                    &&& final(self)@.ahead == old(self)@.ahead
                },
            },
    {
        if self.ahead < self.len {
            let c = self.src.get_char(self.ahead);
            self.ahead = self.ahead + 1;
            Some(c)
        } else {
            None
        }
    }

    /// Rewinds the speculative position back to the committed position,
    /// discarding all speculative progress.
    pub fn reset_peek(&mut self)
        requires
            old(self).wf(),
        ensures
            final(self).wf(),
            final(self)@.chars == old(self)@.chars,
            final(self)@.committed == old(self)@.committed,
            final(self)@.ahead == old(self)@.committed,
    {
        self.ahead = self.committed;
    }

    /// Commits `n` characters for good and discards speculative progress.
    /// Committing past the end of the source is a contract violation, so it
    /// is excluded here rather than handled at run time.
    pub fn advance(&mut self, n: usize)
        requires
            old(self).wf(),
            old(self)@.committed + n <= old(self)@.chars.len(),
        ensures
            final(self).wf(),
            final(self)@.chars == old(self)@.chars,
            final(self)@.committed == old(self)@.committed + n,
            final(self)@.ahead == final(self)@.committed,
    {
        self.committed = self.committed + n;
        self.ahead = self.committed;
    }

    /// Whether every character has been committed.
    pub fn at_end(&self) -> (r: bool)
        requires
            self.wf(),
        ensures
            r <==> self@.committed == self@.chars.len(),
    {
        self.committed == self.len
    }

    /// The committed position, which is also the offset of the next token.
    pub fn position(&self) -> (r: usize)
        requires
            self.wf(),
        ensures
            r == self@.committed,
    {
        self.committed
    }

    /// A copy of the characters between two positions, for carrying matched
    /// text out of the source.
    pub fn text(&self, from: usize, to: usize) -> (r: String)
        requires
            self.wf(),
            from <= to <= self@.chars.len(),
        ensures
            r@ == self@.chars.subrange(from as int, to as int),
    {
        let piece = self.src.substring_char(from, to);
        String::from_str(piece)
    }
}

} // verus!
