//! A bidirectional cursor over the characters of a string.
//!
//! A `CharStream` takes ownership of a `String` and lets its holder walk
//! forward and backward through the characters one at a time. The cursor is
//! not a ring: a step past either end fails with `CharStreamError::FallsOffEnd`
//! and never wraps around.
//!
//! Abstractly a cursor is its text, a sequence of characters fixed at
//! construction, and a position `p` with `-1 <= p <= len`: `-1` before the first
//! character (not started), `len` past the last one (exhausted), and anything
//! in between the index of the current character.
use vstd::prelude::*;

pub mod laws;

verus! {

/// Failure of a cursor operation.
#[derive(Debug, PartialEq, Eq, Structural)]
pub enum CharStreamError {
    /// A step would leave the characters, or there is no current character to
    /// read.
    FallsOffEnd,
}

/// Where a cursor stands.
#[derive(Debug, Clone, Copy, PartialEq, Eq)]
enum Position {
    /// Before the first character: no step has been taken yet.
    Unstarted,
    /// On the character with this index.
    At(usize),
    /// Past the last character: a forward step has failed.
    Exhausted,
}

/// A cursor over the characters of an owned string.
#[derive(Debug, PartialEq)]
pub struct CharStream {
    chars: Vec<char>,
    position: Position,
}

/// Whether `p` is a position that a cursor over `len` characters can hold.
pub open spec fn in_bounds(len: int, p: int) -> bool {
    -1 <= p <= len
}

/// Position after a forward step from `p`: one further on, or the exhausted
/// position `len` when that would leave the characters.
pub open spec fn next_pos(len: int, p: int) -> int {
    if p + 1 < len {
        p + 1
    } else {
        len
    }
}

/// Outcome of a forward step from `p`: the character stepped onto, or a failure
/// when the step would leave the characters.
pub open spec fn next_result(text: Seq<char>, p: int) -> Result<char, CharStreamError> {
    if p + 1 < text.len() {
        Ok(text[p + 1])
    } else {
        Err(CharStreamError::FallsOffEnd)
    }
}

/// Position after a backward step from `p`: one back, or `p` itself when there
/// is no character before it.
pub open spec fn prev_pos(p: int) -> int {
    if p >= 1 {
        p - 1
    } else {
        p
    }
}

/// Outcome of a backward step from `p`: the character stepped onto, or a
/// failure when there is no character before `p`.
pub open spec fn prev_result(text: Seq<char>, p: int) -> Result<char, CharStreamError> {
    if p >= 1 {
        Ok(text[p - 1])
    } else {
        Err(CharStreamError::FallsOffEnd)
    }
}

/// The character at position `p`, or a failure where `p` holds none (not
/// started, or exhausted).
pub open spec fn value_at(text: Seq<char>, p: int) -> Result<char, CharStreamError> {
    if 0 <= p < text.len() {
        Ok(text[p])
    } else {
        Err(CharStreamError::FallsOffEnd)
    }
}

/// A cursor that steps in both directions over a fixed sequence of characters.
///
/// Each step changes the position only: `text` stays as it was.
pub trait BiDirectionalIterator: Sized {
    /// The characters walked over.
    spec fn text(&self) -> Seq<char>;

    /// The current position, in `-1 ..= text().len()`.
    spec fn pos(&self) -> int;

    /// The internal consistency of the cursor.
    spec fn well_formed(&self) -> bool;

    /// Steps forward and returns the character stepped onto. At the end the
    /// step fails and the cursor is left exhausted.
    fn next(&mut self) -> (r: Result<char, CharStreamError>)
        requires
            old(self).well_formed(),
        ensures
            final(self).well_formed(),
            final(self).text() == old(self).text(),
            in_bounds(final(self).text().len() as int, final(self).pos()),
            final(self).pos() == next_pos(old(self).text().len() as int, old(self).pos()),
            r == next_result(old(self).text(), old(self).pos()),
    ;

    /// Steps back and returns the character stepped onto. Where there is no
    /// character before the current position the step fails and the cursor
    /// does not move.
    fn prev(&mut self) -> (r: Result<char, CharStreamError>)
        requires
            old(self).well_formed(),
        ensures
            final(self).well_formed(),
            final(self).text() == old(self).text(),
            in_bounds(final(self).text().len() as int, final(self).pos()),
            final(self).pos() == prev_pos(old(self).pos()),
            r == prev_result(old(self).text(), old(self).pos()),
    ;

    /// Steps forward as `next` does, and hands back the cursor itself instead
    /// of the character.
    fn peek_next(&mut self) -> (r: Result<&mut Self, CharStreamError>)
        requires
            old(self).well_formed(),
        ensures
            r is Ok <==> next_result(old(self).text(), old(self).pos()) is Ok,
            match r {
                Ok(s) => {
                    &&& s.well_formed()
                    &&& s.text() == old(self).text()
                    &&& in_bounds(s.text().len() as int, s.pos())
                    &&& s.pos() == next_pos(old(self).text().len() as int, old(self).pos())
                    &&& *final(self) == *final(s)
                },
                Err(e) => {
                    &&& e == CharStreamError::FallsOffEnd
                    &&& final(self).well_formed()
                    &&& final(self).text() == old(self).text()
                    &&& in_bounds(final(self).text().len() as int, final(self).pos())
                    &&& final(self).pos() == next_pos(old(self).text().len() as int, old(self).pos())
                },
            },
    ;

    /// Steps back as `prev` does, and hands back the cursor itself instead of
    /// the character.
    fn peek_prev(&mut self) -> (r: Result<&mut Self, CharStreamError>)
        requires
            old(self).well_formed(),
        ensures
            r is Ok <==> prev_result(old(self).text(), old(self).pos()) is Ok,
            match r {
                Ok(s) => {
                    &&& s.well_formed()
                    &&& s.text() == old(self).text()
                    &&& in_bounds(s.text().len() as int, s.pos())
                    &&& s.pos() == prev_pos(old(self).pos())
                    &&& *final(self) == *final(s)
                },
                Err(e) => {
                    &&& e == CharStreamError::FallsOffEnd
                    &&& *final(self) == *old(self)
                },
            },
    ;

    /// The character under the cursor, or a failure where there is none (not
    /// started yet, or exhausted).
    fn value(&self) -> (r: Result<char, CharStreamError>)
        requires
            self.well_formed(),
        ensures
            r == value_at(self.text(), self.pos()),
    ;
}

impl CharStream {
    /// A cursor over the characters of `s`, standing before the first one.
    pub fn from(s: String) -> (r: Self)
        ensures
            r.well_formed(),
            r.text() == s@,
            r.pos() == -1,
    {
        let mut chars: Vec<char> = Vec::new();
        for c in it: s.as_str().chars()
            invariant
                it.seq() == s@,
                chars@ == it.seq().take(it.index() as int),
        {
            chars.push(c);
        }
        CharStream { chars, position: Position::Unstarted }
    }

    /// Moves one character forward; on failure the cursor becomes exhausted.
    /// Returns whether the cursor now stands on a character.
    fn step_forward(&mut self) -> (moved: bool)
        requires
            old(self).well_formed(),
        ensures
            final(self).well_formed(),
            final(self).text() == old(self).text(),
            final(self).pos() == next_pos(old(self).text().len() as int, old(self).pos()),
            moved == (old(self).pos() + 1 < old(self).text().len()),
    {
        let len = self.chars.len();
        let candidate: usize = match self.position {
            Position::Unstarted => 0,
            Position::At(i) => i + 1,
            Position::Exhausted => len,
        };
        if candidate < len {
            self.position = Position::At(candidate);
            true
        } else {
            self.position = Position::Exhausted;
            false
        }
    }

    /// Moves one character back where there is one before the current
    /// position; otherwise leaves the cursor as it is. Returns whether it moved.
    fn step_back(&mut self) -> (moved: bool)
        requires
            old(self).well_formed(),
        ensures
            final(self).well_formed(),
            moved ==> final(self).text() == old(self).text(),
            moved ==> final(self).pos() == old(self).pos() - 1,
            !moved ==> *final(self) == *old(self),
            moved == (old(self).pos() >= 1),
    {
        let len = self.chars.len();
        match self.position {
            Position::At(i) => {
                if i >= 1 {
                    self.position = Position::At(i - 1);
                    true
                } else {
                    false
                }
            },
            Position::Exhausted => {
                if len >= 1 {
                    self.position = Position::At(len - 1);
                    true
                } else {
                    false
                }
            },
            Position::Unstarted => false,
        }
    }
}

impl BiDirectionalIterator for CharStream {
    closed spec fn text(&self) -> Seq<char> {
        self.chars@
    }

    closed spec fn pos(&self) -> int {
        match self.position {
            Position::Unstarted => -1,
            Position::At(i) => i as int,
            Position::Exhausted => self.chars@.len() as int,
        }
    }

    closed spec fn well_formed(&self) -> bool {
        match self.position {
            Position::At(i) => i < self.chars@.len(),
            _ => true,
        }
    }

    fn next(&mut self) -> (r: Result<char, CharStreamError>) {
        if self.step_forward() {
            self.value()
        } else {
            Err(CharStreamError::FallsOffEnd)
        }
    }

    fn prev(&mut self) -> (r: Result<char, CharStreamError>) {
        if self.step_back() {
            self.value()
        } else {
            Err(CharStreamError::FallsOffEnd)
        }
    }

    fn peek_next(&mut self) -> (r: Result<&mut Self, CharStreamError>) {
        if self.step_forward() {
            Ok(self)
        } else {
            Err(CharStreamError::FallsOffEnd)
        }
    }

    fn peek_prev(&mut self) -> (r: Result<&mut Self, CharStreamError>) {
        if self.step_back() {
            Ok(self)
        } else {
            Err(CharStreamError::FallsOffEnd)
        }
    }

    fn value(&self) -> (r: Result<char, CharStreamError>) {
        match self.position {
            Position::At(i) => Ok(self.chars[i]),
            _ => Err(CharStreamError::FallsOffEnd),
        }
    }
}

} // verus!
