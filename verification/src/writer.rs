//! Progress of writing a buffer to a stream.
use vstd::prelude::*;

verus! {

/// Why encoding or writing stopped short.
#[derive(Debug, Clone, Copy, PartialEq, Eq, Structural)]
pub enum EncodeError {
    /// This many bytes were still to be written.
    More(usize),
}

/// How far a buffer of `len` bytes has been written.
pub struct WriteCursor {
    pub position: usize,
    pub len: usize,
}

impl WriteCursor {
    /// Nothing of a buffer of `len` bytes written yet.
    pub fn new(len: usize) -> (r: Self)
        ensures
            r.position == 0,
            r.len == len,
    {
        WriteCursor { position: 0, len }
    }

    /// Bytes still to be written.
    pub fn remaining(&self) -> (r: usize)
        requires
            self.position <= self.len,
        ensures
            r == self.len - self.position,
    {
        self.len - self.position
    }

    /// Account for a write that took `written` bytes. A write that takes
    /// nothing while bytes remain means the stream can take no more: the
    /// remaining count is reported.
    pub fn advance(&mut self, written: usize) -> (r: Result<(), EncodeError>)
        requires
            old(self).position < old(self).len,
            written <= old(self).len - old(self).position,
        ensures
            written == 0 ==> r == Err::<(), EncodeError>(
                EncodeError::More((old(self).len - old(self).position) as usize),
            ) && *final(self) == *old(self),
            written > 0 ==> r is Ok && final(self).position == old(self).position + written
                && final(self).len == old(self).len,
    {
        if written == 0 {
            return Err(EncodeError::More(self.len - self.position));
        }
        self.position = self.position + written;
        Ok(())
    }
}

} // verus!
