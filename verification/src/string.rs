//! Owned text buffers handed to the engine.
//!
//! The engine keeps raw pointers to configuration strings (for example the
//! persisted-settings path) and expects them to be terminated. `ImString`
//! owns such a buffer and guarantees, as a checked invariant rather than by
//! construction-time trust, that the buffer carries exactly one terminator,
//! at the end.

use vstd::prelude::*;

verus! {

/// An owned byte buffer with a single trailing zero terminator and no
/// interior zero byte. The buffer stays valid for as long as the value
/// lives, so an engine field set to point at it never dangles while the
/// owning context holds it.
#[derive(Debug)]
pub struct ImString {
    pub buf: Vec<u8>,
}

impl ImString {
    /// The buffer is nonempty, ends in a zero byte, and holds no other
    /// zero byte.
    pub open spec fn wf(&self) -> bool {
        &&& self.buf@.len() >= 1
        &&& self.buf@[self.buf@.len() - 1] == 0u8
        &&& forall|i: int| 0 <= i < self.buf@.len() - 1 ==> self.buf@[i] != 0u8
    }

    /// The text content, without the terminator.
    pub open spec fn text(&self) -> Seq<u8> {
        self.buf@.take(self.buf@.len() - 1)
    }

    /// Builds a terminated buffer from plain bytes, appending the
    /// terminator. Rejects input that already contains a zero byte, since
    /// the engine would silently truncate at it.
    pub fn from_bytes(bytes: Vec<u8>) -> (r: Option<ImString>)
        ensures
            r is Some <==> (forall|i: int| 0 <= i < bytes@.len() ==> bytes@[i] != 0u8),
            r matches Some(s) ==> s.wf() && s.text() == bytes@,
    {
        let n: usize = bytes.len();
        let mut i: usize = 0;
        while i < n
            invariant
                n == bytes@.len(),
                0 <= i <= n,
                forall|j: int| 0 <= j < i ==> bytes@[j] != 0u8,
            decreases n - i,
        {
            if bytes[i] == 0u8 {
                return None;
            }
            i += 1;
        }
        let mut buf = bytes;
        buf.push(0u8);
        let s = ImString { buf };
        proof {
            assert(s.text() =~= bytes@);
        }
        Some(s)
    }

    /// Length of the text, not counting the terminator.
    pub fn len(&self) -> (n: usize)
        requires
            self.wf(),
        ensures
            n == self.text().len(),
    {
        self.buf.len() - 1
    }

    /// The whole buffer, terminator included: what the engine's pointer
    /// would address.
    pub fn as_bytes_with_nul(&self) -> (r: &Vec<u8>)
        ensures
            r == self.buf,
    {
        &self.buf
    }
}

} // verus!
