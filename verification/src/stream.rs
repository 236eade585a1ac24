//! In-memory character streams: a readable `Source` with a cursor and a
//! writable `Sink` that records everything written to it.

use vstd::prelude::*;
use vstd::string::StrSliceExecFns;
use vstd::string::StringExecFns;

verus! {

/// A readable input stream held in memory: the full text and a cursor that
/// marks how far reading has advanced.
pub struct Source {
    text: Vec<char>,
    pos: usize,
}

impl Source {
    /// The cursor never runs past the end of the text.
    pub closed spec fn wf(self) -> bool {
        self.pos <= self.text.len()
    }

    /// The characters that have not been consumed yet.
    pub closed spec fn remaining(self) -> Seq<char> {
        self.text@.skip(self.pos as int)
    }

    /// A fresh stream positioned at the start of `text`.
    pub fn new(text: &str) -> (s: Source)
        ensures
            s.wf(),
            s.remaining() == text@,
    {
        let n = text.unicode_len();
        let mut chars: Vec<char> = Vec::new();
        let mut i: usize = 0;
        while i < n
            invariant
                i <= n,
                n == text@.len(),
                chars@ == text@.take(i as int),
            decreases n - i,
        {
            chars.push(text.get_char(i));
            proof {
                assert(chars@ =~= text@.take(i + 1));
            }
            i = i + 1;
        }
        proof {
            assert(chars@ =~= text@);
        }
        let s = Source { text: chars, pos: 0 };
        proof {
            assert(s.remaining() =~= text@);
        }
        s
    }

    /// How many characters are still unread.
    pub fn remaining_len(&self) -> (n: usize)
        requires
            self.wf(),
        ensures
            n == self.remaining().len(),
    {
        self.text.len() - self.pos
    }

    /// The unread character `i` positions ahead of the cursor.
    pub fn peek_at(&self, i: usize) -> (c: char)
        requires
            self.wf(),
            i < self.remaining().len(),
        ensures
            c == self.remaining()[i as int],
    {
        self.text[self.pos + i]
    }

    /// Consumes the next `n` unread characters.
    pub fn advance(&mut self, n: usize)
        requires
            old(self).wf(),
            n <= old(self).remaining().len(),
        ensures
            final(self).wf(),
            final(self).remaining() == old(self).remaining().skip(n as int),
    {
        self.pos = self.pos + n;
        proof {
            assert(self.text@.skip(self.pos as int) =~= old(
                self,
            ).text@.skip(old(self).pos as int).skip(n as int));
        }
    }
}

/// A writable output stream held in memory: it records every character
/// written to it, in order.
pub struct Sink {
    data: String,
}

impl Sink {
    /// Everything written to this sink so far.
    pub closed spec fn written(self) -> Seq<char> {
        self.data@
    }

    /// A fresh sink with nothing written yet.
    pub fn new() -> (s: Sink)
        ensures
            s.written() == Seq::<char>::empty(),
    {
        Sink { data: String::new() }
    }

    /// Appends `text` to the sink.
    pub fn write_str(&mut self, text: &str)
        ensures
            final(self).written() == old(self).written() + text@,
    {
        self.data.append(text);
    }

    /// An in-memory sink buffers nothing, so flushing changes nothing; the
    /// operation exists so that callers mirror the write-then-flush protocol
    /// of a real console.
    pub fn flush(&mut self)
        ensures
            final(self).written() == old(self).written(),
    {
    }

    /// The recorded output as a string slice.
    pub fn as_str(&self) -> (r: &str)
        ensures
            r@ == self.written(),
    {
        self.data.as_str()
    }
}

} // verus!
