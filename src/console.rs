//! The system console: its interfaces, and an output that queues bytes for a
//! memory-mapped transmit register.

use vstd::prelude::*;
use vstd::arithmetic::div_mod::{lemma_add_mod_noop, lemma_mod_self_0, lemma_small_mod};
use vstd::string::StrSliceExecFns;
use crate::sync::{Mutex, NullLock};

verus! {

/// Console output.
pub trait Write {
    /// Writes one character.
    fn write_char(&mut self, c: char);

    /// Writes every character of `s`, in order.
    fn write_str(&mut self, s: &str);
}

/// Console statistics.
pub trait Statistics {
    /// Characters written so far.
    fn chars_written(&self) -> usize {
        0
    }

    /// Characters read so far.
    fn chars_read(&self) -> usize {
        0
    }
}

/// A full console: output and statistics.
pub trait All: Write + Statistics {

}

/// The byte that a character is sent as: its code's low eight bits.
pub open spec fn byte_of(c: char) -> u8 {
    (c as u32 % 256) as u8
}

/// The bytes sent for `s`: each newline preceded by a carriage return.
pub open spec fn crlf_bytes(s: Seq<char>) -> Seq<u8>
    decreases s.len(),
{
    if s.len() == 0 {
        Seq::empty()
    } else {
        let c = s.last();
        let own = if c == '\n' {
            seq![byte_of('\r'), byte_of('\n')]
        } else {
            seq![byte_of(c)]
        };
        crlf_bytes(s.drop_last()) + own
    }
}

/// The byte that `c` is sent as.
fn char_byte(c: char) -> (r: u8)
    ensures
        r == byte_of(c),
{
    ((c as u32) % 256) as u8
}

/// The state behind [`QEMUOutput`]: how many characters were written, and
/// the bytes that wait for the transmit register.
pub struct QEMUOutputInner {
    chars_written: usize,
    pending: Vec<u8>,
}

impl QEMUOutputInner {
    /// Characters written so far, counted modulo the word size.
    pub closed spec fn written(&self) -> usize {
        self.chars_written
    }

    /// Bytes that wait to be sent.
    pub closed spec fn pending_bytes(&self) -> Seq<u8> {
        self.pending@
    }

    /// Nothing written, nothing waiting.
    pub fn new() -> (r: Self)
        ensures
            r.written() == 0,
            r.pending_bytes() == Seq::<u8>::empty(),
    {
        QEMUOutputInner { chars_written: 0, pending: Vec::new() }
    }

    /// Hands out the waiting bytes, oldest first, and forgets them.
    pub fn take_pending(&mut self) -> (r: Vec<u8>)
        ensures
            r@ == old(self).pending_bytes(),
            final(self).pending_bytes() == Seq::<u8>::empty(),
            final(self).written() == old(self).written(),
    {
        let mut out: Vec<u8> = Vec::new();
        std::mem::swap(&mut out, &mut self.pending);
        out
    }
}

impl Write for QEMUOutputInner {
    /// Queues the byte for `c` and counts it.
    fn write_char(&mut self, c: char)
        ensures
            final(self).pending_bytes() == old(self).pending_bytes().push(byte_of(c)),
            final(self).written() == (old(self).written() + 1) % (usize::MAX as int + 1),
    {
        proof {
            let m = usize::MAX as int + 1;
            if self.chars_written == usize::MAX {
                lemma_mod_self_0(m);
            } else {
                lemma_small_mod((self.chars_written + 1) as nat, m as nat);
            }
        }
        self.pending.push(char_byte(c));
        self.chars_written = self.chars_written.wrapping_add(1);
    }

    /// Queues the bytes for `s`, each newline preceded by a carriage return.
    fn write_str(&mut self, s: &str)
        ensures
            final(self).pending_bytes() == old(self).pending_bytes() + crlf_bytes(s@),
            final(self).written() == (old(self).written() + crlf_bytes(s@).len()) % (
            usize::MAX as int + 1),
    {
        let n = s.unicode_len();
        let mut i: usize = 0;
        proof {
            assert(s@.take(0).len() == 0);
            lemma_small_mod(self.written() as nat, usize::MAX as nat + 1);
        }
        while i < n
            invariant
                n == s@.len(),
                i <= n,
                self.pending_bytes() == old(self).pending_bytes() + crlf_bytes(s@.take(i as int)),
                self.written() == (old(self).written() + crlf_bytes(s@.take(i as int)).len()) % (
                usize::MAX as int + 1),
            decreases n - i,
        {
            let ghost before = self.written() as int;
            let ghost sent = crlf_bytes(s@.take(i as int)).len() as int;
            let c = s.get_char(i);
            if c == '\n' {
                self.write_char('\r');
            }
            self.write_char(c);
            proof {
                let m = usize::MAX as int + 1;
                let base = old(self).written() as int + sent;
                assert(s@.take(i + 1).drop_last() =~= s@.take(i as int));
                lemma_add_mod_noop(base, 1, m);
                lemma_small_mod(1, m as nat);
                lemma_small_mod(2, m as nat);
                lemma_add_mod_noop(base + 1, 1, m);
                lemma_add_mod_noop(base, 2, m);
            }
            i = i + 1;
        }
        assert(s@.take(n as int) =~= s@);
    }
}

impl Statistics for QEMUOutputInner {
    /// Characters written so far, counted modulo the word size.
    fn chars_written(&self) -> (r: usize)
        ensures
            r == self.written(),
    {
        self.chars_written
    }
}

impl All for QEMUOutputInner {

}

/// An output for an emulated board, whose transmit register takes one byte per
/// write; its state is reached through a [`NullLock`].
pub struct QEMUOutput {
    inner: NullLock<QEMUOutputInner>,
}

impl QEMUOutput {
    /// The lock holds the output's state.
    pub closed spec fn wf(&self) -> bool {
        self.inner.wf()
    }

    /// The output's state.
    pub closed spec fn state(&self) -> QEMUOutputInner {
        self.inner.data()
    }

    /// Nothing written, nothing waiting.
    pub fn new() -> (r: QEMUOutput)
        ensures
            r.wf(),
            r.state().written() == 0,
            r.state().pending_bytes() == Seq::<u8>::empty(),
    {
        QEMUOutput { inner: NullLock::new(QEMUOutputInner::new()) }
    }

    /// Queues the bytes for `s`, each newline preceded by a carriage return.
    pub fn write_str(&mut self, s: &str)
        requires
            old(self).wf(),
        ensures
            final(self).wf(),
            final(self).state().pending_bytes() == old(self).state().pending_bytes() + crlf_bytes(
                s@,
            ),
            final(self).state().written() == (old(self).state().written() + crlf_bytes(s@).len())
                % (usize::MAX as int + 1),
    {
        let put = |inner: QEMUOutputInner| -> (r: (QEMUOutputInner, ()))
            ensures
                r.0.pending_bytes() == inner.pending_bytes() + crlf_bytes(s@),
                r.0.written() == (inner.written() + crlf_bytes(s@).len()) % (usize::MAX as int + 1),
            {
                let mut inner = inner;
                inner.write_str(s);
                (inner, ())
            };
        self.inner.lock(put)
    }

    /// Hands out the waiting bytes, oldest first, and forgets them.
    pub fn take_pending(&mut self) -> (r: Vec<u8>)
        requires
            old(self).wf(),
        ensures
            final(self).wf(),
            r@ == old(self).state().pending_bytes(),
            final(self).state().pending_bytes() == Seq::<u8>::empty(),
            final(self).state().written() == old(self).state().written(),
    {
        let drain = |inner: QEMUOutputInner| -> (r: (QEMUOutputInner, Vec<u8>))
            ensures
                r.1@ == inner.pending_bytes(),
                r.0.pending_bytes() == Seq::<u8>::empty(),
                r.0.written() == inner.written(),
            {
                let mut inner = inner;
                let bytes = inner.take_pending();
                (inner, bytes)
            };
        self.inner.lock(drain)
    }

    /// Characters written so far, counted modulo the word size.
    pub fn chars_written(&self) -> (r: usize)
        requires
            self.wf(),
        ensures
            r == self.state().written(),
    {
        let count = |inner: &QEMUOutputInner| -> (r: usize)
            ensures
                r == inner.written(),
            { inner.chars_written() };
        self.inner.read(count)
    }
}

} // verus!
