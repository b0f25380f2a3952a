//! The abstract read protocol of a healthy decoding session.
//!
//! The decoder owns the real cursor; the wrapper only forwards reads
//! and seeks. What the decoder documents of a healthy session — a
//! fixed total sample count and a cursor that starts at zero,
//! advances by exactly the number of samples each read returns, and
//! jumps on a seek — is written down here as a model, and the laws
//! the wrapper's callers rely on are proved of it.

use vstd::prelude::*;

verus! {

/// The state of a healthy decoding session: how many samples the file
/// holds in total, and the index of the next sample a read returns.
pub struct Session {
    /// Total number of samples in the open file.
    pub total: nat,
    /// Index of the next sample to be read.
    pub pos: nat,
}

impl Session {
    /// The cursor never stands past the end of the stream.
    pub open spec fn wf(self) -> bool {
        self.pos <= self.total
    }

    /// How many samples remain from the cursor to the end.
    pub open spec fn remaining(self) -> nat {
        (self.total - self.pos) as nat
    }

    /// How many samples a healthy read of `requested` returns: the
    /// full request while enough remain, and exactly the remainder —
    /// never more, and never an error — once the request overshoots
    /// the end.
    pub open spec fn samples_read(self, requested: nat) -> nat {
        if requested <= self.remaining() {
            requested
        } else {
            self.remaining()
        }
    }

    /// The session after a read of `requested`: the cursor advances
    /// by exactly the number of samples returned.
    pub open spec fn after_read(self, requested: nat) -> Session {
        Session { total: self.total, pos: self.pos + self.samples_read(requested) }
    }

    /// The session after a seek to the absolute sample index `frame`.
    pub open spec fn after_seek(self, frame: nat) -> Session {
        Session { total: self.total, pos: frame }
    }
}

/// Law: while at least `n` samples remain, a read of `n` returns
/// exactly `n` and advances the cursor by exactly `n`; a subsequent
/// read of everything that then remains returns exactly
/// `total - pos - n` and exhausts the stream.
pub proof fn lemma_read_exact_then_rest(s: Session, n: nat)
    requires
        s.wf(),
        n <= s.remaining(),
    ensures
        s.samples_read(n) == n,
        s.after_read(n).pos == s.pos + n,
        s.after_read(n).wf(),
        s.after_read(n).samples_read((s.remaining() - n) as nat) == s.remaining() - n,
        s.after_read(n).after_read((s.remaining() - n) as nat).remaining() == 0,
{
}

/// Law: a read that requests more samples than remain returns exactly
/// the remaining count — never more, and never an error on a healthy
/// stream — and leaves the cursor at the end of the stream.
pub proof fn lemma_read_past_end(s: Session, n: nat)
    requires
        s.wf(),
        n > s.remaining(),
    ensures
        s.samples_read(n) == s.remaining(),
        s.samples_read(n) < n,
        s.after_read(n).pos == s.total,
{
}

/// Law: splitting the whole stream over two consecutive reads —
/// whichever sample representation each uses, both advance the one
/// shared cursor — returns counts that sum to the total sample count.
pub proof fn lemma_split_read(s: Session, a: nat, b: nat)
    requires
        s.wf(),
        s.pos == 0,
        a + b == s.total,
    ensures
        s.samples_read(a) == a,
        s.after_read(a).samples_read(b) == b,
        s.samples_read(a) + s.after_read(a).samples_read(b) == s.total,
{
}

/// Law: a seek to `frame` puts the cursor exactly there, so the read
/// that follows starts at sample index `frame` and advances from it
/// by exactly the number of samples it returns. With the frame that
/// seek-by-duration computes, the read after it starts at
/// `sampling_rate * whole seconds of the duration`.
pub proof fn lemma_seek_then_read(s: Session, frame: nat, n: nat)
    requires
        frame <= s.total,
    ensures
        s.after_seek(frame).wf(),
        s.after_seek(frame).pos == frame,
        s.after_seek(frame).after_read(n).pos == frame + s.after_seek(frame).samples_read(n),
{
}

} // verus!
