//! The owning handle over a native decoding session, and the
//! decisions the wrapper layer makes around each decoder call.
//!
//! The decoder itself opens files, decodes samples and seeks; the
//! caller performs those calls and hands their raw answers (the
//! opened reference, the reported sample count) to the functions
//! here, which turn them into safe values. A handle exclusively owns
//! one non-null native reference; releasing it consumes the handle,
//! so no operation can reach a released reference.

use vstd::prelude::*;

use crate::duration::Duration;
use crate::format::AIFFFormat;

verus! {

/// Whether a path can cross the native boundary as a null-terminated
/// text sequence: it must not contain an embedded null character.
pub open spec fn c_representable(path: Seq<char>) -> bool {
    forall|i: int| 0 <= i < path.len() ==> path[i] != '\0'
}

/// Whether `path` can be handed to the decoder as a null-terminated
/// string. A path with an embedded null is rejected here, before any
/// native call.
pub fn path_is_c_representable(path: &str) -> (r: bool)
    ensures
        r == c_representable(path@),
{
    let len = path.unicode_len();
    let mut i: usize = 0;
    while i < len
        invariant
            i <= len,
            len == path@.len(),
            forall|j: int| 0 <= j < i ==> path@[j] != '\0',
        decreases len - i,
    {
        if path.get_char(i) == '\0' {
            return false;
        }
        i = i + 1;
    }
    true
}

/// An exclusively owned, live reference to a native decoding session.
///
/// A handle exists only while the session is open: it is created from
/// a successful open, and `close` consumes it, so any use after
/// release is rejected at compile time rather than reaching the
/// decoder.
pub struct AIFF {
    native_ref: u64,
}

impl AIFF {
    /// A live handle always holds a non-null native reference.
    #[verifier::type_invariant]
    spec fn wf(self) -> bool {
        self.native_ref != 0
    }

    /// The native reference this handle owns.
    pub closed spec fn spec_native_ref(self) -> u64 {
        self.native_ref
    }

    /// The decision an open makes once the decoder has answered: a
    /// null (zero) reference means the open failed and no handle is
    /// produced; any other reference is claimed by a new, exclusively
    /// owning handle.
    pub fn from_native_ref(native_ref: u64) -> (r: Option<AIFF>)
        ensures
            r is None <==> native_ref == 0,
            r is Some ==> r.unwrap().spec_native_ref() == native_ref,
    {
        if native_ref == 0 {
            None
        } else {
            Some(AIFF { native_ref })
        }
    }

    /// The reference to hand to the decoder's entry points; never
    /// null while the handle lives.
    pub fn native_ref(&self) -> (r: u64)
        ensures
            r == self.spec_native_ref(),
            r != 0,
    {
        proof {
            use_type_invariant(&*self);
        }
        self.native_ref
    }

    /// The decision a read makes once the decoder has reported how
    /// many samples it wrote into `buffer`: the sentinel count `-1`
    /// signals an error and yields no samples, and any non-negative
    /// count keeps exactly the first `reported` samples — the buffer
    /// is truncated to the count actually read, never padded.
    pub fn read_outcome<T>(&self, buffer: Vec<T>, reported: i32) -> (r: Option<Vec<T>>)
        requires
            reported == -1 || (0 <= reported && reported as int <= buffer@.len()),
        ensures
            r is None <==> reported == -1,
            reported >= 0 ==> r is Some && r.unwrap()@ == buffer@.subrange(0, reported as int),
    {
        if reported == -1 {
            None
        } else {
            let mut samples = buffer;
            samples.truncate(reported as usize);
            Some(samples)
        }
    }

    /// The sample-frame index a seek-by-duration targets: the
    /// sampling rate times the whole seconds of the duration. The
    /// sub-second part of the duration is dropped before the
    /// multiplication, so the target is exactly
    /// `sampling_rate * whole seconds`.
    pub fn seek_duration(&self, format: &AIFFFormat, duration: &Duration) -> (frame: u64)
        requires
            format.sampling_rate * duration.secs() <= u64::MAX,
        ensures
            frame == format.sampling_rate * duration.secs(),
    {
        format.sampling_rate * duration.as_secs()
    }

    /// Releases the handle. Taking the handle by value consumes it:
    /// after `close`, no operation can be invoked on it, so the
    /// native reference is used by at most one release and never
    /// after it.
    pub fn close(self) {
    }
}

} // verus!
