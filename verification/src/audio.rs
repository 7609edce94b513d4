//! The audio buffer between the Spotify player (which writes decoded samples)
//! and the voice call (which reads them).
use vstd::prelude::*;

verus! {

/// The most bytes the buffer holds. The lower the value, the less latency; too
/// low a value results in jittery audio.
pub const BUFFER_SIZE: usize = 64 * 1024;

/// Events of the audio sink.
#[derive(Debug, Clone, Copy, PartialEq, Eq, Structural)]
pub enum SinkEvent {
    Start,
    Stop,
}

/// A byte queue of audio: written at the back, read from the front.
pub struct Stream {
    buffer: Vec<u8>,
}

/// Bytes read from a queue holding `buffer` into `len` bytes of room: silence
/// (zeroes) filling the room when the queue is empty, else as many queued bytes
/// as fit.
pub open spec fn spec_read(buffer: Seq<u8>, len: nat) -> Seq<u8> {
    if buffer.len() == 0 {
        Seq::new(len, |i: int| 0u8)
    } else if len < buffer.len() {
        buffer.take(len as int)
    } else {
        buffer
    }
}

/// What stays queued after a read of `len` bytes.
pub open spec fn spec_after_read(buffer: Seq<u8>, len: nat) -> Seq<u8> {
    if len < buffer.len() {
        buffer.skip(len as int)
    } else {
        seq![]
    }
}

impl Stream {
    /// The queued bytes, oldest first.
    pub closed spec fn view(&self) -> Seq<u8> {
        self.buffer@
    }

    /// Whether the queue keeps within `BUFFER_SIZE`.
    #[verifier::type_invariant]
    spec fn wf(&self) -> bool {
        self.buffer@.len() <= BUFFER_SIZE
    }

    /// An empty queue.
    pub fn new() -> (r: Stream)
        ensures
            r.view() == Seq::<u8>::empty(),
            r.view().len() <= BUFFER_SIZE,
    {
        Stream { buffer: Vec::new() }
    }

    /// Reads into `len` bytes of room. An empty queue yields silence (`len`
    /// zeroes) so that playback does not stutter; otherwise the oldest bytes
    /// that fit are taken off the queue.
    pub fn read(&mut self, len: usize) -> (r: Vec<u8>)
        ensures
            r@ == spec_read(old(self).view(), len as nat),
            final(self).view() == spec_after_read(old(self).view(), len as nat),
            final(self).view().len() <= BUFFER_SIZE,
    {
        proof {
            use_type_invariant(&*self);
        }
        if self.buffer.len() == 0 {
            let zeros: Vec<u8> = vec![0u8; len];
            proof {
                assert forall|i: int| 0 <= i < len implies zeros@[i] == 0u8 by {
                    assert(vstd::pervasive::cloned(0u8, zeros@[i]));
                }
                assert(zeros@ =~= spec_read(self.view(), len as nat));
                assert(self.view() =~= spec_after_read(self.view(), len as nat));
            }
            return zeros;
        }
        let max_read = if len < self.buffer.len() { len } else { self.buffer.len() };
        let mut taken: Vec<u8> = Vec::new();
        std::mem::swap(&mut taken, &mut self.buffer);
        let rest = taken.split_off(max_read);
        self.buffer = rest;
        proof {
            assert(taken@ =~= spec_read(old(self).view(), len as nat));
            assert(self.view() =~= spec_after_read(old(self).view(), len as nat));
        }
        taken
    }

    /// Whether `len` more bytes fit in the queue.
    pub fn has_room(&self, len: usize) -> (r: bool)
        ensures
            r == (self.view().len() + len <= BUFFER_SIZE),
    {
        proof {
            use_type_invariant(self);
        }
        len <= BUFFER_SIZE - self.buffer.len()
    }

    /// Queues `data` at the back; returns how many bytes were queued (all).
    pub fn write(&mut self, data: &[u8]) -> (r: usize)
        requires
            old(self).view().len() + data@.len() <= BUFFER_SIZE,
        ensures
            final(self).view() == old(self).view() + data@,
            final(self).view().len() <= BUFFER_SIZE,
            r == data@.len(),
    {
        let ghost before = self.buffer@;
        let mut buffer: Vec<u8> = Vec::new();
        std::mem::swap(&mut buffer, &mut self.buffer);
        buffer.extend_from_slice(data);
        proof {
            assert forall|i: int| 0 <= i < buffer@.len() implies buffer@[i] == (before + data@)[i] by {
                if i >= before.len() {
                    assert(vstd::pervasive::cloned(data@[i - before.len()], buffer@[i]));
                }
            }
            assert(buffer@ =~= before + data@);
        }
        self.buffer = buffer;
        data.len()
    }

    /// Appends `data` when it fits, and says whether it did; a writer that is
    /// told no waits for the reader to make room and tries again.
    pub fn try_write(&mut self, data: &[u8]) -> (r: bool)
        ensures
            r == (old(self).view().len() + data@.len() <= BUFFER_SIZE),
            r ==> final(self).view() == old(self).view() + data@,
            !r ==> final(self).view() == old(self).view(),
            final(self).view().len() <= BUFFER_SIZE,
    {
        proof {
            use_type_invariant(&*self);
        }
        if self.has_room(data.len()) {
            self.write(data);
            true
        } else {
            false
        }
    }

    /// Drops everything queued.
    pub fn flush(&mut self)
        ensures
            final(self).view() == Seq::<u8>::empty(),
            final(self).view().len() <= BUFFER_SIZE,
    {
        self.buffer = Vec::new();
    }

    /// Seeking is not supported: the position is always 0.
    pub fn seek(&mut self) -> (r: u64)
        ensures
            r == 0,
            final(self).view() == old(self).view(),
    {
        0
    }

    /// The length of the stream is unknown.
    pub fn byte_len(&self) -> (r: Option<u64>)
        ensures
            r is None,
    {
        None
    }

    /// The stream cannot seek.
    pub fn is_seekable(&self) -> (r: bool)
        ensures
            !r,
    {
        false
    }
}

/// Audio comes out in the order it went in: after writing `first` and then
/// `second` into an empty queue, reading `first.len()` bytes gives `first` back
/// and leaves `second` queued.
pub proof fn lemma_first_in_first_out(first: Seq<u8>, second: Seq<u8>)
    requires
        first.len() > 0,
    ensures
        spec_read(Seq::<u8>::empty() + first + second, first.len()) == first,
        spec_after_read(Seq::<u8>::empty() + first + second, first.len()) == second,
{
    let b = Seq::<u8>::empty() + first + second;
    assert(b.take(first.len() as int) =~= first);
    assert(b.skip(first.len() as int) =~= second);
    if second.len() == 0 {
        assert(b =~= first);
    }
}

} // verus!
