//! The capture buffer: a bounded FIFO of samples that a real-time producer
//! fills and a consumer drains, dropping samples that arrive when it is full.
use ringbuf::traits::{Consumer, Producer};
use ringbuf::HeapRb;
use vstd::prelude::*;

verus! {

/// The number of samples a capture buffer holds.
pub const RING_BUFFER_SIZE: usize = 32768;

/// A heap ring buffer of raw samples, kept behind the wrappers below: Verus
/// cannot take the declaration of ringbuf's storage-generic type.
#[verifier::external_body]
pub struct SampleRing {
    rb: HeapRb<u32>,
}

/// What a sample ring holds, eldest first.
pub uninterp spec fn ring_items(r: SampleRing) -> Seq<u32>;

/// The number of samples a sample ring was made to hold.
pub uninterp spec fn ring_capacity(r: SampleRing) -> nat;

impl SampleRing {
    /// Relies on `HeapRb::new`: an empty buffer of exactly `capacity` slots.
    /// It panics on a zero capacity, and its storage must fit in memory.
    #[verifier::external_body]
    fn new(capacity: usize) -> (r: SampleRing)
        requires
            0 < capacity,
            capacity * 4 <= isize::MAX,
        ensures
            ring_items(r) == Seq::<u32>::empty(),
            ring_capacity(r) == capacity as nat,
    {
        SampleRing { rb: HeapRb::<u32>::new(capacity) }
    }

    /// Relies on `Producer::try_push` of `SharedRb`: the sample is appended
    /// behind the others unless the buffer is full, in which case it is
    /// handed back and nothing changes.
    #[verifier::external_body]
    fn try_push(&mut self, x: u32) -> (r: Result<(), u32>)
        ensures
            ring_capacity(*final(self)) == ring_capacity(*old(self)),
            ring_items(*old(self)).len() < ring_capacity(*old(self)) ==> {
                &&& r is Ok
                &&& ring_items(*final(self)) == ring_items(*old(self)).push(x)
            },
            ring_items(*old(self)).len() >= ring_capacity(*old(self)) ==> {
                &&& r == Err::<(), u32>(x)
                &&& ring_items(*final(self)) == ring_items(*old(self))
            },
    {
        self.rb.try_push(x)
    }

    /// Relies on `Consumer::try_pop` of `SharedRb`: the eldest sample is
    /// removed and returned, or `None` when the buffer is empty.
    #[verifier::external_body]
    fn try_pop(&mut self) -> (r: Option<u32>)
        ensures
            ring_capacity(*final(self)) == ring_capacity(*old(self)),
            ring_items(*old(self)).len() > 0 ==> {
                &&& r == Some(ring_items(*old(self))[0])
                &&& ring_items(*final(self)) == ring_items(*old(self)).drop_first()
            },
            ring_items(*old(self)).len() == 0 ==> {
                &&& r is None
                &&& ring_items(*final(self)) == ring_items(*old(self))
            },
    {
        self.rb.try_pop()
    }
}

/// How many of `n` arriving samples a buffer holding `len` of `capacity`
/// samples keeps: as many as fit, the rest are dropped.
pub open spec fn kept_count(len: nat, capacity: nat, n: nat) -> nat {
    if len >= capacity {
        0
    } else if n <= capacity - len {
        n
    } else {
        (capacity - len) as nat
    }
}

/// What a buffer holding `contents` of `capacity` holds after a block
/// `data` arrives: the block is discarded while not recording; while
/// recording its samples are appended in order as long as there is room.
pub open spec fn captured(contents: Seq<u32>, capacity: nat, recording: bool, data: Seq<u32>) -> Seq<u32> {
    if recording {
        contents + data.take(kept_count(contents.len(), capacity, data.len()) as int)
    } else {
        contents
    }
}

/// The bounded buffer between the capture callback and the command processor.
pub struct CaptureBuffer {
    ring: SampleRing,
}

impl View for CaptureBuffer {
    type V = Seq<u32>;

    /// The buffered samples, eldest first.
    closed spec fn view(&self) -> Seq<u32> {
        ring_items(self.ring)
    }
}

impl CaptureBuffer {
    /// The number of samples the buffer can hold.
    pub closed spec fn capacity(&self) -> nat {
        ring_capacity(self.ring)
    }

    /// Never more samples buffered than there is room for.
    pub open spec fn wf(&self) -> bool {
        &&& 0 < self.capacity()
        &&& self@.len() <= self.capacity()
    }

    /// An empty buffer with room for `RING_BUFFER_SIZE` samples.
    pub fn new() -> (r: CaptureBuffer)
        ensures
            r.wf(),
            r@ == Seq::<u32>::empty(),
            r.capacity() == RING_BUFFER_SIZE as nat,
    {
        CaptureBuffer { ring: SampleRing::new(RING_BUFFER_SIZE) }
    }

    /// Appends one sample if there is room; a sample that does not fit is
    /// dropped. Returns whether it was kept.
    pub fn push(&mut self, sample: u32) -> (kept: bool)
        requires
            old(self).wf(),
        ensures
            final(self).wf(),
            final(self).capacity() == old(self).capacity(),
            kept == (old(self)@.len() < old(self).capacity()),
            kept ==> final(self)@ == old(self)@.push(sample),
            !kept ==> final(self)@ == old(self)@,
    {
        match self.ring.try_push(sample) {
            Ok(()) => true,
            Err(_) => false,
        }
    }

    /// Appends the samples of one delivered block in order, each while there
    /// is room; those that do not fit are dropped. Returns how many were kept.
    pub fn push_block(&mut self, data: &[u32]) -> (n: usize)
        requires
            old(self).wf(),
        ensures
            final(self).wf(),
            final(self).capacity() == old(self).capacity(),
            n == kept_count(old(self)@.len(), old(self).capacity(), data@.len()),
            final(self)@ == old(self)@ + data@.take(n as int),
    {
        let mut n: usize = 0;
        let mut i: usize = 0;
        while i < data.len()
            invariant
                self.wf(),
                self.capacity() == old(self).capacity(),
                n <= i <= data@.len(),
                n == kept_count(old(self)@.len(), old(self).capacity(), i as nat),
                self@ == old(self)@ + data@.take(n as int),
            decreases data@.len() - i,
        {
            let kept = self.push(data[i]);
            if kept {
                assert(data@.take(n + 1) == data@.take(n as int).push(data@[n as int]));
                n = n + 1;
            }
            i = i + 1;
        }
        n
    }

    /// What the capture callback does with one delivered block: while
    /// `recording` is false the block is discarded; otherwise its samples are
    /// appended as far as there is room. Returns how many were kept.
    pub fn capture_block(&mut self, recording: bool, data: &[u32]) -> (n: usize)
        requires
            old(self).wf(),
        ensures
            final(self).wf(),
            final(self).capacity() == old(self).capacity(),
            final(self)@ == captured(old(self)@, old(self).capacity(), recording, data@),
            n == final(self)@.len() - old(self)@.len(),
    {
        if recording {
            self.push_block(data)
        } else {
            0
        }
    }

    /// Removes every buffered sample and returns them, eldest first.
    pub fn drain(&mut self) -> (samples: Vec<u32>)
        requires
            old(self).wf(),
        ensures
            final(self).wf(),
            final(self).capacity() == old(self).capacity(),
            samples@ == old(self)@,
            final(self)@ == Seq::<u32>::empty(),
    {
        let mut samples: Vec<u32> = Vec::new();
        loop
            invariant
                self.wf(),
                self.capacity() == old(self).capacity(),
                samples@ + self@ == old(self)@,
            ensures
                self.wf(),
                self.capacity() == old(self).capacity(),
                samples@ == old(self)@,
                self@ == Seq::<u32>::empty(),
            decreases self@.len(),
        {
            let ghost before = self@;
            match self.ring.try_pop() {
                Some(x) => {
                    samples.push(x);
                    assert(samples@ + self@ =~= old(self)@) by {
                        assert(before =~= seq![x] + before.drop_first());
                    }
                },
                None => {
                    assert(samples@ =~= old(self)@);
                    assert(self@ =~= Seq::<u32>::empty());
                    break;
                },
            }
        }
        samples
    }
}

/// While recording, a block that fits in the free room is kept whole and in
/// arrival order: an empty buffer then drains exactly the delivered samples.
pub proof fn lemma_block_that_fits_is_kept(contents: Seq<u32>, capacity: nat, data: Seq<u32>)
    requires
        contents.len() + data.len() <= capacity,
    ensures
        captured(contents, capacity, true, data) == contents + data,
        captured(Seq::<u32>::empty(), capacity, true, data) == data,
{
    assert(data.take(data.len() as int) =~= data);
    assert(Seq::<u32>::empty() + data =~= data);
}

/// A block delivered while not recording leaves the buffer as it was: an
/// empty buffer then drains no samples.
pub proof fn lemma_block_discarded_when_not_recording(contents: Seq<u32>, capacity: nat, data: Seq<u32>)
    ensures
        captured(contents, capacity, false, data) == contents,
        captured(Seq::<u32>::empty(), capacity, false, data).len() == 0,
{
}

/// A block never makes the buffer hold more than its capacity, nor more than
/// was already there plus what arrived; what does not fit is dropped, and
/// what was there stays in front.
pub proof fn lemma_capture_bounded(contents: Seq<u32>, capacity: nat, recording: bool, data: Seq<u32>)
    requires
        contents.len() <= capacity,
    ensures
        captured(contents, capacity, recording, data).len() <= capacity,
        captured(contents, capacity, recording, data).len() <= contents.len() + data.len(),
        captured(contents, capacity, recording, data).subrange(0, contents.len() as int) == contents,
        recording && contents.len() + data.len() > capacity
            ==> captured(contents, capacity, recording, data).len() == capacity,
{
    let r = captured(contents, capacity, recording, data);
    assert(r.subrange(0, contents.len() as int) =~= contents);
}

} // verus!
