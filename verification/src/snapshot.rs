//! The buffer that a stalled thread's stack is copied into. Its storage is
//! reserved once, so that filling it never allocates, and a capture that
//! would outgrow it is cut short.

use vstd::prelude::*;

verus! {

/// One entry of a call stack as the walker hands it out, before any symbol
/// is looked up.
#[derive(Clone, Copy, Debug, PartialEq, Eq, Structural)]
pub struct FrameDescriptor {
    /// The instruction the frame will execute next.
    pub ip: usize,
    /// The start of the function the frame belongs to.
    pub symbol_address: usize,
}

impl FrameDescriptor {
    pub fn new(ip: usize, symbol_address: usize) -> (frame: FrameDescriptor)
        ensures
            frame.ip == ip,
            frame.symbol_address == symbol_address,
    {
        FrameDescriptor { ip, symbol_address }
    }
}

/// What a stack of `stack.len()` frames leaves in an empty buffer of
/// `capacity` entries: all of it when it fits, its innermost `capacity`
/// frames otherwise.
pub open spec fn truncated(stack: Seq<FrameDescriptor>, capacity: nat) -> Seq<FrameDescriptor> {
    if stack.len() <= capacity {
        stack
    } else {
        stack.take(capacity as int)
    }
}

/// Cutting a stack to a capacity keeps its innermost frames, as many as fit,
/// and nothing else.
pub proof fn lemma_truncated(stack: Seq<FrameDescriptor>, capacity: nat)
    ensures
        truncated(stack, capacity).len() <= capacity,
        truncated(stack, capacity).len() <= stack.len(),
        truncated(stack, capacity).len() == capacity || truncated(stack, capacity).len()
            == stack.len(),
        truncated(stack, capacity).is_prefix_of(stack),
{
}

/// A report of a stalled thread: where it stood, and when that was seen.
#[derive(Clone, Debug, PartialEq, Eq)]
pub struct HangRecord {
    pub frames: Vec<FrameDescriptor>,
    /// Milliseconds since the Unix epoch.
    pub captured_at: i64,
}

/// A sequence of frames that never grows past the capacity it was made with.
pub struct SharedBacktraceBuffer {
    frames: Vec<FrameDescriptor>,
    capacity: usize,
}

impl View for SharedBacktraceBuffer {
    type V = Seq<FrameDescriptor>;

    closed spec fn view(&self) -> Seq<FrameDescriptor> {
        self.frames@
    }
}

impl SharedBacktraceBuffer {
    /// The invariant of the type: the frames held fit the capacity. Every
    /// buffer that this module hands out satisfies it, and every method keeps
    /// it.
    pub closed spec fn wf(&self) -> bool {
        self.frames@.len() <= self.capacity
    }

    /// A well-formed buffer holds no more frames than its capacity.
    pub proof fn lemma_bounded(&self)
        requires
            self.wf(),
        ensures
            self@.len() <= self.capacity(),
    {
    }

    /// The number of frames the buffer was made to hold.
    pub closed spec fn spec_capacity(&self) -> usize {
        self.capacity
    }

    /// An empty buffer with room reserved for `capacity` frames.
    pub fn with_capacity(capacity: usize) -> (buffer: SharedBacktraceBuffer)
        ensures
            buffer.wf(),
            buffer@ == Seq::<FrameDescriptor>::empty(),
            buffer.capacity() == capacity,
    {
        SharedBacktraceBuffer { frames: Vec::with_capacity(capacity), capacity }
    }

    #[verifier::when_used_as_spec(spec_capacity)]
    pub fn capacity(&self) -> (capacity: usize)
        ensures
            capacity == self.spec_capacity(),
    {
        self.capacity
    }

    /// The number of frames held. It never exceeds the capacity.
    pub fn len(&self) -> (len: usize)
        requires
            self.wf(),
        ensures
            len == self@.len(),
            len <= self.capacity(),
    {
        self.frames.len()
    }

    /// The frames held, innermost first.
    pub fn frames(&self) -> (frames: &Vec<FrameDescriptor>)
        requires
            self.wf(),
        ensures
            frames@ == self@,
            frames@.len() <= self.capacity(),
    {
        &self.frames
    }

    /// Forgets the frames held. The reserved room stays.
    pub fn clear(&mut self)
        ensures
            final(self).wf(),
            final(self)@ == Seq::<FrameDescriptor>::empty(),
            final(self).capacity() == old(self).capacity(),
    {
        self.frames.clear();
    }

    /// Stores `frame` behind the frames held if there is room left, and says
    /// whether it did. A full buffer is left as it is: the answer `false`
    /// tells the walker to stop.
    pub fn record(&mut self, frame: FrameDescriptor) -> (stored: bool)
        requires
            old(self).wf(),
        ensures
            final(self).wf(),
            final(self).capacity() == old(self).capacity(),
            stored == (old(self)@.len() < old(self).capacity()),
            stored ==> final(self)@ == old(self)@.push(frame),
            !stored ==> final(self)@ == old(self)@,
            final(self)@.len() <= final(self).capacity(),
    {
        if self.frames.len() < self.capacity {
            self.frames.push(frame);
            true
        } else {
            false
        }
    }

    /// Fills the buffer from `stack` as a walk over that stack would: frame
    /// by frame from the innermost, until the stack ends or the buffer is
    /// full.
    pub fn fill_from(&mut self, stack: &Vec<FrameDescriptor>)
        ensures
            final(self).wf(),
            final(self).capacity() == old(self).capacity(),
            final(self)@ == truncated(stack@, old(self).capacity() as nat),
    {
        self.clear();
        let mut i: usize = 0;
        let mut more = true;
        while more && i < stack.len()
            invariant
                i <= stack.len(),
                self.wf(),
                self.capacity() == old(self).capacity(),
                more ==> self@ == stack@.take(i as int),
                more ==> i <= self.capacity(),
                !more ==> self@ == stack@.take(self.capacity() as int) && stack@.len()
                    > self.capacity(),
            decreases stack.len() - i + if more { 1nat } else { 0nat },
        {
            more = self.record(stack[i]);
            if more {
                assert(self@ =~= stack@.take(i as int + 1));
                i += 1;
            }
        }
        proof {
            if more {
                assert(stack@.take(i as int) =~= stack@);
            }
        }
    }

    /// Replaces the frames held by the stack of the calling thread, innermost
    /// frame first, cut short where the buffer is full. No symbol is looked
    /// up and nothing is allocated.
    ///
    /// The walk takes the lock with which the `backtrace` crate guards all
    /// its walks, so this is not for a signal handler, which may have
    /// interrupted a walk that holds that lock. A signal handler clears the
    /// buffer and hands `record` to a walk that takes no lock.
    pub fn capture(&mut self)
        ensures
            final(self).wf(),
            final(self).capacity() == old(self).capacity(),
            final(self)@.len() <= final(self).capacity(),
    {
        self.clear();
        walk_stack(self);
    }

    /// The report of a hang seen at `captured_at`, holding a copy of the
    /// frames in the buffer.
    pub fn hang_record(&self, captured_at: i64) -> (record: HangRecord)
        ensures
            record.frames@ == self@,
            record.captured_at == captured_at,
    {
        let mut frames: Vec<FrameDescriptor> = Vec::new();
        let mut i: usize = 0;
        while i < self.frames.len()
            invariant
                i <= self.frames.len(),
                frames@ == self.frames@.take(i as int),
            decreases self.frames.len() - i,
        {
            frames.push(self.frames[i]);
            assert(frames@ =~= self.frames@.take(i as int + 1));
            i += 1;
        }
        assert(self.frames@.take(i as int) =~= self.frames@);
        HangRecord { frames, captured_at }
    }
}

/// Calls `backtrace::trace`, which takes the crate's own lock and then
/// hands the frames of the calling thread's stack to a callback, innermost
/// first, until the callback answers `false` or the stack ends. The callback stores each frame with
/// `SharedBacktraceBuffer::record` and answers what `record` answers, so the
/// buffer only ever grows at its end and stays within its capacity. Which
/// frames arrive depends on the caller's stack: nothing is claimed of them.
#[verifier::external_body]
fn walk_stack(buffer: &mut SharedBacktraceBuffer)
    requires
        old(buffer).wf(),
    ensures
        final(buffer).wf(),
        final(buffer).capacity() == old(buffer).capacity(),
        old(buffer)@.is_prefix_of(final(buffer)@),
{
    backtrace::trace(
        |frame| buffer.record(
            FrameDescriptor::new(frame.ip() as usize, frame.symbol_address() as usize),
        ),
    );
}

} // verus!
