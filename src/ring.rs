use vstd::prelude::*;
use crate::error::EngineError;
use crate::retime::{copy_frame, frames_view};

verus! {

/// The slot that holds the `i`-th queued frame when the oldest one sits at
/// slot `head` of `cap` slots.
pub open spec fn slot_of(head: int, i: int, cap: int) -> int {
    if head + i < cap { head + i } else { head + i - cap }
}

/// A bounded first-in first-out queue of sample frames with a fixed
/// number of slots. Reading never waits: it hands out what is there.
pub struct RingBuffer {
    slots: Vec<Vec<i16>>,
    head: usize,
    len: usize,
    /// Every frame ever accepted, in order.
    pushed: Ghost<Seq<Seq<i16>>>,
    /// Every frame ever handed out, in order.
    popped: Ghost<Seq<Seq<i16>>>,
}

impl RingBuffer {
    /// The frames now queued, oldest first.
    pub closed spec fn queued(&self) -> Seq<Seq<i16>> {
        Seq::new(
            self.len as nat,
            |i: int| self.slots@[slot_of(self.head as int, i, self.slots@.len() as int)]@,
        )
    }

    pub closed spec fn capacity_spec(&self) -> nat {
        self.slots@.len()
    }

    pub closed spec fn pushed_log(&self) -> Seq<Seq<i16>> {
        self.pushed@
    }

    pub closed spec fn popped_log(&self) -> Seq<Seq<i16>> {
        self.popped@
    }

    pub closed spec fn wf(&self) -> bool {
        &&& self.len <= self.slots@.len()
        &&& (self.head < self.slots@.len() || (self.head == 0 && self.slots@.len() == 0))
        &&& self.pushed@ == self.popped@ + self.queued()
    }

    /// An empty queue with `capacity` slots.
    pub fn new(capacity: usize) -> (r: RingBuffer)
        ensures
            r.wf(),
            r@ == Seq::<Seq<i16>>::empty(),
            r.capacity_spec() == capacity,
            r.pushed_log() == Seq::<Seq<i16>>::empty(),
            r.popped_log() == Seq::<Seq<i16>>::empty(),
    {
        let mut slots: Vec<Vec<i16>> = Vec::with_capacity(capacity);
        let mut i: usize = 0;
        while i < capacity
            invariant
                i <= capacity,
                slots@.len() == i,
            decreases capacity - i,
        {
            slots.push(Vec::new());
            i += 1;
        }
        let r = RingBuffer { slots, head: 0, len: 0, pushed: Ghost(Seq::empty()), popped: Ghost(Seq::empty()) };
        assert(r.queued() =~= Seq::<Seq<i16>>::empty());
        r
    }

    pub fn capacity(&self) -> (r: usize)
        ensures
            r == self.capacity_spec(),
    {
        self.slots.len()
    }

    pub fn len(&self) -> (r: usize)
        requires
            self.wf(),
        ensures
            r == self@.len(),
    {
        self.len
    }

    /// How many more frames fit.
    pub fn room(&self) -> (r: usize)
        requires
            self.wf(),
        ensures
            r == self.capacity_spec() - self@.len(),
    {
        self.slots.len() - self.len
    }

    /// Appends `frames` after the queued ones when all of them fit;
    /// otherwise fails with `BufferFull` and changes nothing.
    pub fn push(&mut self, frames: &Vec<Vec<i16>>) -> (r: Result<(), EngineError>)
        requires
            old(self).wf(),
        ensures
            final(self).wf(),
            final(self).capacity_spec() == old(self).capacity_spec(),
            r.is_ok() <==> old(self)@.len() + frames@.len() <= old(self).capacity_spec(),
            r.is_ok() ==> final(self)@ == old(self)@ + frames_view(frames@)
                && final(self).pushed_log() == old(self).pushed_log() + frames_view(frames@)
                && final(self).popped_log() == old(self).popped_log(),
            r.is_err() ==> r == Err::<(), EngineError>(EngineError::BufferFull) && *final(self) == *old(self),
    {
        let cap = self.slots.len();
        if frames.len() > cap - self.len {
            return Err(EngineError::BufferFull);
        }
        let ghost old_view = self@;
        let ghost added = frames_view(frames@);
        let mut i: usize = 0;
        while i < frames.len()
            invariant
                self.slots@.len() == cap,
                self.head < cap || (self.head == 0 && cap == 0),
                self.head == old(self).head,
                old_view.len() + frames@.len() <= cap,
                self.len == old_view.len() + i,
                i <= frames@.len(),
                self@ == old_view + added.take(i as int),
                self.pushed == old(self).pushed,
                self.popped == old(self).popped,
                added == frames_view(frames@),
            decreases frames.len() - i,
        {
            let ghost before = self@;
            let h = self.head;
            let t: usize = if self.len < cap - h { h + self.len } else { self.len - (cap - h) };
            let f = copy_frame(&frames[i]);
            self.slots[t] = f;
            self.len = self.len + 1;
            i += 1;
            proof {
                assert(slot_of(h as int, before.len() as int, cap as int) == t);
                assert(self@[before.len() as int] == added[i - 1]);
                assert forall|k: int| 0 <= k < before.len() implies
                    #[trigger] self@[k] == before[k] by {
                    assert(slot_of(h as int, k, cap as int) != t);
                }
                assert(self@ =~= before.push(added[i - 1]));
                assert(self@ =~= old_view + added.take(i as int));
            }
        }
        proof {
            assert(added.take(frames@.len() as int) =~= added);
            self.pushed@ = self.pushed@ + added;
            assert(self.pushed@ =~= self.popped@ + self@);
        }
        Ok(())
    }

    /// Takes up to `count` frames from the front, never waiting: fewer come
    /// back when fewer are queued.
    pub fn pop(&mut self, count: usize) -> (r: Vec<Vec<i16>>)
        requires
            old(self).wf(),
        ensures
            final(self).wf(),
            final(self).capacity_spec() == old(self).capacity_spec(),
            r@.len() == if count < old(self)@.len() { count as nat } else { old(self)@.len() },
            frames_view(r@) == old(self)@.take(r@.len() as int),
            final(self)@ == old(self)@.skip(r@.len() as int),
            final(self).pushed_log() == old(self).pushed_log(),
            final(self).popped_log() == old(self).popped_log() + frames_view(r@),
    {
        let k: usize = if count < self.len { count } else { self.len };
        let ghost old_view = self@;
        let cap = self.slots.len();
        let mut out: Vec<Vec<i16>> = Vec::with_capacity(k);
        let mut i: usize = 0;
        while i < k
            invariant
                self.slots@.len() == cap,
                k <= old_view.len(),
                old_view.len() <= cap,
                i <= k,
                self.len == old_view.len() - i,
                self.head < cap || (self.head == 0 && cap == 0),
                self@ == old_view.skip(i as int),
                frames_view(out@) == old_view.take(i as int),
                out@.len() == i,
                self.pushed == old(self).pushed,
                self.popped == old(self).popped,
            decreases k - i,
        {
            let ghost before = self@;
            let ghost prev = out@;
            let h = self.head;
            let f = copy_frame(&self.slots[h]);
            assert(f@ == before[0]);
            out.push(f);
            self.head = if self.head + 1 == cap { 0 } else { self.head + 1 };
            self.len = self.len - 1;
            i += 1;
            proof {
                assert(frames_view(out@) =~= frames_view(prev).push(f@));
                assert(frames_view(out@) =~= old_view.take(i as int));
                assert forall|j: int| 0 <= j < self.len implies
                    #[trigger] slot_of(self.head as int, j, cap as int) == slot_of(h as int, j + 1, cap as int) by {}
                assert(self@ =~= before.skip(1));
                assert(self@ =~= old_view.skip(i as int));
            }
        }
        proof {
            self.popped@ = self.popped@ + frames_view(out@);
            assert(self.pushed@ =~= self.popped@ + self@);
        }
        out
    }

    /// Frames come out exactly as they went in: what has been popped is
    /// always a prefix of what has been pushed, with nothing reordered,
    /// repeated or skipped.
    pub proof fn lemma_popped_prefix_of_pushed(&self)
        requires
            self.wf(),
        ensures
            self.popped_log().is_prefix_of(self.pushed_log()),
            self.pushed_log().skip(self.popped_log().len() as int) == self@,
    {
        assert(self.pushed@.take(self.popped@.len() as int) =~= self.popped@);
        assert(self.pushed@.skip(self.popped@.len() as int) =~= self.queued());
    }
}

impl View for RingBuffer {
    type V = Seq<Seq<i16>>;

    closed spec fn view(&self) -> Seq<Seq<i16>> {
        self.queued()
    }
}

} // verus!
