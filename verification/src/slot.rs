//! The single-slot, freshest-wins handoff between the decode loop and the
//! presentation side.
//!
//! The slot holds at most one current frame. A push overwrites an unobserved
//! previous value rather than queueing it: presentation only ever cares about
//! the most recent picture, and one overwritable slot gives bounded memory
//! and natural frame-dropping under a slow consumer. The slot reaches a
//! terminal `finished` state exactly once, after which every wait returns
//! nothing and no further write has any effect.

use crate::frame::{Frame, FrameView};
use vstd::prelude::*;

verus! {

/// Mathematical state of a [`FrameBuffer`].
pub ghost struct SlotView {
    /// The current frame: none before the first push and after `finish`.
    pub current: Option<FrameView>,
    /// How many pushes the slot has accepted.
    pub version: nat,
    /// The push count at the buffer's own last observation.
    pub seen: nat,
    /// Whether the slot has reached its terminal state.
    pub finished: bool,
}

impl SlotView {
    /// A fresh slot: no frame yet, nothing observed, not finished.
    pub open spec fn init() -> SlotView {
        SlotView { current: None, version: 0, seen: 0, finished: false }
    }

    /// Well-formedness: observation never runs ahead of production, a
    /// finished or untouched slot holds no frame, and an unfinished slot
    /// that has seen a push holds one.
    pub open spec fn wf(self) -> bool {
        &&& self.seen <= self.version
        &&& self.finished ==> self.current is None
        &&& !self.finished && self.version > 0 ==> self.current is Some
        &&& self.version == 0 ==> self.current is None
    }

    /// State after a push: the new frame replaces the current one and the
    /// push count advances. A finished slot accepts no further writes.
    pub open spec fn push_t(self, f: FrameView) -> SlotView {
        if self.finished {
            self
        } else {
            SlotView { current: Some(f), version: self.version + 1, ..self }
        }
    }

    /// State after `finish`: terminal and with the current frame cleared.
    pub open spec fn finish_t(self) -> SlotView {
        SlotView { current: None, finished: true, ..self }
    }

    /// State after an observation: the observation mark catches up with the
    /// push count; the current frame is untouched.
    pub open spec fn observe_t(self) -> SlotView {
        SlotView { seen: self.version, ..self }
    }

    /// What a pending wait yields once it wakes: the freshest frame, or
    /// nothing when the slot is finished.
    pub open spec fn next_value(self) -> Option<FrameView> {
        if self.finished {
            None
        } else {
            self.current
        }
    }

    /// Whether a waiter whose last observation mark is `seen` has something
    /// to wake for. A finished slot always answers, so no waiter hangs.
    pub open spec fn has_change_for(self, seen: nat) -> bool {
        self.finished || seen < self.version
    }

    /// [`Self::has_change_for`] at the buffer's own observation mark.
    pub open spec fn has_change(self) -> bool {
        self.has_change_for(self.seen)
    }
}

/// Single-slot handoff structure shared between exactly one producer and
/// one or more consumers. Created with the player, it lives for one playback
/// session and becomes `finished` exactly once.
pub struct FrameBuffer {
    current: Option<Frame>,
    version: u64,
    seen: u64,
    finished: bool,
}

impl View for FrameBuffer {
    type V = SlotView;

    closed spec fn view(&self) -> SlotView {
        SlotView {
            current: match self.current {
                Some(f) => Some(f@),
                None => None,
            },
            version: self.version as nat,
            seen: self.seen as nat,
            finished: self.finished,
        }
    }
}

/// A fresh frame with the same pixel bytes and metadata.
fn clone_frame(f: &Frame) -> (r: Frame)
    ensures
        r@ == f@,
{
    let data = f.data.clone();
    proof {
        assert forall|i: int| 0 <= i < f.data@.len() implies data@[i] == f.data@[i] by {
            assert(cloned::<u8>(f.data[i], data[i]));
        }
        assert(data@ =~= f.data@);
    }
    Frame { width: f.width, height: f.height, data, ts_us: f.ts_us }
}

impl FrameBuffer {
    pub fn new() -> (r: FrameBuffer)
        ensures
            r@ == SlotView::init(),
    {
        FrameBuffer { current: None, version: 0, seen: 0, finished: false }
    }

    /// Stores `frame` as current, silently discarding any unobserved
    /// previous value; never blocks and has no error condition. A finished
    /// slot is left unchanged.
    pub fn push(&mut self, frame: Frame)
        requires
            old(self)@.version < u64::MAX,
        ensures
            final(self)@ == old(self)@.push_t(frame@),
    {
        if !self.finished {
            self.current = Some(frame);
            self.version = self.version + 1;
        }
    }

    /// Returns the current frame without marking it observed: repeated calls
    /// return the same value until the next push or finish. Never blocks.
    pub fn pull(&self) -> (r: Option<Frame>)
        ensures
            match r {
                Some(f) => self@.current == Some(f@),
                None => self@.current is None,
            },
    {
        match &self.current {
            Some(f) => Some(clone_frame(f)),
            None => None,
        }
    }

    /// Returns the current frame and marks it observed. The slot is not a
    /// queue: without a new push, repeated calls keep returning the same
    /// value; observation only matters for who is woken next.
    pub fn consume(&mut self) -> (r: Option<Frame>)
        ensures
            final(self)@ == old(self)@.observe_t(),
            match r {
                Some(f) => old(self)@.current == Some(f@),
                None => old(self)@.current is None,
            },
    {
        self.seen = self.version;
        match &self.current {
            Some(f) => Some(clone_frame(f)),
            None => None,
        }
    }

    /// What the buffer's own pending wait receives once there is a change to
    /// observe: the freshest frame, or nothing when the slot is finished.
    /// The caller suspends until [`SlotView::has_change`] holds; a finished
    /// slot answers at once, so no waiter hangs after `finish`.
    pub fn get_next(&mut self) -> (r: Option<Frame>)
        requires
            old(self)@.wf(),
            old(self)@.has_change(),
        ensures
            final(self)@ == old(self)@.observe_t(),
            match r {
                Some(f) => old(self)@.next_value() == Some(f@),
                None => old(self)@.next_value() is None,
            },
    {
        self.seen = self.version;
        if self.finished {
            None
        } else {
            match &self.current {
                Some(f) => Some(clone_frame(f)),
                None => None,
            }
        }
    }

    /// Marks the slot terminal: the current frame is cleared, every pending
    /// and future wait returns nothing, no further push has any effect.
    /// Idempotent.
    pub fn finish(&mut self)
        ensures
            final(self)@ == old(self)@.finish_t(),
    {
        self.current = None;
        self.finished = true;
    }

    /// Whether the slot has reached its terminal state.
    pub fn is_finished(&self) -> (r: bool)
        ensures
            r == self@.finished,
    {
        self.finished
    }

    /// How many pushes the slot has accepted.
    pub fn push_count(&self) -> (r: u64)
        ensures
            r == self@.version,
    {
        self.version
    }

    /// A new independent observer that regards the present state as already
    /// seen, so it wakes only for the next change.
    pub fn subscribe(&self) -> (r: Observer)
        ensures
            r.seen_mark() == self@.version,
    {
        Observer { seen: self.version }
    }
}

/// An independent consumer's handle on a [`FrameBuffer`]: it remembers which
/// change this consumer observed last, so several consumers can each wait
/// for the next change without disturbing one another.
pub struct Observer {
    seen: u64,
}

impl Observer {
    /// The push count at this observer's last observation.
    pub closed spec fn seen_mark(self) -> nat {
        self.seen as nat
    }

    /// What this observer's pending wait receives once the slot has a change
    /// for it; the change is marked observed. As with
    /// [`FrameBuffer::get_next`], a finished slot answers at once.
    pub fn observe_next(&mut self, slot: &FrameBuffer) -> (r: Option<Frame>)
        requires
            slot@.wf(),
            slot@.has_change_for(old(self).seen_mark()),
        ensures
            final(self).seen_mark() == slot@.version,
            match r {
                Some(f) => slot@.next_value() == Some(f@),
                None => slot@.next_value() is None,
            },
    {
        self.seen = slot.version;
        if slot.finished {
            None
        } else {
            match &slot.current {
                Some(f) => Some(clone_frame(f)),
                None => None,
            }
        }
    }
}

/// One abstract operation on a slot, for stating laws over whole histories.
pub ghost enum SlotOp {
    /// A push of one frame.
    Push(FrameView),
    /// The transition to the terminal state.
    Finish,
    /// Any observation: a consuming read or a wait waking up.
    Observe,
}

/// The slot state one operation leaves behind.
pub open spec fn apply_op(s: SlotView, op: SlotOp) -> SlotView {
    match op {
        SlotOp::Push(f) => s.push_t(f),
        SlotOp::Finish => s.finish_t(),
        SlotOp::Observe => s.observe_t(),
    }
}

/// The slot state a whole history of operations leaves behind, first
/// operation first.
pub open spec fn apply_ops(s: SlotView, ops: Seq<SlotOp>) -> SlotView
    decreases ops.len(),
{
    if ops.len() == 0 {
        s
    } else {
        apply_ops(apply_op(s, ops[0]), ops.skip(1))
    }
}

/// Law: `pull` (passive inspection) yields exactly the value of the most
/// recent push, stays fixed under observation, and changes only at the next
/// push or finish.
pub proof fn lemma_peek_follows_push(s: SlotView, f: FrameView, g: FrameView)
    requires
        !s.finished,
    ensures
        s.push_t(f).current == Some(f),
        s.push_t(f).observe_t().current == Some(f),
        s.push_t(f).push_t(g).current == Some(g),
        s.push_t(f).finish_t().current is None,
{
}

/// Law: once a slot is finished, every wait yields nothing yet always has an
/// answer ready (no waiter can hang), `finish` is idempotent, and no later
/// push alters the slot in any way.
pub proof fn lemma_finish_terminal(s: SlotView, f: FrameView, seen: nat)
    ensures
        s.finish_t().next_value() is None,
        s.finish_t().has_change_for(seen),
        s.finish_t().finish_t() == s.finish_t(),
        s.finish_t().push_t(f) == s.finish_t(),
        s.finish_t().observe_t().next_value() is None,
{
}

/// Law: freshest wins. After two pushes in immediate succession, only the
/// second frame remains: a consuming read returns it and can never return
/// the first.
pub proof fn lemma_freshest_wins(s: SlotView, f1: FrameView, f2: FrameView)
    requires
        !s.finished,
        f1.ts_us < f2.ts_us,
    ensures
        s.push_t(f1).push_t(f2).current == Some(f2),
        s.push_t(f1).push_t(f2).current != Some(f1),
        s.push_t(f1).push_t(f2).next_value() == Some(f2),
{
}

/// Law: over any history made of observations alone, the current frame
/// stays exactly what the most recent push left — consumers reading the
/// slot, however often, never disturb what `pull` returns.
pub proof fn lemma_peek_stable_under_observation(s: SlotView, ops: Seq<SlotOp>)
    requires
        forall|i: int| 0 <= i < ops.len() ==> ops[i] is Observe,
    ensures
        apply_ops(s, ops).current == s.current,
        apply_ops(s, ops).finished == s.finished,
    decreases ops.len(),
{
    if ops.len() > 0 {
        lemma_peek_stable_under_observation(s.observe_t(), ops.skip(1));
    }
}

/// Law: any history of pushes (or anything else) followed by `finish` leaves
/// a terminal slot: every subsequent wait returns nothing at once.
pub proof fn lemma_finish_ends_every_history(s: SlotView, ops: Seq<SlotOp>)
    requires
        ops.len() > 0,
        ops.last() is Finish,
    ensures
        apply_ops(s, ops).finished,
        apply_ops(s, ops).next_value() is None,
        apply_ops(s, ops).has_change_for(apply_ops(s, ops).seen),
    decreases ops.len(),
{
    if ops.len() == 1 {
        assert(ops[0] == ops.last());
        assert(ops.skip(1).len() == 0);
        assert(apply_ops(apply_op(s, ops[0]), ops.skip(1)) == apply_op(s, ops[0]));
    } else {
        assert(ops.skip(1).last() == ops.last());
        lemma_finish_ends_every_history(apply_op(s, ops[0]), ops.skip(1));
    }
}

/// Law: the terminal state absorbs every further operation — whatever is
/// done to a finished slot, it stays finished and holds no frame.
pub proof fn lemma_finished_is_absorbing(s: SlotView, ops: Seq<SlotOp>)
    requires
        s.finished,
        s.current is None,
    ensures
        apply_ops(s, ops).finished,
        apply_ops(s, ops).current is None,
        apply_ops(s, ops).next_value() is None,
    decreases ops.len(),
{
    if ops.len() > 0 {
        lemma_finished_is_absorbing(apply_op(s, ops[0]), ops.skip(1));
    }
}

/// Law: every slot operation preserves well-formedness, starting from the
/// initial state.
pub proof fn lemma_ops_preserve_wf(s: SlotView, f: FrameView)
    requires
        s.wf(),
    ensures
        SlotView::init().wf(),
        s.push_t(f).wf(),
        s.finish_t().wf(),
        s.observe_t().wf(),
{
}

} // verus!
