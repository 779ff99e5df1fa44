//! Frame pacing: one completion signal per presentable image, and the order
//! in which a tick acquires, waits, submits and presents.
//!
//! The scheduler owns the slot array and decides; the caller talks to the GPU.
//! A tick is two calls: `begin_tick` with what acquisition reported, which
//! answers with the plan to carry out, and `end_tick` with what submission and
//! presentation reported.

use vstd::prelude::*;

verus! {

/// What asking for the next presentable image reported.
#[derive(Clone, Copy, Debug, PartialEq, Eq, Structural)]
pub enum AcquireOutcome {
    /// The image with this index is the next to draw into.
    Image(u32),
    /// The chain no longer fits the surface.
    OutOfDate,
    /// Any other failure.
    Failed,
}

/// What submitting and presenting reported.
#[derive(Debug)]
pub enum SubmitOutcome<F> {
    /// The work was handed over; `F` is its completion signal.
    Signaled(F),
    /// The chain no longer fits the surface.
    OutOfDate,
    /// Any other failure.
    Failed,
}

/// What the submission is ordered after, besides the image being acquired.
#[derive(Clone, Copy, Debug, PartialEq, Eq, Structural)]
pub enum Predecessor {
    /// Nothing outstanding: an already satisfied stand-in.
    Satisfied,
    /// The completion signal held by this slot.
    Slot(usize),
}

/// What to do in a tick, once acquisition has reported.
#[derive(Clone, Copy, Debug, PartialEq, Eq, Structural)]
pub enum TickPlan {
    /// Skip the frame and rebuild the presentation chain.
    Rebuild,
    /// Acquisition failed for good; report it and stop.
    Abort,
    /// Draw into `image_index`: if `wait_first`, block on that slot's signal
    /// before anything else; then submit ordered after `after`, and present.
    Draw { image_index: usize, wait_first: bool, after: Predecessor },
}

/// How a tick that drew ended.
#[derive(Clone, Copy, Debug, PartialEq, Eq, Structural)]
pub enum TickResult {
    /// Submitted and queued for presentation.
    Presented,
    /// The chain went stale; rebuild it before the next tick.
    Rebuild,
    /// Submission or presentation failed for good.
    Fatal,
}

/// Whether GPU work may still be running for a slot.
#[derive(Clone, Copy, Debug, PartialEq, Eq, Structural)]
pub enum SlotState {
    Idle,
    InFlight,
}

/// One GPU-facing step of a tick.
#[derive(Clone, Copy, Debug, PartialEq, Eq, Structural)]
pub enum GpuOp {
    /// Block until the signal of this slot is satisfied.
    Wait(usize),
    /// Submit the commands recorded for this slot's framebuffer.
    Submit(usize),
    /// Queue this slot's image for presentation.
    Present(usize),
}

/// The scheduler as a mathematical value.
pub struct SchedulerView<F> {
    /// The completion signal each slot holds, if any.
    pub slots: Seq<Option<F>>,
    /// The slot most recently submitted into.
    pub previous: int,
    /// The slot being drawn into, between `begin_tick` and `end_tick`.
    pub recording: Option<int>,
}

/// Tracks the completion signal of every presentable image.
pub struct FrameScheduler<F> {
    slots: Vec<Option<F>>,
    previous: usize,
    recording: Option<usize>,
}

/// A scheduler for `count` images with nothing outstanding.
pub open spec fn fresh<F>(count: nat) -> SchedulerView<F> {
    SchedulerView { slots: Seq::new(count, |i: int| None::<F>), previous: 0, recording: None }
}

/// Indices are in range.
pub open spec fn consistent<F>(s: SchedulerView<F>) -> bool {
    &&& s.previous == 0 || 0 <= s.previous < s.slots.len()
    &&& s.recording matches Some(i) ==> 0 <= i < s.slots.len()
}

/// The acquired image, if any, has a slot.
pub open spec fn in_range<F>(s: SchedulerView<F>, acquired: AcquireOutcome) -> bool {
    acquired matches AcquireOutcome::Image(i) ==> i < s.slots.len()
}

/// The plan for a tick in state `s` after acquisition reported `acquired`.
pub open spec fn plan_for<F>(s: SchedulerView<F>, acquired: AcquireOutcome) -> TickPlan {
    match acquired {
        AcquireOutcome::OutOfDate => TickPlan::Rebuild,
        AcquireOutcome::Failed => TickPlan::Abort,
        AcquireOutcome::Image(i) => TickPlan::Draw {
            image_index: i as usize,
            wait_first: s.slots[i as int] is Some,
            after: if s.slots[s.previous] is Some {
                Predecessor::Slot(s.previous as usize)
            } else {
                Predecessor::Satisfied
            },
        },
    }
}

/// The state after `begin_tick`: only a draw is remembered.
pub open spec fn begun<F>(s: SchedulerView<F>, acquired: AcquireOutcome) -> SchedulerView<F> {
    match acquired {
        AcquireOutcome::Image(i) => SchedulerView { recording: Some(i as int), ..s },
        _ => s,
    }
}

/// The signal a slot holds once submission has reported.
pub open spec fn stored<F>(outcome: SubmitOutcome<F>) -> Option<F> {
    match outcome {
        SubmitOutcome::Signaled(signal) => Some(signal),
        _ => None,
    }
}

/// The state after `end_tick`: the drawn slot holds the new signal, or none
/// where submission or presentation did not go through, and is the new
/// predecessor either way.
pub open spec fn finished<F>(s: SchedulerView<F>, outcome: SubmitOutcome<F>) -> SchedulerView<F> {
    match s.recording {
        Some(i) => SchedulerView {
            slots: s.slots.update(i, stored(outcome)),
            previous: i,
            recording: None,
        },
        None => s,
    }
}

/// How a tick that drew ended, by what submission reported.
pub open spec fn result_for<F>(outcome: SubmitOutcome<F>) -> TickResult {
    match outcome {
        SubmitOutcome::Signaled(_) => TickResult::Presented,
        SubmitOutcome::OutOfDate => TickResult::Rebuild,
        SubmitOutcome::Failed => TickResult::Fatal,
    }
}

/// The GPU-facing steps a plan stands for, in order.
pub open spec fn ops_of(plan: TickPlan) -> Seq<GpuOp> {
    match plan {
        TickPlan::Draw { image_index, wait_first, after } => {
            let work = seq![GpuOp::Submit(image_index), GpuOp::Present(image_index)];
            if wait_first {
                seq![GpuOp::Wait(image_index)] + work
            } else {
                work
            }
        },
        _ => Seq::empty(),
    }
}

/// The signals held by `slots`, in slot order.
pub open spec fn signals_of<F>(slots: Seq<Option<F>>) -> Seq<F>
    decreases slots.len(),
{
    if slots.len() == 0 {
        Seq::empty()
    } else {
        match slots.last() {
            Some(signal) => signals_of(slots.drop_last()).push(signal),
            None => signals_of(slots.drop_last()),
        }
    }
}

impl TickPlan {
    /// The GPU-facing steps of the plan, in the order to carry them out.
    pub fn ops(&self) -> (steps: Vec<GpuOp>)
        ensures
            steps@ == ops_of(*self),
    {
        let mut steps: Vec<GpuOp> = Vec::new();
        match *self {
            TickPlan::Draw { image_index, wait_first, after } => {
                if wait_first {
                    steps.push(GpuOp::Wait(image_index));
                }
                steps.push(GpuOp::Submit(image_index));
                steps.push(GpuOp::Present(image_index));
                assert(steps@ =~= ops_of(*self));
            },
            _ => {},
        }
        steps
    }
}

impl<F> View for FrameScheduler<F> {
    type V = SchedulerView<F>;

    closed spec fn view(&self) -> SchedulerView<F> {
        SchedulerView {
            slots: self.slots@,
            previous: self.previous as int,
            recording: match self.recording {
                Some(i) => Some(i as int),
                None => None,
            },
        }
    }
}

impl<F> FrameScheduler<F> {
    /// Indices are in range.
    pub open spec fn well_formed(&self) -> bool {
        consistent(self@)
    }

    /// A scheduler with one empty slot per presentable image.
    pub fn new(image_count: usize) -> (scheduler: Self)
        ensures
            scheduler@ == fresh::<F>(image_count as nat),
            scheduler.well_formed(),
    {
        let mut slots: Vec<Option<F>> = Vec::new();
        let mut i: usize = 0;
        while i < image_count
            invariant
                i <= image_count,
                slots@ == Seq::new(i as nat, |k: int| None::<F>),
            decreases image_count - i,
        {
            slots.push(None);
            assert(slots@ =~= Seq::new((i + 1) as nat, |k: int| None::<F>));
            i += 1;
        }
        FrameScheduler { slots, previous: 0, recording: None }
    }

    /// Number of frame slots.
    pub fn slot_count(&self) -> (count: usize)
        ensures
            count == self@.slots.len(),
    {
        self.slots.len()
    }

    /// The slot most recently submitted into.
    pub fn previous(&self) -> (index: usize)
        ensures
            index == self@.previous,
    {
        self.previous
    }

    /// The slot being drawn into, between `begin_tick` and `end_tick`.
    pub fn recording(&self) -> (slot: Option<usize>)
        ensures
            slot is Some <==> self@.recording is Some,
            slot matches Some(i) ==> self@.recording == Some(i as int),
    {
        self.recording
    }

    /// The completion signal slot `index` holds, if any.
    pub fn signal(&self, index: usize) -> (held: Option<&F>)
        requires
            index < self@.slots.len(),
        ensures
            held is Some <==> self@.slots[index as int] is Some,
            held matches Some(signal) ==> self@.slots[index as int] == Some(*signal),
    {
        self.slots[index].as_ref()
    }

    /// Whether slot `index` holds a signal not yet waited for.
    pub fn state(&self, index: usize) -> (state: SlotState)
        requires
            index < self@.slots.len(),
        ensures
            state == (if self@.slots[index as int] is Some {
                SlotState::InFlight
            } else {
                SlotState::Idle
            }),
    {
        if self.slots[index].is_some() {
            SlotState::InFlight
        } else {
            SlotState::Idle
        }
    }

    /// Whether `begin_tick` accepts `acquired` now: no tick is under way and
    /// the acquired image, if any, has a slot.
    pub fn accepts(&self, acquired: AcquireOutcome) -> (ok: bool)
        ensures
            ok == (self@.recording is None && in_range(self@, acquired)),
    {
        match self.recording {
            Some(_) => false,
            None => match acquired {
                AcquireOutcome::Image(i) => (i as usize) < self.slots.len(),
                _ => true,
            },
        }
    }

    /// First half of a tick. A stale or failed acquisition changes nothing
    /// and asks for no GPU work; an acquired image is remembered, and the plan
    /// says to wait exactly when its slot still holds a signal.
    pub fn begin_tick(&mut self, acquired: AcquireOutcome) -> (plan: TickPlan)
        requires
            old(self).well_formed(),
            old(self)@.recording is None,
            in_range(old(self)@, acquired),
        ensures
            plan == plan_for(old(self)@, acquired),
            final(self)@ == begun(old(self)@, acquired),
            final(self).well_formed(),
            acquired !is Image ==> final(self)@ == old(self)@ && ops_of(plan).len() == 0,
    {
        match acquired {
            AcquireOutcome::OutOfDate => TickPlan::Rebuild,
            AcquireOutcome::Failed => TickPlan::Abort,
            AcquireOutcome::Image(i) => {
                let image_index = i as usize;
                let wait_first = self.slots[image_index].is_some();
                let after = if self.slots[self.previous].is_some() {
                    Predecessor::Slot(self.previous)
                } else {
                    Predecessor::Satisfied
                };
                self.recording = Some(image_index);
                TickPlan::Draw { image_index, wait_first, after }
            },
        }
    }

    /// Second half of a tick that drew. The slot keeps the new signal, or
    /// none where the outcome carries none, and becomes the predecessor.
    pub fn end_tick(&mut self, outcome: SubmitOutcome<F>) -> (result: TickResult)
        requires
            old(self).well_formed(),
            old(self)@.recording is Some,
        ensures
            result == result_for(outcome),
            final(self)@ == finished(old(self)@, outcome),
            final(self).well_formed(),
    {
        let image_index = match self.recording {
            Some(i) => i,
            None => 0,
        };
        let (held, result) = match outcome {
            SubmitOutcome::Signaled(signal) => (Some(signal), TickResult::Presented),
            SubmitOutcome::OutOfDate => (None, TickResult::Rebuild),
            SubmitOutcome::Failed => (None, TickResult::Fatal),
        };
        self.slots.set(image_index, held);
        self.previous = image_index;
        self.recording = None;
        result
    }

    /// Hands out every signal still held, in slot order, and leaves all slots
    /// empty: what to wait for before the chain is torn down.
    pub fn retire_all(&mut self) -> (signals: Vec<F>)
        requires
            old(self).well_formed(),
        ensures
            signals@ == signals_of(old(self)@.slots),
            final(self)@.slots == fresh::<F>(old(self)@.slots.len()).slots,
            final(self)@.previous == old(self)@.previous,
            final(self)@.recording == old(self)@.recording,
            final(self).well_formed(),
    {
        let mut signals: Vec<F> = Vec::new();
        let count = self.slots.len();
        let mut i: usize = 0;
        while i < count
            invariant
                i <= count,
                count == self.slots@.len(),
                count == old(self).slots@.len(),
                self.previous == old(self).previous,
                self.recording == old(self).recording,
                signals@ == signals_of(old(self).slots@.take(i as int)),
                forall|k: int| 0 <= k < i ==> self.slots@[k] is None,
                forall|k: int| i <= k < count ==> self.slots@[k] == old(self).slots@[k],
            decreases count - i,
        {
            proof {
                assert(old(self).slots@.take(i + 1).drop_last() == old(self).slots@.take(i as int));
            }
            let mut held: Option<F> = None;
            std::mem::swap(&mut held, &mut self.slots[i]);
            match held {
                Some(signal) => {
                    signals.push(signal);
                },
                None => {},
            }
            i += 1;
        }
        proof {
            assert(old(self).slots@.take(count as int) == old(self).slots@);
            assert(self.slots@ =~= fresh::<F>(count as nat).slots);
        }
        signals
    }

    /// Starts over for a rebuilt chain: one empty slot per image of the new
    /// chain, whatever the old count was.
    pub fn rebuild(&mut self, image_count: usize)
        ensures
            final(self)@ == fresh::<F>(image_count as nat),
            final(self).well_formed(),
    {
        *self = FrameScheduler::new(image_count);
    }
}

/// One whole tick as the outside world answered it. `outcome` is read only
/// where an image was acquired.
pub struct Tick<F> {
    pub acquired: AcquireOutcome,
    pub outcome: SubmitOutcome<F>,
}

/// The state after one whole tick.
pub open spec fn tick<F>(s: SchedulerView<F>, t: Tick<F>) -> SchedulerView<F> {
    match t.acquired {
        AcquireOutcome::Image(_) => finished(begun(s, t.acquired), t.outcome),
        _ => s,
    }
}

/// The state after a run of whole ticks.
pub open spec fn run<F>(s: SchedulerView<F>, ticks: Seq<Tick<F>>) -> SchedulerView<F>
    decreases ticks.len(),
{
    if ticks.len() == 0 {
        s
    } else {
        tick(run(s, ticks.drop_last()), ticks.last())
    }
}

/// How carrying out a plan changes the set of slots whose latest signal
/// nobody has waited for yet: a wait clears the slot, a signalled submission
/// marks it.
pub open spec fn unsatisfied_after<F>(
    unsatisfied: Set<int>,
    plan: TickPlan,
    outcome: SubmitOutcome<F>,
) -> Set<int> {
    match plan {
        TickPlan::Draw { image_index, wait_first, after } => {
            let waited = if wait_first {
                unsatisfied.remove(image_index as int)
            } else {
                unsatisfied
            };
            if outcome is Signaled {
                waited.insert(image_index as int)
            } else {
                waited
            }
        },
        _ => unsatisfied,
    }
}

/// The slots with an unsatisfied signal after a run of ticks that started
/// with `count` empty slots, every plan carried out as given.
pub open spec fn unsatisfied_run<F>(count: nat, ticks: Seq<Tick<F>>) -> Set<int>
    decreases ticks.len(),
{
    if ticks.len() == 0 {
        Set::empty()
    } else {
        unsatisfied_after(
            unsatisfied_run(count, ticks.drop_last()),
            plan_for(run(fresh::<F>(count), ticks.drop_last()), ticks.last().acquired),
            ticks.last().outcome,
        )
    }
}

/// The plan submits into a slot whose signal is unsatisfied, without waiting.
pub open spec fn races(unsatisfied: Set<int>, plan: TickPlan) -> bool {
    plan matches TickPlan::Draw { image_index, wait_first, after } && unsatisfied.contains(
        image_index as int,
    ) && !wait_first
}

/// Every acquired image has one of `count` slots.
pub open spec fn all_in_range<F>(count: nat, ticks: Seq<Tick<F>>) -> bool {
    forall|j: int|
        0 <= j < ticks.len() ==> ((#[trigger] ticks[j]).acquired matches AcquireOutcome::Image(i)
            ==> i < count)
}

/// Along a run of ticks the slot count never changes, no tick is left half
/// done, and the slots holding a signal are exactly those with an
/// unsatisfied one.
pub proof fn lemma_run_tracks_unsatisfied<F>(count: nat, ticks: Seq<Tick<F>>)
    requires
        all_in_range(count, ticks),
    ensures
        run(fresh::<F>(count), ticks).slots.len() == count,
        run(fresh::<F>(count), ticks).recording is None,
        consistent(run(fresh::<F>(count), ticks)),
        forall|i: int|
            unsatisfied_run(count, ticks).contains(i) <==> 0 <= i < count && run(
                fresh::<F>(count),
                ticks,
            ).slots[i] is Some,
    decreases ticks.len(),
{
    if ticks.len() > 0 {
        let head = ticks.drop_last();
        assert forall|j: int| 0 <= j < head.len() implies ((#[trigger] head[j]).acquired matches AcquireOutcome::Image(
            i,
        ) ==> i < count) by {
            assert(head[j] == ticks[j]);
        }
        lemma_run_tracks_unsatisfied(count, head);
        let before = run(fresh::<F>(count), head);
        let last = ticks[ticks.len() - 1];
        let plan = plan_for(before, last.acquired);
        let earlier = unsatisfied_run(count, head);
        assert(unsatisfied_run(count, ticks) == unsatisfied_after(earlier, plan, last.outcome));
        assert(run(fresh::<F>(count), ticks) == tick(before, last));
        assert forall|i: int|
            unsatisfied_run(count, ticks).contains(i) <==> 0 <= i < count && run(
                fresh::<F>(count),
                ticks,
            ).slots[i] is Some by {
            assert(earlier.contains(i) <==> 0 <= i < count && before.slots[i] is Some);
        }
    }
}

/// Race-free reuse: in a run of ticks over as many slots as the chain has
/// images, no tick submits into a slot whose signal is unsatisfied without
/// first waiting for it.
pub proof fn lemma_race_free_reuse<F>(count: nat, ticks: Seq<Tick<F>>, k: int)
    requires
        all_in_range(count, ticks),
        0 <= k < ticks.len(),
    ensures
        !races(
            unsatisfied_run(count, ticks.take(k)),
            plan_for(run(fresh::<F>(count), ticks.take(k)), ticks[k].acquired),
        ),
{
    let head = ticks.take(k);
    assert forall|j: int| 0 <= j < head.len() implies ((#[trigger] head[j]).acquired matches AcquireOutcome::Image(
        i,
    ) ==> i < count) by {
        assert(head[j] == ticks[j]);
    }
    lemma_run_tracks_unsatisfied(count, head);
}

/// A stale acquisition is inert: the tick asks for no GPU work and leaves
/// every slot, the predecessor and the slot count as they were.
pub proof fn lemma_stale_acquire_is_inert<F>(s: SchedulerView<F>, outcome: SubmitOutcome<F>)
    ensures
        ops_of(plan_for(s, AcquireOutcome::OutOfDate)).len() == 0,
        begun(s, AcquireOutcome::OutOfDate) == s,
        tick(s, Tick { acquired: AcquireOutcome::OutOfDate, outcome }) == s,
{
}

} // verus!
