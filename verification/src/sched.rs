//! The tick scheduler: a queue of events, and the executor that runs what is due.

use crate::clock::{period_ticks, period_ticks_spec};
use crate::graph::arena::Graph;
use crate::graph::exec::{exec_item, run_item, EventEvalContext, ExecState};
use crate::graph::{EventContainer, GraphItem};
use crate::midi::{MidiValue, MidiValueQueue};
use crate::pqueue::{enqueued, has_due, lemma_insert_pos_bounds, sorted_by_tick, TickQueue};
use crate::store::{read_named, Param, ParamStore};
use crate::value::{TypedValue, ValueTag};
use vstd::prelude::*;

verus! {

/// The scheduler's queue of events.
pub type EventQueue = TickQueue<EventContainer>;

/// How many entries each of the scheduler's queues holds.
pub const QUEUE_CAPACITY: usize = 1024;

/// The two queues that the scheduler shares with those who feed and drain it.
pub struct SchedQueueSources {
    midi_queue: MidiValueQueue,
    sched_queue: EventQueue,
}

/// Access to the scheduler's queues.
pub trait QueueSource {
    spec fn midi_spec(&self) -> Seq<(usize, MidiValue)>;

    spec fn sched_spec(&self) -> Seq<(usize, EventContainer)>;

    /// The outgoing messages.
    fn midi_queue(&self) -> (q: &MidiValueQueue)
        ensures
            q@ == self.midi_spec(),
    ;

    /// The pending events.
    fn sched_queue(&self) -> (q: &EventQueue)
        ensures
            q@ == self.sched_spec(),
    ;
}

impl SchedQueueSources {
    pub closed spec fn wf(&self) -> bool {
        self.midi_queue.wf() && self.sched_queue.wf()
    }

    pub fn new(midi_queue: MidiValueQueue, sched_queue: EventQueue) -> (s: Self)
        requires
            midi_queue.wf(),
            sched_queue.wf(),
        ensures
            s.wf(),
            s.midi_spec() == midi_queue@,
            s.sched_spec() == sched_queue@,
    {
        SchedQueueSources { midi_queue, sched_queue }
    }
}

impl QueueSource for SchedQueueSources {
    closed spec fn midi_spec(&self) -> Seq<(usize, MidiValue)> {
        self.midi_queue@
    }

    closed spec fn sched_spec(&self) -> Seq<(usize, EventContainer)> {
        self.sched_queue@
    }

    fn midi_queue(&self) -> (q: &MidiValueQueue) {
        &self.midi_queue
    }

    fn sched_queue(&self) -> (q: &EventQueue) {
        &self.sched_queue
    }
}

/// What a run of the scheduler changes.
pub struct RunState {
    pub queue: Seq<(usize, EventContainer)>,
    pub values: Seq<TypedValue>,
    pub midi: Seq<(usize, MidiValue)>,
    /// The events handed to the disposal sink.
    pub disposed: Seq<EventContainer>,
    /// How many events the full sink has dropped.
    pub dropped: usize,
}

/// What a run of the scheduler works with and leaves as it is.
pub struct RunEnv {
    pub params: Seq<Param>,
    pub items: Seq<GraphItem>,
    pub midi_cap: nat,
    pub sink_cap: nat,
    /// The tick at which the frame starts.
    pub now: usize,
    /// The first tick after the frame.
    pub end: usize,
    pub sample_rate: usize,
}

/// Whether an event is still held open by its gate.
pub open spec fn gate_is_open(items: Seq<GraphItem>, e: EventContainer) -> bool {
    e.root < items.len() && items[e.root as int].gate_open(e.gate)
}

/// The ticks between two steps of the root at `root`, from what its slot
/// `period_micros` reads.
pub open spec fn root_delta(
    params: Seq<Param>,
    items: Seq<GraphItem>,
    values: Seq<TypedValue>,
    root: int,
    sample_rate: usize,
) -> usize {
    period_ticks_spec(
        read_named(
            params,
            values,
            items[root].params@,
            "period_micros"@,
            ValueTag::Float,
            params.len(),
        ).to_float_spec().bits,
        sample_rate,
    )
}

/// The state after `e` went to the disposal sink: a full sink drops it and counts.
pub open spec fn disposed_of(env: RunEnv, st: RunState, e: EventContainer) -> RunState {
    if st.disposed.len() < env.sink_cap {
        RunState { disposed: st.disposed.push(e), ..st }
    } else {
        RunState {
            dropped: if st.dropped < usize::MAX {
                (st.dropped + 1) as usize
            } else {
                st.dropped
            },
            ..st
        }
    }
}

/// The later of the tick an event was queued for and the start of the frame.
pub open spec fn dispatch_tick(env: RunEnv, t: usize) -> usize {
    if t > env.now {
        t
    } else {
        env.now
    }
}

/// The state after the earliest event was taken from the queue and
/// dispatched. While its gate is open the root runs and the event goes back
/// into the queue one period later; otherwise, and where that tick is out
/// of reach, the event goes to the disposal sink.
pub open spec fn dispatch_step(env: RunEnv, st: RunState) -> RunState {
    let t = st.queue[0].0;
    let e = st.queue[0].1;
    let rest = RunState { queue: st.queue.remove(0), ..st };
    let at = dispatch_tick(env, t);
    if gate_is_open(env.items, e) {
        let delta = root_delta(env.params, env.items, st.values, e.root as int, env.sample_rate);
        let ctx = EventEvalContext {
            now: at,
            end: env.end,
            sample_rate: env.sample_rate,
            context_tick: e.ticks,
            period_ticks: delta,
        };
        let ran = run_item(
            env.params,
            env.items,
            env.midi_cap,
            ExecState { values: st.values, midi: st.midi },
            e.root as int,
            ctx,
            env.items.len(),
        );
        let after = RunState { values: ran.values, midi: ran.midi, ..rest };
        if at + delta <= usize::MAX {
            RunState {
                queue: enqueued(
                    rest.queue,
                    (at + delta) as usize,
                    EventContainer { ticks: e.ticks.wrapping_add(1), ..e },
                ),
                ..after
            }
        } else {
            disposed_of(env, after, e)
        }
    } else {
        disposed_of(env, rest, e)
    }
}

/// What the entries that are due before `end` still have to wait, summed:
/// every dispatch makes it smaller.
pub open spec fn budget<T>(q: Seq<(usize, T)>, end: usize) -> nat
    decreases q.len(),
{
    if q.len() == 0 {
        0
    } else {
        budget(q.drop_last(), end) + overdue(q.last().0, end)
    }
}

/// How long before `end` the tick `t` lies.
pub open spec fn overdue(t: usize, end: usize) -> nat {
    if t < end {
        (end - t) as nat
    } else {
        0
    }
}

/// An entry that arrives adds what it has to wait.
pub proof fn lemma_budget_insert<T>(q: Seq<(usize, T)>, i: int, x: (usize, T), end: usize)
    requires
        0 <= i <= q.len(),
    ensures
        budget(q.insert(i, x), end) == budget(q, end) + overdue(x.0, end),
    decreases q.len(),
{
    let r = q.insert(i, x);
    if i == q.len() {
        assert(r.drop_last() =~= q);
    } else {
        assert(r.drop_last() =~= q.drop_last().insert(i, x));
        assert(r.last() == q.last());
        lemma_budget_insert(q.drop_last(), i, x, end);
    }
}

/// An entry that leaves takes with it what it had to wait.
pub proof fn lemma_budget_remove<T>(q: Seq<(usize, T)>, i: int, end: usize)
    requires
        0 <= i < q.len(),
    ensures
        budget(q.remove(i), end) + overdue(q[i].0, end) == budget(q, end),
    decreases q.len(),
{
    let r = q.remove(i);
    if i == q.len() - 1 {
        assert(r =~= q.drop_last());
    } else {
        assert(r.drop_last() =~= q.drop_last().remove(i));
        assert(r.last() == q.last());
        lemma_budget_remove(q.drop_last(), i, end);
    }
}

/// A dispatch brings the run closer to its end.
pub proof fn lemma_step_decreases(env: RunEnv, st: RunState)
    requires
        has_due(st.queue, env.end),
    ensures
        budget(dispatch_step(env, st).queue, env.end) < budget(st.queue, env.end),
{
    let t = st.queue[0].0;
    let e = st.queue[0].1;
    let rest = st.queue.remove(0);
    lemma_budget_remove(st.queue, 0, env.end);
    let at = dispatch_tick(env, t);
    if gate_is_open(env.items, e) {
        let delta = root_delta(env.params, env.items, st.values, e.root as int, env.sample_rate);
        if at + delta <= usize::MAX {
            let e2 = EventContainer { ticks: e.ticks.wrapping_add(1), ..e };
            let t2 = (at + delta) as usize;
            lemma_insert_pos_bounds(rest, t2);
            lemma_budget_insert(rest, crate::pqueue::insert_pos(rest, t2), (t2, e2), env.end);
        }
    }
}

/// The state in which a run ends: events are dispatched, earliest first,
/// until none is due before the end of the frame.
pub open spec fn run_spec(env: RunEnv, st: RunState) -> RunState
    decreases budget(st.queue, env.end),
{
    if !has_due(st.queue, env.end) {
        st
    } else {
        proof {
            lemma_step_decreases(env, st);
        }
        run_spec(env, dispatch_step(env, st))
    }
}

/// One dispatch of a run: an event whose gate was open when its turn came.
pub struct Dispatch {
    /// The tick the event was queued for.
    pub queued: usize,
    /// The tick at which it ran.
    pub at: usize,
    pub event: EventContainer,
}

/// The dispatches of a run, in order: every event that was taken from the
/// queue while its gate was open. Events whose gate was closed are taken
/// from the queue too, but they run nothing and are no dispatches.
pub open spec fn dispatches(env: RunEnv, st: RunState) -> Seq<Dispatch>
    decreases budget(st.queue, env.end),
{
    if !has_due(st.queue, env.end) {
        Seq::<Dispatch>::empty()
    } else {
        proof {
            lemma_step_decreases(env, st);
        }
        let rest = dispatches(env, dispatch_step(env, st));
        if gate_is_open(env.items, st.queue[0].1) {
            seq![
                Dispatch {
                    queued: st.queue[0].0,
                    at: dispatch_tick(env, st.queue[0].0),
                    event: st.queue[0].1,
                },
            ] + rest
        } else {
            rest
        }
    }
}

/// How many ticks after `now` the tick `t` lies; zero for an earlier one.
pub open spec fn frame_offset(t: usize, now: usize) -> usize {
    if t > now {
        (t - now) as usize
    } else {
        0
    }
}

/// Whether a message can be played: it has one, two or three bytes.
pub open spec fn playable(m: MidiValue) -> bool {
    1 <= m.len <= 3
}

/// The messages to play in the frame that started at `now` and ended
/// before `next`: those due before `next`, in order, each with its offset
/// into the frame; messages that cannot be played are left out.
pub open spec fn drained(midi: Seq<(usize, MidiValue)>, now: usize, next: usize) -> Seq<
    (usize, MidiValue),
>
    decreases midi.len(),
{
    if !has_due(midi, next) {
        Seq::<(usize, MidiValue)>::empty()
    } else if playable(midi[0].1) {
        seq![(frame_offset(midi[0].0, now), midi[0].1)] + drained(midi.remove(0), now, next)
    } else {
        drained(midi.remove(0), now, next)
    }
}

/// The messages that stay in the queue: those from the first on that is
/// not due before `next`.
pub open spec fn undrained(midi: Seq<(usize, MidiValue)>, next: usize) -> Seq<(usize, MidiValue)>
    decreases midi.len(),
{
    if !has_due(midi, next) {
        midi
    } else {
        undrained(midi.remove(0), next)
    }
}

/// What a scheduler holds.
pub struct SchedView {
    /// The tick at which the next frame starts.
    pub tick: usize,
    pub queue: Seq<(usize, EventContainer)>,
    pub queue_cap: nat,
    pub midi: Seq<(usize, MidiValue)>,
    pub midi_cap: nat,
    pub disposed: Seq<EventContainer>,
    pub sink_cap: nat,
    pub dropped: usize,
}

impl SchedView {
    /// The part of a scheduler and of the parameters' values that a run changes.
    pub open spec fn state(self, values: Seq<TypedValue>) -> RunState {
        RunState {
            queue: self.queue,
            values,
            midi: self.midi,
            disposed: self.disposed,
            dropped: self.dropped,
        }
    }

    /// What a run of `frames` ticks works with.
    pub open spec fn env(
        self,
        params: Seq<Param>,
        items: Seq<GraphItem>,
        frames: usize,
        sample_rate: usize,
    ) -> RunEnv {
        RunEnv {
            params,
            items,
            midi_cap: self.midi_cap,
            sink_cap: self.sink_cap,
            now: self.tick,
            end: (self.tick + frames) as usize,
            sample_rate,
        }
    }

    /// Both queues are sorted, and queues and sink are within their capacity.
    pub open spec fn wf(self) -> bool {
        &&& sorted_by_tick(self.queue)
        &&& self.queue.len() <= self.queue_cap
        &&& sorted_by_tick(self.midi)
        &&& self.midi.len() <= self.midi_cap
        &&& self.disposed.len() <= self.sink_cap
    }
}

/// The scheduler.
pub struct Sched {
    tick: usize,
    sink: Vec<EventContainer>,
    sink_capacity: usize,
    dropped: usize,
    queue_sources: SchedQueueSources,
}

impl Sched {
    /// What the scheduler holds.
    pub closed spec fn view(&self) -> SchedView {
        SchedView {
            tick: self.tick,
            queue: self.queue_sources.sched_queue@,
            queue_cap: self.queue_sources.sched_queue.spec_capacity(),
            midi: self.queue_sources.midi_queue@,
            midi_cap: self.queue_sources.midi_queue.spec_capacity(),
            disposed: self.sink@,
            sink_cap: self.sink_capacity as nat,
            dropped: self.dropped,
        }
    }

    pub open spec fn wf(&self) -> bool {
        self@.wf()
    }

    /// A scheduler at tick zero with empty queues.
    pub fn new() -> (s: Self)
        ensures
            s.wf(),
            s@.tick == 0,
            s@.queue.len() == 0,
            s@.midi.len() == 0,
            s@.disposed.len() == 0,
            s@.dropped == 0,
            s@.queue_cap == QUEUE_CAPACITY,
            s@.midi_cap == QUEUE_CAPACITY,
            s@.sink_cap == QUEUE_CAPACITY,
    {
        let midi_queue: MidiValueQueue = TickQueue::with_capacity(QUEUE_CAPACITY);
        let sched_queue: EventQueue = TickQueue::with_capacity(QUEUE_CAPACITY);
        Sched {
            tick: 0,
            sink: Vec::new(),
            sink_capacity: QUEUE_CAPACITY,
            dropped: 0,
            queue_sources: SchedQueueSources { midi_queue, sched_queue },
        }
    }

    /// The tick at which the next frame starts.
    pub fn tick_next(&self) -> (t: usize)
        ensures
            t == self@.tick,
    {
        self.tick
    }

    /// The scheduler's queues.
    pub fn queue_sources(&self) -> (q: &SchedQueueSources)
        ensures
            q.midi_spec() == self@.midi,
            q.sched_spec() == self@.queue,
    {
        &self.queue_sources
    }

    /// How many events the event queue holds.
    pub fn queue_capacity(&self) -> (n: usize)
        ensures
            n == self@.queue_cap,
    {
        self.queue_sources.sched_queue.capacity()
    }

    /// How many events the full disposal sink has dropped.
    pub fn dropped(&self) -> (n: usize)
        ensures
            n == self@.dropped,
    {
        self.dropped
    }

    /// Queues `e` for `tick`. A full queue hands it back.
    pub fn enqueue(&mut self, tick: usize, e: EventContainer) -> (r: Result<(), EventContainer>)
        requires
            old(self).wf(),
        ensures
            final(self).wf(),
            old(self)@.queue.len() < old(self)@.queue_cap ==> r.is_ok() && final(self)@ == (SchedView {
                queue: enqueued(old(self)@.queue, tick, e),
                ..old(self)@
            }),
            old(self)@.queue.len() >= old(self)@.queue_cap ==> r == Err::<(), EventContainer>(e)
                && final(self)@ == old(self)@,
    {
        self.queue_sources.sched_queue.enqueue(tick, e)
    }

    /// Empties the disposal sink and hands out what was in it.
    pub fn dispose_all(&mut self) -> (d: Vec<EventContainer>)
        requires
            old(self).wf(),
        ensures
            final(self).wf(),
            d@ == old(self)@.disposed,
            final(self)@ == (SchedView { disposed: Seq::<EventContainer>::empty(), ..old(self)@ }),
    {
        let mut d: Vec<EventContainer> = Vec::new();
        std::mem::swap(&mut self.sink, &mut d);
        d
    }

    fn dispose(&mut self, e: EventContainer)
        requires
            old(self).wf(),
        ensures
            final(self).wf(),
            final(self)@.tick == old(self)@.tick,
            final(self)@.queue == old(self)@.queue,
            final(self)@.queue_cap == old(self)@.queue_cap,
            final(self)@.midi == old(self)@.midi,
            final(self)@.midi_cap == old(self)@.midi_cap,
            final(self)@.sink_cap == old(self)@.sink_cap,
            forall|env: RunEnv, values: Seq<TypedValue>|
                env.sink_cap == old(self)@.sink_cap ==> #[trigger] disposed_of(
                    env,
                    old(self)@.state(values),
                    e,
                ) == final(self)@.state(values),
    {
        if self.sink.len() < self.sink_capacity {
            self.sink.push(e);
        } else if self.dropped < usize::MAX {
            self.dropped = self.dropped + 1;
        }
    }

    /// Takes from the queue the messages that are due before the next
    /// frame, and hands out those that can be played, each with its offset
    /// into the frame that started at `now`.
    pub fn midi_drain(&mut self, now: usize) -> (out: Vec<(usize, MidiValue)>)
        requires
            old(self).wf(),
        ensures
            final(self).wf(),
            out@ == drained(old(self)@.midi, now, old(self)@.tick),
            final(self)@ == (SchedView {
                midi: undrained(old(self)@.midi, old(self)@.tick),
                ..old(self)@
            }),
    {
        let next = self.tick;
        let mut out: Vec<(usize, MidiValue)> = Vec::new();
        let ghost start = self@.midi;
        loop
            invariant
                self.wf(),
                self@ == (SchedView { midi: self@.midi, ..old(self)@ }),
                next == old(self)@.tick,
                start == old(self)@.midi,
                out@ + drained(self@.midi, now, next) == drained(start, now, next),
                undrained(self@.midi, next) == undrained(start, next),
            ensures
                self.wf(),
                out@ == drained(start, now, next),
                self@ == (SchedView { midi: undrained(start, next), ..old(self)@ }),
            decreases self@.midi.len(),
        {
            let ghost before = self@.midi;
            match self.queue_sources.midi_queue.dequeue_lt(next) {
                None => {
                    assert(out@ + Seq::<(usize, MidiValue)>::empty() =~= out@);
                    break ;
                },
                Some((t, m)) => {
                    let ghost rest = drained(before.remove(0), now, next);
                    if 1 <= m.len && m.len <= 3 {
                        let offset = if t > now {
                            t - now
                        } else {
                            0
                        };
                        assert((out@ + seq![(offset, m)]) + rest =~= out@ + (seq![(offset, m)]
                            + rest));
                        out.push((offset, m));
                    }
                },
            }
        }
        out
    }

    /// Takes the earliest event and dispatches it.
    fn dispatch(
        &mut self,
        graph: &Graph,
        store: &mut ParamStore,
        now: usize,
        end: usize,
        sample_rate: usize,
    )
        requires
            old(self).wf(),
            old(store).wf(),
            has_due(old(self)@.queue, end),
        ensures
            final(self).wf(),
            final(store).wf(),
            final(store)@.params == old(store)@.params,
            final(self)@.tick == old(self)@.tick,
            final(self)@.queue_cap == old(self)@.queue_cap,
            final(self)@.midi_cap == old(self)@.midi_cap,
            final(self)@.sink_cap == old(self)@.sink_cap,
            final(self)@.state(final(store)@.values) == dispatch_step(
                (RunEnv {
                    params: old(store)@.params,
                    items: graph@,
                    midi_cap: old(self)@.midi_cap,
                    sink_cap: old(self)@.sink_cap,
                    now,
                    end,
                    sample_rate,
                }),
                old(self)@.state(old(store)@.values),
            ),
    {
        let ghost env = RunEnv {
            params: store@.params,
            items: graph@,
            midi_cap: self@.midi_cap,
            sink_cap: self@.sink_cap,
            now,
            end,
            sample_rate,
        };
        let ghost st = self@.state(store@.values);
        let popped = self.queue_sources.sched_queue.dequeue_lt(end);
        let (t, e) = match popped {
            Some(p) => p,
            None => {
                return ;
            },
        };
        let at = if t > now {
            t
        } else {
            now
        };
        let ghost pre = self@;
        assert(pre.state(store@.values) == (RunState { queue: st.queue.remove(0), ..st }));
        assert(at == dispatch_tick(env, t));
        let open = match graph.item(e.root) {
            Some(item) => e.gate < item.gates.len() && item.gates[e.gate],
            None => false,
        };
        if open {
            let item = graph.item(e.root).unwrap();
            let period = store.read_param(&item.params, "period_micros", ValueTag::Float).to_float();
            let delta = period_ticks(period, sample_rate);
            let ctx = EventEvalContext {
                now: at,
                end,
                sample_rate,
                context_tick: e.ticks,
                period_ticks: delta,
            };
            assert(delta == root_delta(env.params, env.items, st.values, e.root as int, sample_rate));
            exec_item(graph, store, &mut self.queue_sources.midi_queue, e.root, ctx, graph.len());
            let ghost mid = self@;
            assert(mid.state(store@.values) == (RunState {
                values: store@.values,
                midi: mid.midi,
                ..pre.state(st.values)
            }));
            if delta <= usize::MAX - at {
                let e2 = EventContainer {
                    root: e.root,
                    gate: e.gate,
                    ticks: e.ticks.wrapping_add(1),
                };
                let r = self.queue_sources.sched_queue.enqueue(at + delta, e2);
                assert(r.is_ok());
            } else {
                self.dispose(e);
                assert(self@.state(store@.values) == disposed_of(env, mid.state(store@.values), e));
            }
        } else {
            assert(!gate_is_open(env.items, e));
            self.dispose(e);
            assert(self@.state(store@.values) == disposed_of(env, pre.state(store@.values), e));
        }
    }

    /// Runs one frame: dispatches, earliest first, every event that is due
    /// before the frame ends, then moves the clock to the end of the frame.
    pub fn run(&mut self, frames: usize, sample_rate: usize, graph: &Graph, store: &mut ParamStore)
        requires
            old(self).wf(),
            old(store).wf(),
            old(self)@.tick + frames <= usize::MAX,
        ensures
            final(self).wf(),
            final(store).wf(),
            final(store)@.params == old(store)@.params,
            final(self)@.tick == old(self)@.tick + frames,
            final(self)@.queue_cap == old(self)@.queue_cap,
            final(self)@.midi_cap == old(self)@.midi_cap,
            final(self)@.sink_cap == old(self)@.sink_cap,
            final(self)@.state(final(store)@.values) == run_spec(
                old(self)@.env(old(store)@.params, graph@, frames, sample_rate),
                old(self)@.state(old(store)@.values),
            ),
            forall|i: int|
                0 <= i < final(self)@.queue.len() ==> (#[trigger] final(self)@.queue[i]).0 >= final(self)@.tick,
    {
        let now = self.tick;
        let end = now + frames;
        let ghost env = self@.env(store@.params, graph@, frames, sample_rate);
        let ghost st0 = self@.state(store@.values);
        loop
            invariant
                self.wf(),
                store.wf(),
                store@.params == env.params,
                graph@ == env.items,
                self@.tick == now,
                self@.midi_cap == env.midi_cap,
                self@.sink_cap == env.sink_cap,
                self@.queue_cap == old(self)@.queue_cap,
                env.now == now,
                env.end == end,
                env.sample_rate == sample_rate,
                run_spec(env, st0) == run_spec(env, self@.state(store@.values)),
            ensures
                self.wf(),
                store.wf(),
                store@.params == env.params,
                self@.tick == now,
                self@.midi_cap == env.midi_cap,
                self@.sink_cap == env.sink_cap,
                self@.queue_cap == old(self)@.queue_cap,
                !has_due(self@.queue, end),
                run_spec(env, st0) == self@.state(store@.values),
            decreases budget(self@.queue, end),
        {
            let due = match self.queue_sources.sched_queue.peek_tick() {
                Some(t) => t < end,
                None => false,
            };
            if !due {
                break ;
            }
            proof {
                lemma_step_decreases(env, self@.state(store@.values));
            }
            self.dispatch(graph, store, now, end, sample_rate);
        }
        self.tick = end;
    }
}

} // verus!
