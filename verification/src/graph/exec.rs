//! Running the graph: what an item does when its turn comes, and how a
//! node or root runs its children.

use crate::graph::arena::Graph;
use crate::graph::children::ChildCount;
use crate::graph::{index_slot_name, GraphExec, GraphItem};
use crate::midi::{MidiValue, MidiValueQueue};
use crate::param::Slot;
use crate::pqueue::enqueued;
use crate::store::{read_named, write_named, Param, ParamStore};
use crate::value::{TickResched, TypedValue, ValueTag};
use vstd::prelude::*;

verus! {

/// What an item knows of the moment at which it runs.
#[derive(Clone, Copy, Debug, PartialEq, Eq, Structural)]
pub struct EventEvalContext {
    /// The tick at which the event runs.
    pub now: usize,
    /// The first tick after the frame that is being run.
    pub end: usize,
    pub sample_rate: usize,
    /// How many steps the enclosing clock has made.
    pub context_tick: usize,
    /// The length of one step of the enclosing clock, in ticks.
    pub period_ticks: usize,
}

/// What running the graph changes: the values of the parameters and the
/// outgoing messages.
pub struct ExecState {
    pub values: Seq<TypedValue>,
    pub midi: Seq<(usize, MidiValue)>,
}

/// Which of its children an item runs, how often, and in which context.
#[derive(Clone, Copy, Debug, PartialEq, Eq, Structural)]
pub struct Plan {
    pub lo: usize,
    pub hi: usize,
    pub passes: usize,
    pub tick: usize,
    pub period: usize,
}

/// The number of child steps that begin before parent step `t` on a clock
/// that makes `mul` steps for every `div` of its parent.
pub open spec fn ratio_steps(t: int, mul: int, div: int) -> int {
    (t * mul + div - 1) / div
}

/// The plan of a clock that makes `mul` steps for every `div` steps of
/// its parent: in each parent step it runs its children once for every
/// step of its own that begins in it, with its own step count and period.
/// It runs nothing where `mul` or `div` is zero or its step count is out
/// of reach.
pub open spec fn ratio_plan(ctx: EventEvalContext, mul: usize, div: usize, hi: usize) -> Plan {
    if mul == 0 || div == 0 {
        Plan { lo: 0, hi: 0, passes: 0, tick: ctx.context_tick, period: ctx.period_ticks }
    } else {
        let first = ratio_steps(ctx.context_tick as int, mul as int, div as int);
        let next = ratio_steps(ctx.context_tick + 1, mul as int, div as int);
        let period = (ctx.period_ticks * div) / (mul as int);
        if next > usize::MAX || next < first {
            Plan { lo: 0, hi: 0, passes: 0, tick: ctx.context_tick, period: ctx.period_ticks }
        } else {
            Plan {
                lo: 0,
                hi,
                passes: (next - first) as usize,
                tick: first as usize,
                period: if period > usize::MAX {
                    usize::MAX
                } else {
                    period as usize
                },
            }
        }
    }
}

/// The plan of a step sequencer: on every `step_ticks`-th step of its
/// clock it runs the child of the next of `steps` places.
pub open spec fn step_plan(ctx: EventEvalContext, step_ticks: usize, steps: usize) -> Plan {
    if step_ticks == 0 || steps == 0 || ctx.context_tick % step_ticks != 0 {
        Plan { lo: 0, hi: 0, passes: 0, tick: ctx.context_tick, period: ctx.period_ticks }
    } else {
        let step = (ctx.context_tick / step_ticks) % steps;
        Plan {
            lo: step,
            hi: (step + 1) as usize,
            passes: 1,
            tick: ctx.context_tick,
            period: ctx.period_ticks,
        }
    }
}

/// The upper end of the range that covers all children: one pass for a
/// child that acts like many.
pub open spec fn all_children(c: ChildCount) -> usize {
    match c {
        ChildCount::Empty => 0,
        ChildCount::Inf => 1,
        ChildCount::Finite(n) => n,
    }
}

/// What the item does with its children when it runs in `ctx`.
pub open spec fn plan_spec(
    item: GraphItem,
    params: Seq<Param>,
    values: Seq<TypedValue>,
    ctx: EventEvalContext,
) -> Plan {
    let hi = all_children(item.children.children.children.count_spec());
    let fuel = params.len();
    let all = Plan { lo: 0, hi, passes: 1, tick: ctx.context_tick, period: ctx.period_ticks };
    let nothing = Plan { lo: 0, hi: 0, passes: 0, tick: ctx.context_tick, period: ctx.period_ticks };
    match item.inner {
        GraphExec::RootClock => all,
        GraphExec::FanOut => all,
        GraphExec::Gate => if read_named(
            params,
            values,
            item.params@,
            "gate"@,
            ValueTag::Bool,
            fuel,
        ).to_bool_spec() {
            all
        } else {
            nothing
        },
        GraphExec::OneHot => {
            let sel = read_named(
                params,
                values,
                item.params@,
                "sel"@,
                ValueTag::USize,
                fuel,
            ).to_usize_spec();
            if sel < usize::MAX {
                Plan { lo: sel, hi: (sel + 1) as usize, ..all }
            } else {
                nothing
            }
        },
        GraphExec::ClockRatio => ratio_plan(
            ctx,
            read_named(params, values, item.params@, "mul"@, ValueTag::USize, fuel).to_usize_spec(),
            read_named(params, values, item.params@, "div"@, ValueTag::USize, fuel).to_usize_spec(),
            hi,
        ),
        GraphExec::StepSeq => step_plan(
            ctx,
            read_named(
                params,
                values,
                item.params@,
                "step_ticks"@,
                ValueTag::USize,
                fuel,
            ).to_usize_spec(),
            read_named(params, values, item.params@, "steps"@, ValueTag::USize, fuel).to_usize_spec(),
        ),
        GraphExec::MidiNote => nothing,
    }
}

/// The context of pass `p` of a plan.
pub open spec fn pass_context(ctx: EventEvalContext, plan: Plan, p: usize) -> EventEvalContext {
    EventEvalContext { context_tick: plan.tick.wrapping_add(p), period_ticks: plan.period, ..ctx }
}

/// The queue after `m` was sent for `tick`: a full queue drops it.
pub open spec fn sent(midi: Seq<(usize, MidiValue)>, cap: nat, tick: usize, m: MidiValue) -> Seq<
    (usize, MidiValue),
> {
    if midi.len() < cap {
        enqueued(midi, tick, m)
    } else {
        midi
    }
}

/// The tick at which a note that starts now ends, if it ends within reach.
pub open spec fn off_tick(dur: TickResched, ctx: EventEvalContext) -> Option<usize> {
    match dur {
        TickResched::Never => None,
        TickResched::Relative(n) => if ctx.now + n <= usize::MAX {
            Some((ctx.now + n) as usize)
        } else {
            None
        },
        TickResched::ContextRelative(n) => if ctx.now + n * ctx.period_ticks <= usize::MAX {
            Some((ctx.now + n * ctx.period_ticks) as usize)
        } else {
            None
        },
    }
}

/// What a note leaf sends: the note-on now, and the note-off after `dur`.
pub open spec fn emit_note(
    params: Seq<Param>,
    slots: Seq<Slot>,
    cap: nat,
    st: ExecState,
    ctx: EventEvalContext,
) -> ExecState {
    let fuel = params.len();
    let chan = read_named(params, st.values, slots, "chan"@, ValueTag::U8, fuel).to_u8_spec();
    let num = read_named(params, st.values, slots, "num"@, ValueTag::U8, fuel).to_u8_spec();
    let on_vel = read_named(params, st.values, slots, "on_vel"@, ValueTag::U8, fuel).to_u8_spec();
    let off_vel = read_named(params, st.values, slots, "off_vel"@, ValueTag::U8, fuel).to_u8_spec();
    let dur = read_named(
        params,
        st.values,
        slots,
        "dur"@,
        ValueTag::TickResched,
        fuel,
    ).to_resched_spec();
    let with_on = sent(st.midi, cap, ctx.now, MidiValue::note_on_spec(chan, num, on_vel));
    ExecState {
        values: st.values,
        midi: match off_tick(dur, ctx) {
            Some(t) => sent(with_on, cap, t, MidiValue::note_off_spec(chan, num, off_vel)),
            None => with_on,
        },
    }
}

/// The state after the item at `h` ran in `ctx`. `fuel` bounds how deep
/// children of children are followed: an item at that depth does not run.
pub open spec fn run_item(
    params: Seq<Param>,
    items: Seq<GraphItem>,
    cap: nat,
    st: ExecState,
    h: int,
    ctx: EventEvalContext,
    fuel: nat,
) -> ExecState
    decreases fuel, 0nat, 0nat,
{
    if fuel == 0 || h < 0 || h >= items.len() {
        st
    } else if items[h].inner == GraphExec::MidiNote {
        emit_note(params, items[h].params@, cap, st, ctx)
    } else {
        run_passes(
            params,
            items,
            cap,
            st,
            h,
            plan_spec(items[h], params, st.values, ctx),
            ctx,
            0,
            (fuel - 1) as nat,
        )
    }
}

/// The state after the child for index `i` of the item at `parent` ran:
/// first the parent's `child_exec_index` is set to `i`, then the child runs.
pub open spec fn run_child(
    params: Seq<Param>,
    items: Seq<GraphItem>,
    cap: nat,
    st: ExecState,
    parent: int,
    ctx: EventEvalContext,
    i: usize,
    fuel: nat,
) -> ExecState
    decreases fuel, 1nat, 0nat,
{
    if parent < 0 || parent >= items.len() {
        st
    } else {
        match items[parent].children.children.children.child_at(i as int) {
            None => st,
            Some(c) => run_item(
                params,
                items,
                cap,
                index_set(params, items[parent].params@, st, i),
                c as int,
                ctx,
                fuel,
            ),
        }
    }
}

/// The state in which the child for index `i` starts to run.
pub open spec fn index_set(params: Seq<Param>, slots: Seq<Slot>, st: ExecState, i: usize) -> ExecState {
    ExecState {
        values: write_named(params, st.values, slots, index_slot_name(), TypedValue::USize(i)),
        midi: st.midi,
    }
}

/// The state after the children for the indices from `lo` up to `hi` ran, in order.
pub open spec fn run_range(
    params: Seq<Param>,
    items: Seq<GraphItem>,
    cap: nat,
    st: ExecState,
    parent: int,
    ctx: EventEvalContext,
    lo: usize,
    hi: usize,
    fuel: nat,
) -> ExecState
    decreases fuel, 2nat, hi - lo,
{
    if lo >= hi {
        st
    } else {
        run_range(
            params,
            items,
            cap,
            run_child(params, items, cap, st, parent, ctx, lo, fuel),
            parent,
            ctx,
            (lo + 1) as usize,
            hi,
            fuel,
        )
    }
}

/// The end of the part of `[lo, hi)` in which a child of `parent` can run.
pub open spec fn clipped(items: Seq<GraphItem>, parent: int, lo: usize, hi: usize) -> usize {
    if 0 <= parent < items.len() {
        items[parent].children.children.children.clip_spec(lo, hi)
    } else {
        lo
    }
}

/// The state after the passes of `plan` from pass `p` on ran.
pub open spec fn run_passes(
    params: Seq<Param>,
    items: Seq<GraphItem>,
    cap: nat,
    st: ExecState,
    parent: int,
    plan: Plan,
    ctx: EventEvalContext,
    p: usize,
    fuel: nat,
) -> ExecState
    decreases fuel, 3nat, plan.passes - p,
{
    if p >= plan.passes {
        st
    } else {
        run_passes(
            params,
            items,
            cap,
            run_range(
                params,
                items,
                cap,
                st,
                parent,
                pass_context(ctx, plan, p),
                plan.lo,
                clipped(items, parent, plan.lo, plan.hi),
                fuel,
            ),
            parent,
            plan,
            ctx,
            (p + 1) as usize,
            fuel,
        )
    }
}

/// What `child_exec_range` on the item at `parent` leaves behind.
pub open spec fn child_exec_range_spec(
    params: Seq<Param>,
    items: Seq<GraphItem>,
    cap: nat,
    st: ExecState,
    parent: int,
    ctx: EventEvalContext,
    lo: usize,
    hi: usize,
) -> ExecState {
    run_range(params, items, cap, st, parent, ctx, lo, clipped(items, parent, lo, hi), items.len())
}

fn ratio(ctx: EventEvalContext, mul: usize, div: usize, hi: usize) -> (p: Plan)
    ensures
        p == ratio_plan(ctx, mul, div, hi),
{
    let nothing = Plan { lo: 0, hi: 0, passes: 0, tick: ctx.context_tick, period: ctx.period_ticks };
    if mul == 0 || div == 0 {
        return nothing;
    }
    let t = ctx.context_tick as u128;
    let m = mul as u128;
    let d = div as u128;
    let q = ctx.period_ticks as u128;
    assert(t * m <= 0xffff_ffff_ffff_ffff * 0xffff_ffff_ffff_ffff) by (nonlinear_arith)
        requires
            t <= 0xffff_ffff_ffff_ffff,
            m <= 0xffff_ffff_ffff_ffff,
    ;
    assert((t + 1) * m <= 0x1_0000_0000_0000_0000 * 0xffff_ffff_ffff_ffff) by (nonlinear_arith)
        requires
            t <= 0xffff_ffff_ffff_ffff,
            m <= 0xffff_ffff_ffff_ffff,
    ;
    assert(q * d <= 0xffff_ffff_ffff_ffff * 0xffff_ffff_ffff_ffff) by (nonlinear_arith)
        requires
            q <= 0xffff_ffff_ffff_ffff,
            d <= 0xffff_ffff_ffff_ffff,
    ;
    let first = (t * m + (d - 1)) / d;
    let next = ((t + 1) * m + (d - 1)) / d;
    let period = (q * d) / m;
    if next > usize::MAX as u128 || next < first {
        return nothing;
    }
    Plan {
        lo: 0,
        hi,
        passes: (next - first) as usize,
        tick: first as usize,
        period: if period > usize::MAX as u128 {
            usize::MAX
        } else {
            period as usize
        },
    }
}

fn step(ctx: EventEvalContext, step_ticks: usize, steps: usize) -> (p: Plan)
    ensures
        p == step_plan(ctx, step_ticks, steps),
{
    if step_ticks == 0 || steps == 0 || ctx.context_tick % step_ticks != 0 {
        Plan { lo: 0, hi: 0, passes: 0, tick: ctx.context_tick, period: ctx.period_ticks }
    } else {
        let s = (ctx.context_tick / step_ticks) % steps;
        Plan { lo: s, hi: s + 1, passes: 1, tick: ctx.context_tick, period: ctx.period_ticks }
    }
}

/// Decides what the item does with its children when it runs in `ctx`.
pub fn plan(item: &GraphItem, store: &ParamStore, ctx: EventEvalContext) -> (p: Plan)
    requires
        store.wf(),
    ensures
        p == plan_spec(*item, store@.params, store@.values, ctx),
{
    let hi = match item.child_count() {
        ChildCount::Empty => 0,
        ChildCount::Inf => 1,
        ChildCount::Finite(n) => n,
    };
    let all = Plan { lo: 0, hi, passes: 1, tick: ctx.context_tick, period: ctx.period_ticks };
    let nothing = Plan { lo: 0, hi: 0, passes: 0, tick: ctx.context_tick, period: ctx.period_ticks };
    match item.inner {
        GraphExec::RootClock => all,
        GraphExec::FanOut => all,
        GraphExec::Gate => {
            if store.read_param(&item.params, "gate", ValueTag::Bool).to_bool() {
                all
            } else {
                nothing
            }
        },
        GraphExec::OneHot => {
            let sel = store.read_param(&item.params, "sel", ValueTag::USize).to_usize();
            if sel < usize::MAX {
                Plan { lo: sel, hi: sel + 1, passes: 1, tick: ctx.context_tick, period: ctx.period_ticks }
            } else {
                nothing
            }
        },
        GraphExec::ClockRatio => {
            let mul = store.read_param(&item.params, "mul", ValueTag::USize).to_usize();
            let div = store.read_param(&item.params, "div", ValueTag::USize).to_usize();
            ratio(ctx, mul, div, hi)
        },
        GraphExec::StepSeq => {
            let step_ticks = store.read_param(&item.params, "step_ticks", ValueTag::USize).to_usize();
            let steps = store.read_param(&item.params, "steps", ValueTag::USize).to_usize();
            step(ctx, step_ticks, steps)
        },
        GraphExec::MidiNote => nothing,
    }
}

fn note_off_tick(dur: TickResched, ctx: EventEvalContext) -> (t: Option<usize>)
    ensures
        t == off_tick(dur, ctx),
{
    match dur {
        TickResched::Never => None,
        TickResched::Relative(n) => {
            if n <= usize::MAX - ctx.now {
                Some(ctx.now + n)
            } else {
                None
            }
        },
        TickResched::ContextRelative(n) => {
            let a = n as u128;
            let b = ctx.period_ticks as u128;
            assert(a * b <= 0xffff_ffff_ffff_ffff * 0xffff_ffff_ffff_ffff) by (nonlinear_arith)
                requires
                    a <= 0xffff_ffff_ffff_ffff,
                    b <= 0xffff_ffff_ffff_ffff,
            ;
            let prod = a * b;
            if prod <= (usize::MAX - ctx.now) as u128 {
                Some(ctx.now + prod as usize)
            } else {
                None
            }
        },
    }
}

fn send(midi: &mut MidiValueQueue, tick: usize, m: MidiValue)
    requires
        old(midi).wf(),
    ensures
        final(midi).wf(),
        final(midi).spec_capacity() == old(midi).spec_capacity(),
        final(midi)@ == sent(old(midi)@, old(midi).spec_capacity(), tick, m),
{
    let _ = midi.enqueue(tick, m);
}

fn emit(item: &GraphItem, store: &ParamStore, midi: &mut MidiValueQueue, ctx: EventEvalContext)
    requires
        store.wf(),
        old(midi).wf(),
    ensures
        final(midi).wf(),
        final(midi).spec_capacity() == old(midi).spec_capacity(),
        (ExecState { values: store@.values, midi: final(midi)@ }) == emit_note(
            store@.params,
            item.params@,
            old(midi).spec_capacity(),
            (ExecState { values: store@.values, midi: old(midi)@ }),
            ctx,
        ),
{
    let chan = store.read_param(&item.params, "chan", ValueTag::U8).to_u8();
    let num = store.read_param(&item.params, "num", ValueTag::U8).to_u8();
    let on_vel = store.read_param(&item.params, "on_vel", ValueTag::U8).to_u8();
    let off_vel = store.read_param(&item.params, "off_vel", ValueTag::U8).to_u8();
    let dur = store.read_param(&item.params, "dur", ValueTag::TickResched).to_resched();
    send(midi, ctx.now, MidiValue::note_on(chan, num, on_vel));
    match note_off_tick(dur, ctx) {
        Some(t) => send(midi, t, MidiValue::note_off(chan, num, off_vel)),
        None => {},
    }
}

/// Runs the item at `h`, and below it whatever it runs of its children.
pub fn exec_item(
    graph: &Graph,
    store: &mut ParamStore,
    midi: &mut MidiValueQueue,
    h: usize,
    ctx: EventEvalContext,
    fuel: usize,
)
    requires
        old(store).wf(),
        old(midi).wf(),
    ensures
        final(store).wf(),
        final(store)@.params == old(store)@.params,
        final(midi).wf(),
        final(midi).spec_capacity() == old(midi).spec_capacity(),
        (ExecState { values: final(store)@.values, midi: final(midi)@ }) == run_item(
            old(store)@.params,
            graph@,
            old(midi).spec_capacity(),
            (ExecState { values: old(store)@.values, midi: old(midi)@ }),
            h as int,
            ctx,
            fuel as nat,
        ),
    decreases fuel, 0nat, 0nat,
{
    if fuel == 0 {
        return ;
    }
    match graph.item(h) {
        None => {},
        Some(item) => {
            match item.inner {
                GraphExec::MidiNote => emit(item, store, midi, ctx),
                _ => {
                    let p = plan(item, store, ctx);
                    exec_passes(graph, store, midi, h, p, ctx, fuel - 1);
                },
            }
        },
    }
}

fn exec_child(
    graph: &Graph,
    store: &mut ParamStore,
    midi: &mut MidiValueQueue,
    parent: usize,
    ctx: EventEvalContext,
    i: usize,
    fuel: usize,
)
    requires
        old(store).wf(),
        old(midi).wf(),
    ensures
        final(store).wf(),
        final(store)@.params == old(store)@.params,
        final(midi).wf(),
        final(midi).spec_capacity() == old(midi).spec_capacity(),
        (ExecState { values: final(store)@.values, midi: final(midi)@ }) == run_child(
            old(store)@.params,
            graph@,
            old(midi).spec_capacity(),
            (ExecState { values: old(store)@.values, midi: old(midi)@ }),
            parent as int,
            ctx,
            i,
            fuel as nat,
        ),
    decreases fuel, 1nat, 0nat,
{
    match graph.item(parent) {
        None => {},
        Some(item) => {
            match item.children.children.children.child(i) {
                None => {},
                Some(c) => {
                    store.write_param(&item.params, "child_exec_index", TypedValue::USize(i));
                    exec_item(graph, store, midi, c, ctx, fuel);
                },
            }
        },
    }
}

fn exec_range(
    graph: &Graph,
    store: &mut ParamStore,
    midi: &mut MidiValueQueue,
    parent: usize,
    ctx: EventEvalContext,
    lo: usize,
    hi: usize,
    fuel: usize,
)
    requires
        old(store).wf(),
        old(midi).wf(),
    ensures
        final(store).wf(),
        final(store)@.params == old(store)@.params,
        final(midi).wf(),
        final(midi).spec_capacity() == old(midi).spec_capacity(),
        (ExecState { values: final(store)@.values, midi: final(midi)@ }) == run_range(
            old(store)@.params,
            graph@,
            old(midi).spec_capacity(),
            (ExecState { values: old(store)@.values, midi: old(midi)@ }),
            parent as int,
            ctx,
            lo,
            hi,
            fuel as nat,
        ),
    decreases fuel, 2nat, 0nat,
{
    let ghost params = store@.params;
    let ghost cap = midi.spec_capacity();
    let ghost st0 = ExecState { values: store@.values, midi: midi@ };
    let mut i: usize = lo;
    while i < hi
        invariant
            store.wf(),
            store@.params == params,
            midi.wf(),
            midi.spec_capacity() == cap,
            run_range(params, graph@, cap, st0, parent as int, ctx, lo, hi, fuel as nat) == run_range(
                params,
                graph@,
                cap,
                (ExecState { values: store@.values, midi: midi@ }),
                parent as int,
                ctx,
                i,
                hi,
                fuel as nat,
            ),
        decreases hi - i,
    {
        exec_child(graph, store, midi, parent, ctx, i, fuel);
        i += 1;
    }
}

fn exec_passes(
    graph: &Graph,
    store: &mut ParamStore,
    midi: &mut MidiValueQueue,
    parent: usize,
    plan: Plan,
    ctx: EventEvalContext,
    fuel: usize,
)
    requires
        old(store).wf(),
        old(midi).wf(),
    ensures
        final(store).wf(),
        final(store)@.params == old(store)@.params,
        final(midi).wf(),
        final(midi).spec_capacity() == old(midi).spec_capacity(),
        (ExecState { values: final(store)@.values, midi: final(midi)@ }) == run_passes(
            old(store)@.params,
            graph@,
            old(midi).spec_capacity(),
            (ExecState { values: old(store)@.values, midi: old(midi)@ }),
            parent as int,
            plan,
            ctx,
            0,
            fuel as nat,
        ),
    decreases fuel, 3nat, 0nat,
{
    let ghost params = store@.params;
    let ghost cap = midi.spec_capacity();
    let ghost st0 = ExecState { values: store@.values, midi: midi@ };
    let hi = match graph.item(parent) {
        Some(item) => item.children.children.children.clip(plan.lo, plan.hi),
        None => plan.lo,
    };
    let mut p: usize = 0;
    while p < plan.passes
        invariant
            store.wf(),
            store@.params == params,
            midi.wf(),
            midi.spec_capacity() == cap,
            hi == clipped(graph@, parent as int, plan.lo, plan.hi),
            run_passes(params, graph@, cap, st0, parent as int, plan, ctx, 0, fuel as nat)
                == run_passes(
                params,
                graph@,
                cap,
                (ExecState { values: store@.values, midi: midi@ }),
                parent as int,
                plan,
                ctx,
                p,
                fuel as nat,
            ),
        decreases plan.passes - p,
    {
        let c = EventEvalContext {
            now: ctx.now,
            end: ctx.end,
            sample_rate: ctx.sample_rate,
            context_tick: plan.tick.wrapping_add(p),
            period_ticks: plan.period,
        };
        exec_range(graph, store, midi, parent, c, plan.lo, hi, fuel);
        p += 1;
    }
}

/// Runs the children of the item at `parent` for the indices from `lo` up
/// to `hi`: for each index the parent's `child_exec_index` is set to it,
/// then the child runs. Indices beyond the last child are skipped.
pub fn child_exec_range(
    graph: &Graph,
    store: &mut ParamStore,
    midi: &mut MidiValueQueue,
    parent: usize,
    ctx: EventEvalContext,
    lo: usize,
    hi: usize,
)
    requires
        old(store).wf(),
        old(midi).wf(),
    ensures
        final(store).wf(),
        final(store)@.params == old(store)@.params,
        final(midi).wf(),
        final(midi).spec_capacity() == old(midi).spec_capacity(),
        (ExecState { values: final(store)@.values, midi: final(midi)@ }) == child_exec_range_spec(
            old(store)@.params,
            graph@,
            old(midi).spec_capacity(),
            (ExecState { values: old(store)@.values, midi: old(midi)@ }),
            parent as int,
            ctx,
            lo,
            hi,
        ),
{
    let end = match graph.item(parent) {
        Some(item) => item.children.children.children.clip(lo, hi),
        None => lo,
    };
    exec_range(graph, store, midi, parent, ctx, lo, end, graph.len());
}

} // verus!
