//! What holds of the library as a whole, stated over the functions that
//! say what its operations do.

use crate::graph::exec::{index_set, run_child, run_item, EventEvalContext, ExecState};
use crate::graph::{index_slot_name, EventContainer, GraphItem};
use crate::param::factory::{made_from, FactoryKind};
use crate::param::{
    bind_refusal, has_slot, lemma_slot_position, slot_of, slot_position, slots_bound, slots_unbound,
    ParamRef, Slot,
};
use crate::pqueue::{
    enqueued, has_due, insert_pos, lemma_enqueued_sorted, lemma_insert_pos_bounds,
    lemma_insert_pos_prefix, sorted_by_tick,
};
use crate::sched::{
    budget, dispatch_step, dispatch_tick, dispatches, gate_is_open, lemma_step_decreases,
    root_delta, run_spec, RunEnv, RunState,
};
use crate::store::{bind_outcome, can_store, eval, reaches, read_slot, set_spec, Param, StoreView};
use crate::value::{TypedValue, ValueTag};
use vstd::prelude::*;

verus! {

/// What is written to a mutable value of the factory is what is read from
/// it next: for every type, and whatever the value held before.
pub proof fn law_set_then_get(
    store: StoreView,
    h: int,
    tag: ValueTag,
    initial: TypedValue,
    uuid: u128,
    x: TypedValue,
)
    requires
        0 <= h < store.params.len(),
        store.params.len() == store.values.len(),
        made_from(store.params[h], FactoryKind::Mutable, tag, initial, uuid),
        initial.tag_spec() == tag,
        x.tag_spec() == tag,
    ensures
        (StoreView {
            params: store.params,
            values: set_spec(store.params, store.values, h, x),
        }).get_spec(h) == Some(x),
{
    assert(can_store(store.params[h], x));
}

/// Where two lists of slots carry the same names, a name has the same place in both.
pub proof fn lemma_position_by_names(a: Seq<Slot>, b: Seq<Slot>, name: Seq<char>)
    requires
        a.len() == b.len(),
        forall|i: int| 0 <= i < a.len() ==> (#[trigger] a[i]).name == b[i].name,
    ensures
        slot_position(a, name) == slot_position(b, name),
    decreases a.len(),
{
    if a.len() > 0 {
        assert(a[0].name == b[0].name);
        if a[0].name != name {
            let da = a.drop_first();
            let db = b.drop_first();
            assert forall|i: int| 0 <= i < da.len() implies (#[trigger] da[i]).name == db[i].name by {
                assert(a[i + 1].name == b[i + 1].name);
            }
            lemma_position_by_names(da, db, name);
        }
    }
}

/// Binding a source into a slot changes neither the slot's place nor its name.
pub proof fn lemma_slot_of_bound(s: Seq<Slot>, name: Seq<char>, source: ParamRef)
    requires
        has_slot(s, name),
    ensures
        has_slot(slots_bound(s, name, source), name),
        slot_of(slots_bound(s, name, source), name) == slot_of(s, name).bound(source),
{
    lemma_slot_position(s, name);
    lemma_position_by_names(s, slots_bound(s, name, source), name);
}

/// Unbinding a slot changes neither its place nor its name.
pub proof fn lemma_slot_of_unbound(s: Seq<Slot>, name: Seq<char>)
    requires
        has_slot(s, name),
    ensures
        has_slot(slots_unbound(s, name), name),
        slot_of(slots_unbound(s, name), name) == slot_of(s, name).unbound(),
{
    lemma_slot_position(s, name);
    lemma_position_by_names(s, slots_unbound(s, name), name);
}

/// After a source was bound into a slot, reading through the slot yields
/// what reading the source yields.
pub proof fn law_bound_slot_reads_source(
    params: Seq<Param>,
    values: Seq<TypedValue>,
    slots: Seq<Slot>,
    name: Seq<char>,
    source: ParamRef,
)
    requires
        bind_refusal(slots, name, source) is None,
        source.handle < params.len(),
        params.len() == values.len(),
    ensures
        read_slot(
            params,
            values,
            slot_of(slots_bound(slots, name, source), name),
            params.len(),
        ) == eval(params, values, source.handle as int, params.len()),
{
    lemma_slot_of_bound(slots, name, source);
}

/// After a slot was unbound, reading through it yields the default of its type.
pub proof fn law_unbound_slot_reads_default(
    params: Seq<Param>,
    values: Seq<TypedValue>,
    slots: Seq<Slot>,
    name: Seq<char>,
)
    requires
        has_slot(slots, name),
    ensures
        read_slot(params, values, slot_of(slots_unbound(slots, name), name), params.len())
            == slot_of(slots, name).tag().default_spec(),
{
    lemma_slot_of_unbound(slots, name);
}

/// Binding the same source into the same slot once more changes nothing.
pub proof fn law_bind_is_idempotent(slots: Seq<Slot>, name: Seq<char>, source: ParamRef)
    requires
        bind_refusal(slots, name, source) is None,
    ensures
        bind_refusal(slots_bound(slots, name, source), name, source) is None,
        slots_bound(slots_bound(slots, name, source), name, source) == slots_bound(slots, name, source),
{
    lemma_slot_position(slots, name);
    lemma_slot_of_bound(slots, name, source);
    lemma_position_by_names(slots, slots_bound(slots, name, source), name);
    assert(slots_bound(slots_bound(slots, name, source), name, source) =~= slots_bound(
        slots,
        name,
        source,
    ));
}

/// A binding that would make a parameter reach itself is refused.
pub proof fn law_cycles_are_refused(params: Seq<Param>, owner: int, name: Seq<char>, source: int)
    requires
        reaches(params, source, owner, params.len()),
    ensures
        bind_outcome(params, owner, name, source) is Some,
{
}

/// A parameter cannot be bound into a slot of its own.
pub proof fn law_no_binding_into_itself(params: Seq<Param>, owner: int, name: Seq<char>)
    ensures
        bind_outcome(params, owner, name, owner) is Some,
{
}

/// Where a slot of `source` holds `owner`, binding `source` into a slot of
/// `owner` would close a loop, and is refused.
pub proof fn law_no_loop_of_two(
    params: Seq<Param>,
    owner: int,
    name: Seq<char>,
    source: int,
    k: int,
)
    requires
        0 <= owner < params.len(),
        0 <= source < params.len(),
        0 <= k < params[source].params@.len(),
        params[source].params@[k].access.binding matches Some(b) && b.handle == owner,
    ensures
        bind_outcome(params, owner, name, source) is Some,
{
    let slots = params[source].params@;
    let fuel = (params.len() - 1) as nat;
    reveal_with_fuel(reaches, 2);
    assert(reaches(params, owner, owner, fuel));
    crate::acyclic::lemma_reaches_through(params, slots, 0, k, owner, fuel);
    assert(reaches(params, source, owner, params.len()));
}

/// A root that is not active holds no event open: every event of a
/// deactivated root is dropped when its turn comes.
pub proof fn law_inactive_root_is_closed(items: Seq<GraphItem>, e: EventContainer)
    requires
        e.root < items.len(),
        items[e.root as int].wf(),
        items[e.root as int].active_gate is None,
    ensures
        !gate_is_open(items, e),
{
    if items[e.root as int].gate_open(e.gate) {
        assert(items[e.root as int].active_gate == Some(e.gate));
    }
}

/// An event is held open by its root's latest gate, and by no other.
pub proof fn law_latest_gate_holds(items: Seq<GraphItem>, e: EventContainer)
    requires
        e.root < items.len(),
        items[e.root as int].wf(),
    ensures
        gate_is_open(items, e) <==> items[e.root as int].active_gate == Some(e.gate),
{
    if items[e.root as int].gate_open(e.gate) {
        assert(items[e.root as int].active_gate == Some(e.gate));
    }
}

/// While an event's gate is open, its dispatch runs the root, and the
/// event goes back into the queue one period later if that tick is in reach.
pub proof fn law_open_gate_runs(env: RunEnv, st: RunState)
    requires
        has_due(st.queue, env.end),
        gate_is_open(env.items, st.queue[0].1),
    ensures
        ({
            let e = st.queue[0].1;
            let at = dispatch_tick(env, st.queue[0].0);
            let delta = root_delta(env.params, env.items, st.values, e.root as int, env.sample_rate);
            let ran = run_item(
                env.params,
                env.items,
                env.midi_cap,
                ExecState { values: st.values, midi: st.midi },
                e.root as int,
                EventEvalContext {
                    now: at,
                    end: env.end,
                    sample_rate: env.sample_rate,
                    context_tick: e.ticks,
                    period_ticks: delta,
                },
                env.items.len(),
            );
            let next = dispatch_step(env, st);
            &&& next.values == ran.values
            &&& next.midi == ran.midi
            &&& at + delta <= usize::MAX ==> next.queue == enqueued(
                st.queue.remove(0),
                (at + delta) as usize,
                EventContainer { ticks: e.ticks.wrapping_add(1), ..e },
            )
        }),
{
}

/// An event whose gate is closed leaves the queue when its turn comes: the
/// root does not run, and the event does not come back.
pub proof fn law_closed_gate_drops(env: RunEnv, st: RunState)
    requires
        has_due(st.queue, env.end),
        !gate_is_open(env.items, st.queue[0].1),
    ensures
        dispatch_step(env, st).values == st.values,
        dispatch_step(env, st).midi == st.midi,
        dispatch_step(env, st).queue == st.queue.remove(0),
{
}

/// A run in which every queued event has a closed gate runs no root:
/// it changes no value and sends no message.
pub proof fn law_deactivated_roots_never_run(env: RunEnv, st: RunState)
    requires
        forall|i: int| 0 <= i < st.queue.len() ==> !gate_is_open(env.items, (#[trigger] st.queue[i]).1),
    ensures
        run_spec(env, st).values == st.values,
        run_spec(env, st).midi == st.midi,
    decreases budget(st.queue, env.end),
{
    if has_due(st.queue, env.end) {
        lemma_step_decreases(env, st);
        let next = dispatch_step(env, st);
        assert forall|i: int| 0 <= i < next.queue.len() implies !gate_is_open(
            env.items,
            (#[trigger] next.queue[i]).1,
        ) by {
            assert(next.queue[i] == st.queue[i + 1]);
        }
        law_deactivated_roots_never_run(env, next);
    }
}

/// Of two events queued one after the other for the same tick, the first
/// stands directly in front of the second, and so is dispatched first.
pub proof fn law_fifo<T>(q: Seq<(usize, T)>, tick: usize, first: T, second: T)
    requires
        sorted_by_tick(q),
    ensures
        ({
            let p = insert_pos(q, tick);
            let both = enqueued(enqueued(q, tick, first), tick, second);
            &&& 0 <= p <= q.len()
            &&& both[p] == (tick, first)
            &&& both[p + 1] == (tick, second)
            &&& forall|i: int| 0 <= i < p ==> both[i] == q[i]
            &&& forall|i: int| p <= i < q.len() ==> both[i + 2] == q[i]
        }),
{
    let p = insert_pos(q, tick);
    let one = enqueued(q, tick, first);
    lemma_insert_pos_bounds(q, tick);
    lemma_insert_pos_prefix(q, tick);
    lemma_enqueued_sorted(q, tick, first);
    lemma_insert_pos_bounds(one, tick);
    lemma_insert_pos_prefix(one, tick);
    let behind = insert_pos(one, tick);
    assert(one[p] == (tick, first));
    if behind <= p {
        assert(one[p].0 > tick);
    }
    if behind > p + 1 {
        assert(one[behind - 1] == q[behind - 2]);
        assert(q[behind - 2].0 > tick);
    }
    assert(behind == p + 1);
}

/// A dispatch keeps the event queue sorted.
pub proof fn lemma_step_sorted(env: RunEnv, st: RunState)
    requires
        has_due(st.queue, env.end),
        sorted_by_tick(st.queue),
    ensures
        sorted_by_tick(dispatch_step(env, st).queue),
{
    let rest = st.queue.remove(0);
    assert forall|i: int, j: int| 0 <= i <= j < rest.len() implies rest[i].0 <= rest[j].0 by {
        assert(rest[i] == st.queue[i + 1]);
        assert(rest[j] == st.queue[j + 1]);
    }
    let e = st.queue[0].1;
    let at = dispatch_tick(env, st.queue[0].0);
    let delta = root_delta(env.params, env.items, st.values, e.root as int, env.sample_rate);
    if gate_is_open(env.items, e) && at + delta <= usize::MAX {
        lemma_enqueued_sorted(
            rest,
            (at + delta) as usize,
            EventContainer { ticks: e.ticks.wrapping_add(1), ..e },
        );
    }
}

/// A run dispatches every event that is due before the end of the frame
/// and no other: it ends when the earliest event left is not due, and then
/// no event left in the queue is.
pub proof fn law_run_boundary(env: RunEnv, st: RunState)
    requires
        sorted_by_tick(st.queue),
    ensures
        !has_due(run_spec(env, st).queue, env.end),
        sorted_by_tick(run_spec(env, st).queue),
        forall|i: int|
            0 <= i < run_spec(env, st).queue.len() ==> (#[trigger] run_spec(env, st).queue[i]).0
                >= env.end,
    decreases budget(st.queue, env.end),
{
    if has_due(st.queue, env.end) {
        lemma_step_decreases(env, st);
        lemma_step_sorted(env, st);
        law_run_boundary(env, dispatch_step(env, st));
    } else {
        assert forall|i: int| 0 <= i < st.queue.len() implies (#[trigger] st.queue[i]).0
            >= env.end by {
            assert(st.queue[0].0 <= st.queue[i].0);
        }
    }
}

/// An event that is not due before the end of the frame is not dispatched:
/// a run that starts with no due event changes nothing.
pub proof fn law_not_due_not_dispatched(env: RunEnv, st: RunState)
    requires
        !has_due(st.queue, env.end),
    ensures
        run_spec(env, st) == st,
{
}

/// At the moment the child for index `i` runs, the parameter bound into
/// the parent's `child_exec_index` slot reads `i`, if it is a cell that
/// can be read and written.
pub proof fn law_child_sees_its_index(
    params: Seq<Param>,
    items: Seq<GraphItem>,
    cap: nat,
    st: ExecState,
    parent: int,
    ctx: EventEvalContext,
    i: usize,
    fuel: nat,
    bound: ParamRef,
)
    requires
        0 <= parent < items.len(),
        params.len() == st.values.len(),
        has_slot(items[parent].params@, index_slot_name()),
        slot_of(items[parent].params@, index_slot_name()).binding == Some(bound),
        bound.handle < params.len(),
        can_store(params[bound.handle as int], TypedValue::USize(i)),
    ensures
        eval(
            params,
            index_set(params, items[parent].params@, st, i).values,
            bound.handle as int,
            params.len(),
        ) == TypedValue::USize(i),
        items[parent].children.children.children.child_at(i as int) matches Some(c) ==> run_child(
            params,
            items,
            cap,
            st,
            parent,
            ctx,
            i,
            fuel,
        ) == run_item(
            params,
            items,
            cap,
            index_set(params, items[parent].params@, st, i),
            c as int,
            ctx,
            fuel,
        ),
{
}

/// A run dispatches no event that was queued for the end of the frame or
/// later, none whose gate is closed, and each no earlier than the frame starts.
pub proof fn law_dispatches_are_due(env: RunEnv, st: RunState)
    ensures
        forall|j: int|
            0 <= j < dispatches(env, st).len() ==> {
                let d = #[trigger] dispatches(env, st)[j];
                &&& d.queued < env.end
                &&& d.at == dispatch_tick(env, d.queued)
                &&& gate_is_open(env.items, d.event)
            },
    decreases budget(st.queue, env.end),
{
    if has_due(st.queue, env.end) {
        lemma_step_decreases(env, st);
        law_dispatches_are_due(env, dispatch_step(env, st));
        let rest = dispatches(env, dispatch_step(env, st));
        assert forall|j: int| 0 <= j < dispatches(env, st).len() implies {
            let d = #[trigger] dispatches(env, st)[j];
            &&& d.queued < env.end
            &&& d.at == dispatch_tick(env, d.queued)
            &&& gate_is_open(env.items, d.event)
        } by {
            if gate_is_open(env.items, st.queue[0].1) {
                if j > 0 {
                    assert(dispatches(env, st)[j] == rest[j - 1]);
                }
            }
        }
    }
}

/// After a root was deactivated, a run dispatches none of its events.
pub proof fn law_no_dispatch_after_deactivation(env: RunEnv, st: RunState, root: usize)
    requires
        root < env.items.len(),
        env.items[root as int].wf(),
        env.items[root as int].active_gate is None,
    ensures
        forall|j: int|
            0 <= j < dispatches(env, st).len() ==> (#[trigger] dispatches(env, st)[j]).event.root
                != root,
{
    law_dispatches_are_due(env, st);
    assert forall|j: int| 0 <= j < dispatches(env, st).len() implies (#[trigger] dispatches(
        env,
        st,
    )[j]).event.root != root by {
        let d = dispatches(env, st)[j];
        if d.event.root == root {
            law_inactive_root_is_closed(env.items, d.event);
        }
    }
}

/// An entry that is not the earliest is still queued after the earliest
/// was dispatched.
pub proof fn lemma_later_entries_stay(env: RunEnv, st: RunState, i: int)
    requires
        has_due(st.queue, env.end),
        1 <= i < st.queue.len(),
    ensures
        exists|k: int|
            0 <= k < dispatch_step(env, st).queue.len() && #[trigger] dispatch_step(env, st).queue[k]
                == st.queue[i],
{
    let rest = st.queue.remove(0);
    assert(rest[i - 1] == st.queue[i]);
    let next = dispatch_step(env, st).queue;
    if next == rest {
        assert(next[i - 1] == st.queue[i]);
    } else {
        let e = st.queue[0].1;
        let at = dispatch_tick(env, st.queue[0].0);
        let delta = root_delta(env.params, env.items, st.values, e.root as int, env.sample_rate);
        let t2 = (at + delta) as usize;
        lemma_insert_pos_bounds(rest, t2);
        let p = insert_pos(rest, t2);
        if i - 1 < p {
            assert(next[i - 1] == rest[i - 1]);
        } else {
            assert(next[i] == rest[i - 1]);
        }
    }
}

/// A run dispatches every event that is queued for a tick before the end
/// of the frame while its gate is open.
pub proof fn law_due_events_are_dispatched(env: RunEnv, st: RunState, i: int)
    requires
        0 <= i < st.queue.len(),
        st.queue[i].0 < env.end,
        sorted_by_tick(st.queue),
        gate_is_open(env.items, st.queue[i].1),
    ensures
        exists|j: int|
            0 <= j < dispatches(env, st).len() && (#[trigger] dispatches(env, st)[j]).queued
                == st.queue[i].0 && dispatches(env, st)[j].event == st.queue[i].1,
    decreases budget(st.queue, env.end),
{
    assert(st.queue[0].0 <= st.queue[i].0);
    assert(has_due(st.queue, env.end));
    lemma_step_decreases(env, st);
    let next = dispatch_step(env, st);
    let rest = dispatches(env, next);
    if i == 0 {
        assert(dispatches(env, st)[0].event == st.queue[0].1);
    } else {
        lemma_later_entries_stay(env, st, i);
        lemma_step_sorted(env, st);
        let k = choose|k: int| 0 <= k < next.queue.len() && #[trigger] next.queue[k] == st.queue[i];
        law_due_events_are_dispatched(env, next, k);
        let j = choose|j: int|
            0 <= j < rest.len() && (#[trigger] rest[j]).queued == next.queue[k].0 && rest[j].event
                == next.queue[k].1;
        if gate_is_open(env.items, st.queue[0].1) {
            assert(dispatches(env, st)[j + 1] == rest[j]);
        } else {
            assert(dispatches(env, st)[j] == rest[j]);
        }
    }
}

/// Of two events queued for the same tick, the one in front is dispatched
/// first, and the other directly after it.
pub proof fn law_same_tick_dispatch_order(env: RunEnv, st: RunState)
    requires
        sorted_by_tick(st.queue),
        st.queue.len() >= 2,
        st.queue[0].0 == st.queue[1].0,
        st.queue[0].0 < env.end,
        gate_is_open(env.items, st.queue[0].1),
        gate_is_open(env.items, st.queue[1].1),
    ensures
        dispatches(env, st).len() >= 2,
        dispatches(env, st)[0].event == st.queue[0].1,
        dispatches(env, st)[1].event == st.queue[1].1,
{
    lemma_step_decreases(env, st);
    let next = dispatch_step(env, st);
    let rest = st.queue.remove(0);
    assert(rest[0] == st.queue[1]);
    let e = st.queue[0].1;
    let at = dispatch_tick(env, st.queue[0].0);
    let delta = root_delta(env.params, env.items, st.values, e.root as int, env.sample_rate);
    if at + delta <= usize::MAX {
        let t2 = (at + delta) as usize;
        lemma_insert_pos_bounds(rest, t2);
        let p = insert_pos(rest, t2);
        if p == 0 {
            assert(rest[0].0 > t2);
        }
        assert(next.queue[0] == rest[0]);
    } else {
        assert(next.queue[0] == rest[0]);
    }
    assert(has_due(next.queue, env.end));
    lemma_step_decreases(env, next);
    assert(dispatches(env, next)[0].event == st.queue[1].1);
    assert(dispatches(env, st)[1] == dispatches(env, next)[0]);
}

} // verus!
