//! Chains of bindings between parameters, and why a store whose bindings
//! were all made through `try_bind` never holds a parameter that depends
//! on itself.

use crate::param::{has_slot, lemma_slot_position, slot_position, Slot};
use crate::param::slot_of;
use crate::store::{
    bind_outcome, eval, reaches, reaches_by_slot, read_named, read_slot, store_bound,
    store_unbound, Binding, Param,
};
use crate::value::{TypedValue, ValueTag};
use vstd::prelude::*;
use vstd::set_lib::{lemma_int_range, lemma_len_subset, set_int_range};

verus! {

/// Whether the slot holds the parameter at `b`.
pub open spec fn holds(slot: Slot, b: int) -> bool {
    slot.access.binding matches Some(r) && r.handle == b
}

/// Whether a slot of the parameter at `a` holds the parameter at `b`.
pub open spec fn edge(params: Seq<Param>, a: int, b: int) -> bool {
    &&& 0 <= a < params.len()
    &&& exists|k: int| 0 <= k < params[a].params@.len() && holds(#[trigger] params[a].params@[k], b)
}

/// Whether `p` is a chain of bindings: each parameter but the last holds
/// the next in one of its slots.
pub open spec fn is_path(params: Seq<Param>, p: Seq<int>) -> bool {
    &&& p.len() >= 1
    &&& forall|i: int| 0 <= i < p.len() - 1 ==> edge(params, #[trigger] p[i], p[i + 1])
}

/// No chain of one binding or more leads from a parameter back to itself.
pub open spec fn acyclic(params: Seq<Param>) -> bool {
    forall|p: Seq<int>| #[trigger] is_path(params, p) && p.len() >= 2 ==> p.first() != p.last()
}

/// What is reached through one slot is reached through the slots from any
/// earlier place on.
pub proof fn lemma_reaches_through(
    params: Seq<Param>,
    slots: Seq<Slot>,
    j: int,
    k: int,
    to: int,
    fuel: nat,
)
    requires
        0 <= j <= k < slots.len(),
        slots[k].access.binding matches Some(b) && reaches(params, b.handle as int, to, fuel),
    ensures
        reaches_by_slot(params, slots, j, to, fuel),
    decreases k - j,
{
    reveal_with_fuel(reaches_by_slot, 2);
    if j < k {
        lemma_reaches_through(params, slots, j + 1, k, to, fuel);
    }
}

/// The end of a chain of at most `fuel` bindings is reached from its start.
pub proof fn lemma_path_reaches(params: Seq<Param>, p: Seq<int>, fuel: nat)
    requires
        is_path(params, p),
        p.len() - 1 <= fuel,
    ensures
        reaches(params, p.first(), p.last(), fuel),
    decreases p.len(),
{
    reveal_with_fuel(reaches, 2);
    if p.len() >= 2 && p.first() != p.last() {
        let q = p.drop_first();
        assert forall|i: int| 0 <= i < q.len() - 1 implies edge(params, #[trigger] q[i], q[i + 1]) by {
            assert(edge(params, p[i + 1], p[i + 2]));
        }
        lemma_path_reaches(params, q, (fuel - 1) as nat);
        assert(edge(params, p[0], p[1]));
        let slots = params[p[0]].params@;
        let k = choose|k: int| 0 <= k < slots.len() && holds(#[trigger] slots[k], p[1]);
        lemma_reaches_through(params, slots, 0, k, p.last(), (fuel - 1) as nat);
    }
}

/// A chain can be cut down to one that visits no parameter twice.
pub proof fn lemma_simple_path(params: Seq<Param>, p: Seq<int>) -> (q: Seq<int>)
    requires
        is_path(params, p),
    ensures
        is_path(params, q),
        q.first() == p.first(),
        q.last() == p.last(),
        q.no_duplicates(),
        q.len() <= p.len(),
    decreases p.len(),
{
    if p.no_duplicates() {
        p
    } else {
        let (i, j) = choose|i: int, j: int|
            0 <= i < p.len() && 0 <= j < p.len() && i != j && p[i] == p[j];
        let (lo, hi) = if i < j {
            (i, j)
        } else {
            (j, i)
        };
        let cut = p.take(lo + 1) + p.skip(hi + 1);
        assert forall|x: int| 0 <= x < cut.len() - 1 implies edge(
            params,
            #[trigger] cut[x],
            cut[x + 1],
        ) by {
            if x < lo {
                assert(edge(params, p[x], p[x + 1]));
            } else if x == lo {
                assert(cut[x] == p[lo]);
                assert(cut[x + 1] == p[hi + 1]);
                assert(edge(params, p[hi], p[hi + 1]));
            } else {
                assert(cut[x] == p[x + hi - lo]);
                assert(cut[x + 1] == p[x + hi - lo + 1]);
                assert(edge(params, p[x + hi - lo], p[x + hi - lo + 1]));
            }
        }
        assert(cut.first() == p.first());
        assert(cut.last() == p.last()) by {
            if hi + 1 < p.len() {
                assert(cut[cut.len() - 1] == p[p.len() - 1]);
            } else {
                assert(cut.last() == p[lo]);
            }
        }
        lemma_simple_path(params, cut)
    }
}

/// A list without repetition of numbers below `n` has at most `n` entries.
pub proof fn lemma_pigeonhole(q: Seq<int>, n: int)
    requires
        n >= 0,
        q.no_duplicates(),
        forall|i: int| 0 <= i < q.len() ==> 0 <= #[trigger] q[i] < n,
    ensures
        q.len() <= n,
{
    q.unique_seq_to_set();
    lemma_int_range(0, n);
    assert(q.to_set().subset_of(set_int_range(0, n))) by {
        assert forall|a: int| q.to_set().contains(a) implies set_int_range(0, n).contains(a) by {
            let i = choose|i: int| 0 <= i < q.len() && q[i] == a;
            assert(0 <= q[i] < n);
        }
    }
    lemma_len_subset(q.to_set(), set_int_range(0, n));
}

/// Where a chain of bindings leads from one parameter of the store to
/// another, the search that `try_bind` makes finds it.
pub proof fn lemma_any_path_reaches(params: Seq<Param>, p: Seq<int>)
    requires
        is_path(params, p),
        0 <= p.last() < params.len(),
    ensures
        reaches(params, p.first(), p.last(), params.len()),
{
    let q = lemma_simple_path(params, p);
    assert forall|i: int| 0 <= i < q.len() implies 0 <= #[trigger] q[i] < params.len() by {
        if i < q.len() - 1 {
            assert(edge(params, q[i], q[i + 1]));
        }
    }
    lemma_pigeonhole(q, params.len() as int);
    lemma_path_reaches(params, q, params.len());
}

/// After a binding was made, what a parameter holds is what it held
/// before, but for the owner, which may now hold the source.
pub proof fn lemma_edge_after_bind(
    pre: Seq<Param>,
    post: Seq<Param>,
    owner: int,
    name: Seq<char>,
    source: int,
    a: int,
    b: int,
)
    requires
        pre.len() <= usize::MAX,
        0 <= owner < pre.len(),
        0 <= source < pre.len(),
        has_slot(pre[owner].params@, name),
        store_bound(pre, post, owner, name, source),
        edge(post, a, b),
    ensures
        edge(pre, a, b) || (a == owner && b == source),
{
    if a != owner {
        assert(post[a] == pre[a]);
    } else {
        let k = choose|k: int| 0 <= k < post[a].params@.len() && holds(#[trigger] post[a].params@[k], b);
        let pos = slot_position(pre[owner].params@, name);
        lemma_slot_position(pre[owner].params@, name);
        assert(post[a].params@.len() == pre[a].params@.len());
        if k != pos {
            assert(post[a].params@[k] == pre[a].params@[k]);
            assert(holds(pre[a].params@[k], b));
        }
    }
}

/// A binding that `try_bind` makes leaves the store without a parameter
/// that depends on itself.
pub proof fn law_bind_keeps_acyclic(
    pre: Seq<Param>,
    post: Seq<Param>,
    owner: int,
    name: Seq<char>,
    source: int,
)
    requires
        pre.len() <= usize::MAX,
        acyclic(pre),
        bind_outcome(pre, owner, name, source) is None,
        store_bound(pre, post, owner, name, source),
    ensures
        acyclic(post),
{
    assert forall|p: Seq<int>| #[trigger] is_path(post, p) && p.len() >= 2 implies p.first()
        != p.last() by {
        if p.first() == p.last() {
            if forall|i: int| 0 <= i < p.len() - 1 ==> edge(pre, #[trigger] p[i], p[i + 1]) {
                assert(is_path(pre, p));
            } else {
                let i = choose|i: int| 0 <= i < p.len() - 1 && !edge(pre, #[trigger] p[i], p[i + 1]);
                assert(edge(post, p[i], p[i + 1]));
                lemma_edge_after_bind(pre, post, owner, name, source, p[i], p[i + 1]);
                let r = p.subrange(i + 1, p.len() as int) + p.subrange(1, i + 1);
                assert forall|x: int| 0 <= x < r.len() - 1 implies edge(
                    post,
                    #[trigger] r[x],
                    r[x + 1],
                ) by {
                    let n = p.len() - (i + 1);
                    if x < n - 1 {
                        assert(edge(post, p[x + i + 1], p[x + i + 2]));
                    } else if x == n - 1 {
                        assert(r[x] == p.last());
                        assert(r[x + 1] == p[1]);
                        assert(edge(post, p[0], p[1]));
                    } else {
                        assert(r[x] == p[x - n + 1]);
                        assert(r[x + 1] == p[x - n + 2]);
                        assert(edge(post, p[x - n + 1], p[x - n + 2]));
                    }
                }
                assert(r.first() == source);
                assert(r.last() == owner) by {
                    if i == 0 {
                        assert(r.last() == p.last());
                    } else {
                        assert(r.last() == p[i]);
                    }
                }
                let q = lemma_simple_path(post, r);
                assert forall|x: int| 0 <= x < q.len() - 1 implies edge(
                    pre,
                    #[trigger] q[x],
                    q[x + 1],
                ) by {
                    assert(edge(post, q[x], q[x + 1]));
                    assert(q[x] != q[q.len() - 1]);
                    lemma_edge_after_bind(pre, post, owner, name, source, q[x], q[x + 1]);
                }
                assert(is_path(pre, q));
                lemma_any_path_reaches(pre, q);
            }
        }
    }
}

/// Unbinding a slot leaves the store without a parameter that depends on itself.
pub proof fn law_unbind_keeps_acyclic(pre: Seq<Param>, post: Seq<Param>, owner: int, name: Seq<char>)
    requires
        acyclic(pre),
        0 <= owner < pre.len(),
        store_unbound(pre, post, owner, name),
    ensures
        acyclic(post),
{
    assert forall|a: int, b: int| edge(post, a, b) implies edge(pre, a, b) by {
        if a != owner {
            assert(post[a] == pre[a]);
        } else {
            let k = choose|k: int|
                0 <= k < post[a].params@.len() && holds(#[trigger] post[a].params@[k], b);
            lemma_slot_position(pre[owner].params@, name);
            assert(post[a].params@[k] == pre[a].params@[k]);
            assert(holds(pre[a].params@[k], b));
        }
    }
    assert forall|p: Seq<int>| #[trigger] is_path(post, p) && p.len() >= 2 implies p.first()
        != p.last() by {
        assert forall|i: int| 0 <= i < p.len() - 1 implies edge(pre, #[trigger] p[i], p[i + 1]) by {
            assert(edge(post, p[i], p[i + 1]));
        }
        assert(is_path(pre, p));
    }
}

/// A parameter that comes with nothing bound leaves the store without a
/// parameter that depends on itself; an empty store is such a store.
pub proof fn law_insert_keeps_acyclic(pre: Seq<Param>, param: Param)
    requires
        acyclic(pre),
        forall|k: int| 0 <= k < param.params@.len() ==> (#[trigger] param.params@[k]).access.binding is None,
    ensures
        acyclic(pre.push(param)),
        acyclic(Seq::<Param>::empty()),
{
    let post = pre.push(param);
    assert forall|a: int, b: int| edge(post, a, b) implies edge(pre, a, b) by {
        let k = choose|k: int| 0 <= k < post[a].params@.len() && holds(#[trigger] post[a].params@[k], b);
        if a < pre.len() {
            assert(post[a] == pre[a]);
            assert(holds(pre[a].params@[k], b));
        }
    }
    assert forall|p: Seq<int>| #[trigger] is_path(post, p) && p.len() >= 2 implies p.first()
        != p.last() by {
        assert forall|i: int| 0 <= i < p.len() - 1 implies edge(pre, #[trigger] p[i], p[i + 1]) by {
            assert(edge(post, p[i], p[i + 1]));
        }
        assert(is_path(pre, p));
    }
    assert forall|p: Seq<int>| #[trigger]
        is_path(Seq::<Param>::empty(), p) && p.len() >= 2 implies p.first() != p.last() by {
        assert(edge(Seq::<Param>::empty(), p[0], p[1]));
    }
}

/// In a store without a parameter that depends on itself, a chain of
/// bindings visits no parameter twice.
pub proof fn lemma_paths_are_simple(params: Seq<Param>, p: Seq<int>)
    requires
        acyclic(params),
        is_path(params, p),
    ensures
        p.no_duplicates(),
{
    assert forall|i: int, j: int| 0 <= i < p.len() && 0 <= j < p.len() && i != j implies p[i]
        != p[j] by {
        let (lo, hi) = if i < j {
            (i, j)
        } else {
            (j, i)
        };
        let c = p.subrange(lo, hi + 1);
        assert forall|x: int| 0 <= x < c.len() - 1 implies edge(params, #[trigger] c[x], c[x + 1]) by {
            assert(edge(params, p[x + lo], p[x + lo + 1]));
        }
        assert(is_path(params, c));
        assert(c.first() == p[lo] && c.last() == p[hi]);
    }
}

/// In a store without a parameter that depends on itself, a chain of
/// bindings that ends in the store is no longer than the store is large.
pub proof fn lemma_paths_are_short(params: Seq<Param>, p: Seq<int>)
    requires
        acyclic(params),
        is_path(params, p),
        0 <= p.last() < params.len(),
    ensures
        p.len() <= params.len(),
{
    lemma_paths_are_simple(params, p);
    assert forall|i: int| 0 <= i < p.len() implies 0 <= #[trigger] p[i] < params.len() by {
        if i < p.len() - 1 {
            assert(edge(params, p[i], p[i + 1]));
        }
    }
    lemma_pigeonhole(p, params.len() as int);
}

/// What a slot at the end of a chain reads does not depend on the depth
/// bound, as long as the bound leaves room for the rest of the store.
proof fn lemma_slot_fuel(
    params: Seq<Param>,
    values: Seq<TypedValue>,
    p: Seq<int>,
    name: Seq<char>,
    tag: ValueTag,
    f1: nat,
    f2: nat,
)
    requires
        acyclic(params),
        params.len() == values.len(),
        is_path(params, p),
        0 <= p.last() < params.len(),
        f1 + p.len() >= params.len(),
        f2 + p.len() >= params.len(),
    ensures
        read_named(params, values, params[p.last()].params@, name, tag, f1) == read_named(
            params,
            values,
            params[p.last()].params@,
            name,
            tag,
            f2,
        ),
    decreases params.len() + 1 - p.len(), 0nat,
{
    reveal_with_fuel(read_named, 2);
    reveal_with_fuel(read_slot, 2);
    lemma_paths_are_short(params, p);
    let slots = params[p.last()].params@;
    if has_slot(slots, name) {
        lemma_slot_position(slots, name);
        let a = slot_of(slots, name);
        match a.binding {
            Some(b) => {
                if b.handle < params.len() {
                    let k = slot_position(slots, name);
                    assert(holds(slots[k], b.handle as int));
                    assert(edge(params, p.last(), b.handle as int));
                    let q = p.push(b.handle as int);
                    assert forall|i: int| 0 <= i < q.len() - 1 implies edge(
                        params,
                        #[trigger] q[i],
                        q[i + 1],
                    ) by {
                        if i < p.len() - 1 {
                            assert(edge(params, p[i], p[i + 1]));
                        }
                    }
                    assert(q.last() == b.handle);
                    lemma_paths_are_short(params, q);
                    lemma_eval_fuel(params, values, q, f1, f2);
                }
            },
            None => {},
        }
    }
}

/// What the parameter at the end of a chain reads does not depend on the
/// depth bound, as long as the bound leaves room for the rest of the store.
proof fn lemma_eval_fuel(params: Seq<Param>, values: Seq<TypedValue>, p: Seq<int>, f1: nat, f2: nat)
    requires
        acyclic(params),
        params.len() == values.len(),
        is_path(params, p),
        0 <= p.last() < params.len(),
        f1 + p.len() > params.len(),
        f2 + p.len() > params.len(),
    ensures
        eval(params, values, p.last(), f1) == eval(params, values, p.last(), f2),
    decreases params.len() + 1 - p.len(), 1nat,
{
    reveal_with_fuel(eval, 2);
    lemma_paths_are_short(params, p);
    match params[p.last()].data.binding_spec() {
        Binding::BinaryOp(op, tag) => {
            lemma_slot_fuel(params, values, p, "left"@, tag, (f1 - 1) as nat, (f2 - 1) as nat);
            lemma_slot_fuel(params, values, p, "right"@, tag, (f1 - 1) as nat, (f2 - 1) as nat);
        },
        _ => {},
    }
}

/// In a store without a parameter that depends on itself, reading never
/// runs into the depth bound: a larger bound reads the same value.
pub proof fn law_reads_are_exact(params: Seq<Param>, values: Seq<TypedValue>, h: int, fuel: nat)
    requires
        acyclic(params),
        params.len() == values.len(),
        0 <= h < params.len(),
        fuel >= params.len(),
    ensures
        eval(params, values, h, fuel) == eval(params, values, h, params.len()),
{
    let p = seq![h];
    assert(is_path(params, p));
    lemma_eval_fuel(params, values, p, fuel, params.len());
}

} // verus!
