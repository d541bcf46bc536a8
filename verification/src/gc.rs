//! The tracing collector.  Liveness is reachability from a declared root
//! set, never reference counting, so prototype cycles are reclaimed
//! correctly.  Collection is legal only between capability scopes; it marks
//! every object reachable from the roots and sweeps the rest, emptying their
//! slots (slots are never reused, so no handle ever dangles into a new
//! object).  The contract is exact: a slot survives unchanged if and only if
//! it is reachable.

use vstd::prelude::*;

use crate::heap::{Heap, entry_view, gobj, live};
use crate::object::{
    GKind, GNative, GObject, GSlot, GSlotKind, ManagedObject, NativeFunction, ObjectKind,
    SlotKind,
};
use crate::value::{GValue, Handle, Value};

verus! {

broadcast use vstd::seq_lib::lemma_seq_contains_after_push;

/// A value holds a reference to `t`.
pub open spec fn value_refs(v: GValue, t: Handle) -> bool {
    v == GValue::ObjectRef(t)
}

/// A native function body holds a reference to `t` (fixture bodies can
/// carry values and a target object).
pub open spec fn native_refs(b: GNative, t: Handle) -> bool {
    match b {
        GNative::ReturnValue(v) => value_refs(v, t),
        GNative::ThrowValue(v) => value_refs(v, t),
        GNative::DeleteAndReturn(h, _, v) => h == t || value_refs(v, t),
        _ => false,
    }
}

/// A property slot holds a reference to `t`: its data value, or either
/// accessor half.
pub open spec fn slot_refs(s: GSlot, t: Handle) -> bool {
    match s.kind {
        GSlotKind::Data(v) => value_refs(v, t),
        GSlotKind::Accessor { getter, setter } => getter == Some(t) || setter == Some(t),
    }
}

/// An object holds a reference to `t`: through its prototype link, any of
/// its property slots, or its kind.
pub open spec fn obj_refs(o: GObject, t: Handle) -> bool {
    ||| o.prototype == Some(t)
    ||| exists|i: int| 0 <= i < o.properties.len() && slot_refs(#[trigger] o.properties[i].slot, t)
    ||| match o.kind {
        GKind::Function { body, .. } => native_refs(body, t),
        _ => false,
    }
}

/// A traced edge: both ends live, and `x`'s object holds a reference to
/// `y`.
pub open spec fn edge(heap: Seq<Option<GObject>>, x: Handle, y: Handle) -> bool {
    live(heap, x) && live(heap, y) && obj_refs(gobj(heap, x), y)
}

/// Reachable from the roots in at most `n` steps.
pub open spec fn reach_n(
    heap: Seq<Option<GObject>>,
    roots: Seq<Handle>,
    h: Handle,
    n: nat,
) -> bool
    decreases n,
{
    if n == 0 {
        roots.contains(h) && live(heap, h)
    } else {
        reach_n(heap, roots, h, (n - 1) as nat) || exists|g: Handle|
            reach_n(heap, roots, g, (n - 1) as nat) && edge(heap, g, h)
    }
}

/// Reachable from the roots.
pub open spec fn reach(heap: Seq<Option<GObject>>, roots: Seq<Handle>, h: Handle) -> bool {
    exists|n: nat| reach_n(heap, roots, h, n)
}

/// The number of unmarked entries: the termination measure of marking.
pub open spec fn count_false(s: Seq<bool>) -> nat
    decreases s.len(),
{
    if s.len() == 0 {
        0
    } else {
        count_false(s.drop_last()) + if s.last() {
            0nat
        } else {
            1nat
        }
    }
}

proof fn lemma_count_false_update(s: Seq<bool>, i: int)
    requires
        0 <= i < s.len(),
        !s[i],
    ensures
        count_false(s.update(i, true)) < count_false(s),
    decreases s.len(),
{
    let s2 = s.update(i, true);
    if i == s.len() - 1 {
        assert(s2.drop_last() =~= s.drop_last());
    } else {
        assert(s2.drop_last() =~= s.drop_last().update(i, true));
        lemma_count_false_update(s.drop_last(), i);
    }
}

/// A mark set that contains the live roots and is closed under traced edges
/// contains everything reachable.
proof fn lemma_closed_covers_reach(
    heap: Seq<Option<GObject>>,
    roots: Seq<Handle>,
    marked: Seq<bool>,
    h: Handle,
    n: nat,
)
    requires
        marked.len() == heap.len(),
        forall|r: Handle| roots.contains(r) && live(heap, r) ==> marked[r.index as int],
        forall|x: Handle, y: Handle|
            live(heap, x) && marked[x.index as int] && #[trigger] edge(heap, x, y)
                ==> marked[y.index as int],
        reach_n(heap, roots, h, n),
    ensures
        marked[h.index as int],
    decreases n,
{
    if n > 0 {
        if reach_n(heap, roots, h, (n - 1) as nat) {
            lemma_closed_covers_reach(heap, roots, marked, h, (n - 1) as nat);
        } else {
            let g = choose|g: Handle|
                reach_n(heap, roots, g, (n - 1) as nat) && edge(heap, g, h);
            lemma_closed_covers_reach(heap, roots, marked, g, (n - 1) as nat);
        }
    }
}

/// The outgoing references of one object, exactly (every listed handle is a
/// reference of the object, and every reference is listed).
#[verifier::loop_isolation(false)]
fn object_edges(o: &ManagedObject) -> (res: Vec<Handle>)
    ensures
        forall|k: int| 0 <= k < res@.len() ==> obj_refs(o@, #[trigger] res@[k]),
        forall|t: Handle| obj_refs(o@, t) ==> res@.contains(t),
{
    let mut res: Vec<Handle> = Vec::new();
    match &o.prototype {
        Some(p) => {
            res.push(*p);
            proof {
                assert(obj_refs(o@, *p));
                assert(res@[res@.len() - 1] == *p);
            }
        },
        None => {},
    }
    let n = o.properties.len();
    let mut i: usize = 0;
    while i < n
        invariant
            i <= n,
            forall|k: int| 0 <= k < res@.len() ==> obj_refs(o@, #[trigger] res@[k]),
            forall|t: Handle| o.prototype == Some(t) ==> res@.contains(t),
            forall|j: int, t: Handle|
                0 <= j < i && #[trigger] slot_refs(o@.properties[j].slot, t) ==> res@.contains(t),
        decreases n - i,
    {
        let ghost slot_i = o@.properties[i as int].slot;
        match &o.properties[i].slot.kind {
            SlotKind::Data(Value::ObjectRef(h)) => {
                res.push(*h);
                proof {
                    assert(slot_refs(slot_i, *h));
                    assert(obj_refs(o@, *h));
                    assert(res@[res@.len() - 1] == *h);
                }
            },
            SlotKind::Accessor { getter, setter } => {
                if let Some(g) = getter {
                    res.push(*g);
                    proof {
                        assert(slot_refs(slot_i, *g));
                        assert(obj_refs(o@, *g));
                        assert(res@[res@.len() - 1] == *g);
                    }
                }
                if let Some(s) = setter {
                    res.push(*s);
                    proof {
                        assert(slot_refs(slot_i, *s));
                        assert(obj_refs(o@, *s));
                        assert(res@[res@.len() - 1] == *s);
                    }
                }
                proof {
                    assert(forall|t: Handle| slot_refs(slot_i, t) ==> res@.contains(t));
                }
            },
            _ => {},
        }
        i = i + 1;
    }
    match &o.kind {
        ObjectKind::Function { body, .. } => {
            match body {
                NativeFunction::ReturnValue(Value::ObjectRef(h)) => {
                    res.push(*h);
                    proof {
                        assert(obj_refs(o@, *h));
                        assert(res@[res@.len() - 1] == *h);
                    }
                },
                NativeFunction::ThrowValue(Value::ObjectRef(h)) => {
                    res.push(*h);
                    proof {
                        assert(obj_refs(o@, *h));
                        assert(res@[res@.len() - 1] == *h);
                    }
                },
                NativeFunction::DeleteAndReturn(h, _, v) => {
                    res.push(*h);
                    proof {
                        assert(obj_refs(o@, *h));
                        assert(res@[res@.len() - 1] == *h);
                    }
                    if let Value::ObjectRef(h2) = v {
                        res.push(*h2);
                        proof {
                            assert(obj_refs(o@, *h2));
                            assert(res@[res@.len() - 1] == *h2);
                        }
                    }
                },
                _ => {},
            }
        },
        _ => {},
    }
    res
}

impl Heap {
    /// Traces from the declared root set and sweeps everything unreachable.
    /// Legal only between capability scopes.  A slot survives unchanged if
    /// and only if its object is reachable from the roots; swept slots stay
    /// empty forever, so surviving handles keep their meaning.
    #[verifier::loop_isolation(false)]
    #[verifier::rlimit(60)]
    pub fn collect(&mut self, roots: &Vec<Handle>)
        requires
            !old(self).cap_open,
        ensures
            !final(self).cap_open,
            final(self).epoch == old(self).epoch,
            final(self)@.len() == old(self)@.len(),
            forall|i: int|
                0 <= i < old(self)@.len() ==> final(self)@[i] == (if reach(
                    old(self)@,
                    roots@,
                    Handle { index: i as usize },
                ) {
                    old(self)@[i]
                } else {
                    Option::<GObject>::None
                }),
    {
        let ghost heap0 = self@;
        let ghost groots = roots@;
        let n = self.objects.len();

        let mut marked: Vec<bool> = Vec::new();
        let mut k: usize = 0;
        while k < n
            invariant
                k <= n,
                marked@.len() == k,
                forall|j: int| 0 <= j < k ==> !marked@[j],
            decreases n - k,
        {
            marked.push(false);
            k = k + 1;
        }

        let mut stack: Vec<Handle> = Vec::new();
        let mut ri: usize = 0;
        while ri < roots.len()
            invariant
                ri <= roots.len(),
                marked@.len() == n,
                *self == *old(self),
                forall|s: int|
                    0 <= s < stack@.len() ==> (#[trigger] stack@[s]).index < n
                        && marked@[stack@[s].index as int],
                forall|j: int|
                    0 <= j < n && marked@[j] ==> live(heap0, Handle { index: j as usize })
                        && reach(heap0, groots, Handle { index: j as usize }),
                forall|j: int|
                    0 <= j < n && marked@[j] ==> stack@.contains(Handle { index: j as usize }),
                forall|q: int|
                    0 <= q < ri && live(heap0, #[trigger] groots[q]) ==> marked@[groots[q].index
                        as int],
            decreases roots.len() - ri,
        {
            let r = roots[ri];
            if r.index < n && self.objects[r.index].is_some() && !marked[r.index] {
                let ghost stack_before = stack@;
                let mr = &mut marked[r.index];
                *mr = true;
                stack.push(r);
                proof {
                    assert(reach_n(heap0, groots, r, 0));
                    assert(stack@[stack@.len() - 1] == r);
                    assert forall|j: int|
                        0 <= j < n && marked@[j] implies stack@.contains(
                        Handle { index: j as usize },
                    ) by {
                        if j != r.index as int {
                            let hj = Handle { index: j as usize };
                            let k = choose|k: int|
                                0 <= k < stack_before.len() && stack_before[k] == hj;
                            assert(stack@[k] == hj);
                        }
                    }
                }
            }
            ri = ri + 1;
        }

        while stack.len() > 0
            invariant
                marked@.len() == n,
                *self == *old(self),
                forall|s: int|
                    0 <= s < stack@.len() ==> (#[trigger] stack@[s]).index < n
                        && marked@[stack@[s].index as int],
                forall|j: int|
                    0 <= j < n && marked@[j] ==> live(heap0, Handle { index: j as usize })
                        && reach(heap0, groots, Handle { index: j as usize }),
                forall|r: Handle| groots.contains(r) && live(heap0, r) ==> marked@[r.index as int],
                forall|x: Handle, y: Handle|
                    live(heap0, x) && x.index < n && marked@[x.index as int] && !stack@.contains(x)
                        && #[trigger] edge(heap0, x, y) ==> marked@[y.index as int],
            decreases count_false(marked@), stack@.len(),
        {
            let ghost marked_at_start = marked@;
            let ghost stack_at_start = stack@;
            let h = match stack.pop() {
                Some(h) => h,
                None => {
                    return ;
                },
            };
            proof {
                assert(stack_at_start =~= stack@.push(h));
                assert forall|x: Handle| #[trigger] stack_at_start.contains(x)
                    implies (stack@.contains(x) || x == h) by {
                    let k = choose|k: int|
                        0 <= k < stack_at_start.len() && stack_at_start[k] == x;
                    if k < stack@.len() {
                        assert(stack@[k] == x);
                    }
                }
                assert forall|x: Handle| stack@.contains(x) implies #[trigger] stack_at_start.contains(
                    x,
                ) by {
                    let k = choose|k: int| 0 <= k < stack@.len() && stack@[k] == x;
                    assert(stack_at_start[k] == x);
                }
            }
            let edges = match &self.objects[h.index] {
                Some(ob) => object_edges(ob),
                None => Vec::new(),
            };
            proof {
                assert(live(heap0, h));
                assert(entry_view(self.objects@[h.index as int]) == heap0[h.index as int]);
                assert(forall|t: Handle| obj_refs(gobj(heap0, h), t) ==> edges@.contains(t));
                assert(forall|k2: int|
                    0 <= k2 < edges@.len() ==> obj_refs(gobj(heap0, h), #[trigger] edges@[k2]));
            }
            let m = edges.len();
            let mut j: usize = 0;
            while j < m
                invariant
                    j <= m,
                    m == edges@.len(),
                    marked@.len() == n,
                    *self == *old(self),
                    live(heap0, h),
                    h.index < n,
                    marked@[h.index as int],
                    forall|k2: int|
                        0 <= k2 < edges@.len() ==> obj_refs(gobj(heap0, h), #[trigger] edges@[k2]),
                    forall|t: Handle| obj_refs(gobj(heap0, h), t) ==> edges@.contains(t),
                    forall|s: int|
                        0 <= s < stack@.len() ==> (#[trigger] stack@[s]).index < n
                            && marked@[stack@[s].index as int],
                    forall|j2: int|
                        0 <= j2 < n && marked@[j2] ==> live(heap0, Handle { index: j2 as usize })
                            && reach(heap0, groots, Handle { index: j2 as usize }),
                    forall|r: Handle| groots.contains(r) && live(heap0, r) ==> marked@[r.index as int],
                    forall|x: Handle, y: Handle|
                        live(heap0, x) && x.index < n && marked@[x.index as int] && x != h
                            && !stack@.contains(x) && #[trigger] edge(heap0, x, y)
                            ==> marked@[y.index as int],
                    forall|k2: int|
                        0 <= k2 < j && live(heap0, #[trigger] edges@[k2])
                            ==> marked@[edges@[k2].index as int],
                    count_false(marked@) < count_false(marked_at_start) || (marked@
                        == marked_at_start && stack@ == stack_at_start.drop_last()),
                decreases m - j,
            {
                let t = edges[j];
                if t.index < n && self.objects[t.index].is_some() && !marked[t.index] {
                    let ghost stack_before = stack@;
                    proof {
                        assert(live(heap0, t));
                        assert(edge(heap0, h, t));
                        let n0 = choose|n0: nat| reach_n(heap0, groots, h, n0);
                        assert(reach_n(heap0, groots, t, n0 + 1));
                        lemma_count_false_update(marked@, t.index as int);
                    }
                    let mt = &mut marked[t.index];
                    *mt = true;
                    stack.push(t);
                    proof {
                        assert(stack@[stack@.len() - 1] == t);
                        assert forall|x: Handle| #[trigger] stack_before.contains(x)
                            implies stack@.contains(x) by {
                            let k = choose|k: int|
                                0 <= k < stack_before.len() && stack_before[k] == x;
                            assert(stack@[k] == x);
                        }
                    }
                }
                j = j + 1;
            }
        }

        // the mark set now contains the live roots and is closed under
        // edges, so it covers everything reachable; it is also sound, so it
        // covers nothing else
        proof {
            assert forall|i: int|
                0 <= i < n && reach(heap0, groots, Handle { index: i as usize })
                    implies marked@[i] by {
                let hh = Handle { index: i as usize };
                let nn = choose|nn: nat| reach_n(heap0, groots, hh, nn);
                lemma_closed_covers_reach(heap0, groots, marked@, hh, nn);
            }
        }

        let ghost marked_final = marked@;
        let mut i: usize = 0;
        while i < n
            invariant
                i <= n,
                self.objects@.len() == n,
                self.epoch == old(self).epoch,
                self.cap_open == old(self).cap_open,
                marked@ == marked_final,
                marked@.len() == n,
                forall|j: int|
                    i <= j < n ==> self.objects@[j] == old(self).objects@[j],
                forall|j: int|
                    0 <= j < i ==> self.objects@[j] == (if marked_final[j] {
                        old(self).objects@[j]
                    } else {
                        Option::<ManagedObject>::None
                    }),
            decreases n - i,
        {
            if !marked[i] {
                let e = &mut self.objects[i];
                *e = None;
            }
            i = i + 1;
        }
    }
}

} // verus!
