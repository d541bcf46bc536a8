//! The protocol-level laws of the core, stated over the same spec functions
//! the executable contracts use.  Attribute enforcement (a read-only own
//! data slot silently drops writes; an undeletable slot survives `delete`)
//! is stated directly in the `ensures` of `set` and `delete`.

use vstd::prelude::*;

use crate::coerce::{spec_clamp, wrap_i32};
use crate::dispatch::{
    PROTO_CHAIN_LIMIT, Resolution, accessor_result, blur_field, blur_field_max,
    blur_getter_post, blur_setter_post, resolve, spec_coerce_i32_prim,
};
use crate::heap::{
    gobj, heap_wf, lemma_wf_with_pushed_slot, lemma_wf_without_prop_at, live, with_pushed_slot,
    without_prop_at,
};
use crate::object::{
    GKind, GNative, GObject, GProp, GSlot, GSlotKind, has_prop, prop_index, prop_slot,
};
use crate::value::{Error, GValue, Handle, NumberValue, Value};

verus! {

/// Clamp/coercion round trip: for every integer `n`, writing `n` through a
/// clamped blur-filter field setter and reading the field back through its
/// getter yields `max(0, min(high, to_i32(n)))`, where `high` is 255 for the
/// radii and 15 for the quality.  The two premises are exactly the setter's
/// and getter's contracts, so any run of the executable protocol satisfies
/// them.
pub proof fn lemma_clamp_round_trip(
    heap0: Seq<Option<GObject>>,
    this: Handle,
    n: i64,
    which: int,
    heap1: Seq<Option<GObject>>,
    r_set: Result<Value, Error>,
    heap2: Seq<Option<GObject>>,
    r_get: Result<Value, Error>,
)
    requires
        live(heap0, this),
        gobj(heap0, this).kind matches GKind::BlurFilter { .. },
        blur_setter_post(
            heap0,
            this,
            which,
            GValue::Number(NumberValue::Finite(n)),
            heap1,
            r_set,
        ),
        blur_getter_post(heap1, this, which, heap2, r_get),
    ensures
        heap2 == heap1,
        r_get matches Ok(v) && v@ == GValue::Number(
            NumberValue::Finite(spec_clamp(wrap_i32(n as int), 0, blur_field_max(which)) as i64),
        ),
{
    assert(spec_coerce_i32_prim(GValue::Number(NumberValue::Finite(n))) == wrap_i32(n as int));
}

/// Prototype shadowing: with `proto` holding the own data property `name`
/// and `obj` linked to it, lookup on `obj` resolves to `proto`'s value;
/// after the own data slot that `set(obj, name, v2)` creates (per `set`'s
/// contract for an inherited data slot), lookup on `obj` yields `v2` while
/// lookup on `proto` still yields the original value.
pub proof fn lemma_prototype_shadowing(
    heap: Seq<Option<GObject>>,
    obj: Handle,
    proto: Handle,
    name: Seq<char>,
    v1: GValue,
    v2: GValue,
    attrs: crate::object::AttributeSet,
)
    requires
        heap_wf(heap),
        live(heap, obj),
        live(heap, proto),
        obj.index != proto.index,
        gobj(heap, obj).prototype == Some(proto),
        !has_prop(gobj(heap, obj).properties, name),
        has_prop(gobj(heap, proto).properties, name),
        prop_slot(gobj(heap, proto).properties, name).kind == GSlotKind::Data(v1),
    ensures
        resolve(heap, obj, name, PROTO_CHAIN_LIMIT as nat) matches Resolution::Found {
            holder,
            slot,
        } && holder == proto && slot.kind == GSlotKind::Data(v1),
        ({
            let heap2 = with_pushed_slot(
                heap,
                obj,
                name,
                GSlot { attributes: attrs, kind: GSlotKind::Data(v2) },
            );
            &&& (resolve(heap2, obj, name, PROTO_CHAIN_LIMIT as nat)
                matches Resolution::Found { holder, slot } && holder == obj && slot.kind
                == GSlotKind::Data(v2))
            &&& (resolve(heap2, proto, name, PROTO_CHAIN_LIMIT as nat)
                matches Resolution::Found { holder, slot } && holder == proto && slot.kind
                == GSlotKind::Data(v1))
        }),
{
    assert(resolve(heap, proto, name, (PROTO_CHAIN_LIMIT - 1) as nat)
        == Resolution::Found {
        holder: proto,
        slot: prop_slot(gobj(heap, proto).properties, name),
    });
    let heap2 = with_pushed_slot(
        heap,
        obj,
        name,
        GSlot { attributes: attrs, kind: GSlotKind::Data(v2) },
    );
    lemma_wf_with_pushed_slot(heap, obj, name, GSlot { attributes: attrs, kind: GSlotKind::Data(v2) });
    assert(resolve(heap2, proto, name, (PROTO_CHAIN_LIMIT - 1) as nat)
        == Resolution::Found {
        holder: proto,
        slot: prop_slot(gobj(heap2, proto).properties, name),
    });
    let props2 = gobj(heap2, obj).properties;
    let n2 = gobj(heap, obj).properties.len() as int;
    assert(props2[n2].name == name);
    assert(has_prop(props2, name));
    assert(prop_index(props2, name) == n2) by {
        let j = prop_index(props2, name);
        if j != n2 {
            assert(props2[j].name != props2[n2].name);
        }
    }
    assert(gobj(heap2, proto) == gobj(heap, proto));
}

/// Cycle safety: on a two-object prototype cycle holding `name` nowhere,
/// the bounded walk reports an exceeded bound (`get` then recovers it as
/// `Undefined` by its contract), rather than failing to terminate —
/// termination itself is checked by the verifier.
pub proof fn lemma_cycle_get_undefined(
    heap: Seq<Option<GObject>>,
    a: Handle,
    b: Handle,
    name: Seq<char>,
)
    requires
        live(heap, a),
        live(heap, b),
        gobj(heap, a).prototype == Some(b),
        gobj(heap, b).prototype == Some(a),
        !has_prop(gobj(heap, a).properties, name),
        !has_prop(gobj(heap, b).properties, name),
    ensures
        resolve(heap, a, name, PROTO_CHAIN_LIMIT as nat) == Resolution::DepthExceeded,
{
    lemma_cycle_walk(heap, a, b, name, PROTO_CHAIN_LIMIT as nat);
}

/// Every traversal budget runs out on a two-object cycle without the name.
proof fn lemma_cycle_walk(
    heap: Seq<Option<GObject>>,
    a: Handle,
    b: Handle,
    name: Seq<char>,
    budget: nat,
)
    requires
        live(heap, a),
        live(heap, b),
        gobj(heap, a).prototype == Some(b),
        gobj(heap, b).prototype == Some(a),
        !has_prop(gobj(heap, a).properties, name),
        !has_prop(gobj(heap, b).properties, name),
    ensures
        resolve(heap, a, name, budget) == Resolution::DepthExceeded,
    decreases budget,
{
    if budget > 0 {
        lemma_cycle_walk(heap, b, a, name, (budget - 1) as nat);
    }
}

/// Reentrant mutation during traversal: on a three-level chain whose
/// level-2 accessor getter deletes a deletable level-1 shadowing property,
/// the walk for the accessor's name reaches level 2, the getter's
/// invocation (as `get`'s contract states it through `accessor_result`)
/// returns the carried value and performs exactly that one deletion, and —
/// because every traversal re-reads live state per hop — a later walk for
/// the shadowed name passes straight through level 1 to level 2.
pub proof fn lemma_reentrant_delete_during_traversal(
    heap: Seq<Option<GObject>>,
    obj: Handle,
    p1: Handle,
    p2: Handle,
    g: Handle,
    gname: Seq<char>,
    xname: Seq<char>,
    res: GValue,
    heap1: Seq<Option<GObject>>,
    r: Result<Value, Error>,
    fuel: u32,
)
    requires
        heap_wf(heap),
        live(heap, obj),
        live(heap, p1),
        live(heap, p2),
        obj.index != p1.index,
        p1.index != p2.index,
        gobj(heap, obj).prototype == Some(p1),
        gobj(heap, p1).prototype == Some(p2),
        !has_prop(gobj(heap, obj).properties, gname),
        !has_prop(gobj(heap, p1).properties, gname),
        has_prop(gobj(heap, p2).properties, gname),
        prop_slot(gobj(heap, p2).properties, gname).kind matches GSlotKind::Accessor {
            getter,
            ..
        } && getter == Some(g),
        crate::dispatch::fn_body_of(heap, g) == Some(GNative::DeleteAndReturn(p1, xname, res)),
        has_prop(gobj(heap, p1).properties, xname),
        !prop_slot(gobj(heap, p1).properties, xname).attributes.dont_delete,
        !has_prop(gobj(heap, obj).properties, xname),
        fuel > 0,
        accessor_result(heap, g, obj, fuel, heap1, r),
    ensures
        resolve(heap, obj, gname, PROTO_CHAIN_LIMIT as nat) matches Resolution::Found {
            holder,
            slot,
        } && holder == p2,
        r matches Ok(rv) && rv@ == res,
        heap1 == without_prop_at(heap, p1, prop_index(gobj(heap, p1).properties, xname)),
        heap_wf(heap1),
        !has_prop(gobj(heap1, p1).properties, xname),
        resolve(heap1, obj, xname, PROTO_CHAIN_LIMIT as nat) == resolve(
            heap1,
            p2,
            xname,
            (PROTO_CHAIN_LIMIT - 2) as nat,
        ),
{
    assert(resolve(heap, p1, gname, (PROTO_CHAIN_LIMIT - 1) as nat) == resolve(
        heap,
        p2,
        gname,
        (PROTO_CHAIN_LIMIT - 2) as nat,
    ));
    assert(resolve(heap, p2, gname, (PROTO_CHAIN_LIMIT - 2) as nat)
        == Resolution::Found {
        holder: p2,
        slot: prop_slot(gobj(heap, p2).properties, gname),
    });

    let props = gobj(heap, p1).properties;
    let idx = prop_index(props, xname);
    lemma_wf_without_prop_at(heap, p1, idx);
    let props2 = gobj(heap1, p1).properties;
    assert(props2 == props.remove(idx));
    assert forall|k: int| 0 <= k < props2.len() implies props2[k].name != xname by {
        let k0 = if k < idx {
            k
        } else {
            k + 1
        };
        assert(props2[k] == props[k0]);
        assert(props[idx].name == xname);
    }

    assert(gobj(heap1, obj) == gobj(heap, obj));
    assert(gobj(heap1, p1).prototype == Some(p2));
    assert(resolve(heap1, obj, xname, PROTO_CHAIN_LIMIT as nat) == resolve(
        heap1,
        p1,
        xname,
        (PROTO_CHAIN_LIMIT - 1) as nat,
    ));
    assert(resolve(heap1, p1, xname, (PROTO_CHAIN_LIMIT - 1) as nat) == resolve(
        heap1,
        p2,
        xname,
        (PROTO_CHAIN_LIMIT - 2) as nat,
    ));
}

} // verus!
