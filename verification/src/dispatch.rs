//! The property dispatch protocol and the execution context.  `get`, `set`,
//! `delete` and `enumerate` walk live prototype chains (re-reading state at
//! every hop, so reentrant mutation mid-traversal is defined behaviour),
//! honour the attribute bits, and invoke accessor and hook functions through
//! `call_native`; the privileged force-set path bypasses the attribute
//! checks for internal setup.  The reentrant half of the coercion engine
//! (`to_number`, `to_i32`, `to_string`) also lives here, because an
//! object-to-primitive hook re-enters dispatch.
//!
//! Traversal is bounded by `PROTO_CHAIN_LIMIT` (user scripts can build
//! prototype cycles); reentrancy is bounded by an explicit `fuel` budget,
//! the activation call-depth bound of the legacy interpreter.  Exceeding
//! either bound is recovered locally (`Undefined` or a dropped write, never
//! a crash) and counted in the context for observability.

use vstd::prelude::*;

use crate::coerce::{
    parse_number, spec_clamp, spec_num_to_i32, spec_to_number_prim, spec_to_string_prim,
    number_to_text, wrap_to_i32,
};
use crate::heap::{
    Heap, Mutation, gobj, heap_wf, lemma_wf_with_data_at, lemma_wf_with_kind,
    lemma_wf_with_pushed_slot, lemma_wf_with_slot_at, lemma_wf_without_prop_at, live,
    with_data_at, with_kind, with_pushed_slot, with_slot_at, without_prop_at,
};
use crate::object::{
    AttributeSet, ConstructKind, GKind, GNative, GObject, GProp, GSlot, GSlotKind,
    NativeFunction, Slot, SlotKind, has_prop, prop_index, prop_slot,
};
use crate::value::{Error, GValue, Handle, NumberValue, Value};

verus! {

/// The bound on prototype-chain traversal.
pub const PROTO_CHAIN_LIMIT: usize = 64;

/// The default reentrancy budget handed to a fresh activation.
pub const CALL_DEPTH_LIMIT: u32 = 32;

/// The canonical-prototypes registry: process-wide handles to the built-in
/// prototype objects, populated once during interpreter startup and read by
/// cloning and construction.
#[derive(Clone, Copy, PartialEq, Eq, Structural, Debug)]
pub struct SystemPrototypes {
    pub function: Handle,
    pub blur_filter: Handle,
    pub blur_filter_constructor: Handle,
}

/// Process-wide interpreter state: the heap, the mutation capability of the
/// current scope, the prototype registry, and the anomaly counters that make
/// recovered bound violations observable.
#[derive(Debug)]
pub struct Context {
    pub heap: Heap,
    pub gc_context: Mutation,
    pub prototypes: SystemPrototypes,
    pub chain_hits: u64,
    pub depth_hits: u64,
}

/// One native or accessor invocation: the carrier of the interpreter state
/// through every call that can mutate, allocate, or re-enter dispatch.
#[derive(Debug)]
pub struct Activation {
    pub context: Context,
}

/// Saturating counter step.
pub open spec fn bump(c: u64) -> u64 {
    if c == u64::MAX {
        c
    } else {
        (c + 1) as u64
    }
}

impl Context {
    fn note_chain_hit(&mut self)
        ensures
            final(self).chain_hits == bump(old(self).chain_hits),
            final(self).depth_hits == old(self).depth_hits,
            final(self).heap == old(self).heap,
            final(self).gc_context == old(self).gc_context,
            final(self).prototypes == old(self).prototypes,
    {
        if self.chain_hits < u64::MAX {
            self.chain_hits = self.chain_hits + 1;
        }
    }

    fn note_depth_hit(&mut self)
        ensures
            final(self).depth_hits == bump(old(self).depth_hits),
            final(self).chain_hits == old(self).chain_hits,
            final(self).heap == old(self).heap,
            final(self).gc_context == old(self).gc_context,
            final(self).prototypes == old(self).prototypes,
    {
        if self.depth_hits < u64::MAX {
            self.depth_hits = self.depth_hits + 1;
        }
    }
}

impl Activation {
    /// The model of the current heap.
    pub open spec fn heap(&self) -> Seq<Option<GObject>> {
        self.context.heap@
    }

    /// A well-formed activation: its capability token matches the open heap
    /// scope, every live property table keeps distinct names, and the
    /// registry handles are live.
    pub open spec fn wf(&self) -> bool {
        &&& self.context.heap.writable(&self.context.gc_context)
        &&& heap_wf(self.context.heap@)
        &&& live(self.context.heap@, self.context.prototypes.function)
        &&& live(self.context.heap@, self.context.prototypes.blur_filter)
        &&& live(self.context.heap@, self.context.prototypes.blur_filter_constructor)
    }
}

/// The heap only evolves monotonically inside dispatch: objects are
/// allocated and mutated, never collected.
pub open spec fn evolves(a: Seq<Option<GObject>>, b: Seq<Option<GObject>>) -> bool {
    &&& a.len() <= b.len()
    &&& forall|h: Handle| live(a, h) ==> live(b, h)
}

/// What every dispatch call preserves: the capability scope, the registry,
/// and the liveness of every object.
pub open spec fn ctx_frame(a: Activation, b: Activation) -> bool {
    &&& b.context.heap.epoch == a.context.heap.epoch
    &&& b.context.heap.cap_open == a.context.heap.cap_open
    &&& b.context.gc_context.epoch == a.context.gc_context.epoch
    &&& b.context.prototypes == a.context.prototypes
    &&& evolves(a.heap(), b.heap())
}

/// Neither the heap nor the anomaly counters changed.
pub open spec fn untouched(a: Activation, b: Activation) -> bool {
    &&& b.heap() == a.heap()
    &&& b.context.chain_hits == a.context.chain_hits
    &&& b.context.depth_hits == a.context.depth_hits
}

/// A primitive value: anything but an object reference.
pub open spec fn is_primitive(v: GValue) -> bool {
    !(v is ObjectRef)
}

/// The native body of a live function object, if `g` is one.
pub open spec fn fn_body_of(heap: Seq<Option<GObject>>, g: Handle) -> Option<GNative> {
    if live(heap, g) {
        match gobj(heap, g).kind {
            GKind::Function { body, makes } => Option::Some(body),
            _ => Option::None,
        }
    } else {
        Option::None
    }
}

/// Outcome of the bounded chain walk for `name` starting at `h`: the first
/// level holding the name and its slot, a missing name (chain ended), or an
/// exhausted traversal budget.
pub ghost enum Resolution {
    Found { holder: Handle, slot: GSlot },
    Missing,
    DepthExceeded,
}

/// The bounded prototype-chain walk.  A dead link (a prototype that was
/// collected, possible only for objects unreachable from the roots) ends the
/// chain like a missing prototype.
pub open spec fn resolve(
    heap: Seq<Option<GObject>>,
    h: Handle,
    name: Seq<char>,
    budget: nat,
) -> Resolution
    decreases budget,
{
    if !live(heap, h) {
        Resolution::Missing
    } else if has_prop(gobj(heap, h).properties, name) {
        Resolution::Found { holder: h, slot: prop_slot(gobj(heap, h).properties, name) }
    } else {
        match gobj(heap, h).prototype {
            Option::None => Resolution::Missing,
            Option::Some(p) => if budget == 0 {
                Resolution::DepthExceeded
            } else {
                resolve(heap, p, name, (budget - 1) as nat)
            },
        }
    }
}

/// How the to-primitive hook of object `h` under `name` behaves, as far as
/// the heap states it: no callable hook at all, a callable fixed-result
/// body, a throwing body, or a body whose behaviour the contracts leave
/// open (a reentrant fixture, or a hook reached through an accessor).
pub ghost enum HookCase {
    NotCallable,
    Returns(GValue),
    Throws(GValue),
    Open,
}

/// Classifies the hook `name` of object `h`.
pub open spec fn hook_case(heap: Seq<Option<GObject>>, h: Handle, name: Seq<char>) -> HookCase {
    match resolve(heap, h, name, PROTO_CHAIN_LIMIT as nat) {
        Resolution::Missing => HookCase::NotCallable,
        Resolution::DepthExceeded => HookCase::NotCallable,
        Resolution::Found { holder, slot } => match slot.kind {
            GSlotKind::Data(v) => match v {
                GValue::ObjectRef(g) => match fn_body_of(heap, g) {
                    Option::Some(GNative::ReturnValue(p)) => HookCase::Returns(p),
                    Option::Some(GNative::ThrowValue(t)) => HookCase::Throws(t),
                    Option::None => HookCase::NotCallable,
                    Option::Some(_) => HookCase::Open,
                },
                _ => HookCase::NotCallable,
            },
            GSlotKind::Accessor { getter, setter } => match getter {
                Option::None => HookCase::NotCallable,
                Option::Some(_) => HookCase::Open,
            },
        },
    }
}

/// Whether coercing `v` to a number completes without running open script:
/// primitives always do; an object does when it is dead, or when its
/// `valueOf` hook is absent, non-callable, or a fixed-result body.
pub open spec fn coercion_clean(heap: Seq<Option<GObject>>, v: GValue, fuel: u32) -> bool {
    match v {
        GValue::ObjectRef(h) => !live(heap, h) || (fuel > 0 && match hook_case(
            heap,
            h,
            "valueOf"@,
        ) {
            HookCase::NotCallable => true,
            HookCase::Returns(_) => true,
            _ => false,
        }),
        _ => true,
    }
}

/// The number a clean coercion of `v` produces: the pure legacy rules for
/// primitives; for an object, its hook's primitive result, else NaN.
pub open spec fn coerced_num(heap: Seq<Option<GObject>>, v: GValue, fuel: u32) -> NumberValue {
    match v {
        GValue::ObjectRef(h) => if !live(heap, h) {
            NumberValue::NaN
        } else {
            match hook_case(heap, h, "valueOf"@) {
                HookCase::Returns(p) => if is_primitive(p) {
                    spec_to_number_prim(p)
                } else {
                    NumberValue::NaN
                },
                _ => NumberValue::NaN,
            }
        },
        _ => spec_to_number_prim(v),
    }
}

/// The error a numeric coercion of `v` raises, where its `valueOf` hook is
/// a throwing body.
pub open spec fn coercion_throws(heap: Seq<Option<GObject>>, v: GValue, fuel: u32) -> Option<
    GValue,
> {
    match v {
        GValue::ObjectRef(h) => if live(heap, h) && fuel > 0 {
            match hook_case(heap, h, "valueOf"@) {
                HookCase::Throws(t) => Option::Some(t),
                _ => Option::None,
            }
        } else {
            Option::None
        },
        _ => Option::None,
    }
}

/// Whether coercing `v` to text completes without running open script
/// (over the `toString` hook).
pub open spec fn text_coercion_clean(heap: Seq<Option<GObject>>, v: GValue, fuel: u32) -> bool {
    match v {
        GValue::ObjectRef(h) => !live(heap, h) || (fuel > 0 && match hook_case(
            heap,
            h,
            "toString"@,
        ) {
            HookCase::NotCallable => true,
            HookCase::Returns(_) => true,
            _ => false,
        }),
        _ => true,
    }
}

/// The text a clean coercion of `v` produces; an object whose hook yields
/// no primitive reads as the opaque-object literal.
pub open spec fn coerced_text(heap: Seq<Option<GObject>>, v: GValue, fuel: u32) -> Seq<char> {
    match v {
        GValue::ObjectRef(h) => if !live(heap, h) {
            "[type Object]"@
        } else {
            match hook_case(heap, h, "toString"@) {
                HookCase::Returns(p) => if is_primitive(p) {
                    spec_to_string_prim(p)
                } else {
                    "[type Object]"@
                },
                _ => "[type Object]"@,
            }
        },
        _ => spec_to_string_prim(v),
    }
}

/// The error a text coercion of `v` raises, where its `toString` hook is a
/// throwing body.
pub open spec fn text_coercion_throws(heap: Seq<Option<GObject>>, v: GValue, fuel: u32) -> Option<
    GValue,
> {
    match v {
        GValue::ObjectRef(h) => if live(heap, h) && fuel > 0 {
            match hook_case(heap, h, "toString"@) {
                HookCase::Throws(t) => Option::Some(t),
                _ => Option::None,
            }
        } else {
            Option::None
        },
        _ => Option::None,
    }
}

/// What `get` delivers for `name` on `this`, as far as the contracts state
/// it: the value of a data or missing resolution, a statable getter's
/// result, a thrown error, or open (a reentrant getter body).
pub ghost enum GetOutcome {
    Yields(GValue),
    ThrowsErr(GValue),
    Open,
}

/// Classifies one `get` of `name` on `this`.
pub open spec fn get_outcome(
    heap: Seq<Option<GObject>>,
    this: Handle,
    name: Seq<char>,
    fuel: u32,
) -> GetOutcome {
    match resolve(heap, this, name, PROTO_CHAIN_LIMIT as nat) {
        Resolution::Missing => GetOutcome::Yields(GValue::Undefined),
        Resolution::DepthExceeded => GetOutcome::Yields(GValue::Undefined),
        Resolution::Found { holder, slot } => match slot.kind {
            GSlotKind::Data(v) => GetOutcome::Yields(v),
            GSlotKind::Accessor { getter, setter } => match getter {
                Option::None => GetOutcome::Yields(GValue::Undefined),
                Option::Some(g) => if fuel == 0 {
                    GetOutcome::Yields(GValue::Undefined)
                } else {
                    match fn_body_of(heap, g) {
                        Option::None => GetOutcome::Yields(GValue::Undefined),
                        Option::Some(GNative::ReturnValue(v)) => GetOutcome::Yields(v),
                        Option::Some(GNative::ThrowValue(t)) => GetOutcome::ThrowsErr(t),
                        Option::Some(GNative::GetBlurX) => match gobj(heap, this).kind {
                            GKind::BlurFilter { blur_x, .. } => GetOutcome::Yields(
                                GValue::Number(NumberValue::Finite(blur_x as i64)),
                            ),
                            _ => GetOutcome::Open,
                        },
                        Option::Some(GNative::GetBlurY) => match gobj(heap, this).kind {
                            GKind::BlurFilter { blur_y, .. } => GetOutcome::Yields(
                                GValue::Number(NumberValue::Finite(blur_y as i64)),
                            ),
                            _ => GetOutcome::Open,
                        },
                        Option::Some(GNative::GetQuality) => match gobj(heap, this).kind {
                            GKind::BlurFilter { quality, .. } => GetOutcome::Yields(
                                GValue::Number(NumberValue::Finite(quality as i64)),
                            ),
                            _ => GetOutcome::Open,
                        },
                        Option::Some(_) => GetOutcome::Open,
                    }
                },
            },
        },
    }
}

/// The argument at position `i`, or the given default where absent: the
/// calling convention of the legacy natives.
pub open spec fn arg_or(args: Seq<GValue>, i: int, default: GValue) -> GValue {
    if 0 <= i < args.len() {
        args[i]
    } else {
        default
    }
}

/// The composite integer coercion of a primitive value.
pub open spec fn spec_coerce_i32_prim(v: GValue) -> int {
    spec_num_to_i32(spec_to_number_prim(v))
}

/// The blur-filter field selected by `which`: 0 is the horizontal radius, 1
/// the vertical radius, anything else the quality.
pub open spec fn blur_field(x: i32, y: i32, q: i32, which: int) -> i32 {
    if which == 0 {
        x
    } else if which == 1 {
        y
    } else {
        q
    }
}

/// The blur-filter kind with the field selected by `which` replaced.
pub open spec fn blur_with_field(x: i32, y: i32, q: i32, which: int, n: i32) -> GKind {
    if which == 0 {
        GKind::BlurFilter { blur_x: n, blur_y: y, quality: q }
    } else if which == 1 {
        GKind::BlurFilter { blur_x: x, blur_y: n, quality: q }
    } else {
        GKind::BlurFilter { blur_x: x, blur_y: y, quality: n }
    }
}

/// The clamp range of the blur-filter field selected by `which`: radii are
/// clamped to [0, 255], the quality to [0, 15].
pub open spec fn blur_field_max(which: int) -> int {
    if which == 0 || which == 1 {
        255
    } else {
        15
    }
}

/// What a blur-filter field getter native returns: the stored field on a
/// blur-filter receiver, the fatal receiver error on anything else; the heap
/// is untouched either way.
pub open spec fn blur_getter_post(
    heap0: Seq<Option<GObject>>,
    receiver: Handle,
    which: int,
    heap1: Seq<Option<GObject>>,
    r: Result<Value, Error>,
) -> bool {
    match gobj(heap0, receiver).kind {
        GKind::BlurFilter { blur_x, blur_y, quality } => heap1 == heap0 && (r matches Ok(rv)
            && rv@ == GValue::Number(
            NumberValue::Finite(blur_field(blur_x, blur_y, quality, which) as i64),
        )),
        _ => heap1 == heap0 && r == Err::<Value, Error>(Error::ReceiverMismatch),
    }
}

/// What a blur-filter field setter native does when its argument is a
/// primitive (so its coercion cannot re-enter script): the coerced, clamped
/// value is stored in the selected field of a blur-filter receiver; any
/// other receiver is the fatal receiver error.
pub open spec fn blur_setter_post(
    heap0: Seq<Option<GObject>>,
    receiver: Handle,
    which: int,
    v: GValue,
    heap1: Seq<Option<GObject>>,
    r: Result<Value, Error>,
) -> bool {
    blur_setter_num_post(heap0, receiver, which, spec_to_number_prim(v), heap1, r)
}

/// The same write, phrased over the number the argument coerced to: the
/// form the object-argument clauses (through the `valueOf` hook) reuse.
pub open spec fn blur_setter_num_post(
    heap0: Seq<Option<GObject>>,
    receiver: Handle,
    which: int,
    n: NumberValue,
    heap1: Seq<Option<GObject>>,
    r: Result<Value, Error>,
) -> bool {
    match gobj(heap0, receiver).kind {
        GKind::BlurFilter { blur_x, blur_y, quality } => heap1 == with_kind(
            heap0,
            receiver,
            blur_with_field(
                blur_x,
                blur_y,
                quality,
                which,
                spec_clamp(spec_num_to_i32(n), 0, blur_field_max(which)) as i32,
            ),
        ) && r == Ok::<Value, Error>(Value::Undefined),
        _ => heap1 == heap0 && r == Err::<Value, Error>(Error::ReceiverMismatch),
    }
}

/// What invoking the getter function object `g` on `receiver` yields, for
/// the function bodies whose behaviour is statable in place: a missing or
/// non-callable getter reads as `Undefined`, an exhausted reentrancy budget
/// is recovered as `Undefined`, a fixed-result body returns its value, a
/// throwing body propagates its error, and the blur-filter field getters
/// read the receiver's fields.  Reentrant bodies are bounded only by the
/// frame conditions of `get`.
pub open spec fn accessor_result(
    heap0: Seq<Option<GObject>>,
    g: Handle,
    receiver: Handle,
    fuel: u32,
    heap1: Seq<Option<GObject>>,
    r: Result<Value, Error>,
) -> bool {
    if fuel == 0 {
        heap1 == heap0 && r == Ok::<Value, Error>(Value::Undefined)
    } else {
        match fn_body_of(heap0, g) {
            Option::None => heap1 == heap0 && r == Ok::<Value, Error>(Value::Undefined),
            Option::Some(body) => match body {
                GNative::ReturnValue(v) => heap1 == heap0 && (r matches Ok(rv) && rv@ == v),
                GNative::ThrowValue(v) => heap1 == heap0 && (r matches Err(e)
                    && e matches Error::Thrown(t) && t@ == v),
                GNative::GetBlurX => blur_getter_post(heap0, receiver, 0, heap1, r),
                GNative::GetBlurY => blur_getter_post(heap0, receiver, 1, heap1, r),
                GNative::GetQuality => blur_getter_post(heap0, receiver, 2, heap1, r),
                GNative::DeleteAndReturn(target, nm, res) => delete_and_return_post(
                    heap0,
                    target,
                    nm,
                    res,
                    heap1,
                    r,
                ),
                _ => true,
            },
        }
    }
}

/// What the delete-then-return fixture body does: exactly one own-property
/// deletion on its target (honouring `dont_delete`), then its carried
/// value.  Stating it exactly is what lets the reentrant-mutation law be
/// proved over `get`'s contract.
pub open spec fn delete_and_return_post(
    heap0: Seq<Option<GObject>>,
    target: Handle,
    nm: Seq<char>,
    res: GValue,
    heap1: Seq<Option<GObject>>,
    r: Result<Value, Error>,
) -> bool {
    &&& (r matches Ok(rv) && rv@ == res)
    &&& heap1 == (if live(heap0, target) {
        let props = gobj(heap0, target).properties;
        if has_prop(props, nm) && !prop_slot(props, nm).attributes.dont_delete {
            without_prop_at(heap0, target, prop_index(props, nm))
        } else {
            heap0
        }
    } else {
        heap0
    })
}

/// What invoking the setter function object `s` on `receiver` with `v`
/// does, for the statable bodies.  A missing or non-callable setter and an
/// exhausted budget silently drop the write.
pub open spec fn setter_result(
    heap0: Seq<Option<GObject>>,
    s: Handle,
    receiver: Handle,
    v: GValue,
    fuel: u32,
    heap1: Seq<Option<GObject>>,
    r: Result<(), Error>,
) -> bool {
    if fuel == 0 {
        heap1 == heap0 && r == Ok::<(), Error>(())
    } else {
        match fn_body_of(heap0, s) {
            Option::None => heap1 == heap0 && r == Ok::<(), Error>(()),
            Option::Some(body) => match body {
                GNative::ReturnValue(_) => heap1 == heap0 && r == Ok::<(), Error>(()),
                GNative::ThrowValue(t) => heap1 == heap0 && (r matches Err(e)
                    && e matches Error::Thrown(tv) && tv@ == t),
                GNative::SetBlurX => is_primitive(v) ==> wrapped_setter_post(
                    heap0,
                    receiver,
                    0,
                    v,
                    heap1,
                    r,
                ),
                GNative::SetBlurY => is_primitive(v) ==> wrapped_setter_post(
                    heap0,
                    receiver,
                    1,
                    v,
                    heap1,
                    r,
                ),
                GNative::SetQuality => is_primitive(v) ==> wrapped_setter_post(
                    heap0,
                    receiver,
                    2,
                    v,
                    heap1,
                    r,
                ),
                _ => true,
            },
        }
    }
}

/// `blur_setter_post` with the native's value result discarded, as `set`
/// discards it.
pub open spec fn wrapped_setter_post(
    heap0: Seq<Option<GObject>>,
    receiver: Handle,
    which: int,
    v: GValue,
    heap1: Seq<Option<GObject>>,
    r: Result<(), Error>,
) -> bool {
    match gobj(heap0, receiver).kind {
        GKind::BlurFilter { blur_x, blur_y, quality } => heap1 == with_kind(
            heap0,
            receiver,
            blur_with_field(
                blur_x,
                blur_y,
                quality,
                which,
                spec_clamp(spec_coerce_i32_prim(v), 0, blur_field_max(which)) as i32,
            ),
        ) && r == Ok::<(), Error>(()),
        _ => heap1 == heap0 && r == Err::<(), Error>(Error::ReceiverMismatch),
    }
}

/// Reads property `name` of `this`, walking the live prototype chain and
/// invoking an accessor's getter with `this` bound to the original
/// receiver.  A missing name, a missing getter and an exceeded bound all
/// read as `Undefined`; only a script error thrown by a getter surfaces.
#[verifier::loop_isolation(false)]
pub fn get(activation: &mut Activation, this: Handle, name: &String, fuel: u32) -> (r: Result<
    Value,
    Error,
>)
    requires
        old(activation).wf(),
        live(old(activation).heap(), this),
    ensures
        final(activation).wf(),
        ctx_frame(*old(activation), *final(activation)),
        ({
            let heap0 = old(activation).heap();
            match resolve(heap0, this, name@, PROTO_CHAIN_LIMIT as nat) {
                Resolution::Missing => untouched(*old(activation), *final(activation)) && r == Ok::<
                    Value,
                    Error,
                >(Value::Undefined),
                Resolution::DepthExceeded => final(activation).heap() == heap0 && final(activation).context.chain_hits == bump(old(activation).context.chain_hits) && r == Ok::<
                    Value,
                    Error,
                >(Value::Undefined),
                Resolution::Found { holder, slot } => match slot.kind {
                    GSlotKind::Data(v) => untouched(*old(activation), *final(activation)) && (
                    r matches Ok(rv) && rv@ == v),
                    GSlotKind::Accessor { getter, setter } => match getter {
                        Option::None => untouched(*old(activation), *final(activation)) && r
                            == Ok::<Value, Error>(Value::Undefined),
                        Option::Some(g) => accessor_result(
                            heap0,
                            g,
                            this,
                            fuel,
                            final(activation).heap(),
                            r,
                        ),
                    },
                },
            }
        }),
        ({
            let heap0 = old(activation).heap();
            match get_outcome(heap0, this, name@, fuel) {
                GetOutcome::Yields(v) => final(activation).heap() == heap0 && (r matches Ok(rv)
                    && rv@ == v),
                GetOutcome::ThrowsErr(t) => final(activation).heap() == heap0 && (r matches Err(e)
                    && e matches Error::Thrown(tv) && tv@ == t),
                GetOutcome::Open => true,
            }
        }),
    decreases fuel, 0int,
{
    let ghost heap0 = activation.heap();
    let mut cur = this;
    let mut hops: usize = 0;
    loop
        invariant
            *activation == *old(activation),
            live(heap0, cur),
            hops <= PROTO_CHAIN_LIMIT,
            resolve(heap0, this, name@, PROTO_CHAIN_LIMIT as nat) == resolve(
                heap0,
                cur,
                name@,
                (PROTO_CHAIN_LIMIT - hops) as nat,
            ),
        decreases PROTO_CHAIN_LIMIT - hops,
    {
        match activation.context.heap.find_own(cur, name) {
            Some(i) => {
                let slot = activation.context.heap.slot_at(cur, i);
                match slot.kind {
                    SlotKind::Data(v) => {
                        return Ok(v);
                    },
                    SlotKind::Accessor { getter, setter } => {
                        match getter {
                            None => {
                                return Ok(Value::Undefined);
                            },
                            Some(g) => {
                                if fuel == 0 {
                                    activation.context.note_depth_hit();
                                    return Ok(Value::Undefined);
                                }
                                if !activation.context.heap.is_live(g) {
                                    return Ok(Value::Undefined);
                                }
                                match activation.context.heap.function_body(g) {
                                    None => {
                                        return Ok(Value::Undefined);
                                    },
                                    Some((body, _makes)) => {
                                        let no_args: Vec<Value> = Vec::new();
                                        let res = call_native(
                                            activation,
                                            &body,
                                            this,
                                            &no_args,
                                            fuel - 1,
                                        );
                                        return res;
                                    },
                                }
                            },
                        }
                    },
                }
            },
            None => {
                match activation.context.heap.proto_of(cur) {
                    None => {
                        return Ok(Value::Undefined);
                    },
                    Some(p) => {
                        if hops == PROTO_CHAIN_LIMIT {
                            activation.context.note_chain_hit();
                            return Ok(Value::Undefined);
                        }
                        if !activation.context.heap.is_live(p) {
                            proof {
                                assert(resolve(
                                    heap0,
                                    p,
                                    name@,
                                    (PROTO_CHAIN_LIMIT - hops - 1) as nat,
                                ) == Resolution::Missing);
                            }
                            return Ok(Value::Undefined);
                        }
                        cur = p;
                        hops = hops + 1;
                    },
                }
            },
        }
    }
}

/// Writes property `name` of `this`.  Ownership never walks the chain, but
/// an own or inherited accessor's setter (found by the same walk as `get`)
/// is invoked with `this` bound to the receiver; an own read-only data slot
/// silently drops the write; otherwise an own data slot is created (with
/// `attrs_if_new`) or overwritten (attributes kept).
#[verifier::loop_isolation(false)]
pub fn set(
    activation: &mut Activation,
    this: Handle,
    name: &String,
    value: Value,
    attrs_if_new: AttributeSet,
    fuel: u32,
) -> (r: Result<(), Error>)
    requires
        old(activation).wf(),
        live(old(activation).heap(), this),
    ensures
        final(activation).wf(),
        ctx_frame(*old(activation), *final(activation)),
        ({
            let heap0 = old(activation).heap();
            match resolve(heap0, this, name@, PROTO_CHAIN_LIMIT as nat) {
                Resolution::DepthExceeded => final(activation).heap() == heap0 && final(activation).context.chain_hits == bump(old(activation).context.chain_hits) && r == Ok::<
                    (),
                    Error,
                >(()),
                Resolution::Missing => final(activation).heap() == with_pushed_slot(
                    heap0,
                    this,
                    name@,
                    GSlot { attributes: attrs_if_new, kind: GSlotKind::Data(value@) },
                ) && r == Ok::<(), Error>(()),
                Resolution::Found { holder, slot } => match slot.kind {
                    GSlotKind::Accessor { getter, setter } => match setter {
                        Option::Some(s) => if fuel == 0 {
                            final(activation).heap() == heap0 && final(activation).context.depth_hits == bump(old(activation).context.depth_hits) && r
                                == Ok::<(), Error>(())
                        } else {
                            setter_result(
                                heap0,
                                s,
                                this,
                                value@,
                                fuel,
                                final(activation).heap(),
                                r,
                            )
                        },
                        Option::None => if holder == this {
                            final(activation).heap() == with_data_at(
                                heap0,
                                this,
                                prop_index(gobj(heap0, this).properties, name@),
                                value@,
                            ) && r == Ok::<(), Error>(())
                        } else {
                            final(activation).heap() == with_pushed_slot(
                                heap0,
                                this,
                                name@,
                                GSlot { attributes: attrs_if_new, kind: GSlotKind::Data(value@) },
                            ) && r == Ok::<(), Error>(())
                        },
                    },
                    GSlotKind::Data(_) => if holder == this {
                        if slot.attributes.read_only {
                            untouched(*old(activation), *final(activation)) && r == Ok::<
                                (),
                                Error,
                            >(())
                        } else {
                            final(activation).heap() == with_data_at(
                                heap0,
                                this,
                                prop_index(gobj(heap0, this).properties, name@),
                                value@,
                            ) && r == Ok::<(), Error>(())
                        }
                    } else {
                        final(activation).heap() == with_pushed_slot(
                            heap0,
                            this,
                            name@,
                            GSlot { attributes: attrs_if_new, kind: GSlotKind::Data(value@) },
                        ) && r == Ok::<(), Error>(())
                    },
                },
            }
        }),
    decreases fuel, 0int,
{
    let ghost heap0 = activation.heap();
    let mut cur = this;
    let mut hops: usize = 0;
    loop
        invariant
            *activation == *old(activation),
            live(heap0, cur),
            hops <= PROTO_CHAIN_LIMIT,
            resolve(heap0, this, name@, PROTO_CHAIN_LIMIT as nat) == resolve(
                heap0,
                cur,
                name@,
                (PROTO_CHAIN_LIMIT - hops) as nat,
            ),
            cur == this || !has_prop(gobj(heap0, this).properties, name@),
        decreases PROTO_CHAIN_LIMIT - hops,
    {
        match activation.context.heap.find_own(cur, name) {
            Some(i) => {
                let slot = activation.context.heap.slot_at(cur, i);
                match slot.kind {
                    SlotKind::Accessor { getter: _, setter: Some(s) } => {
                        if fuel == 0 {
                            activation.context.note_depth_hit();
                            return Ok(());
                        }
                        if !activation.context.heap.is_live(s) {
                            return Ok(());
                        }
                        match activation.context.heap.function_body(s) {
                            None => {
                                return Ok(());
                            },
                            Some((body, _makes)) => {
                                let args = vec![value];
                                let res = call_native(activation, &body, this, &args, fuel - 1);
                                return match res {
                                    Ok(_) => Ok(()),
                                    Err(e) => Err(e),
                                };
                            },
                        }
                    },
                    SlotKind::Accessor { getter: _, setter: None } => {
                        if cur.index == this.index {
                            proof {
                                lemma_wf_with_data_at(heap0, this, i as int, value@);
                            }
                            let ctx = &mut activation.context;
                            ctx.heap.overwrite_data(&ctx.gc_context, this, i, value);
                            return Ok(());
                        } else {
                            proof {
                                lemma_wf_with_pushed_slot(
                                    heap0,
                                    this,
                                    name@,
                                    GSlot {
                                        attributes: attrs_if_new,
                                        kind: GSlotKind::Data(value@),
                                    },
                                );
                            }
                            let ctx = &mut activation.context;
                            ctx.heap.push_slot(
                                &ctx.gc_context,
                                this,
                                name.clone(),
                                Slot { attributes: attrs_if_new, kind: SlotKind::Data(value) },
                            );
                            return Ok(());
                        }
                    },
                    SlotKind::Data(_) => {
                        if cur.index == this.index {
                            if slot.attributes.read_only {
                                return Ok(());
                            }
                            proof {
                                lemma_wf_with_data_at(heap0, this, i as int, value@);
                            }
                            let ctx = &mut activation.context;
                            ctx.heap.overwrite_data(&ctx.gc_context, this, i, value);
                            return Ok(());
                        } else {
                            proof {
                                lemma_wf_with_pushed_slot(
                                    heap0,
                                    this,
                                    name@,
                                    GSlot {
                                        attributes: attrs_if_new,
                                        kind: GSlotKind::Data(value@),
                                    },
                                );
                            }
                            let ctx = &mut activation.context;
                            ctx.heap.push_slot(
                                &ctx.gc_context,
                                this,
                                name.clone(),
                                Slot { attributes: attrs_if_new, kind: SlotKind::Data(value) },
                            );
                            return Ok(());
                        }
                    },
                }
            },
            None => {
                match activation.context.heap.proto_of(cur) {
                    None => {
                        proof {
                            lemma_wf_with_pushed_slot(
                                heap0,
                                this,
                                name@,
                                GSlot { attributes: attrs_if_new, kind: GSlotKind::Data(value@) },
                            );
                        }
                        let ctx = &mut activation.context;
                        ctx.heap.push_slot(
                            &ctx.gc_context,
                            this,
                            name.clone(),
                            Slot { attributes: attrs_if_new, kind: SlotKind::Data(value) },
                        );
                        return Ok(());
                    },
                    Some(p) => {
                        if hops == PROTO_CHAIN_LIMIT {
                            activation.context.note_chain_hit();
                            return Ok(());
                        }
                        if !activation.context.heap.is_live(p) {
                            proof {
                                assert(resolve(
                                    heap0,
                                    p,
                                    name@,
                                    (PROTO_CHAIN_LIMIT - hops - 1) as nat,
                                ) == Resolution::Missing);
                                lemma_wf_with_pushed_slot(
                                    heap0,
                                    this,
                                    name@,
                                    GSlot {
                                        attributes: attrs_if_new,
                                        kind: GSlotKind::Data(value@),
                                    },
                                );
                            }
                            let ctx = &mut activation.context;
                            ctx.heap.push_slot(
                                &ctx.gc_context,
                                this,
                                name.clone(),
                                Slot { attributes: attrs_if_new, kind: SlotKind::Data(value) },
                            );
                            return Ok(());
                        }
                        cur = p;
                        hops = hops + 1;
                    },
                }
            },
        }
    }
}

/// Removes an own property.  A `dont_delete` slot and a missing name are
/// no-ops that report failure to the caller; nothing is ever raised.
pub fn delete(activation: &mut Activation, this: Handle, name: &String) -> (deleted: bool)
    requires
        old(activation).wf(),
        live(old(activation).heap(), this),
    ensures
        final(activation).wf(),
        ctx_frame(*old(activation), *final(activation)),
        ({
            let heap0 = old(activation).heap();
            let props = gobj(heap0, this).properties;
            if !has_prop(props, name@) {
                untouched(*old(activation), *final(activation)) && !deleted
            } else if prop_slot(props, name@).attributes.dont_delete {
                untouched(*old(activation), *final(activation)) && !deleted
            } else {
                final(activation).heap() == without_prop_at(heap0, this, prop_index(props, name@))
                    && deleted
            }
        }),
{
    let ghost heap0 = activation.heap();
    match activation.context.heap.find_own(this, name) {
        None => false,
        Some(i) => {
            let attrs = activation.context.heap.prop_attributes(this, i);
            if attrs.dont_delete {
                false
            } else {
                proof {
                    lemma_wf_without_prop_at(heap0, this, i as int);
                }
                let ctx = &mut activation.context;
                ctx.heap.remove_prop(&ctx.gc_context, this, i);
                true
            }
        },
    }
}

/// The own property names visible to enumeration (those without
/// `dont_enum`), in insertion order.
pub open spec fn enumerable_names(props: Seq<GProp>) -> Seq<Seq<char>>
    decreases props.len(),
{
    if props.len() == 0 {
        Seq::empty()
    } else {
        let rest = enumerable_names(props.drop_last());
        if props.last().slot.attributes.dont_enum {
            rest
        } else {
            rest.push(props.last().name)
        }
    }
}

/// Produces the own property names of `this` excluding any with
/// `dont_enum`, in insertion order; inherited names are not included.
#[verifier::loop_isolation(false)]
pub fn enumerate(activation: &Activation, this: Handle) -> (names: Vec<String>)
    requires
        activation.wf(),
        live(activation.heap(), this),
    ensures
        names@.map_values(|s: String| s@) == enumerable_names(
            gobj(activation.heap(), this).properties,
        ),
{
    let ghost props = gobj(activation.heap(), this).properties;
    let n = activation.context.heap.prop_count(this);
    let mut names: Vec<String> = Vec::new();
    let mut i: usize = 0;
    while i < n
        invariant
            i <= n,
            names@.map_values(|s: String| s@) == enumerable_names(props.take(i as int)),
        decreases n - i,
    {
        proof {
            assert(props.take(i as int + 1).drop_last() =~= props.take(i as int));
            assert(props.take(i as int + 1).last() == props[i as int]);
        }
        let attrs = activation.context.heap.prop_attributes(this, i);
        if !attrs.dont_enum {
            let name = activation.context.heap.prop_name(this, i);
            names.push(name);
            proof {
                assert(names@.map_values(|s: String| s@) =~= enumerable_names(
                    props.take(i as int + 1),
                ));
            }
        }
        i = i + 1;
    }
    proof {
        assert(props.take(n as int) =~= props);
    }
    names
}

/// The privileged force-set path: installs a data slot with caller-chosen
/// attributes, bypassing the accessor walk and the read-only check.  Used
/// only during prototype and built-in setup.
pub fn force_set_value(
    heap: &mut Heap,
    m: &Mutation,
    this: Handle,
    name: String,
    value: Value,
    attrs: AttributeSet,
)
    requires
        old(heap).writable(m),
        heap_wf(old(heap)@),
        live(old(heap)@, this),
    ensures
        final(heap).writable(m),
        final(heap).epoch == old(heap).epoch,
        heap_wf(final(heap)@),
        final(heap)@ == ({
            let props = gobj(old(heap)@, this).properties;
            if has_prop(props, name@) {
                with_slot_at(
                    old(heap)@,
                    this,
                    prop_index(props, name@),
                    GSlot { attributes: attrs, kind: GSlotKind::Data(value@) },
                )
            } else {
                with_pushed_slot(
                    old(heap)@,
                    this,
                    name@,
                    GSlot { attributes: attrs, kind: GSlotKind::Data(value@) },
                )
            }
        }),
{
    let ghost heap0 = heap@;
    match heap.find_own(this, &name) {
        Some(i) => {
            proof {
                lemma_wf_with_slot_at(
                    heap0,
                    this,
                    i as int,
                    GSlot { attributes: attrs, kind: GSlotKind::Data(value@) },
                );
            }
            heap.replace_slot(
                m,
                this,
                i,
                Slot { attributes: attrs, kind: SlotKind::Data(value) },
            );
        },
        None => {
            proof {
                lemma_wf_with_pushed_slot(
                    heap0,
                    this,
                    name@,
                    GSlot { attributes: attrs, kind: GSlotKind::Data(value@) },
                );
            }
            heap.push_slot(m, this, name, Slot { attributes: attrs, kind: SlotKind::Data(value) });
        },
    }
}

/// The privileged force-set path for an accessor slot: installs the
/// getter/setter pair with caller-chosen attributes unconditionally.
pub fn force_set_accessor(
    heap: &mut Heap,
    m: &Mutation,
    this: Handle,
    name: String,
    getter: Option<Handle>,
    setter: Option<Handle>,
    attrs: AttributeSet,
)
    requires
        old(heap).writable(m),
        heap_wf(old(heap)@),
        live(old(heap)@, this),
    ensures
        final(heap).writable(m),
        final(heap).epoch == old(heap).epoch,
        heap_wf(final(heap)@),
        final(heap)@ == ({
            let props = gobj(old(heap)@, this).properties;
            let slot = GSlot { attributes: attrs, kind: GSlotKind::Accessor { getter, setter } };
            if has_prop(props, name@) {
                with_slot_at(old(heap)@, this, prop_index(props, name@), slot)
            } else {
                with_pushed_slot(old(heap)@, this, name@, slot)
            }
        }),
{
    let ghost heap0 = heap@;
    let ghost gslot = GSlot { attributes: attrs, kind: GSlotKind::Accessor { getter, setter } };
    match heap.find_own(this, &name) {
        Some(i) => {
            proof {
                lemma_wf_with_slot_at(heap0, this, i as int, gslot);
            }
            heap.replace_slot(
                m,
                this,
                i,
                Slot { attributes: attrs, kind: SlotKind::Accessor { getter, setter } },
            );
        },
        None => {
            proof {
                lemma_wf_with_pushed_slot(heap0, this, name@, gslot);
            }
            heap.push_slot(
                m,
                this,
                name,
                Slot { attributes: attrs, kind: SlotKind::Accessor { getter, setter } },
            );
        },
    }
}

/// The privileged install path for a built-in method: allocates a function
/// object with the given native body (constructing plain objects) and
/// force-sets it as a data property of `this` under `name`.
pub fn force_set_function(
    heap: &mut Heap,
    m: &Mutation,
    this: Handle,
    name: String,
    body: NativeFunction,
    attrs: AttributeSet,
    fn_proto: Option<Handle>,
) -> (f: Handle)
    requires
        old(heap).writable(m),
        heap_wf(old(heap)@),
        live(old(heap)@, this),
    ensures
        final(heap).writable(m),
        final(heap).epoch == old(heap).epoch,
        heap_wf(final(heap)@),
        live(final(heap)@, f),
        f.index == old(heap)@.len(),
        fn_body_of(final(heap)@, f) == Some(body@),
        ({
            let mid = old(heap)@.push(
                Option::Some(
                    GObject {
                        properties: Seq::<GProp>::empty(),
                        prototype: fn_proto,
                        kind: GKind::Function { body: body@, makes: ConstructKind::Plain },
                    },
                ),
            );
            let props = gobj(mid, this).properties;
            let slot = GSlot {
                attributes: attrs,
                kind: GSlotKind::Data(GValue::ObjectRef(f)),
            };
            final(heap)@ == if has_prop(props, name@) {
                with_slot_at(mid, this, prop_index(props, name@), slot)
            } else {
                with_pushed_slot(mid, this, name@, slot)
            }
        }),
{
    let ghost heap0 = heap@;
    let f = heap.new_function(m, fn_proto, body, ConstructKind::Plain);
    proof {
        assert(heap_wf(heap@)) by {
            assert(forall|j: int| 0 <= j < heap0.len() ==> heap@[j] == heap0[j]);
            assert(gobj(heap@, f).properties =~= Seq::<GProp>::empty());
        }
    }
    force_set_value(heap, m, this, name, Value::ObjectRef(f), attrs);
    f
}

/// Runs one native function body with the given receiver and arguments.
/// The statable bodies (fixed results, thrown errors, the blur-filter
/// accessors and constructor) have their behaviour pinned; the reentrant
/// fixtures are bounded by the frame conditions.
pub fn call_native(
    activation: &mut Activation,
    body: &NativeFunction,
    this: Handle,
    args: &Vec<Value>,
    fuel: u32,
) -> (r: Result<Value, Error>)
    requires
        old(activation).wf(),
        live(old(activation).heap(), this),
    ensures
        final(activation).wf(),
        ctx_frame(*old(activation), *final(activation)),
        ({
            let heap0 = old(activation).heap();
            let heap1 = final(activation).heap();
            match body@ {
                GNative::ReturnValue(v) => heap1 == heap0 && (r matches Ok(rv) && rv@ == v),
                GNative::ThrowValue(v) => heap1 == heap0 && (r matches Err(e)
                    && e matches Error::Thrown(t) && t@ == v),
                GNative::GetBlurX => blur_getter_post(heap0, this, 0, heap1, r),
                GNative::GetBlurY => blur_getter_post(heap0, this, 1, heap1, r),
                GNative::GetQuality => blur_getter_post(heap0, this, 2, heap1, r),
                GNative::SetBlurX => blur_setter_full_post(
                    heap0,
                    this,
                    0,
                    arg_or(args.deep_view(), 0, GValue::Undefined),
                    fuel,
                    heap1,
                    r,
                ),
                GNative::SetBlurY => blur_setter_full_post(
                    heap0,
                    this,
                    1,
                    arg_or(args.deep_view(), 0, GValue::Undefined),
                    fuel,
                    heap1,
                    r,
                ),
                GNative::SetQuality => blur_setter_full_post(
                    heap0,
                    this,
                    2,
                    arg_or(args.deep_view(), 0, GValue::Undefined),
                    fuel,
                    heap1,
                    r,
                ),
                GNative::BlurConstructor => blur_constructor_post(
                    heap0,
                    this,
                    args.deep_view(),
                    fuel,
                    heap1,
                    r,
                ),
                GNative::DeleteAndReturn(target, nm, res) => delete_and_return_post(
                    heap0,
                    target,
                    nm,
                    res,
                    heap1,
                    r,
                ),
                _ => true,
            }
        }),
    decreases fuel, 5int,
{
    match body {
        NativeFunction::ReturnValue(v) => Ok(v.duplicate()),
        NativeFunction::ThrowValue(v) => Err(Error::Thrown(v.duplicate())),
        NativeFunction::GetBlurX => crate::blur_filter::get_blur_x(activation, this, args),
        NativeFunction::GetBlurY => crate::blur_filter::get_blur_y(activation, this, args),
        NativeFunction::GetQuality => crate::blur_filter::get_quality(activation, this, args),
        NativeFunction::SetBlurX => crate::blur_filter::set_blur_x(activation, this, args, fuel),
        NativeFunction::SetBlurY => crate::blur_filter::set_blur_y(activation, this, args, fuel),
        NativeFunction::SetQuality => crate::blur_filter::set_quality(
            activation,
            this,
            args,
            fuel,
        ),
        NativeFunction::BlurConstructor => crate::blur_filter::constructor(
            activation,
            this,
            args,
            fuel,
        ),
        NativeFunction::BlurClone => crate::blur_filter::clone(activation, this, args, fuel),
        NativeFunction::GetDoubled(prop) => {
            let pname = prop.clone();
            let got = get(activation, this, &pname, fuel);
            match got {
                Err(e) => Err(e),
                Ok(v) => {
                    let n = to_i32(activation, &v, fuel);
                    match n {
                        Err(e) => Err(e),
                        Ok(x) => Ok(
                            Value::Number(NumberValue::Finite((x as i64) * 2)),
                        ),
                    }
                },
            }
        },
        NativeFunction::DeleteAndReturn(target, prop, result) => {
            if activation.context.heap.is_live(*target) {
                let pname = prop.clone();
                let _ = delete(activation, *target, &pname);
            }
            Ok(result.duplicate())
        },
    }
}

/// The full contract of one blur field setter over its (possibly object)
/// argument: a clean coercion stores the coerced, clamped number; a
/// throwing `valueOf` hook propagates its error unchanged with the heap and
/// fields untouched; only an open hook body is bounded by the frame
/// conditions alone.
pub open spec fn blur_setter_full_post(
    heap0: Seq<Option<GObject>>,
    receiver: Handle,
    which: int,
    varg: GValue,
    fuel: u32,
    heap1: Seq<Option<GObject>>,
    r: Result<Value, Error>,
) -> bool {
    &&& (coercion_clean(heap0, varg, fuel) ==> blur_setter_num_post(
        heap0,
        receiver,
        which,
        coerced_num(heap0, varg, fuel),
        heap1,
        r,
    ))
    &&& (coercion_throws(heap0, varg, fuel) matches Some(t) ==> heap1 == heap0 && (r matches Err(
        e,
    ) && e matches Error::Thrown(tv) && tv@ == t))
}

/// What the blur-filter constructor does.  Coercion runs left to right
/// (radii defaulting to 4, quality to 1): the first argument whose
/// `valueOf` hook throws propagates its error unchanged with the heap and
/// all three fields untouched; when every coercion is clean, each field is
/// its argument's number coerced to 32 bits and clamped to the documented
/// range; a non-blur receiver is the fatal receiver error.
pub open spec fn blur_constructor_post(
    heap0: Seq<Option<GObject>>,
    receiver: Handle,
    args: Seq<GValue>,
    fuel: u32,
    heap1: Seq<Option<GObject>>,
    r: Result<Value, Error>,
) -> bool {
    let a0 = arg_or(args, 0, GValue::Number(NumberValue::Finite(4)));
    let a1 = arg_or(args, 1, GValue::Number(NumberValue::Finite(4)));
    let a2 = arg_or(args, 2, GValue::Number(NumberValue::Finite(1)));
    &&& (coercion_throws(heap0, a0, fuel) matches Some(t) ==> heap1 == heap0 && (r matches Err(e)
        && e matches Error::Thrown(tv) && tv@ == t))
    &&& (coercion_throws(heap0, a1, fuel) matches Some(t) ==> (coercion_clean(heap0, a0, fuel)
        ==> heap1 == heap0 && (r matches Err(e) && e matches Error::Thrown(tv) && tv@ == t)))
    &&& (coercion_throws(heap0, a2, fuel) matches Some(t) ==> ((coercion_clean(heap0, a0, fuel)
        && coercion_clean(heap0, a1, fuel)) ==> heap1 == heap0 && (r matches Err(e)
        && e matches Error::Thrown(tv) && tv@ == t)))
    &&& ((coercion_clean(heap0, a0, fuel) && coercion_clean(heap0, a1, fuel) && coercion_clean(
        heap0,
        a2,
        fuel,
    )) ==> {
        let cx = spec_clamp(spec_num_to_i32(coerced_num(heap0, a0, fuel)), 0, 255);
        let cy = spec_clamp(spec_num_to_i32(coerced_num(heap0, a1, fuel)), 0, 255);
        let cq = spec_clamp(spec_num_to_i32(coerced_num(heap0, a2, fuel)), 0, 15);
        match gobj(heap0, receiver).kind {
            GKind::BlurFilter { .. } => heap1 == with_kind(
                heap0,
                receiver,
                GKind::BlurFilter { blur_x: cx as i32, blur_y: cy as i32, quality: cq as i32 },
            ) && r == Ok::<Value, Error>(Value::Undefined),
            _ => heap1 == heap0 && r == Err::<Value, Error>(Error::ReceiverMismatch),
        }
    })
}

/// The prototype a constructor hands to its instances: its own `prototype`
/// data property, when that holds an object reference.
pub open spec fn ctor_instance_proto(heap: Seq<Option<GObject>>, ctor: Handle) -> Option<Handle> {
    let props = gobj(heap, ctor).properties;
    if has_prop(props, "prototype"@) {
        match prop_slot(props, "prototype"@).kind {
            GSlotKind::Data(GValue::ObjectRef(p)) => Option::Some(p),
            _ => Option::None,
        }
    } else {
        Option::None
    }
}

/// Invokes `ctor` as a constructor: allocates a fresh object of the kind
/// the function constructs, its prototype taken from the constructor's own
/// `prototype` property, runs the constructor body on it, and returns the
/// new object.  A non-callable target is the fatal receiver error; an
/// exhausted reentrancy budget is recovered as `Undefined`.
pub fn construct(activation: &mut Activation, ctor: Handle, args: &Vec<Value>, fuel: u32) -> (r:
    Result<Value, Error>)
    requires
        old(activation).wf(),
        live(old(activation).heap(), ctor),
    ensures
        final(activation).wf(),
        ctx_frame(*old(activation), *final(activation)),
        ({
            let heap0 = old(activation).heap();
            let heap1 = final(activation).heap();
            match fn_body_of(heap0, ctor) {
                Option::None => heap1 == heap0 && r == Err::<Value, Error>(
                    Error::ReceiverMismatch,
                ),
                Option::Some(body) => {
                    if fuel == 0 {
                        heap1 == heap0 && r == Ok::<Value, Error>(Value::Undefined)
                    } else {
                        (body == GNative::BlurConstructor && (gobj(heap0, ctor).kind
                            matches GKind::Function { makes: ConstructKind::BlurFilter, .. }))
                            ==> blur_construct_post(
                            heap0,
                            ctor,
                            args.deep_view(),
                            (fuel - 1) as u32,
                            heap1,
                            r,
                        )
                    }
                },
            }
        }),
    decreases fuel, 3int,
{
    let live_ctor = activation.context.heap.is_live(ctor);
    if !live_ctor {
        return Err(Error::ReceiverMismatch);
    }
    match activation.context.heap.function_body(ctor) {
        None => Err(Error::ReceiverMismatch),
        Some((body, makes)) => {
            if fuel == 0 {
                activation.context.note_depth_hit();
                return Ok(Value::Undefined);
            }
            let proto_name = String::from_str("prototype");
            let instance_proto = match activation.context.heap.find_own(ctor, &proto_name) {
                Some(i) => {
                    let slot = activation.context.heap.slot_at(ctor, i);
                    match slot.kind {
                        SlotKind::Data(Value::ObjectRef(p)) => Some(p),
                        _ => None,
                    }
                },
                None => None,
            };
            let ctx = &mut activation.context;
            let h = ctx.heap.new_native_extension(&ctx.gc_context, instance_proto, makes);
            let ghost heap0 = old(activation).heap();
            let ghost heap_mid = activation.heap();
            proof {
                assert(instance_proto == ctor_instance_proto(heap0, ctor));
                assert(heap_wf(heap_mid)) by {
                    assert(forall|j: int|
                        0 <= j < heap0.len() ==> heap_mid[j] == heap0[j]);
                    assert(gobj(heap_mid, h).properties =~= Seq::<GProp>::empty());
                }
            }
            proof {
                if body@ == GNative::BlurConstructor && (gobj(heap0, ctor).kind
                    matches GKind::Function { makes: ConstructKind::BlurFilter, .. }) {
                    assert(makes == ConstructKind::BlurFilter);
                    assert(heap_mid =~~= blur_alloc_heap(heap0, ctor));
                }
            }
            let res = call_native(activation, &body, h, args, fuel - 1);
            match res {
                Err(e) => Err(e),
                Ok(_) => Ok(Value::ObjectRef(h)),
            }
        },
    }
}

/// What constructing through the blur-filter constructor yields when every
/// supplied argument is primitive: one fresh blur-filter object, its
/// prototype the constructor's `prototype` property, its fields the coerced
/// and clamped arguments, returned by reference.
/// The heap right after `construct` allocates a blur-filter instance for
/// `ctor`, before the constructor body runs.
pub open spec fn blur_alloc_heap(heap0: Seq<Option<GObject>>, ctor: Handle) -> Seq<
    Option<GObject>,
> {
    heap0.push(
        Option::Some(
            GObject {
                properties: Seq::<GProp>::empty(),
                prototype: ctor_instance_proto(heap0, ctor),
                kind: GKind::BlurFilter { blur_x: 0, blur_y: 0, quality: 0 },
            },
        ),
    )
}

/// What constructing through the blur-filter constructor yields: one fresh
/// blur-filter object (its prototype the constructor's own `prototype`
/// property) is allocated first, then `blur_constructor_post` runs against
/// it — so a throwing argument hook propagates its error and leaves the
/// fresh object zeroed, and clean coercions return the new object with the
/// coerced, clamped fields, by reference.  `cfuel` is the budget the
/// constructor body runs at.
pub open spec fn blur_construct_post(
    heap0: Seq<Option<GObject>>,
    ctor: Handle,
    args: Seq<GValue>,
    cfuel: u32,
    heap1: Seq<Option<GObject>>,
    r: Result<Value, Error>,
) -> bool {
    let mid = blur_alloc_heap(heap0, ctor);
    let fresh = Handle { index: heap0.len() as usize };
    let a0 = arg_or(args, 0, GValue::Number(NumberValue::Finite(4)));
    let a1 = arg_or(args, 1, GValue::Number(NumberValue::Finite(4)));
    let a2 = arg_or(args, 2, GValue::Number(NumberValue::Finite(1)));
    &&& (coercion_throws(mid, a0, cfuel) matches Some(t) ==> heap1 == mid && (r matches Err(e)
        && e matches Error::Thrown(tv) && tv@ == t))
    &&& (coercion_throws(mid, a1, cfuel) matches Some(t) ==> (coercion_clean(mid, a0, cfuel)
        ==> heap1 == mid && (r matches Err(e) && e matches Error::Thrown(tv) && tv@ == t)))
    &&& (coercion_throws(mid, a2, cfuel) matches Some(t) ==> ((coercion_clean(mid, a0, cfuel)
        && coercion_clean(mid, a1, cfuel)) ==> heap1 == mid && (r matches Err(e)
        && e matches Error::Thrown(tv) && tv@ == t)))
    &&& ((coercion_clean(mid, a0, cfuel) && coercion_clean(mid, a1, cfuel) && coercion_clean(
        mid,
        a2,
        cfuel,
    )) ==> {
        let cx = spec_clamp(spec_num_to_i32(coerced_num(mid, a0, cfuel)), 0, 255);
        let cy = spec_clamp(spec_num_to_i32(coerced_num(mid, a1, cfuel)), 0, 255);
        let cq = spec_clamp(spec_num_to_i32(coerced_num(mid, a2, cfuel)), 0, 15);
        heap1 == with_kind(
            mid,
            fresh,
            GKind::BlurFilter { blur_x: cx as i32, blur_y: cy as i32, quality: cq as i32 },
        ) && r == Ok::<Value, Error>(Value::ObjectRef(fresh))
    })
}

/// Coerces a value to a number.  Primitives follow the pure legacy rules
/// and never touch the heap; an object first resolves its `valueOf` hook
/// through full dispatch, runs it, and coerces a primitive result (an
/// object result, a missing or non-callable hook, and an exhausted budget
/// all read as NaN).  Only a script error thrown by the hook surfaces.
pub fn to_number(activation: &mut Activation, v: &Value, fuel: u32) -> (r: Result<
    NumberValue,
    Error,
>)
    requires
        old(activation).wf(),
    ensures
        final(activation).wf(),
        ctx_frame(*old(activation), *final(activation)),
        is_primitive(v@) ==> untouched(*old(activation), *final(activation)) && r == Ok::<
            NumberValue,
            Error,
        >(spec_to_number_prim(v@)),
        coercion_clean(old(activation).heap(), v@, fuel)
            ==> final(activation).heap() == old(activation).heap() && r == Ok::<
            NumberValue,
            Error,
        >(coerced_num(old(activation).heap(), v@, fuel)),
        coercion_throws(old(activation).heap(), v@, fuel) matches Some(t)
            ==> final(activation).heap() == old(activation).heap() && (r matches Err(e)
            && e matches Error::Thrown(tv) && tv@ == t),
    decreases fuel, 1int,
{
    match v {
        Value::Undefined => Ok(NumberValue::NaN),
        Value::Null => Ok(NumberValue::Finite(0)),
        Value::Bool(b) => Ok(NumberValue::Finite(if *b { 1 } else { 0 })),
        Value::Number(n) => Ok(*n),
        Value::Str(s) => Ok(parse_number(s)),
        Value::ObjectRef(h) => {
            if !activation.context.heap.is_live(*h) {
                return Ok(NumberValue::NaN);
            }
            let hook_name = String::from_str("valueOf");
            let got = get(activation, *h, &hook_name, fuel);
            match got {
                Err(e) => Err(e),
                Ok(Value::ObjectRef(g)) => {
                    if !activation.context.heap.is_live(g) {
                        return Ok(NumberValue::NaN);
                    }
                    match activation.context.heap.function_body(g) {
                        None => Ok(NumberValue::NaN),
                        Some((body, _makes)) => {
                            if fuel == 0 {
                                activation.context.note_depth_hit();
                                return Ok(NumberValue::NaN);
                            }
                            if !activation.context.heap.is_live(*h) {
                                return Ok(NumberValue::NaN);
                            }
                            let no_args: Vec<Value> = Vec::new();
                            let res = call_native(activation, &body, *h, &no_args, fuel - 1);
                            match res {
                                Err(e) => Err(e),
                                Ok(prim) => match prim {
                                    Value::ObjectRef(_) => Ok(NumberValue::NaN),
                                    Value::Undefined => Ok(NumberValue::NaN),
                                    Value::Null => Ok(NumberValue::Finite(0)),
                                    Value::Bool(b) => Ok(
                                        NumberValue::Finite(if b { 1 } else { 0 }),
                                    ),
                                    Value::Number(n) => Ok(n),
                                    Value::Str(s) => Ok(parse_number(&s)),
                                },
                            }
                        },
                    }
                },
                Ok(_) => Ok(NumberValue::NaN),
            }
        },
    }
}

/// Coerces a value to a 32-bit integer: `to_number`, then two's-complement
/// wraparound; NaN maps to 0.
pub fn to_i32(activation: &mut Activation, v: &Value, fuel: u32) -> (r: Result<i32, Error>)
    requires
        old(activation).wf(),
    ensures
        final(activation).wf(),
        ctx_frame(*old(activation), *final(activation)),
        is_primitive(v@) ==> untouched(*old(activation), *final(activation)) && (r matches Ok(x)
            && x as int == spec_coerce_i32_prim(v@)),
        coercion_clean(old(activation).heap(), v@, fuel)
            ==> final(activation).heap() == old(activation).heap() && (r matches Ok(x) && x as int
            == spec_num_to_i32(coerced_num(old(activation).heap(), v@, fuel))),
        coercion_throws(old(activation).heap(), v@, fuel) matches Some(t)
            ==> final(activation).heap() == old(activation).heap() && (r matches Err(e)
            && e matches Error::Thrown(tv) && tv@ == t),
    decreases fuel, 2int,
{
    let n = to_number(activation, v, fuel);
    match n {
        Err(e) => Err(e),
        Ok(NumberValue::NaN) => Ok(0),
        Ok(NumberValue::Finite(i)) => Ok(wrap_to_i32(i)),
    }
}

/// Coerces a value to text.  Primitives follow the pure legacy rules
/// (canonical decimal formatting, the literal `true`/`false`/`null`/
/// `undefined` forms); an object resolves its `toString` hook through full
/// dispatch, and reads as `[type Object]` when the hook is missing,
/// non-callable, exhausted, or returns no primitive.
pub fn to_string(activation: &mut Activation, v: &Value, fuel: u32) -> (r: Result<String, Error>)
    requires
        old(activation).wf(),
    ensures
        final(activation).wf(),
        ctx_frame(*old(activation), *final(activation)),
        is_primitive(v@) ==> untouched(*old(activation), *final(activation)) && (r matches Ok(s)
            && s@ == spec_to_string_prim(v@)),
        text_coercion_clean(old(activation).heap(), v@, fuel)
            ==> final(activation).heap() == old(activation).heap() && (r matches Ok(s) && s@
            == coerced_text(old(activation).heap(), v@, fuel)),
        text_coercion_throws(old(activation).heap(), v@, fuel) matches Some(t)
            ==> final(activation).heap() == old(activation).heap() && (r matches Err(e)
            && e matches Error::Thrown(tv) && tv@ == t),
    decreases fuel, 1int,
{
    match v {
        Value::Undefined => Ok(String::from_str("undefined")),
        Value::Null => Ok(String::from_str("null")),
        Value::Bool(b) => Ok(
            if *b {
                String::from_str("true")
            } else {
                String::from_str("false")
            },
        ),
        Value::Number(n) => Ok(number_to_text(n)),
        Value::Str(s) => Ok(s.clone()),
        Value::ObjectRef(h) => {
            if !activation.context.heap.is_live(*h) {
                return Ok(String::from_str("[type Object]"));
            }
            let hook_name = String::from_str("toString");
            let got = get(activation, *h, &hook_name, fuel);
            match got {
                Err(e) => Err(e),
                Ok(Value::ObjectRef(g)) => {
                    if !activation.context.heap.is_live(g) {
                        return Ok(String::from_str("[type Object]"));
                    }
                    match activation.context.heap.function_body(g) {
                        None => Ok(String::from_str("[type Object]")),
                        Some((body, _makes)) => {
                            if fuel == 0 {
                                activation.context.note_depth_hit();
                                return Ok(String::from_str("[type Object]"));
                            }
                            if !activation.context.heap.is_live(*h) {
                                return Ok(String::from_str("[type Object]"));
                            }
                            let no_args: Vec<Value> = Vec::new();
                            let res = call_native(activation, &body, *h, &no_args, fuel - 1);
                            match res {
                                Err(e) => Err(e),
                                Ok(prim) => match prim {
                                    Value::ObjectRef(_) => Ok(String::from_str("[type Object]")),
                                    Value::Undefined => Ok(String::from_str("undefined")),
                                    Value::Null => Ok(String::from_str("null")),
                                    Value::Bool(b) => Ok(
                                        if b {
                                            String::from_str("true")
                                        } else {
                                            String::from_str("false")
                                        },
                                    ),
                                    Value::Number(n) => Ok(number_to_text(&n)),
                                    Value::Str(s) => Ok(s),
                                },
                            }
                        },
                    }
                },
                Ok(_) => Ok(String::from_str("[type Object]")),
            }
        },
    }
}

} // verus!
