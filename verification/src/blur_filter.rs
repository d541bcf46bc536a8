//! The blur-filter built-in: the canonical consumer of the object model,
//! dispatch protocol and coercion engine.  Its three numeric fields live as
//! fixed native-extension fields (not generic slots), read and written by
//! dedicated accessor natives that coerce through `to_i32` and clamp to the
//! documented ranges (radii to [0, 255], quality to [0, 15]); `clone`
//! re-reads the accessor properties through `get` and feeds them to the
//! canonical constructor, reconstructing rather than copying.

use vstd::prelude::*;

use crate::dispatch::{
    Activation, GetOutcome, blur_constructor_post, blur_construct_post, blur_getter_post,
    blur_setter_full_post, construct, ctx_frame, fn_body_of, force_set_accessor,
    force_set_function, get_outcome, to_i32, arg_or,
};
use crate::heap::{Heap, Mutation, gobj, heap_wf, lemma_wf_with_kind, live, with_kind};
use crate::object::{
    AttributeSet, ConstructKind, GKind, GNative, GObject, GProp, GSlot, GSlotKind,
    NativeFunction, ObjectKind, has_prop, prop_index, prop_slot,
};
use crate::value::{Error, GValue, Handle, NumberValue, Value};

verus! {

/// Runs the blur-filter constructor on `this`: the first three arguments
/// (radii defaulting to 4, quality to 1) are coerced to 32 bits, clamped to
/// their documented ranges, and stored in the receiver's fixed fields.
pub fn constructor(
    activation: &mut Activation,
    this: Handle,
    args: &Vec<Value>,
    fuel: u32,
) -> (r: Result<Value, Error>)
    requires
        old(activation).wf(),
        live(old(activation).heap(), this),
    ensures
        final(activation).wf(),
        ctx_frame(*old(activation), *final(activation)),
        blur_constructor_post(
            old(activation).heap(),
            this,
            args.deep_view(),
            fuel,
            final(activation).heap(),
            r,
        ),
    decreases fuel, 3int,
{
    let default_radius = Value::Number(NumberValue::Finite(4));
    let default_quality = Value::Number(NumberValue::Finite(1));
    let a0 = if args.len() >= 1 {
        &args[0]
    } else {
        &default_radius
    };
    let x0 = match to_i32(activation, a0, fuel) {
        Err(e) => return Err(e),
        Ok(x) => x,
    };
    let blur_x = crate::coerce::clamp_i32(x0, 0, 255);

    let a1 = if args.len() >= 2 {
        &args[1]
    } else {
        &default_radius
    };
    let y0 = match to_i32(activation, a1, fuel) {
        Err(e) => return Err(e),
        Ok(y) => y,
    };
    let blur_y = crate::coerce::clamp_i32(y0, 0, 255);

    let a2 = if args.len() >= 3 {
        &args[2]
    } else {
        &default_quality
    };
    let q0 = match to_i32(activation, a2, fuel) {
        Err(e) => return Err(e),
        Ok(q) => q,
    };
    let quality = crate::coerce::clamp_i32(q0, 0, 15);

    match activation.context.heap.blur_fields(this) {
        None => Err(Error::ReceiverMismatch),
        Some(_) => {
            proof {
                lemma_wf_with_kind(
                    activation.heap(),
                    this,
                    GKind::BlurFilter { blur_x: blur_x, blur_y: blur_y, quality: quality },
                );
            }
            let ctx = &mut activation.context;
            ctx.heap.set_kind(
                &ctx.gc_context,
                this,
                ObjectKind::BlurFilter { blur_x, blur_y, quality },
            );
            Ok(Value::Undefined)
        },
    }
}

/// Clones a blur filter by reconstruction: reads `blurX`, `blurY` and
/// `quality` of the receiver through full dispatch (in that order) and
/// hands the three values as constructor arguments to the canonical
/// blur-filter constructor, so the clone carries exactly the
/// constructor-visible state.  The contract follows the reads wherever
/// their outcome is statable — an own data slot shadowing an accessor, a
/// missing name or an exceeded chain bound (both read as `Undefined`), or
/// the canonical getters — and propagates the first read that throws,
/// unchanged, with no object created.
pub fn clone(activation: &mut Activation, this: Handle, _args: &Vec<Value>, fuel: u32) -> (r:
    Result<Value, Error>)
    requires
        old(activation).wf(),
        live(old(activation).heap(), this),
    ensures
        final(activation).wf(),
        ctx_frame(*old(activation), *final(activation)),
        ({
            let heap0 = old(activation).heap();
            let ctor = old(activation).context.prototypes.blur_filter_constructor;
            let o1 = get_outcome(heap0, this, "blurX"@, fuel);
            let o2 = get_outcome(heap0, this, "blurY"@, fuel);
            let o3 = get_outcome(heap0, this, "quality"@, fuel);
            &&& (o1 matches GetOutcome::ThrowsErr(t) ==> final(activation).heap() == heap0 && (
            r matches Err(e) && e matches Error::Thrown(tv) && tv@ == t))
            &&& (o2 matches GetOutcome::ThrowsErr(t) ==> (o1 matches GetOutcome::Yields(_)
                ==> final(activation).heap() == heap0 && (r matches Err(e)
                && e matches Error::Thrown(tv) && tv@ == t)))
            &&& (o3 matches GetOutcome::ThrowsErr(t) ==> ((o1 matches GetOutcome::Yields(_) && o2
                matches GetOutcome::Yields(_)) ==> final(activation).heap() == heap0 && (
            r matches Err(e) && e matches Error::Thrown(tv) && tv@ == t)))
            &&& (o1 matches GetOutcome::Yields(v1) ==> o2 matches GetOutcome::Yields(v2) ==> o3
                matches GetOutcome::Yields(v3) ==> ((fuel > 0 && fn_body_of(heap0, ctor) == Some(
                GNative::BlurConstructor,
            ) && (gobj(heap0, ctor).kind matches GKind::Function {
                makes: ConstructKind::BlurFilter,
                ..
            })) ==> blur_construct_post(
                heap0,
                ctor,
                seq![v1, v2, v3],
                (fuel - 1) as u32,
                final(activation).heap(),
                r,
            )))
        }),
    decreases fuel, 4int,
{
    let ghost heap0 = old(activation).heap();
    let ctor = activation.context.prototypes.blur_filter_constructor;

    let name_x = String::from_str("blurX");
    let blur_x = match crate::dispatch::get(activation, this, &name_x, fuel) {
        Err(e) => return Err(e),
        Ok(v) => v,
    };
    let name_y = String::from_str("blurY");
    let blur_y = match crate::dispatch::get(activation, this, &name_y, fuel) {
        Err(e) => return Err(e),
        Ok(v) => v,
    };
    let name_q = String::from_str("quality");
    let quality = match crate::dispatch::get(activation, this, &name_q, fuel) {
        Err(e) => return Err(e),
        Ok(v) => v,
    };

    let ctor_args = vec![blur_x, blur_y, quality];
    proof {
        assert(ctor_args.deep_view() =~= seq![blur_x@, blur_y@, quality@]);
    }
    construct(activation, ctor, &ctor_args, fuel)
}


/// Reads the horizontal blur radius field of the receiver.
pub fn get_blur_x(activation: &mut Activation, this: Handle, _args: &Vec<Value>) -> (r: Result<
    Value,
    Error,
>)
    requires
        old(activation).wf(),
        live(old(activation).heap(), this),
    ensures
        final(activation).wf(),
        ctx_frame(*old(activation), *final(activation)),
        blur_getter_post(old(activation).heap(), this, 0, final(activation).heap(), r),
{
    match activation.context.heap.blur_fields(this) {
        None => Err(Error::ReceiverMismatch),
        Some((x, _, _)) => Ok(Value::Number(NumberValue::Finite(x as i64))),
    }
}

/// Writes the horizontal blur radius field: the argument (default
/// `Undefined`) is coerced to 32 bits and clamped to [0, 255].
pub fn set_blur_x(activation: &mut Activation, this: Handle, args: &Vec<Value>, fuel: u32) -> (r:
    Result<Value, Error>)
    requires
        old(activation).wf(),
        live(old(activation).heap(), this),
    ensures
        final(activation).wf(),
        ctx_frame(*old(activation), *final(activation)),
        blur_setter_full_post(
            old(activation).heap(),
            this,
            0,
            arg_or(args.deep_view(), 0, GValue::Undefined),
            fuel,
            final(activation).heap(),
            r,
        ),
    decreases fuel, 3int,
{
    let undef = Value::Undefined;
    let a0 = if args.len() >= 1 {
        &args[0]
    } else {
        &undef
    };
    let x0 = match to_i32(activation, a0, fuel) {
        Err(e) => return Err(e),
        Ok(x) => x,
    };
    let blur_x = crate::coerce::clamp_i32(x0, 0, 255);
    match activation.context.heap.blur_fields(this) {
        None => Err(Error::ReceiverMismatch),
        Some((_, y, q)) => {
            proof {
                lemma_wf_with_kind(
                    activation.heap(),
                    this,
                    GKind::BlurFilter { blur_x: blur_x, blur_y: y, quality: q },
                );
            }
            let ctx = &mut activation.context;
            ctx.heap.set_kind(
                &ctx.gc_context,
                this,
                ObjectKind::BlurFilter { blur_x, blur_y: y, quality: q },
            );
            Ok(Value::Undefined)
        },
    }
}

/// Reads the vertical blur radius field of the receiver.
pub fn get_blur_y(activation: &mut Activation, this: Handle, _args: &Vec<Value>) -> (r: Result<
    Value,
    Error,
>)
    requires
        old(activation).wf(),
        live(old(activation).heap(), this),
    ensures
        final(activation).wf(),
        ctx_frame(*old(activation), *final(activation)),
        blur_getter_post(old(activation).heap(), this, 1, final(activation).heap(), r),
{
    match activation.context.heap.blur_fields(this) {
        None => Err(Error::ReceiverMismatch),
        Some((_, y, _)) => Ok(Value::Number(NumberValue::Finite(y as i64))),
    }
}

/// Writes the vertical blur radius field: the argument (default
/// `Undefined`) is coerced to 32 bits and clamped to [0, 255].
pub fn set_blur_y(activation: &mut Activation, this: Handle, args: &Vec<Value>, fuel: u32) -> (r:
    Result<Value, Error>)
    requires
        old(activation).wf(),
        live(old(activation).heap(), this),
    ensures
        final(activation).wf(),
        ctx_frame(*old(activation), *final(activation)),
        blur_setter_full_post(
            old(activation).heap(),
            this,
            1,
            arg_or(args.deep_view(), 0, GValue::Undefined),
            fuel,
            final(activation).heap(),
            r,
        ),
    decreases fuel, 3int,
{
    let undef = Value::Undefined;
    let a0 = if args.len() >= 1 {
        &args[0]
    } else {
        &undef
    };
    let y0 = match to_i32(activation, a0, fuel) {
        Err(e) => return Err(e),
        Ok(y) => y,
    };
    let blur_y = crate::coerce::clamp_i32(y0, 0, 255);
    match activation.context.heap.blur_fields(this) {
        None => Err(Error::ReceiverMismatch),
        Some((x, _, q)) => {
            proof {
                lemma_wf_with_kind(
                    activation.heap(),
                    this,
                    GKind::BlurFilter { blur_x: x, blur_y: blur_y, quality: q },
                );
            }
            let ctx = &mut activation.context;
            ctx.heap.set_kind(
                &ctx.gc_context,
                this,
                ObjectKind::BlurFilter { blur_x: x, blur_y, quality: q },
            );
            Ok(Value::Undefined)
        },
    }
}

/// Reads the quality field of the receiver.
pub fn get_quality(activation: &mut Activation, this: Handle, _args: &Vec<Value>) -> (r: Result<
    Value,
    Error,
>)
    requires
        old(activation).wf(),
        live(old(activation).heap(), this),
    ensures
        final(activation).wf(),
        ctx_frame(*old(activation), *final(activation)),
        blur_getter_post(old(activation).heap(), this, 2, final(activation).heap(), r),
{
    match activation.context.heap.blur_fields(this) {
        None => Err(Error::ReceiverMismatch),
        Some((_, _, q)) => Ok(Value::Number(NumberValue::Finite(q as i64))),
    }
}

/// Writes the quality field: the argument (default `Undefined`) is coerced
/// to 32 bits and clamped to [0, 15].
pub fn set_quality(activation: &mut Activation, this: Handle, args: &Vec<Value>, fuel: u32) -> (r:
    Result<Value, Error>)
    requires
        old(activation).wf(),
        live(old(activation).heap(), this),
    ensures
        final(activation).wf(),
        ctx_frame(*old(activation), *final(activation)),
        blur_setter_full_post(
            old(activation).heap(),
            this,
            2,
            arg_or(args.deep_view(), 0, GValue::Undefined),
            fuel,
            final(activation).heap(),
            r,
        ),
    decreases fuel, 3int,
{
    let undef = Value::Undefined;
    let a0 = if args.len() >= 1 {
        &args[0]
    } else {
        &undef
    };
    let q0 = match to_i32(activation, a0, fuel) {
        Err(e) => return Err(e),
        Ok(q) => q,
    };
    let quality = crate::coerce::clamp_i32(q0, 0, 15);
    match activation.context.heap.blur_fields(this) {
        None => Err(Error::ReceiverMismatch),
        Some((x, y, _)) => {
            proof {
                lemma_wf_with_kind(
                    activation.heap(),
                    this,
                    GKind::BlurFilter { blur_x: x, blur_y: y, quality: quality },
                );
            }
            let ctx = &mut activation.context;
            ctx.heap.set_kind(
                &ctx.gc_context,
                this,
                ObjectKind::BlurFilter { blur_x: x, blur_y: y, quality },
            );
            Ok(Value::Undefined)
        },
    }
}

/// Builds the canonical blur-filter prototype object: a fresh blur-filter
/// object whose prototype is `proto`, owning exactly four properties — the
/// `clone` method as a data property holding a function object, then the
/// three accessor properties `blurX`, `blurY` and `quality`, each backed by
/// a pair of native function objects with prototype `fn_proto`.  Every
/// installed built-in slot carries all three attribute bits (read-only,
/// hidden from enumeration, undeletable), the usual set for built-ins.
pub fn create_proto(heap: &mut Heap, m: &Mutation, proto: Handle, fn_proto: Handle) -> (r: Handle)
    requires
        old(heap).writable(m),
        heap_wf(old(heap)@),
        live(old(heap)@, proto),
        live(old(heap)@, fn_proto),
    ensures
        final(heap).writable(m),
        final(heap).epoch == old(heap).epoch,
        heap_wf(final(heap)@),
        live(final(heap)@, r),
        r.index == old(heap)@.len(),
        forall|x: Handle| live(old(heap)@, x) ==> live(final(heap)@, x),
        forall|j: int| 0 <= j < old(heap)@.len() ==> final(heap)@[j] == old(heap)@[j],
        gobj(final(heap)@, r).prototype == Some(proto),
        gobj(final(heap)@, r).kind == (GKind::BlurFilter { blur_x: 0i32, blur_y: 0i32, quality: 0i32 }),
        ({
            let props = gobj(final(heap)@, r).properties;
            let builtin = AttributeSet { read_only: true, dont_enum: true, dont_delete: true };
            &&& props.len() == 4
            &&& props[0].name == "clone"@ && props[0].slot.attributes == builtin
            &&& (props[0].slot.kind matches GSlotKind::Data(GValue::ObjectRef(c)) && fn_body_of(
                final(heap)@,
                c,
            ) == Some(GNative::BlurClone))
            &&& props[1].name == "blurX"@ && props[1].slot.attributes == builtin
            &&& props[2].name == "blurY"@ && props[2].slot.attributes == builtin
            &&& props[3].name == "quality"@ && props[3].slot.attributes == builtin
        }),
        blur_proto_wired(final(heap)@, r),
{
    proof {
        reveal_strlit("clone");
        reveal_strlit("blurX");
        reveal_strlit("blurY");
        reveal_strlit("quality");
        assert("clone"@.len() == 5 && "blurX"@.len() == 5 && "blurY"@.len() == 5 && "quality"@.len()
            == 7);
        assert("clone"@[0] == 'c' && "blurX"@[0] == 'b' && "blurY"@[0] == 'b');
        assert("blurX"@[4] == 'X' && "blurY"@[4] == 'Y');
        assert("clone"@ != "blurX"@ && "clone"@ != "blurY"@ && "clone"@ != "quality"@);
        assert("blurX"@ != "blurY"@ && "blurX"@ != "quality"@ && "blurY"@ != "quality"@);
    }
    let attrs = AttributeSet::locked();
    let blur = heap.new_native_extension(m, Some(proto), ConstructKind::BlurFilter);
    proof {
        assert(gobj(heap@, blur).properties =~= Seq::<GProp>::empty());
    }

    let clone_fn = force_set_function(
        heap,
        m,
        blur,
        String::from_str("clone"),
        NativeFunction::BlurClone,
        attrs,
        Some(fn_proto),
    );
    let ghost p_clone = GProp {
        name: "clone"@,
        slot: GSlot { attributes: attrs, kind: GSlotKind::Data(GValue::ObjectRef(clone_fn)) },
    };
    proof {
        assert(gobj(heap@, blur).properties =~= seq![p_clone]);
    }

    let get_x = heap.new_function(m, Some(fn_proto), NativeFunction::GetBlurX, ConstructKind::Plain);
    let set_x = heap.new_function(m, Some(fn_proto), NativeFunction::SetBlurX, ConstructKind::Plain);
    force_set_accessor(
        heap,
        m,
        blur,
        String::from_str("blurX"),
        Some(get_x),
        Some(set_x),
        attrs,
    );
    let ghost p_bx = GProp {
        name: "blurX"@,
        slot: GSlot {
            attributes: attrs,
            kind: GSlotKind::Accessor { getter: Some(get_x), setter: Some(set_x) },
        },
    };
    proof {
        assert(gobj(heap@, blur).properties =~= seq![p_clone, p_bx]);
    }

    let get_y = heap.new_function(m, Some(fn_proto), NativeFunction::GetBlurY, ConstructKind::Plain);
    let set_y = heap.new_function(m, Some(fn_proto), NativeFunction::SetBlurY, ConstructKind::Plain);
    force_set_accessor(
        heap,
        m,
        blur,
        String::from_str("blurY"),
        Some(get_y),
        Some(set_y),
        attrs,
    );
    let ghost p_by = GProp {
        name: "blurY"@,
        slot: GSlot {
            attributes: attrs,
            kind: GSlotKind::Accessor { getter: Some(get_y), setter: Some(set_y) },
        },
    };
    proof {
        assert(gobj(heap@, blur).properties =~= seq![p_clone, p_bx, p_by]);
    }

    let get_q = heap.new_function(
        m,
        Some(fn_proto),
        NativeFunction::GetQuality,
        ConstructKind::Plain,
    );
    let set_q = heap.new_function(
        m,
        Some(fn_proto),
        NativeFunction::SetQuality,
        ConstructKind::Plain,
    );
    force_set_accessor(
        heap,
        m,
        blur,
        String::from_str("quality"),
        Some(get_q),
        Some(set_q),
        attrs,
    );
    let ghost p_q = GProp {
        name: "quality"@,
        slot: GSlot {
            attributes: attrs,
            kind: GSlotKind::Accessor { getter: Some(get_q), setter: Some(set_q) },
        },
    };
    proof {
        let props = gobj(heap@, blur).properties;
        assert(props =~= seq![p_clone, p_bx, p_by, p_q]);
        assert(has_prop(props, "blurX"@) && props[1].name == "blurX"@);
        assert(prop_index(props, "blurX"@) == 1);
        assert(has_prop(props, "blurY"@) && props[2].name == "blurY"@);
        assert(prop_index(props, "blurY"@) == 2);
        assert(has_prop(props, "quality"@) && props[3].name == "quality"@);
        assert(prop_index(props, "quality"@) == 3);
        assert(crate::dispatch::fn_body_of(heap@, clone_fn) == Some(GNative::BlurClone));
        assert(crate::dispatch::fn_body_of(heap@, get_x) == Some(GNative::GetBlurX));
        assert(crate::dispatch::fn_body_of(heap@, set_x) == Some(GNative::SetBlurX));
        assert(crate::dispatch::fn_body_of(heap@, get_y) == Some(GNative::GetBlurY));
        assert(crate::dispatch::fn_body_of(heap@, set_y) == Some(GNative::SetBlurY));
        assert(crate::dispatch::fn_body_of(heap@, get_q) == Some(GNative::GetQuality));
        assert(crate::dispatch::fn_body_of(heap@, set_q) == Some(GNative::SetQuality));
    }
    blur
}

/// The wiring `create_proto` establishes: each of the three names is an
/// accessor property of `p` whose getter and setter are function objects
/// carrying the matching blur-filter native bodies.
pub open spec fn blur_proto_wired(heap: Seq<Option<GObject>>, p: Handle) -> bool {
    &&& accessor_wired(heap, p, "blurX"@, GNative::GetBlurX, GNative::SetBlurX)
    &&& accessor_wired(heap, p, "blurY"@, GNative::GetBlurY, GNative::SetBlurY)
    &&& accessor_wired(heap, p, "quality"@, GNative::GetQuality, GNative::SetQuality)
}

/// `name` is an own accessor property of `p` whose two halves are function
/// objects with the given native bodies.
pub open spec fn accessor_wired(
    heap: Seq<Option<GObject>>,
    p: Handle,
    name: Seq<char>,
    getter_body: GNative,
    setter_body: GNative,
) -> bool {
    &&& live(heap, p)
    &&& has_prop(gobj(heap, p).properties, name)
    &&& match prop_slot(gobj(heap, p).properties, name).kind {
        GSlotKind::Accessor { getter, setter } => {
            &&& getter matches Some(g) && crate::dispatch::fn_body_of(heap, g) == Some(getter_body)
            &&& setter matches Some(s) && crate::dispatch::fn_body_of(heap, s) == Some(setter_body)
        },
        _ => false,
    }
}


} // verus!
