use avm_core::blur_filter;
use avm_core::dispatch::{
    Activation, CALL_DEPTH_LIMIT, Context, SystemPrototypes, construct, delete, enumerate,
    force_set_accessor, force_set_value, get,
};
use avm_core::heap::Heap;
use avm_core::object::{AttributeSet, ConstructKind, NativeFunction};
use avm_core::value::{Error, Handle, NumberValue, Value};

const FUEL: u32 = CALL_DEPTH_LIMIT;

fn num(n: i64) -> Value {
    Value::Number(NumberValue::Finite(n))
}

fn s(text: &str) -> String {
    String::from(text)
}

/// Builds a world with the blur-filter built-in wired up: an object
/// prototype, a function prototype, the canonical blur-filter prototype and
/// its constructor, all registered.
fn new_world() -> Activation {
    let mut heap = Heap::new();
    let m = heap.begin_mutation();
    let object_proto = heap.new_plain_object(&m, None);
    let fn_proto = heap.new_plain_object(&m, Some(object_proto));
    let blur_proto = blur_filter::create_proto(&mut heap, &m, object_proto, fn_proto);
    let ctor = heap.new_function(
        &m,
        Some(fn_proto),
        NativeFunction::BlurConstructor,
        ConstructKind::BlurFilter,
    );
    force_set_value(
        &mut heap,
        &m,
        ctor,
        s("prototype"),
        Value::ObjectRef(blur_proto),
        AttributeSet::locked(),
    );
    let prototypes = SystemPrototypes {
        function: fn_proto,
        blur_filter: blur_proto,
        blur_filter_constructor: ctor,
    };
    Activation {
        context: Context { heap, gc_context: m, prototypes, chain_hits: 0, depth_hits: 0 },
    }
}

fn new_blur(act: &mut Activation, args: Vec<Value>) -> Handle {
    let ctor = act.context.prototypes.blur_filter_constructor;
    match construct(act, ctor, &args, FUEL) {
        Ok(Value::ObjectRef(h)) => h,
        other => panic!("construction failed: {:?}", other),
    }
}

fn plain(act: &mut Activation, proto: Option<Handle>) -> Handle {
    let ctx = &mut act.context;
    ctx.heap.new_plain_object(&ctx.gc_context, proto)
}

#[test]
fn set_creates_and_get_reads_own_data() {
    let mut act = new_world();
    let obj = plain(&mut act, None);
    avm_core::dispatch::set(&mut act, obj, &s("k"), num(7), AttributeSet::empty(), FUEL).unwrap();
    assert_eq!(get(&mut act, obj, &s("k"), FUEL).unwrap(), num(7));
    assert_eq!(get(&mut act, obj, &s("missing"), FUEL).unwrap(), Value::Undefined);
}

#[test]
fn set_overwrites_own_data() {
    let mut act = new_world();
    let obj = plain(&mut act, None);
    avm_core::dispatch::set(&mut act, obj, &s("k"), num(1), AttributeSet::empty(), FUEL).unwrap();
    avm_core::dispatch::set(&mut act, obj, &s("k"), num(2), AttributeSet::empty(), FUEL).unwrap();
    assert_eq!(get(&mut act, obj, &s("k"), FUEL).unwrap(), num(2));
}

#[test]
fn read_only_write_is_silently_dropped() {
    let mut act = new_world();
    let obj = plain(&mut act, None);
    let locked = AttributeSet { read_only: true, dont_enum: false, dont_delete: false };
    {
        let ctx = &mut act.context;
        force_set_value(&mut ctx.heap, &ctx.gc_context, obj, s("k"), num(1), locked);
    }
    assert!(avm_core::dispatch::set(&mut act, obj, &s("k"), num(2), AttributeSet::empty(), FUEL).is_ok());
    assert_eq!(get(&mut act, obj, &s("k"), FUEL).unwrap(), num(1));
}

#[test]
fn dont_delete_keeps_the_slot() {
    let mut act = new_world();
    let obj = plain(&mut act, None);
    let keep = AttributeSet { read_only: false, dont_enum: false, dont_delete: true };
    {
        let ctx = &mut act.context;
        force_set_value(&mut ctx.heap, &ctx.gc_context, obj, s("k"), num(1), keep);
    }
    assert!(!delete(&mut act, obj, &s("k")));
    assert_eq!(get(&mut act, obj, &s("k"), FUEL).unwrap(), num(1));
}

#[test]
fn delete_removes_a_deletable_slot() {
    let mut act = new_world();
    let obj = plain(&mut act, None);
    avm_core::dispatch::set(&mut act, obj, &s("k"), num(1), AttributeSet::empty(), FUEL).unwrap();
    assert!(delete(&mut act, obj, &s("k")));
    assert_eq!(get(&mut act, obj, &s("k"), FUEL).unwrap(), Value::Undefined);
    assert!(!delete(&mut act, obj, &s("k")));
}

#[test]
fn prototype_shadowing() {
    let mut act = new_world();
    let proto = plain(&mut act, None);
    avm_core::dispatch::set(&mut act, proto, &s("x"), num(1), AttributeSet::empty(), FUEL).unwrap();
    let obj = plain(&mut act, Some(proto));
    assert_eq!(get(&mut act, obj, &s("x"), FUEL).unwrap(), num(1));
    avm_core::dispatch::set(&mut act, obj, &s("x"), num(2), AttributeSet::empty(), FUEL).unwrap();
    assert_eq!(get(&mut act, obj, &s("x"), FUEL).unwrap(), num(2));
    assert_eq!(get(&mut act, proto, &s("x"), FUEL).unwrap(), num(1));
}

#[test]
fn accessor_getter_binds_original_receiver() {
    let mut act = new_world();
    let proto = plain(&mut act, None);
    let getter = {
        let ctx = &mut act.context;
        ctx.heap.new_function(
            &ctx.gc_context,
            None,
            NativeFunction::GetDoubled(s("y")),
            ConstructKind::Plain,
        )
    };
    {
        let ctx = &mut act.context;
        force_set_accessor(
            &mut ctx.heap,
            &ctx.gc_context,
            proto,
            s("x"),
            Some(getter),
            None,
            AttributeSet::empty(),
        );
    }
    let obj = plain(&mut act, Some(proto));
    avm_core::dispatch::set(&mut act, obj, &s("y"), num(5), AttributeSet::empty(), FUEL).unwrap();
    // the getter reads `this.y`, so `this` must be obj, not proto
    assert_eq!(get(&mut act, obj, &s("x"), FUEL).unwrap(), num(10));
}

#[test]
fn accessor_without_getter_reads_undefined() {
    let mut act = new_world();
    let obj = plain(&mut act, None);
    {
        let ctx = &mut act.context;
        force_set_accessor(
            &mut ctx.heap,
            &ctx.gc_context,
            obj,
            s("x"),
            None,
            None,
            AttributeSet::empty(),
        );
    }
    assert_eq!(get(&mut act, obj, &s("x"), FUEL).unwrap(), Value::Undefined);
}

#[test]
fn own_accessor_without_setter_is_overwritten_by_data() {
    let mut act = new_world();
    let obj = plain(&mut act, None);
    {
        let ctx = &mut act.context;
        force_set_accessor(
            &mut ctx.heap,
            &ctx.gc_context,
            obj,
            s("x"),
            None,
            None,
            AttributeSet::empty(),
        );
    }
    avm_core::dispatch::set(&mut act, obj, &s("x"), num(5), AttributeSet::empty(), FUEL).unwrap();
    assert_eq!(get(&mut act, obj, &s("x"), FUEL).unwrap(), num(5));
}

#[test]
fn inherited_read_only_does_not_block_own_write() {
    let mut act = new_world();
    let proto = plain(&mut act, None);
    let locked = AttributeSet { read_only: true, dont_enum: false, dont_delete: false };
    {
        let ctx = &mut act.context;
        force_set_value(&mut ctx.heap, &ctx.gc_context, proto, s("x"), num(1), locked);
    }
    let obj = plain(&mut act, Some(proto));
    avm_core::dispatch::set(&mut act, obj, &s("x"), num(2), AttributeSet::empty(), FUEL).unwrap();
    assert_eq!(get(&mut act, obj, &s("x"), FUEL).unwrap(), num(2));
    assert_eq!(get(&mut act, proto, &s("x"), FUEL).unwrap(), num(1));
}

#[test]
fn reentrant_delete_during_traversal() {
    let mut act = new_world();
    // three-level chain: obj -> p1 -> p2; p1 shadows "x"; a getter on p2
    // deletes p1's "x" mid-protocol
    let p2 = plain(&mut act, None);
    let p1 = plain(&mut act, Some(p2));
    let obj = plain(&mut act, Some(p1));
    avm_core::dispatch::set(&mut act, p1, &s("x"), num(1), AttributeSet::empty(), FUEL).unwrap();
    let getter = {
        let ctx = &mut act.context;
        ctx.heap.new_function(
            &ctx.gc_context,
            None,
            NativeFunction::DeleteAndReturn(p1, s("x"), num(42)),
            ConstructKind::Plain,
        )
    };
    {
        let ctx = &mut act.context;
        force_set_accessor(
            &mut ctx.heap,
            &ctx.gc_context,
            p2,
            s("g"),
            Some(getter),
            None,
            AttributeSet::empty(),
        );
    }
    assert_eq!(get(&mut act, obj, &s("x"), FUEL).unwrap(), num(1));
    // invoking the getter must not crash and must perform the deletion
    assert_eq!(get(&mut act, obj, &s("g"), FUEL).unwrap(), num(42));
    // live state is re-read: the shadowing property is gone for good
    assert_eq!(get(&mut act, obj, &s("x"), FUEL).unwrap(), Value::Undefined);
}

#[test]
fn getter_error_propagates_unchanged() {
    let mut act = new_world();
    let obj = plain(&mut act, None);
    let thrower = {
        let ctx = &mut act.context;
        ctx.heap.new_function(
            &ctx.gc_context,
            None,
            NativeFunction::ThrowValue(Value::Str(s("boom"))),
            ConstructKind::Plain,
        )
    };
    {
        let ctx = &mut act.context;
        force_set_accessor(
            &mut ctx.heap,
            &ctx.gc_context,
            obj,
            s("x"),
            Some(thrower),
            None,
            AttributeSet::empty(),
        );
    }
    assert_eq!(
        get(&mut act, obj, &s("x"), FUEL),
        Err(Error::Thrown(Value::Str(s("boom"))))
    );
}

#[test]
fn prototype_cycle_get_terminates_with_undefined() {
    let mut act = new_world();
    let a = plain(&mut act, None);
    let b = plain(&mut act, Some(a));
    {
        let ctx = &mut act.context;
        ctx.heap.set_prototype(&ctx.gc_context, a, Some(b));
    }
    assert_eq!(act.context.chain_hits, 0);
    assert_eq!(get(&mut act, a, &s("nonexistent"), FUEL).unwrap(), Value::Undefined);
    // the recovered bound violation is observable
    assert_eq!(act.context.chain_hits, 1);
}

#[test]
fn constructor_coerces_and_clamps() {
    let mut act = new_world();
    let h = new_blur(&mut act, vec![num(300), num(-1), num(99)]);
    assert_eq!(act.context.heap.blur_fields(h), Some((255, 0, 15)));
}

#[test]
fn constructor_defaults() {
    let mut act = new_world();
    let h = new_blur(&mut act, vec![]);
    assert_eq!(act.context.heap.blur_fields(h), Some((4, 4, 1)));
}

#[test]
fn blur_fields_read_through_protocol() {
    let mut act = new_world();
    let h = new_blur(&mut act, vec![num(10), num(20), num(3)]);
    assert_eq!(get(&mut act, h, &s("blurX"), FUEL).unwrap(), num(10));
    assert_eq!(get(&mut act, h, &s("blurY"), FUEL).unwrap(), num(20));
    assert_eq!(get(&mut act, h, &s("quality"), FUEL).unwrap(), num(3));
}

#[test]
fn blur_fields_written_through_protocol_clamp() {
    let mut act = new_world();
    let h = new_blur(&mut act, vec![num(10), num(20), num(3)]);
    avm_core::dispatch::set(&mut act, h, &s("blurX"), num(300), AttributeSet::empty(), FUEL).unwrap();
    avm_core::dispatch::set(&mut act, h, &s("blurY"), num(-7), AttributeSet::empty(), FUEL).unwrap();
    avm_core::dispatch::set(&mut act, h, &s("quality"), num(20), AttributeSet::empty(), FUEL).unwrap();
    assert_eq!(act.context.heap.blur_fields(h), Some((255, 0, 15)));
    // no own slots were created: the inherited setters took the writes
    assert_eq!(act.context.heap.prop_count(h), 0);
}

#[test]
fn clamp_round_trip_wraps_to_i32_first() {
    let mut act = new_world();
    let h = new_blur(&mut act, vec![]);
    // 2^32 + 7 wraps to 7, then stays inside [0, 255]
    avm_core::dispatch::set(&mut act, h, &s("blurX"), num(4294967303), AttributeSet::empty(), FUEL).unwrap();
    assert_eq!(get(&mut act, h, &s("blurX"), FUEL).unwrap(), num(7));
    // -1 stays -1 after wraparound and clamps to 0
    avm_core::dispatch::set(&mut act, h, &s("blurY"), num(-1), AttributeSet::empty(), FUEL).unwrap();
    assert_eq!(get(&mut act, h, &s("blurY"), FUEL).unwrap(), num(0));
}

#[test]
fn clone_reconstructs_with_equal_fields_and_new_identity() {
    let mut act = new_world();
    let h = new_blur(&mut act, vec![num(10), num(20), num(3)]);
    let empty_args: Vec<Value> = vec![];
    let cloned = match blur_filter::clone(&mut act, h, &empty_args, FUEL) {
        Ok(Value::ObjectRef(c)) => c,
        other => panic!("clone failed: {:?}", other),
    };
    assert_ne!(cloned, h);
    assert_eq!(act.context.heap.blur_fields(cloned), Some((10, 20, 3)));
}

#[test]
fn clone_via_property_lookup_is_callable() {
    let mut act = new_world();
    let h = new_blur(&mut act, vec![num(1), num(2), num(3)]);
    // the clone method is an inherited data property holding a function
    match get(&mut act, h, &s("clone"), FUEL).unwrap() {
        Value::ObjectRef(f) => assert!(act.context.heap.function_body(f).is_some()),
        other => panic!("clone is not a function object: {:?}", other),
    }
}

#[test]
fn blur_accessors_reject_foreign_receiver() {
    let mut act = new_world();
    let obj = plain(&mut act, None);
    let no_args: Vec<Value> = vec![];
    assert_eq!(
        blur_filter::get_blur_x(&mut act, obj, &no_args),
        Err(Error::ReceiverMismatch)
    );
    assert_eq!(
        blur_filter::set_quality(&mut act, obj, &no_args, FUEL),
        Err(Error::ReceiverMismatch)
    );
}

#[test]
fn enumerate_skips_dont_enum_in_insertion_order() {
    let mut act = new_world();
    let obj = plain(&mut act, None);
    avm_core::dispatch::set(&mut act, obj, &s("a"), num(1), AttributeSet::empty(), FUEL).unwrap();
    let hidden = AttributeSet { read_only: false, dont_enum: true, dont_delete: false };
    {
        let ctx = &mut act.context;
        force_set_value(&mut ctx.heap, &ctx.gc_context, obj, s("b"), num(2), hidden);
    }
    avm_core::dispatch::set(&mut act, obj, &s("c"), num(3), AttributeSet::empty(), FUEL).unwrap();
    let names = enumerate(&act, obj);
    assert_eq!(names, vec![s("a"), s("c")]);
}

#[test]
fn enumerate_excludes_inherited_names() {
    let mut act = new_world();
    let proto = plain(&mut act, None);
    avm_core::dispatch::set(&mut act, proto, &s("inherited"), num(1), AttributeSet::empty(), FUEL).unwrap();
    let obj = plain(&mut act, Some(proto));
    avm_core::dispatch::set(&mut act, obj, &s("own"), num(2), AttributeSet::empty(), FUEL).unwrap();
    assert_eq!(enumerate(&act, obj), vec![s("own")]);
}

#[test]
fn fuel_exhaustion_recovers_and_is_counted() {
    let mut act = new_world();
    let obj = plain(&mut act, None);
    // a getter that re-reads the same accessor property: bounded reentrancy
    let getter = {
        let ctx = &mut act.context;
        ctx.heap.new_function(
            &ctx.gc_context,
            None,
            NativeFunction::GetDoubled(s("x")),
            ConstructKind::Plain,
        )
    };
    {
        let ctx = &mut act.context;
        force_set_accessor(
            &mut ctx.heap,
            &ctx.gc_context,
            obj,
            s("x"),
            Some(getter),
            None,
            AttributeSet::empty(),
        );
    }
    let r = get(&mut act, obj, &s("x"), FUEL);
    assert!(matches!(r, Ok(Value::Number(_))));
    assert!(act.context.depth_hits > 0);
}

#[test]
fn builtin_proto_slots_are_undeletable() {
    let mut act = new_world();
    let proto = act.context.prototypes.blur_filter;
    assert!(!delete(&mut act, proto, &s("clone")));
    assert!(!delete(&mut act, proto, &s("blurX")));
    // the slots are still there: a fresh instance still dispatches through them
    let h = new_blur(&mut act, vec![num(9), num(8), num(7)]);
    assert_eq!(get(&mut act, h, &s("blurX"), FUEL).unwrap(), num(9));
}

#[test]
fn clone_honours_own_data_shadowing() {
    let mut act = new_world();
    let h = new_blur(&mut act, vec![num(10), num(20), num(3)]);
    // an own data slot shadows the inherited blurX accessor
    {
        let ctx = &mut act.context;
        force_set_value(
            &mut ctx.heap,
            &ctx.gc_context,
            h,
            s("blurX"),
            num(2),
            AttributeSet::empty(),
        );
    }
    let empty_args: Vec<Value> = vec![];
    let cloned = match blur_filter::clone(&mut act, h, &empty_args, FUEL) {
        Ok(Value::ObjectRef(c)) => c,
        other => panic!("clone failed: {:?}", other),
    };
    // own lookup wins: the clone was built from the shadowing value
    assert_eq!(act.context.heap.blur_fields(cloned), Some((2, 20, 3)));
    // the source's fixed field and the prototype's accessor are untouched
    assert_eq!(act.context.heap.blur_fields(h), Some((10, 20, 3)));
    let fresh = new_blur(&mut act, vec![num(10), num(20), num(3)]);
    assert_eq!(get(&mut act, fresh, &s("blurX"), FUEL).unwrap(), num(10));
}

#[test]
fn clone_on_prototype_cycle_terminates_with_zeroed_fields() {
    let mut act = new_world();
    let h = new_blur(&mut act, vec![num(10), num(20), num(3)]);
    let b = plain(&mut act, Some(h));
    {
        let ctx = &mut act.context;
        ctx.heap.set_prototype(&ctx.gc_context, h, Some(b));
    }
    let empty_args: Vec<Value> = vec![];
    let cloned = match blur_filter::clone(&mut act, h, &empty_args, FUEL) {
        Ok(Value::ObjectRef(c)) => c,
        other => panic!("clone failed: {:?}", other),
    };
    // every accessor read recovered as Undefined; to_i32(NaN) == 0
    assert_eq!(act.context.heap.blur_fields(cloned), Some((0, 0, 0)));
}

#[test]
fn clone_propagates_getter_error_and_creates_nothing() {
    let mut act = new_world();
    let obj = plain(&mut act, None);
    let thrower = {
        let ctx = &mut act.context;
        ctx.heap.new_function(
            &ctx.gc_context,
            None,
            NativeFunction::ThrowValue(Value::Str(s("boom"))),
            ConstructKind::Plain,
        )
    };
    {
        let ctx = &mut act.context;
        force_set_accessor(
            &mut ctx.heap,
            &ctx.gc_context,
            obj,
            s("blurX"),
            Some(thrower),
            None,
            AttributeSet::empty(),
        );
    }
    let len_before = act.context.heap.objects.len();
    let empty_args: Vec<Value> = vec![];
    assert_eq!(
        blur_filter::clone(&mut act, obj, &empty_args, FUEL),
        Err(Error::Thrown(Value::Str(s("boom"))))
    );
    assert_eq!(act.context.heap.objects.len(), len_before);
}

#[test]
fn constructor_propagates_hook_error_and_leaves_fields() {
    let mut act = new_world();
    let h = new_blur(&mut act, vec![]);
    let (arg, hook) = {
        let ctx = &mut act.context;
        let arg = ctx.heap.new_plain_object(&ctx.gc_context, None);
        let hook = ctx.heap.new_function(
            &ctx.gc_context,
            None,
            NativeFunction::ThrowValue(Value::Str(s("bad"))),
            ConstructKind::Plain,
        );
        (arg, hook)
    };
    {
        let ctx = &mut act.context;
        force_set_value(
            &mut ctx.heap,
            &ctx.gc_context,
            arg,
            s("valueOf"),
            Value::ObjectRef(hook),
            AttributeSet::empty(),
        );
    }
    let args = vec![Value::ObjectRef(arg)];
    assert_eq!(
        blur_filter::constructor(&mut act, h, &args, FUEL),
        Err(Error::Thrown(Value::Str(s("bad"))))
    );
    assert_eq!(act.context.heap.blur_fields(h), Some((4, 4, 1)));
}

#[test]
fn setter_coerces_through_value_of_hook() {
    let mut act = new_world();
    let h = new_blur(&mut act, vec![]);
    let (arg, hook) = {
        let ctx = &mut act.context;
        let arg = ctx.heap.new_plain_object(&ctx.gc_context, None);
        let hook = ctx.heap.new_function(
            &ctx.gc_context,
            None,
            NativeFunction::ReturnValue(num(300)),
            ConstructKind::Plain,
        );
        (arg, hook)
    };
    {
        let ctx = &mut act.context;
        force_set_value(
            &mut ctx.heap,
            &ctx.gc_context,
            arg,
            s("valueOf"),
            Value::ObjectRef(hook),
            AttributeSet::empty(),
        );
    }
    avm_core::dispatch::set(
        &mut act,
        h,
        &s("blurX"),
        Value::ObjectRef(arg),
        AttributeSet::empty(),
        FUEL,
    )
    .unwrap();
    assert_eq!(act.context.heap.blur_fields(h), Some((255, 4, 1)));
}

#[test]
fn collect_keeps_reachable_and_reclaims_cycles() {
    let mut heap = Heap::new();
    let m = heap.begin_mutation();
    let root = heap.new_plain_object(&m, None);
    let kept = heap.new_plain_object(&m, None);
    force_set_value(
        &mut heap,
        &m,
        root,
        s("child"),
        Value::ObjectRef(kept),
        AttributeSet::empty(),
    );
    // an unreachable prototype cycle: reference counting could never
    // reclaim it, tracing must
    let a = heap.new_plain_object(&m, None);
    let b = heap.new_plain_object(&m, Some(a));
    heap.set_prototype(&m, a, Some(b));
    heap.end_mutation(m);
    heap.collect(&vec![root]);
    assert!(heap.is_live(root));
    assert!(heap.is_live(kept));
    assert!(!heap.is_live(a));
    assert!(!heap.is_live(b));
}

#[test]
fn collect_follows_prototype_and_accessor_references() {
    let mut heap = Heap::new();
    let m = heap.begin_mutation();
    let proto = heap.new_plain_object(&m, None);
    let root = heap.new_plain_object(&m, Some(proto));
    let getter = heap.new_function(
        &m,
        None,
        NativeFunction::GetDoubled(s("y")),
        ConstructKind::Plain,
    );
    force_set_accessor(
        &mut heap,
        &m,
        root,
        s("x"),
        Some(getter),
        None,
        AttributeSet::empty(),
    );
    heap.end_mutation(m);
    heap.collect(&vec![root]);
    assert!(heap.is_live(root));
    assert!(heap.is_live(proto));
    assert!(heap.is_live(getter));
}
