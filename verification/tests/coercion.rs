use avm_core::coerce::{number_to_text, parse_number, wrap_to_i32};
use avm_core::dispatch::{
    Activation, CALL_DEPTH_LIMIT, Context, SystemPrototypes, force_set_value, to_i32, to_number,
    to_string,
};
use avm_core::heap::Heap;
use avm_core::object::{AttributeSet, ConstructKind, NativeFunction};
use avm_core::value::{Error, NumberValue, Value};

const FUEL: u32 = CALL_DEPTH_LIMIT;

fn num(n: i64) -> Value {
    Value::Number(NumberValue::Finite(n))
}

fn s(text: &str) -> String {
    String::from(text)
}

fn bare_world() -> Activation {
    let mut heap = Heap::new();
    let m = heap.begin_mutation();
    let anchor = heap.new_plain_object(&m, None);
    let prototypes = SystemPrototypes {
        function: anchor,
        blur_filter: anchor,
        blur_filter_constructor: anchor,
    };
    Activation {
        context: Context { heap, gc_context: m, prototypes, chain_hits: 0, depth_hits: 0 },
    }
}

#[test]
fn parse_decimal_and_sign() {
    assert_eq!(parse_number(&s("42")), NumberValue::Finite(42));
    assert_eq!(parse_number(&s("-7")), NumberValue::Finite(-7));
    assert_eq!(parse_number(&s("+5")), NumberValue::Finite(5));
    assert_eq!(parse_number(&s("007")), NumberValue::Finite(7));
}

#[test]
fn parse_trims_whitespace() {
    assert_eq!(parse_number(&s("  42\t")), NumberValue::Finite(42));
    assert_eq!(parse_number(&s("\n-3 ")), NumberValue::Finite(-3));
}

#[test]
fn parse_hex_prefix() {
    assert_eq!(parse_number(&s("0x1A")), NumberValue::Finite(26));
    assert_eq!(parse_number(&s(" 0Xff ")), NumberValue::Finite(255));
    assert_eq!(parse_number(&s("0x")), NumberValue::NaN);
}

#[test]
fn parse_malformed_is_nan() {
    assert_eq!(parse_number(&s("abc")), NumberValue::NaN);
    assert_eq!(parse_number(&s("")), NumberValue::NaN);
    assert_eq!(parse_number(&s("   ")), NumberValue::NaN);
    assert_eq!(parse_number(&s("4 2")), NumberValue::NaN);
    assert_eq!(parse_number(&s("-")), NumberValue::NaN);
    assert_eq!(parse_number(&s("12.5")), NumberValue::NaN);
    // beyond the model's numeric domain
    assert_eq!(parse_number(&s("99999999999999999999")), NumberValue::NaN);
}

#[test]
fn wraparound_to_32_bits() {
    assert_eq!(wrap_to_i32(7), 7);
    assert_eq!(wrap_to_i32(-1), -1);
    assert_eq!(wrap_to_i32(4294967303), 7);
    assert_eq!(wrap_to_i32(3000000000), -1294967296);
    assert_eq!(wrap_to_i32(2147483648), -2147483648);
    assert_eq!(wrap_to_i32(-4294967296), 0);
}

#[test]
fn number_formatting() {
    assert_eq!(number_to_text(&NumberValue::Finite(0)), s("0"));
    assert_eq!(number_to_text(&NumberValue::Finite(-42)), s("-42"));
    assert_eq!(number_to_text(&NumberValue::NaN), s("NaN"));
}

#[test]
fn boolean_coercion() {
    assert!(!Value::Undefined.to_boolean());
    assert!(!Value::Null.to_boolean());
    assert!(!Value::Number(NumberValue::NaN).to_boolean());
    assert!(!num(0).to_boolean());
    assert!(num(-3).to_boolean());
    assert!(!Value::Str(s("")).to_boolean());
    assert!(Value::Str(s("x")).to_boolean());
    assert!(Value::Bool(true).to_boolean());
    assert!(!Value::Bool(false).to_boolean());
}

#[test]
fn primitive_number_coercion() {
    let mut act = bare_world();
    assert_eq!(to_number(&mut act, &Value::Undefined, FUEL), Ok(NumberValue::NaN));
    assert_eq!(to_number(&mut act, &Value::Null, FUEL), Ok(NumberValue::Finite(0)));
    assert_eq!(to_number(&mut act, &Value::Bool(true), FUEL), Ok(NumberValue::Finite(1)));
    assert_eq!(to_number(&mut act, &Value::Str(s("19")), FUEL), Ok(NumberValue::Finite(19)));
    assert_eq!(to_i32(&mut act, &Value::Str(s("abc")), FUEL), Ok(0));
    assert_eq!(to_i32(&mut act, &num(4294967303), FUEL), Ok(7));
}

#[test]
fn primitive_string_coercion() {
    let mut act = bare_world();
    assert_eq!(to_string(&mut act, &Value::Undefined, FUEL), Ok(s("undefined")));
    assert_eq!(to_string(&mut act, &Value::Null, FUEL), Ok(s("null")));
    assert_eq!(to_string(&mut act, &Value::Bool(false), FUEL), Ok(s("false")));
    assert_eq!(to_string(&mut act, &num(-8), FUEL), Ok(s("-8")));
    assert_eq!(to_string(&mut act, &Value::Str(s("hi")), FUEL), Ok(s("hi")));
}

#[test]
fn object_without_hooks_coerces_to_sentinels() {
    let mut act = bare_world();
    let obj = {
        let ctx = &mut act.context;
        ctx.heap.new_plain_object(&ctx.gc_context, None)
    };
    assert_eq!(to_number(&mut act, &Value::ObjectRef(obj), FUEL), Ok(NumberValue::NaN));
    assert_eq!(
        to_string(&mut act, &Value::ObjectRef(obj), FUEL),
        Ok(s("[type Object]"))
    );
}

#[test]
fn value_of_hook_drives_number_coercion() {
    let mut act = bare_world();
    let (obj, hook) = {
        let ctx = &mut act.context;
        let obj = ctx.heap.new_plain_object(&ctx.gc_context, None);
        let hook = ctx.heap.new_function(
            &ctx.gc_context,
            None,
            NativeFunction::ReturnValue(num(7)),
            ConstructKind::Plain,
        );
        (obj, hook)
    };
    {
        let ctx = &mut act.context;
        force_set_value(
            &mut ctx.heap,
            &ctx.gc_context,
            obj,
            s("valueOf"),
            Value::ObjectRef(hook),
            AttributeSet::empty(),
        );
    }
    assert_eq!(to_number(&mut act, &Value::ObjectRef(obj), FUEL), Ok(NumberValue::Finite(7)));
    assert_eq!(to_i32(&mut act, &Value::ObjectRef(obj), FUEL), Ok(7));
}

#[test]
fn to_string_hook_drives_text_coercion() {
    let mut act = bare_world();
    let (obj, hook) = {
        let ctx = &mut act.context;
        let obj = ctx.heap.new_plain_object(&ctx.gc_context, None);
        let hook = ctx.heap.new_function(
            &ctx.gc_context,
            None,
            NativeFunction::ReturnValue(Value::Str(s("hi"))),
            ConstructKind::Plain,
        );
        (obj, hook)
    };
    {
        let ctx = &mut act.context;
        force_set_value(
            &mut ctx.heap,
            &ctx.gc_context,
            obj,
            s("toString"),
            Value::ObjectRef(hook),
            AttributeSet::empty(),
        );
    }
    assert_eq!(to_string(&mut act, &Value::ObjectRef(obj), FUEL), Ok(s("hi")));
}

#[test]
fn throwing_hook_propagates_through_coercion() {
    let mut act = bare_world();
    let (obj, hook) = {
        let ctx = &mut act.context;
        let obj = ctx.heap.new_plain_object(&ctx.gc_context, None);
        let hook = ctx.heap.new_function(
            &ctx.gc_context,
            None,
            NativeFunction::ThrowValue(Value::Str(s("bad"))),
            ConstructKind::Plain,
        );
        (obj, hook)
    };
    {
        let ctx = &mut act.context;
        force_set_value(
            &mut ctx.heap,
            &ctx.gc_context,
            obj,
            s("valueOf"),
            Value::ObjectRef(hook),
            AttributeSet::empty(),
        );
    }
    assert_eq!(
        to_number(&mut act, &Value::ObjectRef(obj), FUEL),
        Err(Error::Thrown(Value::Str(s("bad"))))
    );
}

#[test]
fn hook_returning_object_is_nan() {
    let mut act = bare_world();
    let (obj, other, hook) = {
        let ctx = &mut act.context;
        let obj = ctx.heap.new_plain_object(&ctx.gc_context, None);
        let other = ctx.heap.new_plain_object(&ctx.gc_context, None);
        let hook = ctx.heap.new_function(
            &ctx.gc_context,
            None,
            NativeFunction::ReturnValue(Value::ObjectRef(other)),
            ConstructKind::Plain,
        );
        (obj, other, hook)
    };
    let _ = other;
    {
        let ctx = &mut act.context;
        force_set_value(
            &mut ctx.heap,
            &ctx.gc_context,
            obj,
            s("valueOf"),
            Value::ObjectRef(hook),
            AttributeSet::empty(),
        );
    }
    assert_eq!(to_number(&mut act, &Value::ObjectRef(obj), FUEL), Ok(NumberValue::NaN));
}
