//! The tagged runtime value type, its mathematical model, and the pure
//! (non-reentrant) part of the coercion rules.

use vstd::prelude::*;

verus! {

/// A non-owning reference to an object in the managed heap.  Heap slots are
/// never reused, so a handle stays meaningful for the life of the heap: it is
/// either live (its slot holds an object) or permanently dead (its slot was
/// swept), never dangling into an unrelated object.
#[derive(Clone, Copy, PartialEq, Eq, Structural, Debug)]
pub struct Handle {
    pub index: usize,
}

/// The numeric tower of the legacy platform, restricted to the values this
/// core actually distinguishes: the quiet NaN sentinel and exact integers.
/// Every rule of the coercion engine (boolean tests, 32-bit wraparound,
/// decimal formatting, clamping) is integer-exact on this domain.
#[derive(Clone, Copy, PartialEq, Eq, Structural, Debug)]
pub enum NumberValue {
    NaN,
    Finite(i64),
}

/// The closed tagged union of runtime values.  Immutable and copied by value;
/// `ObjectRef` carries object identity, not value identity.
#[derive(Clone, PartialEq, Debug)]
pub enum Value {
    Undefined,
    Null,
    Bool(bool),
    Number(NumberValue),
    Str(String),
    ObjectRef(Handle),
}

/// The mathematical model of a `Value`: identical shape, with text abstracted
/// to its character sequence.
#[verifier::ext_equal]
pub ghost enum GValue {
    Undefined,
    Null,
    Bool(bool),
    Number(NumberValue),
    Str(Seq<char>),
    ObjectRef(Handle),
}

impl DeepView for Value {
    type V = GValue;

    open spec fn deep_view(&self) -> GValue {
        self.view()
    }
}

impl View for Value {
    type V = GValue;

    open spec fn view(&self) -> GValue {
        match self {
            Value::Undefined => GValue::Undefined,
            Value::Null => GValue::Null,
            Value::Bool(b) => GValue::Bool(*b),
            Value::Number(n) => GValue::Number(*n),
            Value::Str(s) => GValue::Str(s@),
            Value::ObjectRef(h) => GValue::ObjectRef(*h),
        }
    }
}

/// Failures that travel out of the dispatch protocol.  Per the legacy rules,
/// coercion anomalies and attribute violations are silent; only these two
/// classes surface:
/// - `Thrown`: a script-level error raised by a reentrant accessor or
///   to-primitive hook; it must propagate unchanged through every
///   intervening dispatch and coercion call.
/// - `ReceiverMismatch`: a native extension accessor was applied to an object
///   that lacks the extension's fields, or a construction was attempted on a
///   non-callable object.  This is a collaborator programming error; the core
///   cannot recover from it and reports it as fatal to the external caller.
#[derive(Clone, PartialEq, Debug)]
pub enum Error {
    Thrown(Value),
    ReceiverMismatch,
}

/// What a value coerces to in a boolean context.
pub open spec fn spec_to_boolean(v: GValue) -> bool {
    match v {
        GValue::Undefined => false,
        GValue::Null => false,
        GValue::Bool(b) => b,
        GValue::Number(n) => match n {
            NumberValue::NaN => false,
            NumberValue::Finite(i) => i != 0,
        },
        GValue::Str(s) => s.len() != 0,
        GValue::ObjectRef(_) => true,
    }
}

impl Value {
    /// An explicit deep copy whose result is known to equal the source;
    /// the dispatch protocol uses it to hand out stored values.
    pub fn duplicate(&self) -> (r: Value)
        ensures
            r == *self,
    {
        match self {
            Value::Undefined => Value::Undefined,
            Value::Null => Value::Null,
            Value::Bool(b) => Value::Bool(*b),
            Value::Number(n) => Value::Number(*n),
            Value::Str(s) => Value::Str(s.clone()),
            Value::ObjectRef(h) => Value::ObjectRef(*h),
        }
    }

    /// `Undefined`/`Null` are false; a number is false iff NaN or zero; text
    /// is false iff empty; an object reference is always true.
    pub fn to_boolean(&self) -> (r: bool)
        ensures
            r == spec_to_boolean(self@),
    {
        match self {
            Value::Undefined => false,
            Value::Null => false,
            Value::Bool(b) => *b,
            Value::Number(n) => match n {
                NumberValue::NaN => false,
                NumberValue::Finite(i) => *i != 0,
            },
            Value::Str(s) => !s.as_str().is_empty(),
            Value::ObjectRef(_) => true,
        }
    }
}

} // verus!
