//! The object model: attribute bits, property slots, object kinds, and the
//! arena-resident `ManagedObject`, together with their mathematical models
//! and the spec-level lookup functions the dispatch contracts are written in.

use vstd::prelude::*;

use crate::value::{GValue, Handle, Value};

verus! {

/// Per-property flags.  `read_only` silently rejects ordinary writes,
/// `dont_enum` hides the property from enumeration, `dont_delete` silently
/// rejects deletion.  User-created properties default to all clear.
#[derive(Clone, Copy, PartialEq, Eq, Structural, Debug)]
pub struct AttributeSet {
    pub read_only: bool,
    pub dont_enum: bool,
    pub dont_delete: bool,
}

impl AttributeSet {
    /// The default for user-created properties: writable, enumerable,
    /// deletable.
    pub fn empty() -> (r: AttributeSet)
        ensures
            r == (AttributeSet { read_only: false, dont_enum: false, dont_delete: false }),
    {
        AttributeSet { read_only: false, dont_enum: false, dont_delete: false }
    }

    /// The usual set for internally installed built-ins: locked against
    /// writes, enumeration and deletion.
    pub fn locked() -> (r: AttributeSet)
        ensures
            r == (AttributeSet { read_only: true, dont_enum: true, dont_delete: true }),
    {
        AttributeSet { read_only: true, dont_enum: true, dont_delete: true }
    }
}

/// The closed set of native function bodies this core can run.  The first
/// group is the blur-filter built-in; the second group stands in for
/// interpreted function bodies, rich enough to express the accessors and
/// object-to-primitive hooks that user scripts install (a fixed result, a
/// thrown error, a read-and-double of another property, a mutation of a
/// third object followed by a fixed result).
#[derive(Clone, PartialEq, Debug)]
pub enum NativeFunction {
    BlurConstructor,
    BlurClone,
    GetBlurX,
    SetBlurX,
    GetBlurY,
    SetBlurY,
    GetQuality,
    SetQuality,
    /// Returns the carried value; also serves as a to-primitive hook body.
    ReturnValue(Value),
    /// Raises the carried value as a script error.
    ThrowValue(Value),
    /// Reads the named property of `this` through the full dispatch
    /// protocol, coerces it to a 32-bit integer, and returns twice that.
    GetDoubled(String),
    /// Deletes the named own property of the carried target object, then
    /// returns the carried value; exercises mutation reentrancy.
    DeleteAndReturn(Handle, String, Value),
}

/// Mathematical model of `NativeFunction`.
#[verifier::ext_equal]
pub ghost enum GNative {
    BlurConstructor,
    BlurClone,
    GetBlurX,
    SetBlurX,
    GetBlurY,
    SetBlurY,
    GetQuality,
    SetQuality,
    ReturnValue(GValue),
    ThrowValue(GValue),
    GetDoubled(Seq<char>),
    DeleteAndReturn(Handle, Seq<char>, GValue),
}

impl View for NativeFunction {
    type V = GNative;

    open spec fn view(&self) -> GNative {
        match self {
            NativeFunction::BlurConstructor => GNative::BlurConstructor,
            NativeFunction::BlurClone => GNative::BlurClone,
            NativeFunction::GetBlurX => GNative::GetBlurX,
            NativeFunction::SetBlurX => GNative::SetBlurX,
            NativeFunction::GetBlurY => GNative::GetBlurY,
            NativeFunction::SetBlurY => GNative::SetBlurY,
            NativeFunction::GetQuality => GNative::GetQuality,
            NativeFunction::SetQuality => GNative::SetQuality,
            NativeFunction::ReturnValue(v) => GNative::ReturnValue(v@),
            NativeFunction::ThrowValue(v) => GNative::ThrowValue(v@),
            NativeFunction::GetDoubled(n) => GNative::GetDoubled(n@),
            NativeFunction::DeleteAndReturn(h, n, v) => GNative::DeleteAndReturn(*h, n@, v@),
        }
    }
}

/// What a constructor builds: a plain object or a specific native extension.
#[derive(Clone, Copy, PartialEq, Eq, Structural, Debug)]
pub enum ConstructKind {
    Plain,
    BlurFilter,
}

/// The polymorphic discriminator of an object: a plain script object, a
/// callable function object, or a native extension composing the generic
/// property table with fixed extension fields.
#[derive(Clone, PartialEq, Debug)]
pub enum ObjectKind {
    Plain,
    Function { body: NativeFunction, makes: ConstructKind },
    BlurFilter { blur_x: i32, blur_y: i32, quality: i32 },
}

/// Mathematical model of `ObjectKind`.
#[verifier::ext_equal]
pub ghost enum GKind {
    Plain,
    Function { body: GNative, makes: ConstructKind },
    BlurFilter { blur_x: i32, blur_y: i32, quality: i32 },
}

impl View for ObjectKind {
    type V = GKind;

    open spec fn view(&self) -> GKind {
        match self {
            ObjectKind::Plain => GKind::Plain,
            ObjectKind::Function { body, makes } => GKind::Function { body: body@, makes: *makes },
            ObjectKind::BlurFilter { blur_x, blur_y, quality } => GKind::BlurFilter {
                blur_x: *blur_x,
                blur_y: *blur_y,
                quality: *quality,
            },
        }
    }
}

/// A property's storage: a direct value, or a getter/setter pair of function
/// objects, each half independently optional.
#[derive(Clone, PartialEq, Debug)]
pub enum SlotKind {
    Data(Value),
    Accessor { getter: Option<Handle>, setter: Option<Handle> },
}

/// Mathematical model of `SlotKind`.
#[verifier::ext_equal]
pub ghost enum GSlotKind {
    Data(GValue),
    Accessor { getter: Option<Handle>, setter: Option<Handle> },
}

impl View for SlotKind {
    type V = GSlotKind;

    open spec fn view(&self) -> GSlotKind {
        match self {
            SlotKind::Data(v) => GSlotKind::Data(v@),
            SlotKind::Accessor { getter, setter } => GSlotKind::Accessor {
                getter: *getter,
                setter: *setter,
            },
        }
    }
}

/// A named property's storage plus its attribute bits.
#[derive(Clone, PartialEq, Debug)]
pub struct Slot {
    pub attributes: AttributeSet,
    pub kind: SlotKind,
}

/// Mathematical model of `Slot`.
#[verifier::ext_equal]
pub ghost struct GSlot {
    pub attributes: AttributeSet,
    pub kind: GSlotKind,
}

impl View for Slot {
    type V = GSlot;

    open spec fn view(&self) -> GSlot {
        GSlot { attributes: self.attributes, kind: self.kind@ }
    }
}

/// One entry of an object's ordered property table.
#[derive(Clone, PartialEq, Debug)]
pub struct Property {
    pub name: String,
    pub slot: Slot,
}

/// Mathematical model of `Property`.
#[verifier::ext_equal]
pub ghost struct GProp {
    pub name: Seq<char>,
    pub slot: GSlot,
}

impl View for Property {
    type V = GProp;

    open spec fn view(&self) -> GProp {
        GProp { name: self.name@, slot: self.slot@ }
    }
}

/// An arena-resident object: the ordered property table, the optional
/// non-owning prototype link, and the kind discriminator.
#[derive(Clone, PartialEq, Debug)]
pub struct ManagedObject {
    pub properties: Vec<Property>,
    pub prototype: Option<Handle>,
    pub kind: ObjectKind,
}

/// Mathematical model of `ManagedObject`.
#[verifier::ext_equal]
pub ghost struct GObject {
    pub properties: Seq<GProp>,
    pub prototype: Option<Handle>,
    pub kind: GKind,
}

impl View for ManagedObject {
    type V = GObject;

    open spec fn view(&self) -> GObject {
        GObject {
            properties: self.properties@.map_values(|p: Property| p@),
            prototype: self.prototype,
            kind: self.kind@,
        }
    }
}

/// A property table is well formed when its names are pairwise distinct:
/// a name resolves to at most one slot at each level of the chain.
pub open spec fn props_wf(props: Seq<GProp>) -> bool {
    forall|i: int, j: int| 0 <= i < j < props.len() ==> props[i].name != props[j].name
}

/// Whether the table holds a slot under `name`.
pub open spec fn has_prop(props: Seq<GProp>, name: Seq<char>) -> bool {
    exists|i: int| 0 <= i < props.len() && props[i].name == name
}

/// The index of the slot under `name` (meaningful when `has_prop` holds and
/// the table is well formed).
pub open spec fn prop_index(props: Seq<GProp>, name: Seq<char>) -> int {
    choose|i: int| 0 <= i < props.len() && props[i].name == name
}

/// The slot stored under `name`.
pub open spec fn prop_slot(props: Seq<GProp>, name: Seq<char>) -> GSlot {
    props[prop_index(props, name)].slot
}

impl ManagedObject {
    /// Every property table in a well-formed heap keeps its names distinct.
    pub open spec fn wf(&self) -> bool {
        props_wf(self@.properties)
    }

    /// Finds the position of the own property `name`, if present.
    pub fn find_own(&self, name: &String) -> (r: Option<usize>)
        requires
            self.wf(),
        ensures
            match r {
                Some(i) => has_prop(self@.properties, name@) && i < self.properties@.len()
                    && self@.properties[i as int].name == name@
                    && prop_index(self@.properties, name@) == i as int,
                None => !has_prop(self@.properties, name@),
            },
    {
        let n = self.properties.len();
        let mut i: usize = 0;
        while i < n
            invariant
                n == self.properties@.len(),
                i <= n,
                self.wf(),
                forall|j: int| 0 <= j < i ==> self@.properties[j].name != name@,
            decreases n - i,
        {
            if self.properties[i].name.eq(name) {
                assert(self@.properties[i as int].name == name@);
                return Some(i);
            }
            i += 1;
        }
        None
    }
}

} // verus!
