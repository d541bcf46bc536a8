//! The managed arena.  It owns every `ManagedObject`, hands out `Handle`s,
//! and gates every allocation and write behind a scoped, non-copyable
//! mutation capability, so that the tracing collector can only run between
//! capability scopes.  Arena slots are never reused: a swept slot stays
//! empty, which is what keeps every handle from dangling.

use vstd::prelude::*;

use crate::object::{
    AttributeSet, ConstructKind, GKind, GObject, GProp, GSlot, GSlotKind, ManagedObject,
    NativeFunction, ObjectKind, Property, Slot, SlotKind, props_wf,
};
use crate::value::{GValue, Handle, Value};

verus! {

/// The scoped mutation capability.  It cannot be copied or cloned; it is
/// minted by `Heap::begin_mutation`, must be presented (by shared reference)
/// to every operation that allocates or writes, and is retired by
/// `Heap::end_mutation`, which advances the heap epoch so that a stale token
/// can never be presented again.
#[derive(Debug)]
pub struct Mutation {
    pub epoch: u64,
}

/// The managed heap: a monotone array of object slots plus the capability
/// bookkeeping (the current epoch and whether a capability scope is open).
#[derive(Debug)]
pub struct Heap {
    pub objects: Vec<Option<ManagedObject>>,
    pub epoch: u64,
    pub cap_open: bool,
}

/// Model of one arena slot.
pub open spec fn entry_view(o: Option<ManagedObject>) -> Option<GObject> {
    match o {
        Option::Some(ob) => Option::Some(ob@),
        Option::None => Option::None,
    }
}

impl View for Heap {
    type V = Seq<Option<GObject>>;

    open spec fn view(&self) -> Seq<Option<GObject>> {
        self.objects@.map_values(|o: Option<ManagedObject>| entry_view(o))
    }
}

/// Whether `h` refers to a live (not yet collected) object.
pub open spec fn live(heap: Seq<Option<GObject>>, h: Handle) -> bool {
    h.index < heap.len() && heap[h.index as int] is Some
}

/// The model of the object `h` refers to (meaningful when `live`).
pub open spec fn gobj(heap: Seq<Option<GObject>>, h: Handle) -> GObject {
    heap[h.index as int].unwrap()
}

/// Every live object keeps its property names pairwise distinct.
pub open spec fn heap_wf(heap: Seq<Option<GObject>>) -> bool {
    forall|i: int|
        0 <= i < heap.len() && heap[i] is Some ==> props_wf(#[trigger] heap[i].unwrap().properties)
}

/// The heap with object `h` replaced by `o`.
pub open spec fn with_obj(heap: Seq<Option<GObject>>, h: Handle, o: GObject) -> Seq<
    Option<GObject>,
> {
    heap.update(h.index as int, Option::Some(o))
}

/// The heap with property `i` of object `h` overwritten by the data value
/// `v`, its name and attribute bits kept.
pub open spec fn with_data_at(
    heap: Seq<Option<GObject>>,
    h: Handle,
    i: int,
    v: GValue,
) -> Seq<Option<GObject>> {
    let o = gobj(heap, h);
    let p = o.properties[i];
    with_obj(
        heap,
        h,
        GObject {
            properties: o.properties.update(
                i,
                GProp {
                    name: p.name,
                    slot: GSlot { attributes: p.slot.attributes, kind: GSlotKind::Data(v) },
                },
            ),
            ..o
        },
    )
}

/// The heap with property `i` of object `h` replaced wholesale (name kept):
/// the privileged force-set path.
pub open spec fn with_slot_at(
    heap: Seq<Option<GObject>>,
    h: Handle,
    i: int,
    slot: GSlot,
) -> Seq<Option<GObject>> {
    let o = gobj(heap, h);
    let p = o.properties[i];
    with_obj(
        heap,
        h,
        GObject { properties: o.properties.update(i, GProp { name: p.name, slot }), ..o },
    )
}

/// The heap with a fresh own property appended to object `h`, preserving
/// insertion order.
pub open spec fn with_pushed_slot(
    heap: Seq<Option<GObject>>,
    h: Handle,
    name: Seq<char>,
    slot: GSlot,
) -> Seq<Option<GObject>> {
    let o = gobj(heap, h);
    with_obj(heap, h, GObject { properties: o.properties.push(GProp { name, slot }), ..o })
}

/// The heap with own property `i` of object `h` removed, the order of the
/// remaining properties kept.
pub open spec fn without_prop_at(heap: Seq<Option<GObject>>, h: Handle, i: int) -> Seq<
    Option<GObject>,
> {
    let o = gobj(heap, h);
    with_obj(heap, h, GObject { properties: o.properties.remove(i), ..o })
}

/// The heap with the kind discriminator of object `h` replaced (used by the
/// native-extension field setters).
pub open spec fn with_kind(heap: Seq<Option<GObject>>, h: Handle, kind: GKind) -> Seq<
    Option<GObject>,
> {
    let o = gobj(heap, h);
    with_obj(heap, h, GObject { kind, ..o })
}

impl Heap {
    /// Whether writes presenting the token `m` are currently allowed.
    pub open spec fn writable(&self, m: &Mutation) -> bool {
        self.cap_open && m.epoch == self.epoch
    }

    /// An empty heap with no open capability scope.
    pub fn new() -> (r: Heap)
        ensures
            r@ == Seq::<Option<GObject>>::empty(),
            r.epoch == 0,
            !r.cap_open,
    {
        let r = Heap { objects: Vec::new(), epoch: 0, cap_open: false };
        proof {
            assert(r@ =~= Seq::<Option<GObject>>::empty());
        }
        r
    }

    /// Opens a capability scope and mints its token.
    pub fn begin_mutation(&mut self) -> (m: Mutation)
        requires
            !old(self).cap_open,
        ensures
            final(self)@ == old(self)@,
            final(self).epoch == old(self).epoch,
            final(self).cap_open,
            m.epoch == final(self).epoch,
    {
        self.cap_open = true;
        Mutation { epoch: self.epoch }
    }

    /// Retires a capability token and closes the scope.  The epoch advances,
    /// so the token (now consumed) could not have authorized anything
    /// further anyway; collection becomes legal at this boundary.
    pub fn end_mutation(&mut self, m: Mutation)
        requires
            old(self).writable(&m),
            old(self).epoch < u64::MAX,
        ensures
            final(self)@ == old(self)@,
            final(self).epoch == old(self).epoch + 1,
            !final(self).cap_open,
    {
        let Mutation { epoch: _ } = m;
        self.cap_open = false;
        self.epoch = self.epoch + 1;
    }

    /// Allocates a new object in the next slot.  Private engine of the three
    /// public constructors.
    fn allocate_object(&mut self, m: &Mutation, obj: ManagedObject) -> (h: Handle)
        requires
            old(self).writable(m),
        ensures
            final(self)@ == old(self)@.push(Option::Some(obj@)),
            final(self).epoch == old(self).epoch,
            final(self).cap_open,
            h.index == old(self)@.len(),
    {
        let h = Handle { index: self.objects.len() };
        self.objects.push(Some(obj));
        proof {
            assert(self@ =~= old(self)@.push(Option::Some(obj@)));
        }
        h
    }

    /// Allocates a plain object with an empty property table.
    pub fn new_plain_object(&mut self, m: &Mutation, prototype: Option<Handle>) -> (h: Handle)
        requires
            old(self).writable(m),
        ensures
            final(self)@ == old(self)@.push(
                Option::Some(
                    GObject {
                        properties: Seq::<GProp>::empty(),
                        prototype,
                        kind: GKind::Plain,
                    },
                ),
            ),
            final(self).epoch == old(self).epoch,
            final(self).cap_open,
            h.index == old(self)@.len(),
    {
        let obj = ManagedObject { properties: Vec::new(), prototype, kind: ObjectKind::Plain };
        proof {
            assert(obj@.properties =~= Seq::<GProp>::empty());
        }
        self.allocate_object(m, obj)
    }

    /// Allocates a function object with the given native body and the kind
    /// of object it constructs.
    pub fn new_function(
        &mut self,
        m: &Mutation,
        prototype: Option<Handle>,
        body: NativeFunction,
        makes: ConstructKind,
    ) -> (h: Handle)
        requires
            old(self).writable(m),
        ensures
            final(self)@ == old(self)@.push(
                Option::Some(
                    GObject {
                        properties: Seq::<GProp>::empty(),
                        prototype,
                        kind: GKind::Function { body: body@, makes },
                    },
                ),
            ),
            final(self).epoch == old(self).epoch,
            final(self).cap_open,
            h.index == old(self)@.len(),
    {
        let obj = ManagedObject {
            properties: Vec::new(),
            prototype,
            kind: ObjectKind::Function { body, makes },
        };
        proof {
            assert(obj@.properties =~= Seq::<GProp>::empty());
        }
        self.allocate_object(m, obj)
    }

    /// Allocates a native extension of the given tag (or a plain object for
    /// the plain tag), its fixed fields zeroed.
    pub fn new_native_extension(
        &mut self,
        m: &Mutation,
        prototype: Option<Handle>,
        kind_tag: ConstructKind,
    ) -> (h: Handle)
        requires
            old(self).writable(m),
        ensures
            final(self)@ == old(self)@.push(
                Option::Some(
                    GObject {
                        properties: Seq::<GProp>::empty(),
                        prototype,
                        kind: match kind_tag {
                            ConstructKind::Plain => GKind::Plain,
                            ConstructKind::BlurFilter => GKind::BlurFilter {
                                blur_x: 0,
                                blur_y: 0,
                                quality: 0,
                            },
                        },
                    },
                ),
            ),
            final(self).epoch == old(self).epoch,
            final(self).cap_open,
            h.index == old(self)@.len(),
    {
        let kind = match kind_tag {
            ConstructKind::Plain => ObjectKind::Plain,
            ConstructKind::BlurFilter => ObjectKind::BlurFilter {
                blur_x: 0,
                blur_y: 0,
                quality: 0,
            },
        };
        let obj = ManagedObject { properties: Vec::new(), prototype, kind };
        proof {
            assert(obj@.properties =~= Seq::<GProp>::empty());
        }
        self.allocate_object(m, obj)
    }

    /// Whether `h` refers to a live object.
    pub fn is_live(&self, h: Handle) -> (r: bool)
        ensures
            r == live(self@, h),
    {
        h.index < self.objects.len() && self.objects[h.index].is_some()
    }

    /// How many own properties a live object has.
    pub fn prop_count(&self, h: Handle) -> (r: usize)
        requires
            live(self@, h),
        ensures
            r == gobj(self@, h).properties.len(),
    {
        match &self.objects[h.index] {
            Some(ob) => ob.properties.len(),
            None => 0,
        }
    }

    /// A copy of the name of property `i` of a live object.
    pub fn prop_name(&self, h: Handle, i: usize) -> (r: String)
        requires
            live(self@, h),
            i < gobj(self@, h).properties.len(),
        ensures
            r@ == gobj(self@, h).properties[i as int].name,
    {
        match &self.objects[h.index] {
            Some(ob) => ob.properties[i].name.clone(),
            None => String::new(),
        }
    }

    /// A copy of the attribute bits of property `i` of a live object.
    pub fn prop_attributes(&self, h: Handle, i: usize) -> (r: AttributeSet)
        requires
            live(self@, h),
            i < gobj(self@, h).properties.len(),
        ensures
            r == gobj(self@, h).properties[i as int].slot.attributes,
    {
        match &self.objects[h.index] {
            Some(ob) => ob.properties[i].slot.attributes,
            None => AttributeSet::empty(),
        }
    }

    /// The prototype link of a live object.
    pub fn proto_of(&self, h: Handle) -> (r: Option<Handle>)
        requires
            live(self@, h),
        ensures
            r == gobj(self@, h).prototype,
    {
        match &self.objects[h.index] {
            Some(ob) => ob.prototype,
            None => None,
        }
    }

    /// Finds the position of the own property `name` of a live object.
    pub fn find_own(&self, h: Handle, name: &String) -> (r: Option<usize>)
        requires
            live(self@, h),
            heap_wf(self@),
        ensures
            match r {
                Some(i) => {
                    let props = gobj(self@, h).properties;
                    crate::object::has_prop(props, name@) && i < props.len()
                        && props[i as int].name == name@
                        && crate::object::prop_index(props, name@) == i as int
                },
                None => !crate::object::has_prop(gobj(self@, h).properties, name@),
            },
    {
        match &self.objects[h.index] {
            Some(ob) => ob.find_own(name),
            None => None,
        }
    }

    /// A copy of property `i` of a live object, equal to the stored slot.
    pub fn slot_at(&self, h: Handle, i: usize) -> (r: Slot)
        requires
            live(self@, h),
            i < gobj(self@, h).properties.len(),
        ensures
            r@ == gobj(self@, h).properties[i as int].slot,
    {
        match &self.objects[h.index] {
            Some(ob) => ob.properties[i].slot.duplicate(),
            None => Slot {
                attributes: AttributeSet::empty(),
                kind: SlotKind::Data(Value::Undefined),
            },
        }
    }

    /// The fixed blur-filter fields of a live object, if it is one.
    pub fn blur_fields(&self, h: Handle) -> (r: Option<(i32, i32, i32)>)
        requires
            live(self@, h),
        ensures
            match gobj(self@, h).kind {
                GKind::BlurFilter { blur_x, blur_y, quality } => r == Some(
                    (blur_x, blur_y, quality),
                ),
                _ => r is None,
            },
    {
        match &self.objects[h.index] {
            Some(ob) => match &ob.kind {
                ObjectKind::BlurFilter { blur_x, blur_y, quality } => Some(
                    (*blur_x, *blur_y, *quality),
                ),
                _ => None,
            },
            None => None,
        }
    }

    /// The native body and construction tag of a live function object.
    pub fn function_body(&self, h: Handle) -> (r: Option<(NativeFunction, ConstructKind)>)
        requires
            live(self@, h),
        ensures
            match gobj(self@, h).kind {
                GKind::Function { body, makes } => r matches Some(p) && p.0@ == body && p.1
                    == makes,
                _ => r is None,
            },
    {
        match &self.objects[h.index] {
            Some(ob) => match &ob.kind {
                ObjectKind::Function { body, makes } => Some((body.duplicate(), *makes)),
                _ => None,
            },
            None => None,
        }
    }

    /// Overwrites property `i` of object `h` with the data value `v`,
    /// keeping its name and attribute bits.
    pub fn overwrite_data(&mut self, m: &Mutation, h: Handle, i: usize, v: Value)
        requires
            old(self).writable(m),
            live(old(self)@, h),
            i < gobj(old(self)@, h).properties.len(),
        ensures
            final(self)@ == with_data_at(old(self)@, h, i as int, v@),
            final(self).epoch == old(self).epoch,
            final(self).cap_open,
    {
        let entry = &mut self.objects[h.index];
        if let Some(ob) = entry {
            let p = &mut ob.properties[i];
            p.slot.kind = SlotKind::Data(v);
        }
        proof {
            assert(self@ =~~= with_data_at(old(self)@, h, i as int, v@));
        }
    }

    /// Replaces property `i` of object `h` wholesale, keeping its name: the
    /// privileged force-set path for an existing property.
    pub fn replace_slot(&mut self, m: &Mutation, h: Handle, i: usize, slot: Slot)
        requires
            old(self).writable(m),
            live(old(self)@, h),
            i < gobj(old(self)@, h).properties.len(),
        ensures
            final(self)@ == with_slot_at(old(self)@, h, i as int, slot@),
            final(self).epoch == old(self).epoch,
            final(self).cap_open,
    {
        let ghost gslot = slot@;
        let entry = &mut self.objects[h.index];
        if let Some(ob) = entry {
            let p = &mut ob.properties[i];
            p.slot = slot;
        }
        proof {
            assert(self@ =~~= with_slot_at(old(self)@, h, i as int, gslot));
        }
    }

    /// Appends a fresh own property to object `h`.
    pub fn push_slot(&mut self, m: &Mutation, h: Handle, name: String, slot: Slot)
        requires
            old(self).writable(m),
            live(old(self)@, h),
        ensures
            final(self)@ == with_pushed_slot(old(self)@, h, name@, slot@),
            final(self).epoch == old(self).epoch,
            final(self).cap_open,
    {
        let ghost gname = name@;
        let ghost gslot = slot@;
        let entry = &mut self.objects[h.index];
        if let Some(ob) = entry {
            ob.properties.push(Property { name, slot });
        }
        proof {
            assert(self@ =~~= with_pushed_slot(old(self)@, h, gname, gslot));
        }
    }

    /// Removes own property `i` of object `h`, keeping the order of the
    /// remaining properties.
    pub fn remove_prop(&mut self, m: &Mutation, h: Handle, i: usize)
        requires
            old(self).writable(m),
            live(old(self)@, h),
            i < gobj(old(self)@, h).properties.len(),
        ensures
            final(self)@ == without_prop_at(old(self)@, h, i as int),
            final(self).epoch == old(self).epoch,
            final(self).cap_open,
    {
        let entry = &mut self.objects[h.index];
        if let Some(ob) = entry {
            let _ = ob.properties.remove(i);
        }
        proof {
            assert(self@ =~~= without_prop_at(old(self)@, h, i as int));
        }
    }

    /// Replaces the prototype link of object `h`: the write path of
    /// script-level prototype tampering.
    pub fn set_prototype(&mut self, m: &Mutation, h: Handle, proto: Option<Handle>)
        requires
            old(self).writable(m),
            live(old(self)@, h),
        ensures
            final(self)@ == with_proto(old(self)@, h, proto),
            final(self).epoch == old(self).epoch,
            final(self).cap_open,
    {
        let ghost gproto = proto;
        let entry = &mut self.objects[h.index];
        if let Some(ob) = entry {
            ob.prototype = proto;
        }
        proof {
            assert(self@ =~~= with_proto(old(self)@, h, gproto));
        }
    }

    /// Replaces the kind discriminator of object `h` (the write path of the
    /// native-extension field setters).
    pub fn set_kind(&mut self, m: &Mutation, h: Handle, kind: ObjectKind)
        requires
            old(self).writable(m),
            live(old(self)@, h),
        ensures
            final(self)@ == with_kind(old(self)@, h, kind@),
            final(self).epoch == old(self).epoch,
            final(self).cap_open,
    {
        let ghost gkind = kind@;
        let entry = &mut self.objects[h.index];
        if let Some(ob) = entry {
            ob.kind = kind;
        }
        proof {
            assert(self@ =~~= with_kind(old(self)@, h, gkind));
        }
    }
}

/// The heap with the prototype link of object `h` replaced (script-level
/// tampering can rewire chains, including into cycles; the dispatch
/// protocol's traversal bound is what keeps that safe).
pub open spec fn with_proto(heap: Seq<Option<GObject>>, h: Handle, proto: Option<Handle>) -> Seq<
    Option<GObject>,
> {
    let o = gobj(heap, h);
    with_obj(heap, h, GObject { prototype: proto, ..o })
}

/// Replacing a prototype link leaves every property table unchanged.
pub proof fn lemma_wf_with_proto(heap: Seq<Option<GObject>>, h: Handle, proto: Option<Handle>)
    requires
        heap_wf(heap),
        live(heap, h),
    ensures
        heap_wf(with_proto(heap, h, proto)),
{
    let heap2 = with_proto(heap, h, proto);
    assert forall|j: int| 0 <= j < heap2.len() && heap2[j] is Some implies props_wf(
        #[trigger] heap2[j].unwrap().properties,
    ) by {
        if j == h.index {
            assert(heap2[j].unwrap().properties == gobj(heap, h).properties);
        }
    }
}

/// Overwriting a slot in place keeps the property names, so distinctness is
/// kept.
pub proof fn lemma_wf_with_data_at(heap: Seq<Option<GObject>>, h: Handle, i: int, v: GValue)
    requires
        heap_wf(heap),
        live(heap, h),
        0 <= i < gobj(heap, h).properties.len(),
    ensures
        heap_wf(with_data_at(heap, h, i, v)),
{
    let heap2 = with_data_at(heap, h, i, v);
    assert forall|j: int| 0 <= j < heap2.len() && heap2[j] is Some implies props_wf(
        #[trigger] heap2[j].unwrap().properties,
    ) by {
        if j == h.index {
            let p0 = gobj(heap, h).properties;
            let p1 = heap2[j].unwrap().properties;
            assert(forall|k: int| 0 <= k < p1.len() ==> p1[k].name == #[trigger] p0[k].name);
        }
    }
}

/// The force-set of an existing slot keeps the property names.
pub proof fn lemma_wf_with_slot_at(heap: Seq<Option<GObject>>, h: Handle, i: int, slot: GSlot)
    requires
        heap_wf(heap),
        live(heap, h),
        0 <= i < gobj(heap, h).properties.len(),
    ensures
        heap_wf(with_slot_at(heap, h, i, slot)),
{
    let heap2 = with_slot_at(heap, h, i, slot);
    assert forall|j: int| 0 <= j < heap2.len() && heap2[j] is Some implies props_wf(
        #[trigger] heap2[j].unwrap().properties,
    ) by {
        if j == h.index {
            let p0 = gobj(heap, h).properties;
            let p1 = heap2[j].unwrap().properties;
            assert(forall|k: int| 0 <= k < p1.len() ==> p1[k].name == #[trigger] p0[k].name);
        }
    }
}

/// Appending a property under a fresh name keeps distinctness.
pub proof fn lemma_wf_with_pushed_slot(
    heap: Seq<Option<GObject>>,
    h: Handle,
    name: Seq<char>,
    slot: GSlot,
)
    requires
        heap_wf(heap),
        live(heap, h),
        !crate::object::has_prop(gobj(heap, h).properties, name),
    ensures
        heap_wf(with_pushed_slot(heap, h, name, slot)),
{
    let heap2 = with_pushed_slot(heap, h, name, slot);
    assert forall|j: int| 0 <= j < heap2.len() && heap2[j] is Some implies props_wf(
        #[trigger] heap2[j].unwrap().properties,
    ) by {
        if j == h.index {
            let p0 = gobj(heap, h).properties;
            let p1 = heap2[j].unwrap().properties;
            assert forall|a: int, b: int| 0 <= a < b < p1.len() implies p1[a].name != p1[b].name by {
                if b < p0.len() {
                } else {
                    assert(p1[a].name == p0[a].name);
                }
            }
        }
    }
}

/// Removing a property keeps distinctness of the remaining names.
pub proof fn lemma_wf_without_prop_at(heap: Seq<Option<GObject>>, h: Handle, i: int)
    requires
        heap_wf(heap),
        live(heap, h),
        0 <= i < gobj(heap, h).properties.len(),
    ensures
        heap_wf(without_prop_at(heap, h, i)),
{
    let heap2 = without_prop_at(heap, h, i);
    assert forall|j: int| 0 <= j < heap2.len() && heap2[j] is Some implies props_wf(
        #[trigger] heap2[j].unwrap().properties,
    ) by {
        if j == h.index {
            let p0 = gobj(heap, h).properties;
            let p1 = heap2[j].unwrap().properties;
            assert forall|a: int, b: int| 0 <= a < b < p1.len() implies p1[a].name != p1[b].name by {
                let a0 = if a < i {
                    a
                } else {
                    a + 1
                };
                let b0 = if b < i {
                    b
                } else {
                    b + 1
                };
                assert(p1[a].name == p0[a0].name);
                assert(p1[b].name == p0[b0].name);
            }
        }
    }
}

/// Replacing an object's kind leaves every property table unchanged.
pub proof fn lemma_wf_with_kind(heap: Seq<Option<GObject>>, h: Handle, kind: GKind)
    requires
        heap_wf(heap),
        live(heap, h),
    ensures
        heap_wf(with_kind(heap, h, kind)),
{
    let heap2 = with_kind(heap, h, kind);
    assert forall|j: int| 0 <= j < heap2.len() && heap2[j] is Some implies props_wf(
        #[trigger] heap2[j].unwrap().properties,
    ) by {
        if j == h.index {
            assert(heap2[j].unwrap().properties == gobj(heap, h).properties);
        }
    }
}

impl Slot {
    /// An explicit deep copy whose result is known to equal the source.
    pub fn duplicate(&self) -> (r: Slot)
        ensures
            r == *self,
    {
        Slot {
            attributes: self.attributes,
            kind: match &self.kind {
                SlotKind::Data(v) => SlotKind::Data(v.duplicate()),
                SlotKind::Accessor { getter, setter } => SlotKind::Accessor {
                    getter: *getter,
                    setter: *setter,
                },
            },
        }
    }
}

impl NativeFunction {
    /// An explicit deep copy whose result is known to equal the source.
    pub fn duplicate(&self) -> (r: NativeFunction)
        ensures
            r == *self,
    {
        match self {
            NativeFunction::BlurConstructor => NativeFunction::BlurConstructor,
            NativeFunction::BlurClone => NativeFunction::BlurClone,
            NativeFunction::GetBlurX => NativeFunction::GetBlurX,
            NativeFunction::SetBlurX => NativeFunction::SetBlurX,
            NativeFunction::GetBlurY => NativeFunction::GetBlurY,
            NativeFunction::SetBlurY => NativeFunction::SetBlurY,
            NativeFunction::GetQuality => NativeFunction::GetQuality,
            NativeFunction::SetQuality => NativeFunction::SetQuality,
            NativeFunction::ReturnValue(v) => NativeFunction::ReturnValue(v.duplicate()),
            NativeFunction::ThrowValue(v) => NativeFunction::ThrowValue(v.duplicate()),
            NativeFunction::GetDoubled(n) => NativeFunction::GetDoubled(n.clone()),
            NativeFunction::DeleteAndReturn(h, n, v) => NativeFunction::DeleteAndReturn(
                *h,
                n.clone(),
                v.duplicate(),
            ),
        }
    }
}

} // verus!
