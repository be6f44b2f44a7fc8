//! Property declarations (the newer, field based form) and the references
//! they hold.
use vstd::prelude::*;
use crate::index::{
    IndexVisitor, PackageIndex, copy_index_list, lemma_add_contains, index_list_refs, index_opt_refs, lemma_walk_empty,
    lemma_walk_out_append, lemma_walk_state_append, on_index, on_index_list, on_opt_index,
    walk_out, walk_state,
};
use crate::strings::copy_opt_string;

verus! {

broadcast use lemma_walk_state_append, lemma_walk_out_append;

/// The fields that every property declaration holds.
pub struct FGenericProperty {
    pub name: String,
    pub flags: u32,
    pub array_dim: i32,
    pub element_size: i32,
    pub property_flags: u64,
    pub rep_index: u16,
    pub rep_notify_func: String,
    pub blueprint_replication_condition: u8,
    pub serialized_type: Option<String>,
}

/// A copy of a property declaration's common fields.
pub fn duplicate_fgeneric(g: &FGenericProperty) -> (h: FGenericProperty)
    ensures
        h == *g,
{
    FGenericProperty {
        name: g.name.clone(),
        flags: g.flags,
        array_dim: g.array_dim,
        element_size: g.element_size,
        property_flags: g.property_flags,
        rep_index: g.rep_index,
        rep_notify_func: g.rep_notify_func.clone(),
        blueprint_replication_condition: g.blueprint_replication_condition,
        serialized_type: copy_opt_string(&g.serialized_type),
    }
}

/// A property declaration of a struct or function.
pub enum FProperty {
    FGenericProperty { generic_property: FGenericProperty },
    FEnumProperty { generic_property: FGenericProperty, enum_value: PackageIndex, underlying_prop: Box<FProperty> },
    FArrayProperty { generic_property: FGenericProperty, inner: Box<FProperty> },
    FSetProperty { generic_property: FGenericProperty, element_prop: Box<FProperty> },
    FObjectProperty { generic_property: FGenericProperty, property_class: PackageIndex },
    FSoftObjectProperty { generic_property: FGenericProperty, property_class: PackageIndex },
    FClassProperty { generic_property: FGenericProperty, property_class: PackageIndex, meta_class: PackageIndex },
    FSoftClassProperty { generic_property: FGenericProperty, property_class: PackageIndex, meta_class: PackageIndex },
    FDelegateProperty { generic_property: FGenericProperty, signature_function: PackageIndex },
    FMulticastDelegateProperty { generic_property: FGenericProperty, signature_function: PackageIndex },
    FMulticastInlineDelegateProperty { generic_property: FGenericProperty, signature_function: PackageIndex },
    FInterfaceProperty { generic_property: FGenericProperty, interface_class: PackageIndex },
    FMapProperty { generic_property: FGenericProperty, key_prop: Box<FProperty>, value_prop: Box<FProperty> },
    FBoolProperty { generic_property: FGenericProperty, field_size: u8, byte_offset: u8, byte_mask: u8, field_mask: u8, native_bool: bool, value: bool },
    FByteProperty { generic_property: FGenericProperty, enum_value: PackageIndex },
    FStructProperty { generic_property: FGenericProperty, struct_value: PackageIndex },
    FNumericProperty { generic_property: FGenericProperty },
}

/// The references that `on_fprop` shows, in the order it shows them.
pub open spec fn fprop_refs(x: FProperty) -> Seq<i32>
    decreases x,
{
    match x {
        FProperty::FGenericProperty { .. } => Seq::empty(),
        FProperty::FEnumProperty { enum_value, underlying_prop, .. } => seq![enum_value.index] + fprop_refs(*underlying_prop),
        FProperty::FArrayProperty { inner, .. } => fprop_refs(*inner),
        FProperty::FSetProperty { element_prop, .. } => fprop_refs(*element_prop),
        FProperty::FObjectProperty { property_class, .. } => seq![property_class.index],
        FProperty::FSoftObjectProperty { property_class, .. } => seq![property_class.index],
        FProperty::FClassProperty { property_class, meta_class, .. } => seq![property_class.index] + seq![meta_class.index],
        FProperty::FSoftClassProperty { property_class, meta_class, .. } => seq![property_class.index] + seq![meta_class.index],
        FProperty::FDelegateProperty { signature_function, .. } => seq![signature_function.index],
        FProperty::FMulticastDelegateProperty { signature_function, .. } => seq![signature_function.index],
        FProperty::FMulticastInlineDelegateProperty { signature_function, .. } => seq![signature_function.index],
        FProperty::FInterfaceProperty { interface_class, .. } => seq![interface_class.index],
        FProperty::FMapProperty { key_prop, value_prop, .. } => fprop_refs(*key_prop) + fprop_refs(*value_prop),
        FProperty::FBoolProperty { .. } => Seq::empty(),
        FProperty::FByteProperty { enum_value, .. } => seq![enum_value.index],
        FProperty::FStructProperty { struct_value, .. } => seq![struct_value.index],
        FProperty::FNumericProperty { .. } => Seq::empty(),
    }
}

/// `a` and `b` differ at most in the references that `on_fprop` shows.
pub open spec fn same_fprop_shape(a: FProperty, b: FProperty) -> bool
    decreases a,
{
    match (a, b) {
        (FProperty::FGenericProperty { generic_property: generic_property_a }, FProperty::FGenericProperty { generic_property: generic_property_b }) => generic_property_a == generic_property_b,
        (FProperty::FEnumProperty { generic_property: generic_property_a, underlying_prop: underlying_prop_a, .. }, FProperty::FEnumProperty { generic_property: generic_property_b, underlying_prop: underlying_prop_b, .. }) => generic_property_a == generic_property_b && same_fprop_shape(*underlying_prop_a, *underlying_prop_b),
        (FProperty::FArrayProperty { generic_property: generic_property_a, inner: inner_a }, FProperty::FArrayProperty { generic_property: generic_property_b, inner: inner_b }) => generic_property_a == generic_property_b && same_fprop_shape(*inner_a, *inner_b),
        (FProperty::FSetProperty { generic_property: generic_property_a, element_prop: element_prop_a }, FProperty::FSetProperty { generic_property: generic_property_b, element_prop: element_prop_b }) => generic_property_a == generic_property_b && same_fprop_shape(*element_prop_a, *element_prop_b),
        (FProperty::FObjectProperty { generic_property: generic_property_a, .. }, FProperty::FObjectProperty { generic_property: generic_property_b, .. }) => generic_property_a == generic_property_b,
        (FProperty::FSoftObjectProperty { generic_property: generic_property_a, .. }, FProperty::FSoftObjectProperty { generic_property: generic_property_b, .. }) => generic_property_a == generic_property_b,
        (FProperty::FClassProperty { generic_property: generic_property_a, .. }, FProperty::FClassProperty { generic_property: generic_property_b, .. }) => generic_property_a == generic_property_b,
        (FProperty::FSoftClassProperty { generic_property: generic_property_a, .. }, FProperty::FSoftClassProperty { generic_property: generic_property_b, .. }) => generic_property_a == generic_property_b,
        (FProperty::FDelegateProperty { generic_property: generic_property_a, .. }, FProperty::FDelegateProperty { generic_property: generic_property_b, .. }) => generic_property_a == generic_property_b,
        (FProperty::FMulticastDelegateProperty { generic_property: generic_property_a, .. }, FProperty::FMulticastDelegateProperty { generic_property: generic_property_b, .. }) => generic_property_a == generic_property_b,
        (FProperty::FMulticastInlineDelegateProperty { generic_property: generic_property_a, .. }, FProperty::FMulticastInlineDelegateProperty { generic_property: generic_property_b, .. }) => generic_property_a == generic_property_b,
        (FProperty::FInterfaceProperty { generic_property: generic_property_a, .. }, FProperty::FInterfaceProperty { generic_property: generic_property_b, .. }) => generic_property_a == generic_property_b,
        (FProperty::FMapProperty { generic_property: generic_property_a, key_prop: key_prop_a, value_prop: value_prop_a }, FProperty::FMapProperty { generic_property: generic_property_b, key_prop: key_prop_b, value_prop: value_prop_b }) => generic_property_a == generic_property_b && same_fprop_shape(*key_prop_a, *key_prop_b) && same_fprop_shape(*value_prop_a, *value_prop_b),
        (FProperty::FBoolProperty { generic_property: generic_property_a, field_size: field_size_a, byte_offset: byte_offset_a, byte_mask: byte_mask_a, field_mask: field_mask_a, native_bool: native_bool_a, value: value_a }, FProperty::FBoolProperty { generic_property: generic_property_b, field_size: field_size_b, byte_offset: byte_offset_b, byte_mask: byte_mask_b, field_mask: field_mask_b, native_bool: native_bool_b, value: value_b }) => generic_property_a == generic_property_b && field_size_a == field_size_b && byte_offset_a == byte_offset_b && byte_mask_a == byte_mask_b && field_mask_a == field_mask_b && native_bool_a == native_bool_b && value_a == value_b,
        (FProperty::FByteProperty { generic_property: generic_property_a, .. }, FProperty::FByteProperty { generic_property: generic_property_b, .. }) => generic_property_a == generic_property_b,
        (FProperty::FStructProperty { generic_property: generic_property_a, .. }, FProperty::FStructProperty { generic_property: generic_property_b, .. }) => generic_property_a == generic_property_b,
        (FProperty::FNumericProperty { generic_property: generic_property_a }, FProperty::FNumericProperty { generic_property: generic_property_b }) => generic_property_a == generic_property_b,
        _ => false,
    }
}

/// Every FProperty has its own shape.
pub proof fn lemma_fprop_refl(x: FProperty)
    ensures
        same_fprop_shape(x, x),
    decreases x,
{
    match x {
        FProperty::FEnumProperty { underlying_prop, .. } => {
            lemma_fprop_refl(*underlying_prop);
        },
        FProperty::FArrayProperty { inner, .. } => {
            lemma_fprop_refl(*inner);
        },
        FProperty::FSetProperty { element_prop, .. } => {
            lemma_fprop_refl(*element_prop);
        },
        FProperty::FMapProperty { key_prop, value_prop, .. } => {
            lemma_fprop_refl(*key_prop);
            lemma_fprop_refl(*value_prop);
        },
        _ => {},
    }
}

/// Shapes that agree in turn agree.
pub proof fn lemma_fprop_trans(a: FProperty, b: FProperty, c: FProperty)
    requires
        same_fprop_shape(a, b),
        same_fprop_shape(b, c),
    ensures
        same_fprop_shape(a, c),
    decreases a,
{
    match (a, b, c) {
        (FProperty::FEnumProperty { underlying_prop: underlying_prop_a, .. }, FProperty::FEnumProperty { underlying_prop: underlying_prop_b, .. }, FProperty::FEnumProperty { underlying_prop: underlying_prop_c, .. }) => {
            lemma_fprop_trans(*underlying_prop_a, *underlying_prop_b, *underlying_prop_c);
        },
        (FProperty::FArrayProperty { inner: inner_a, .. }, FProperty::FArrayProperty { inner: inner_b, .. }, FProperty::FArrayProperty { inner: inner_c, .. }) => {
            lemma_fprop_trans(*inner_a, *inner_b, *inner_c);
        },
        (FProperty::FSetProperty { element_prop: element_prop_a, .. }, FProperty::FSetProperty { element_prop: element_prop_b, .. }, FProperty::FSetProperty { element_prop: element_prop_c, .. }) => {
            lemma_fprop_trans(*element_prop_a, *element_prop_b, *element_prop_c);
        },
        (FProperty::FMapProperty { key_prop: key_prop_a, value_prop: value_prop_a, .. }, FProperty::FMapProperty { key_prop: key_prop_b, value_prop: value_prop_b, .. }, FProperty::FMapProperty { key_prop: key_prop_c, value_prop: value_prop_c, .. }) => {
            lemma_fprop_trans(*key_prop_a, *key_prop_b, *key_prop_c);
            lemma_fprop_trans(*value_prop_a, *value_prop_b, *value_prop_c);
        },
        _ => {},
    }
}

/// Shows `func` the classes, enums, structs and functions that a property declaration refers to, in order.
pub fn on_fprop<V: IndexVisitor>(x: &mut FProperty, func: &mut V)
    ensures
        same_fprop_shape(*old(x), *final(x)),
        fprop_refs(*final(x)) == walk_out::<V>(old(func).visit_state(), fprop_refs(*old(x))),
        final(func).visit_state() == walk_state::<V>(old(func).visit_state(), fprop_refs(*old(x))),
    decreases *old(x),
{
    proof {
        lemma_fprop_refl(*x);
    }
    match x {
        FProperty::FEnumProperty { enum_value, underlying_prop, .. } => {
            on_index(enum_value, func);
            on_fprop(&mut **underlying_prop, func);
        },
        FProperty::FArrayProperty { inner, .. } => {
            on_fprop(&mut **inner, func);
        },
        FProperty::FSetProperty { element_prop, .. } => {
            on_fprop(&mut **element_prop, func);
        },
        FProperty::FObjectProperty { property_class, .. } => {
            on_index(property_class, func);
        },
        FProperty::FSoftObjectProperty { property_class, .. } => {
            on_index(property_class, func);
        },
        FProperty::FClassProperty { property_class, meta_class, .. } => {
            on_index(property_class, func);
            on_index(meta_class, func);
        },
        FProperty::FSoftClassProperty { property_class, meta_class, .. } => {
            on_index(property_class, func);
            on_index(meta_class, func);
        },
        FProperty::FDelegateProperty { signature_function, .. } => {
            on_index(signature_function, func);
        },
        FProperty::FMulticastDelegateProperty { signature_function, .. } => {
            on_index(signature_function, func);
        },
        FProperty::FMulticastInlineDelegateProperty { signature_function, .. } => {
            on_index(signature_function, func);
        },
        FProperty::FInterfaceProperty { interface_class, .. } => {
            on_index(interface_class, func);
        },
        FProperty::FMapProperty { key_prop, value_prop, .. } => {
            on_fprop(&mut **key_prop, func);
            on_fprop(&mut **value_prop, func);
        },
        FProperty::FByteProperty { enum_value, .. } => {
            on_index(enum_value, func);
        },
        FProperty::FStructProperty { struct_value, .. } => {
            on_index(struct_value, func);
        },
        _ => {
            proof {
                lemma_walk_empty::<V>(func.visit_state());
            }
        },
    }
}

/// A copy of `x`.
pub fn duplicate_fprop(x: &FProperty) -> (y: FProperty)
    ensures
        same_fprop_shape(*x, y),
        fprop_refs(y) == fprop_refs(*x),
    decreases *x,
{
    match x {
        FProperty::FGenericProperty { generic_property } => FProperty::FGenericProperty {
            generic_property: duplicate_fgeneric(generic_property),
        },
        FProperty::FEnumProperty { generic_property, enum_value, underlying_prop } => FProperty::FEnumProperty {
            generic_property: duplicate_fgeneric(generic_property),
            enum_value: *enum_value,
            underlying_prop: Box::new(duplicate_fprop(&**underlying_prop)),
        },
        FProperty::FArrayProperty { generic_property, inner } => FProperty::FArrayProperty {
            generic_property: duplicate_fgeneric(generic_property),
            inner: Box::new(duplicate_fprop(&**inner)),
        },
        FProperty::FSetProperty { generic_property, element_prop } => FProperty::FSetProperty {
            generic_property: duplicate_fgeneric(generic_property),
            element_prop: Box::new(duplicate_fprop(&**element_prop)),
        },
        FProperty::FObjectProperty { generic_property, property_class } => FProperty::FObjectProperty {
            generic_property: duplicate_fgeneric(generic_property),
            property_class: *property_class,
        },
        FProperty::FSoftObjectProperty { generic_property, property_class } => FProperty::FSoftObjectProperty {
            generic_property: duplicate_fgeneric(generic_property),
            property_class: *property_class,
        },
        FProperty::FClassProperty { generic_property, property_class, meta_class } => FProperty::FClassProperty {
            generic_property: duplicate_fgeneric(generic_property),
            property_class: *property_class,
            meta_class: *meta_class,
        },
        FProperty::FSoftClassProperty { generic_property, property_class, meta_class } => FProperty::FSoftClassProperty {
            generic_property: duplicate_fgeneric(generic_property),
            property_class: *property_class,
            meta_class: *meta_class,
        },
        FProperty::FDelegateProperty { generic_property, signature_function } => FProperty::FDelegateProperty {
            generic_property: duplicate_fgeneric(generic_property),
            signature_function: *signature_function,
        },
        FProperty::FMulticastDelegateProperty { generic_property, signature_function } => FProperty::FMulticastDelegateProperty {
            generic_property: duplicate_fgeneric(generic_property),
            signature_function: *signature_function,
        },
        FProperty::FMulticastInlineDelegateProperty { generic_property, signature_function } => FProperty::FMulticastInlineDelegateProperty {
            generic_property: duplicate_fgeneric(generic_property),
            signature_function: *signature_function,
        },
        FProperty::FInterfaceProperty { generic_property, interface_class } => FProperty::FInterfaceProperty {
            generic_property: duplicate_fgeneric(generic_property),
            interface_class: *interface_class,
        },
        FProperty::FMapProperty { generic_property, key_prop, value_prop } => FProperty::FMapProperty {
            generic_property: duplicate_fgeneric(generic_property),
            key_prop: Box::new(duplicate_fprop(&**key_prop)),
            value_prop: Box::new(duplicate_fprop(&**value_prop)),
        },
        FProperty::FBoolProperty { generic_property, field_size, byte_offset, byte_mask, field_mask, native_bool, value } => FProperty::FBoolProperty {
            generic_property: duplicate_fgeneric(generic_property),
            field_size: *field_size,
            byte_offset: *byte_offset,
            byte_mask: *byte_mask,
            field_mask: *field_mask,
            native_bool: *native_bool,
            value: *value,
        },
        FProperty::FByteProperty { generic_property, enum_value } => FProperty::FByteProperty {
            generic_property: duplicate_fgeneric(generic_property),
            enum_value: *enum_value,
        },
        FProperty::FStructProperty { generic_property, struct_value } => FProperty::FStructProperty {
            generic_property: duplicate_fgeneric(generic_property),
            struct_value: *struct_value,
        },
        FProperty::FNumericProperty { generic_property } => FProperty::FNumericProperty {
            generic_property: duplicate_fgeneric(generic_property),
        },
    }
}
/// The references of a list of `FProperty`, in order.
pub open spec fn fprop_list_refs(s: Seq<FProperty>) -> Seq<i32>
    decreases s,
{
    if s.len() == 0 {
        Seq::empty()
    } else {
        fprop_list_refs(s.drop_last()) + fprop_refs(s.last())
    }
}

/// Two lists of `FProperty` differ at most in their references.
pub open spec fn same_fprop_list_shape(a: Seq<FProperty>, b: Seq<FProperty>) -> bool
    decreases a,
{
    &&& a.len() == b.len()
    &&& a.len() > 0 ==> same_fprop_list_shape(a.drop_last(), b.drop_last()) && same_fprop_shape(
        a.last(),
        b.last(),
    )
}

/// Every list of `FProperty` has its own shape.
pub proof fn lemma_fprop_list_refl(s: Seq<FProperty>)
    ensures
        same_fprop_list_shape(s, s),
    decreases s,
{
    if s.len() > 0 {
        lemma_fprop_list_refl(s.drop_last());
        lemma_fprop_refl(s.last());
    }
}

/// List shapes that agree in turn agree.
pub proof fn lemma_fprop_list_trans(a: Seq<FProperty>, b: Seq<FProperty>, c: Seq<FProperty>)
    requires
        same_fprop_list_shape(a, b),
        same_fprop_list_shape(b, c),
    ensures
        same_fprop_list_shape(a, c),
    decreases a,
{
    if a.len() > 0 {
        lemma_fprop_list_trans(a.drop_last(), b.drop_last(), c.drop_last());
        lemma_fprop_trans(a.last(), b.last(), c.last());
    }
}

/// Shows `func` the references of each element of `list`, in order.
pub fn on_fprop_list<V: IndexVisitor>(list: &mut Vec<FProperty>, func: &mut V)
    ensures
        same_fprop_list_shape(old(list)@, final(list)@),
        fprop_list_refs(final(list)@) == walk_out::<V>(old(func).visit_state(), fprop_list_refs(old(list)@)),
        final(func).visit_state() == walk_state::<V>(old(func).visit_state(), fprop_list_refs(old(list)@)),
    decreases *old(list),
{
    let ghost old_list = *list;
    let ghost orig = list@;
    let ghost v0 = func.visit_state();
    let mut i: usize = 0;
    proof {
        lemma_walk_empty::<V>(v0);
        assert(orig.take(0) =~= Seq::<FProperty>::empty());
    }
    while i < list.len()
        invariant
            i <= list@.len(),
            list@.len() == orig.len(),
            forall|j: int| i <= j < orig.len() ==> list@[j] == orig[j],
            same_fprop_list_shape(orig.take(i as int), list@.take(i as int)),
            fprop_list_refs(list@.take(i as int)) == walk_out::<V>(v0, fprop_list_refs(orig.take(i as int))),
            func.visit_state() == walk_state::<V>(v0, fprop_list_refs(orig.take(i as int))),
            old_list == *old(list),
            orig == old_list@,
        decreases orig.len() - i,
    {
        proof {
            assert(decreases_to!(old_list => old_list@));
            assert(decreases_to!(old_list@ => old_list@[i as int]));
        }
        let ghost prev = list@;
        on_fprop(&mut list[i], func);
        proof {
            assert(list@.take(i as int) =~= prev.take(i as int));
            assert(orig.take(i + 1).drop_last() =~= orig.take(i as int));
            assert(list@.take(i + 1).drop_last() =~= list@.take(i as int));
            assert(orig.take(i + 1).last() == orig[i as int]);
            assert(list@.take(i + 1).last() == list@[i as int]);
            assert(fprop_list_refs(orig.take(i + 1)) == fprop_list_refs(orig.take(i as int))
                + fprop_refs(orig[i as int]));
            assert(fprop_list_refs(list@.take(i + 1)) == fprop_list_refs(list@.take(i as int))
                + fprop_refs(list@[i as int]));
        }
        i = i + 1;
    }
    assert(orig.take(orig.len() as int) =~= orig);
    assert(list@.take(orig.len() as int) =~= list@);
}

/// A copy of a list of `FProperty`.
pub fn duplicate_fprop_list(list: &Vec<FProperty>) -> (copy: Vec<FProperty>)
    ensures
        same_fprop_list_shape(list@, copy@),
        fprop_list_refs(copy@) == fprop_list_refs(list@),
    decreases *list,
{
    let mut copy: Vec<FProperty> = Vec::new();
    let mut i: usize = 0;
    proof {
        assert(list@.take(0) =~= Seq::<FProperty>::empty());
    }
    while i < list.len()
        invariant
            i <= list@.len(),
            copy@.len() == i,
            same_fprop_list_shape(list@.take(i as int), copy@),
            fprop_list_refs(copy@) == fprop_list_refs(list@.take(i as int)),
        decreases list@.len() - i,
    {
        proof {
            assert(decreases_to!(*list => list@));
            assert(decreases_to!(list@ => list@[i as int]));
        }
        let ghost prev = copy@;
        let item = duplicate_fprop(&list[i]);
        copy.push(item);
        proof {
            assert(copy@.drop_last() =~= prev);
            assert(list@.take(i + 1).drop_last() =~= list@.take(i as int));
            assert(list@.take(i + 1).last() == list@[i as int]);
        }
        i = i + 1;
    }
    assert(list@.take(list@.len() as int) =~= list@);
    copy
}

/// The package references that a property declaration holds in its own
/// fields: the enum, class, meta class, signature function, interface or
/// struct it names.
pub open spec fn fprop_own_indices(x: FProperty) -> Seq<i32> {
    match x {
        FProperty::FEnumProperty { enum_value, .. } => seq![enum_value.index],
        FProperty::FObjectProperty { property_class, .. } => seq![property_class.index],
        FProperty::FSoftObjectProperty { property_class, .. } => seq![property_class.index],
        FProperty::FClassProperty { property_class, meta_class, .. } => seq![property_class.index] + seq![meta_class.index],
        FProperty::FSoftClassProperty { property_class, meta_class, .. } => seq![property_class.index] + seq![meta_class.index],
        FProperty::FDelegateProperty { signature_function, .. } => seq![signature_function.index],
        FProperty::FMulticastDelegateProperty { signature_function, .. } => seq![signature_function.index],
        FProperty::FMulticastInlineDelegateProperty { signature_function, .. } => seq![signature_function.index],
        FProperty::FInterfaceProperty { interface_class, .. } => seq![interface_class.index],
        FProperty::FByteProperty { enum_value, .. } => seq![enum_value.index],
        FProperty::FStructProperty { struct_value, .. } => seq![struct_value.index],
        _ => Seq::empty(),
    }
}

/// The property declarations within a declaration: an enum's underlying
/// property, an array's or a set's element, a map's key and value.
pub open spec fn fprop_parts(x: FProperty) -> Seq<FProperty> {
    match x {
        FProperty::FEnumProperty { underlying_prop, .. } => seq![*underlying_prop],
        FProperty::FArrayProperty { inner, .. } => seq![*inner],
        FProperty::FSetProperty { element_prop, .. } => seq![*element_prop],
        FProperty::FMapProperty { key_prop, value_prop, .. } => seq![*key_prop, *value_prop],
        _ => Seq::empty(),
    }
}

/// `on_fprop` shows its visitor every reference a property declaration
/// holds: each one of its own fields, and each one held by a declaration
/// within it.
pub proof fn lemma_on_fprop_covers(x: FProperty)
    ensures
        forall|i: i32| #[trigger] fprop_own_indices(x).contains(i) ==> fprop_refs(x).contains(i),
        forall|p: FProperty, i: i32|
            #[trigger] fprop_parts(x).contains(p) && #[trigger] fprop_refs(p).contains(i) ==> fprop_refs(x).contains(i),
{
    broadcast use lemma_add_contains;

    assert forall|i: i32| #[trigger] fprop_own_indices(x).contains(i) implies fprop_refs(x).contains(i) by {
        match x {
            FProperty::FGenericProperty { .. } => {
                assert(fprop_refs(x) == Seq::<i32>::empty());
            },
            FProperty::FEnumProperty { enum_value, underlying_prop, .. } => {
                assert(fprop_refs(x) == seq![enum_value.index] + fprop_refs(*underlying_prop));
            },
            FProperty::FArrayProperty { inner, .. } => {
                assert(fprop_refs(x) == fprop_refs(*inner));
            },
            FProperty::FSetProperty { element_prop, .. } => {
                assert(fprop_refs(x) == fprop_refs(*element_prop));
            },
            FProperty::FObjectProperty { property_class, .. } => {
                assert(fprop_refs(x) == seq![property_class.index]);
            },
            FProperty::FSoftObjectProperty { property_class, .. } => {
                assert(fprop_refs(x) == seq![property_class.index]);
            },
            FProperty::FClassProperty { property_class, meta_class, .. } => {
                assert(fprop_refs(x) == seq![property_class.index] + seq![meta_class.index]);
            },
            FProperty::FSoftClassProperty { property_class, meta_class, .. } => {
                assert(fprop_refs(x) == seq![property_class.index] + seq![meta_class.index]);
            },
            FProperty::FDelegateProperty { signature_function, .. } => {
                assert(fprop_refs(x) == seq![signature_function.index]);
            },
            FProperty::FMulticastDelegateProperty { signature_function, .. } => {
                assert(fprop_refs(x) == seq![signature_function.index]);
            },
            FProperty::FMulticastInlineDelegateProperty { signature_function, .. } => {
                assert(fprop_refs(x) == seq![signature_function.index]);
            },
            FProperty::FInterfaceProperty { interface_class, .. } => {
                assert(fprop_refs(x) == seq![interface_class.index]);
            },
            FProperty::FMapProperty { key_prop, value_prop, .. } => {
                assert(fprop_refs(x) == fprop_refs(*key_prop) + fprop_refs(*value_prop));
            },
            FProperty::FBoolProperty { .. } => {
                assert(fprop_refs(x) == Seq::<i32>::empty());
            },
            FProperty::FByteProperty { enum_value, .. } => {
                assert(fprop_refs(x) == seq![enum_value.index]);
            },
            FProperty::FStructProperty { struct_value, .. } => {
                assert(fprop_refs(x) == seq![struct_value.index]);
            },
            FProperty::FNumericProperty { .. } => {
                assert(fprop_refs(x) == Seq::<i32>::empty());
            },
        }
    }
    assert forall|p: FProperty, i: i32| #[trigger] fprop_parts(x).contains(p) && #[trigger] fprop_refs(p).contains(i) implies fprop_refs(x).contains(i) by {
        match x {
            FProperty::FGenericProperty { .. } => {
                assert(fprop_refs(x) == Seq::<i32>::empty());
            },
            FProperty::FEnumProperty { enum_value, underlying_prop, .. } => {
                assert(fprop_refs(x) == seq![enum_value.index] + fprop_refs(*underlying_prop));
            },
            FProperty::FArrayProperty { inner, .. } => {
                assert(fprop_refs(x) == fprop_refs(*inner));
            },
            FProperty::FSetProperty { element_prop, .. } => {
                assert(fprop_refs(x) == fprop_refs(*element_prop));
            },
            FProperty::FObjectProperty { property_class, .. } => {
                assert(fprop_refs(x) == seq![property_class.index]);
            },
            FProperty::FSoftObjectProperty { property_class, .. } => {
                assert(fprop_refs(x) == seq![property_class.index]);
            },
            FProperty::FClassProperty { property_class, meta_class, .. } => {
                assert(fprop_refs(x) == seq![property_class.index] + seq![meta_class.index]);
            },
            FProperty::FSoftClassProperty { property_class, meta_class, .. } => {
                assert(fprop_refs(x) == seq![property_class.index] + seq![meta_class.index]);
            },
            FProperty::FDelegateProperty { signature_function, .. } => {
                assert(fprop_refs(x) == seq![signature_function.index]);
            },
            FProperty::FMulticastDelegateProperty { signature_function, .. } => {
                assert(fprop_refs(x) == seq![signature_function.index]);
            },
            FProperty::FMulticastInlineDelegateProperty { signature_function, .. } => {
                assert(fprop_refs(x) == seq![signature_function.index]);
            },
            FProperty::FInterfaceProperty { interface_class, .. } => {
                assert(fprop_refs(x) == seq![interface_class.index]);
            },
            FProperty::FMapProperty { key_prop, value_prop, .. } => {
                assert(fprop_refs(x) == fprop_refs(*key_prop) + fprop_refs(*value_prop));
            },
            FProperty::FBoolProperty { .. } => {
                assert(fprop_refs(x) == Seq::<i32>::empty());
            },
            FProperty::FByteProperty { enum_value, .. } => {
                assert(fprop_refs(x) == seq![enum_value.index]);
            },
            FProperty::FStructProperty { struct_value, .. } => {
                assert(fprop_refs(x) == seq![struct_value.index]);
            },
            FProperty::FNumericProperty { .. } => {
                assert(fprop_refs(x) == Seq::<i32>::empty());
            },
        }
    }
}

/// A reference held by an element of a list is among the list's references.
pub proof fn lemma_fprops_covered(s: Seq<FProperty>, p: FProperty, i: i32)
    requires
        s.contains(p),
        fprop_refs(p).contains(i),
    ensures
        fprop_list_refs(s).contains(i),
    decreases s.len(),
{
    broadcast use lemma_add_contains;

    if s.last() != p {
        let k = choose|k: int| 0 <= k < s.len() && s[k] == p;
        assert(s.drop_last()[k] == p);
        lemma_fprops_covered(s.drop_last(), p, i);
    }
}

} // verus!
