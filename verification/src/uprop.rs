//! Property declarations (the older, object based form) and the references
//! they hold.
use vstd::prelude::*;
use crate::index::{
    Both, IndexVisitor, PackageIndex, lemma_walk_both, lemma_add_contains, copy_index_list, index_list_refs, index_opt_refs,
    lemma_walk_out_append, lemma_walk_state_append, on_index, on_index_list, on_opt_index,
    walk_out, walk_state,
};

verus! {

broadcast use lemma_walk_state_append, lemma_walk_out_append;

/// The link from a field to the next one.
pub struct UField {
    pub next: Option<PackageIndex>,
}

/// The references that `on_field` shows, in the order it shows them.
pub open spec fn ufield_refs(x: UField) -> Seq<i32>
    decreases x,
{
    index_opt_refs(x.next)
}

/// `a` and `b` differ at most in the references that `on_field` shows.
pub open spec fn same_ufield_shape(a: UField, b: UField) -> bool
    decreases a,
{
    (a.next is Some <==> b.next is Some)
}

/// Every UField has its own shape.
pub proof fn lemma_ufield_refl(x: UField)
    ensures
        same_ufield_shape(x, x),
    decreases x,
{
}

/// Shapes that agree in turn agree.
pub proof fn lemma_ufield_trans(a: UField, b: UField, c: UField)
    requires
        same_ufield_shape(a, b),
        same_ufield_shape(b, c),
    ensures
        same_ufield_shape(a, c),
    decreases a,
{
}

/// Shows `func` the next field, where there is one.
pub fn on_field<V: IndexVisitor>(x: &mut UField, func: &mut V)
    ensures
        same_ufield_shape(*old(x), *final(x)),
        ufield_refs(*final(x)) == walk_out::<V>(old(func).visit_state(), ufield_refs(*old(x))),
        final(func).visit_state() == walk_state::<V>(old(func).visit_state(), ufield_refs(*old(x))),
    decreases *old(x),
{
    let UField { next } = x;
    on_opt_index(next, func);
}

/// A copy of `x`.
pub fn duplicate_ufield(x: &UField) -> (y: UField)
    ensures
        same_ufield_shape(*x, y),
        ufield_refs(y) == ufield_refs(*x),
    decreases *x,
{
    let UField { next } = x;
    UField {
        next: *next,
    }
}
/// The fields that every object based property declaration holds.
pub struct UGenericProperty {
    pub u_field: UField,
    pub array_dim: i32,
    pub property_flags: u64,
    pub rep_notify_func: String,
    pub blueprint_replication_condition: Option<u8>,
}

/// The references that `on_gen` shows, in the order it shows them.
pub open spec fn ugen_refs(x: UGenericProperty) -> Seq<i32>
    decreases x,
{
    ufield_refs(x.u_field)
}

/// `a` and `b` differ at most in the references that `on_gen` shows.
pub open spec fn same_ugen_shape(a: UGenericProperty, b: UGenericProperty) -> bool
    decreases a,
{
    same_ufield_shape(a.u_field, b.u_field)
    && a.array_dim == b.array_dim
    && a.property_flags == b.property_flags
    && a.rep_notify_func@ == b.rep_notify_func@
    && a.blueprint_replication_condition == b.blueprint_replication_condition
}

/// Every UGenericProperty has its own shape.
pub proof fn lemma_ugen_refl(x: UGenericProperty)
    ensures
        same_ugen_shape(x, x),
    decreases x,
{
    lemma_ufield_refl(x.u_field);
}

/// Shapes that agree in turn agree.
pub proof fn lemma_ugen_trans(a: UGenericProperty, b: UGenericProperty, c: UGenericProperty)
    requires
        same_ugen_shape(a, b),
        same_ugen_shape(b, c),
    ensures
        same_ugen_shape(a, c),
    decreases a,
{
    lemma_ufield_trans(a.u_field, b.u_field, c.u_field);
}

/// Shows `func` the next field of a property declaration, where there is one.
pub fn on_gen<V: IndexVisitor>(x: &mut UGenericProperty, func: &mut V)
    ensures
        same_ugen_shape(*old(x), *final(x)),
        ugen_refs(*final(x)) == walk_out::<V>(old(func).visit_state(), ugen_refs(*old(x))),
        final(func).visit_state() == walk_state::<V>(old(func).visit_state(), ugen_refs(*old(x))),
    decreases *old(x),
{
    let UGenericProperty { u_field, .. } = x;
    on_field(u_field, func);
}

/// A copy of `x`.
pub fn duplicate_ugen(x: &UGenericProperty) -> (y: UGenericProperty)
    ensures
        same_ugen_shape(*x, y),
        ugen_refs(y) == ugen_refs(*x),
    decreases *x,
{
    let UGenericProperty { u_field, array_dim, property_flags, rep_notify_func, blueprint_replication_condition } = x;
    UGenericProperty {
        u_field: duplicate_ufield(u_field),
        array_dim: *array_dim,
        property_flags: *property_flags,
        rep_notify_func: rep_notify_func.clone(),
        blueprint_replication_condition: *blueprint_replication_condition,
    }
}
/// An object based property declaration.
pub enum UProperty {
    UGenericProperty { generic_property: UGenericProperty },
    UEnumProperty { generic_property: UGenericProperty, value: PackageIndex, underlying_prop: PackageIndex },
    UArrayProperty { generic_property: UGenericProperty, inner: PackageIndex },
    USetProperty { generic_property: UGenericProperty, element_prop: PackageIndex },
    UObjectProperty { generic_property: UGenericProperty, property_class: PackageIndex },
    USoftObjectProperty { generic_property: UGenericProperty, property_class: PackageIndex },
    ULazyObjectProperty { generic_property: UGenericProperty, property_class: PackageIndex },
    UClassProperty { generic_property: UGenericProperty, property_class: PackageIndex, meta_class: PackageIndex },
    USoftClassProperty { generic_property: UGenericProperty, property_class: PackageIndex, meta_class: PackageIndex },
    UDelegateProperty { generic_property: UGenericProperty, signature_function: PackageIndex },
    UMulticastDelegateProperty { generic_property: UGenericProperty, signature_function: PackageIndex },
    UMulticastInlineDelegateProperty { generic_property: UGenericProperty, signature_function: PackageIndex },
    UInterfaceProperty { generic_property: UGenericProperty, interface_class: PackageIndex },
    UMapProperty { generic_property: UGenericProperty, key_prop: PackageIndex, value_prop: PackageIndex },
    UBoolProperty { generic_property: UGenericProperty, element_size: u8, native_bool: bool },
    UByteProperty { generic_property: UGenericProperty, enum_value: PackageIndex },
    UStructProperty { generic_property: UGenericProperty, struct_value: PackageIndex },
    UDoubleProperty { generic_property: UGenericProperty },
    UFloatProperty { generic_property: UGenericProperty },
    UIntProperty { generic_property: UGenericProperty },
    UInt8Property { generic_property: UGenericProperty },
    UInt16Property { generic_property: UGenericProperty },
    UInt64Property { generic_property: UGenericProperty },
    UUInt8Property { generic_property: UGenericProperty },
    UUInt16Property { generic_property: UGenericProperty },
    UUInt64Property { generic_property: UGenericProperty },
    UNameProperty { generic_property: UGenericProperty },
    UStrProperty { generic_property: UGenericProperty },
}

/// The references that `on_uprop` shows, in the order it shows them.
pub open spec fn uprop_refs(x: UProperty) -> Seq<i32>
    decreases x,
{
    match x {
        UProperty::UGenericProperty { generic_property } => ugen_refs(generic_property),
        UProperty::UEnumProperty { generic_property, value, underlying_prop } => ugen_refs(generic_property) + seq![value.index] + seq![underlying_prop.index],
        UProperty::UArrayProperty { generic_property, inner } => ugen_refs(generic_property) + seq![inner.index],
        UProperty::USetProperty { generic_property, element_prop } => ugen_refs(generic_property) + seq![element_prop.index],
        UProperty::UObjectProperty { generic_property, property_class } => ugen_refs(generic_property) + seq![property_class.index],
        UProperty::USoftObjectProperty { generic_property, property_class } => ugen_refs(generic_property) + seq![property_class.index],
        UProperty::ULazyObjectProperty { generic_property, property_class } => ugen_refs(generic_property) + seq![property_class.index],
        UProperty::UClassProperty { generic_property, property_class, meta_class } => ugen_refs(generic_property) + seq![property_class.index] + seq![meta_class.index],
        UProperty::USoftClassProperty { generic_property, property_class, meta_class } => ugen_refs(generic_property) + seq![property_class.index] + seq![meta_class.index],
        UProperty::UDelegateProperty { generic_property, signature_function } => ugen_refs(generic_property) + seq![signature_function.index],
        UProperty::UMulticastDelegateProperty { generic_property, signature_function } => ugen_refs(generic_property) + seq![signature_function.index],
        UProperty::UMulticastInlineDelegateProperty { generic_property, signature_function } => ugen_refs(generic_property) + seq![signature_function.index],
        UProperty::UInterfaceProperty { generic_property, interface_class } => ugen_refs(generic_property) + seq![interface_class.index],
        UProperty::UMapProperty { generic_property, key_prop, value_prop } => ugen_refs(generic_property) + seq![key_prop.index] + seq![value_prop.index],
        UProperty::UBoolProperty { generic_property, .. } => ugen_refs(generic_property),
        UProperty::UByteProperty { generic_property, enum_value } => ugen_refs(generic_property) + seq![enum_value.index],
        UProperty::UStructProperty { generic_property, struct_value } => ugen_refs(generic_property) + seq![struct_value.index],
        UProperty::UDoubleProperty { generic_property } => ugen_refs(generic_property),
        UProperty::UFloatProperty { generic_property } => ugen_refs(generic_property),
        UProperty::UIntProperty { generic_property } => ugen_refs(generic_property),
        UProperty::UInt8Property { generic_property } => ugen_refs(generic_property),
        UProperty::UInt16Property { generic_property } => ugen_refs(generic_property),
        UProperty::UInt64Property { generic_property } => ugen_refs(generic_property),
        UProperty::UUInt8Property { generic_property } => ugen_refs(generic_property),
        UProperty::UUInt16Property { generic_property } => ugen_refs(generic_property),
        UProperty::UUInt64Property { generic_property } => ugen_refs(generic_property),
        UProperty::UNameProperty { generic_property } => ugen_refs(generic_property),
        UProperty::UStrProperty { generic_property } => ugen_refs(generic_property),
    }
}

/// `a` and `b` differ at most in the references that `on_uprop` shows.
pub open spec fn same_uprop_shape(a: UProperty, b: UProperty) -> bool
    decreases a,
{
    match (a, b) {
        (UProperty::UGenericProperty { generic_property: generic_property_a }, UProperty::UGenericProperty { generic_property: generic_property_b }) => same_ugen_shape(generic_property_a, generic_property_b),
        (UProperty::UEnumProperty { generic_property: generic_property_a, .. }, UProperty::UEnumProperty { generic_property: generic_property_b, .. }) => same_ugen_shape(generic_property_a, generic_property_b),
        (UProperty::UArrayProperty { generic_property: generic_property_a, .. }, UProperty::UArrayProperty { generic_property: generic_property_b, .. }) => same_ugen_shape(generic_property_a, generic_property_b),
        (UProperty::USetProperty { generic_property: generic_property_a, .. }, UProperty::USetProperty { generic_property: generic_property_b, .. }) => same_ugen_shape(generic_property_a, generic_property_b),
        (UProperty::UObjectProperty { generic_property: generic_property_a, .. }, UProperty::UObjectProperty { generic_property: generic_property_b, .. }) => same_ugen_shape(generic_property_a, generic_property_b),
        (UProperty::USoftObjectProperty { generic_property: generic_property_a, .. }, UProperty::USoftObjectProperty { generic_property: generic_property_b, .. }) => same_ugen_shape(generic_property_a, generic_property_b),
        (UProperty::ULazyObjectProperty { generic_property: generic_property_a, .. }, UProperty::ULazyObjectProperty { generic_property: generic_property_b, .. }) => same_ugen_shape(generic_property_a, generic_property_b),
        (UProperty::UClassProperty { generic_property: generic_property_a, .. }, UProperty::UClassProperty { generic_property: generic_property_b, .. }) => same_ugen_shape(generic_property_a, generic_property_b),
        (UProperty::USoftClassProperty { generic_property: generic_property_a, .. }, UProperty::USoftClassProperty { generic_property: generic_property_b, .. }) => same_ugen_shape(generic_property_a, generic_property_b),
        (UProperty::UDelegateProperty { generic_property: generic_property_a, .. }, UProperty::UDelegateProperty { generic_property: generic_property_b, .. }) => same_ugen_shape(generic_property_a, generic_property_b),
        (UProperty::UMulticastDelegateProperty { generic_property: generic_property_a, .. }, UProperty::UMulticastDelegateProperty { generic_property: generic_property_b, .. }) => same_ugen_shape(generic_property_a, generic_property_b),
        (UProperty::UMulticastInlineDelegateProperty { generic_property: generic_property_a, .. }, UProperty::UMulticastInlineDelegateProperty { generic_property: generic_property_b, .. }) => same_ugen_shape(generic_property_a, generic_property_b),
        (UProperty::UInterfaceProperty { generic_property: generic_property_a, .. }, UProperty::UInterfaceProperty { generic_property: generic_property_b, .. }) => same_ugen_shape(generic_property_a, generic_property_b),
        (UProperty::UMapProperty { generic_property: generic_property_a, .. }, UProperty::UMapProperty { generic_property: generic_property_b, .. }) => same_ugen_shape(generic_property_a, generic_property_b),
        (UProperty::UBoolProperty { generic_property: generic_property_a, element_size: element_size_a, native_bool: native_bool_a }, UProperty::UBoolProperty { generic_property: generic_property_b, element_size: element_size_b, native_bool: native_bool_b }) => same_ugen_shape(generic_property_a, generic_property_b) && element_size_a == element_size_b && native_bool_a == native_bool_b,
        (UProperty::UByteProperty { generic_property: generic_property_a, .. }, UProperty::UByteProperty { generic_property: generic_property_b, .. }) => same_ugen_shape(generic_property_a, generic_property_b),
        (UProperty::UStructProperty { generic_property: generic_property_a, .. }, UProperty::UStructProperty { generic_property: generic_property_b, .. }) => same_ugen_shape(generic_property_a, generic_property_b),
        (UProperty::UDoubleProperty { generic_property: generic_property_a }, UProperty::UDoubleProperty { generic_property: generic_property_b }) => same_ugen_shape(generic_property_a, generic_property_b),
        (UProperty::UFloatProperty { generic_property: generic_property_a }, UProperty::UFloatProperty { generic_property: generic_property_b }) => same_ugen_shape(generic_property_a, generic_property_b),
        (UProperty::UIntProperty { generic_property: generic_property_a }, UProperty::UIntProperty { generic_property: generic_property_b }) => same_ugen_shape(generic_property_a, generic_property_b),
        (UProperty::UInt8Property { generic_property: generic_property_a }, UProperty::UInt8Property { generic_property: generic_property_b }) => same_ugen_shape(generic_property_a, generic_property_b),
        (UProperty::UInt16Property { generic_property: generic_property_a }, UProperty::UInt16Property { generic_property: generic_property_b }) => same_ugen_shape(generic_property_a, generic_property_b),
        (UProperty::UInt64Property { generic_property: generic_property_a }, UProperty::UInt64Property { generic_property: generic_property_b }) => same_ugen_shape(generic_property_a, generic_property_b),
        (UProperty::UUInt8Property { generic_property: generic_property_a }, UProperty::UUInt8Property { generic_property: generic_property_b }) => same_ugen_shape(generic_property_a, generic_property_b),
        (UProperty::UUInt16Property { generic_property: generic_property_a }, UProperty::UUInt16Property { generic_property: generic_property_b }) => same_ugen_shape(generic_property_a, generic_property_b),
        (UProperty::UUInt64Property { generic_property: generic_property_a }, UProperty::UUInt64Property { generic_property: generic_property_b }) => same_ugen_shape(generic_property_a, generic_property_b),
        (UProperty::UNameProperty { generic_property: generic_property_a }, UProperty::UNameProperty { generic_property: generic_property_b }) => same_ugen_shape(generic_property_a, generic_property_b),
        (UProperty::UStrProperty { generic_property: generic_property_a }, UProperty::UStrProperty { generic_property: generic_property_b }) => same_ugen_shape(generic_property_a, generic_property_b),
        _ => false,
    }
}

/// Every UProperty has its own shape.
pub proof fn lemma_uprop_refl(x: UProperty)
    ensures
        same_uprop_shape(x, x),
    decreases x,
{
    match x {
        UProperty::UGenericProperty { generic_property } => {
            lemma_ugen_refl(generic_property);
        },
        UProperty::UEnumProperty { generic_property, .. } => {
            lemma_ugen_refl(generic_property);
        },
        UProperty::UArrayProperty { generic_property, .. } => {
            lemma_ugen_refl(generic_property);
        },
        UProperty::USetProperty { generic_property, .. } => {
            lemma_ugen_refl(generic_property);
        },
        UProperty::UObjectProperty { generic_property, .. } => {
            lemma_ugen_refl(generic_property);
        },
        UProperty::USoftObjectProperty { generic_property, .. } => {
            lemma_ugen_refl(generic_property);
        },
        UProperty::ULazyObjectProperty { generic_property, .. } => {
            lemma_ugen_refl(generic_property);
        },
        UProperty::UClassProperty { generic_property, .. } => {
            lemma_ugen_refl(generic_property);
        },
        UProperty::USoftClassProperty { generic_property, .. } => {
            lemma_ugen_refl(generic_property);
        },
        UProperty::UDelegateProperty { generic_property, .. } => {
            lemma_ugen_refl(generic_property);
        },
        UProperty::UMulticastDelegateProperty { generic_property, .. } => {
            lemma_ugen_refl(generic_property);
        },
        UProperty::UMulticastInlineDelegateProperty { generic_property, .. } => {
            lemma_ugen_refl(generic_property);
        },
        UProperty::UInterfaceProperty { generic_property, .. } => {
            lemma_ugen_refl(generic_property);
        },
        UProperty::UMapProperty { generic_property, .. } => {
            lemma_ugen_refl(generic_property);
        },
        UProperty::UBoolProperty { generic_property, .. } => {
            lemma_ugen_refl(generic_property);
        },
        UProperty::UByteProperty { generic_property, .. } => {
            lemma_ugen_refl(generic_property);
        },
        UProperty::UStructProperty { generic_property, .. } => {
            lemma_ugen_refl(generic_property);
        },
        UProperty::UDoubleProperty { generic_property } => {
            lemma_ugen_refl(generic_property);
        },
        UProperty::UFloatProperty { generic_property } => {
            lemma_ugen_refl(generic_property);
        },
        UProperty::UIntProperty { generic_property } => {
            lemma_ugen_refl(generic_property);
        },
        UProperty::UInt8Property { generic_property } => {
            lemma_ugen_refl(generic_property);
        },
        UProperty::UInt16Property { generic_property } => {
            lemma_ugen_refl(generic_property);
        },
        UProperty::UInt64Property { generic_property } => {
            lemma_ugen_refl(generic_property);
        },
        UProperty::UUInt8Property { generic_property } => {
            lemma_ugen_refl(generic_property);
        },
        UProperty::UUInt16Property { generic_property } => {
            lemma_ugen_refl(generic_property);
        },
        UProperty::UUInt64Property { generic_property } => {
            lemma_ugen_refl(generic_property);
        },
        UProperty::UNameProperty { generic_property } => {
            lemma_ugen_refl(generic_property);
        },
        UProperty::UStrProperty { generic_property } => {
            lemma_ugen_refl(generic_property);
        },
    }
}

/// Shapes that agree in turn agree.
pub proof fn lemma_uprop_trans(a: UProperty, b: UProperty, c: UProperty)
    requires
        same_uprop_shape(a, b),
        same_uprop_shape(b, c),
    ensures
        same_uprop_shape(a, c),
    decreases a,
{
    match (a, b, c) {
        (UProperty::UGenericProperty { generic_property: generic_property_a }, UProperty::UGenericProperty { generic_property: generic_property_b }, UProperty::UGenericProperty { generic_property: generic_property_c }) => {
            lemma_ugen_trans(generic_property_a, generic_property_b, generic_property_c);
        },
        (UProperty::UEnumProperty { generic_property: generic_property_a, .. }, UProperty::UEnumProperty { generic_property: generic_property_b, .. }, UProperty::UEnumProperty { generic_property: generic_property_c, .. }) => {
            lemma_ugen_trans(generic_property_a, generic_property_b, generic_property_c);
        },
        (UProperty::UArrayProperty { generic_property: generic_property_a, .. }, UProperty::UArrayProperty { generic_property: generic_property_b, .. }, UProperty::UArrayProperty { generic_property: generic_property_c, .. }) => {
            lemma_ugen_trans(generic_property_a, generic_property_b, generic_property_c);
        },
        (UProperty::USetProperty { generic_property: generic_property_a, .. }, UProperty::USetProperty { generic_property: generic_property_b, .. }, UProperty::USetProperty { generic_property: generic_property_c, .. }) => {
            lemma_ugen_trans(generic_property_a, generic_property_b, generic_property_c);
        },
        (UProperty::UObjectProperty { generic_property: generic_property_a, .. }, UProperty::UObjectProperty { generic_property: generic_property_b, .. }, UProperty::UObjectProperty { generic_property: generic_property_c, .. }) => {
            lemma_ugen_trans(generic_property_a, generic_property_b, generic_property_c);
        },
        (UProperty::USoftObjectProperty { generic_property: generic_property_a, .. }, UProperty::USoftObjectProperty { generic_property: generic_property_b, .. }, UProperty::USoftObjectProperty { generic_property: generic_property_c, .. }) => {
            lemma_ugen_trans(generic_property_a, generic_property_b, generic_property_c);
        },
        (UProperty::ULazyObjectProperty { generic_property: generic_property_a, .. }, UProperty::ULazyObjectProperty { generic_property: generic_property_b, .. }, UProperty::ULazyObjectProperty { generic_property: generic_property_c, .. }) => {
            lemma_ugen_trans(generic_property_a, generic_property_b, generic_property_c);
        },
        (UProperty::UClassProperty { generic_property: generic_property_a, .. }, UProperty::UClassProperty { generic_property: generic_property_b, .. }, UProperty::UClassProperty { generic_property: generic_property_c, .. }) => {
            lemma_ugen_trans(generic_property_a, generic_property_b, generic_property_c);
        },
        (UProperty::USoftClassProperty { generic_property: generic_property_a, .. }, UProperty::USoftClassProperty { generic_property: generic_property_b, .. }, UProperty::USoftClassProperty { generic_property: generic_property_c, .. }) => {
            lemma_ugen_trans(generic_property_a, generic_property_b, generic_property_c);
        },
        (UProperty::UDelegateProperty { generic_property: generic_property_a, .. }, UProperty::UDelegateProperty { generic_property: generic_property_b, .. }, UProperty::UDelegateProperty { generic_property: generic_property_c, .. }) => {
            lemma_ugen_trans(generic_property_a, generic_property_b, generic_property_c);
        },
        (UProperty::UMulticastDelegateProperty { generic_property: generic_property_a, .. }, UProperty::UMulticastDelegateProperty { generic_property: generic_property_b, .. }, UProperty::UMulticastDelegateProperty { generic_property: generic_property_c, .. }) => {
            lemma_ugen_trans(generic_property_a, generic_property_b, generic_property_c);
        },
        (UProperty::UMulticastInlineDelegateProperty { generic_property: generic_property_a, .. }, UProperty::UMulticastInlineDelegateProperty { generic_property: generic_property_b, .. }, UProperty::UMulticastInlineDelegateProperty { generic_property: generic_property_c, .. }) => {
            lemma_ugen_trans(generic_property_a, generic_property_b, generic_property_c);
        },
        (UProperty::UInterfaceProperty { generic_property: generic_property_a, .. }, UProperty::UInterfaceProperty { generic_property: generic_property_b, .. }, UProperty::UInterfaceProperty { generic_property: generic_property_c, .. }) => {
            lemma_ugen_trans(generic_property_a, generic_property_b, generic_property_c);
        },
        (UProperty::UMapProperty { generic_property: generic_property_a, .. }, UProperty::UMapProperty { generic_property: generic_property_b, .. }, UProperty::UMapProperty { generic_property: generic_property_c, .. }) => {
            lemma_ugen_trans(generic_property_a, generic_property_b, generic_property_c);
        },
        (UProperty::UBoolProperty { generic_property: generic_property_a, .. }, UProperty::UBoolProperty { generic_property: generic_property_b, .. }, UProperty::UBoolProperty { generic_property: generic_property_c, .. }) => {
            lemma_ugen_trans(generic_property_a, generic_property_b, generic_property_c);
        },
        (UProperty::UByteProperty { generic_property: generic_property_a, .. }, UProperty::UByteProperty { generic_property: generic_property_b, .. }, UProperty::UByteProperty { generic_property: generic_property_c, .. }) => {
            lemma_ugen_trans(generic_property_a, generic_property_b, generic_property_c);
        },
        (UProperty::UStructProperty { generic_property: generic_property_a, .. }, UProperty::UStructProperty { generic_property: generic_property_b, .. }, UProperty::UStructProperty { generic_property: generic_property_c, .. }) => {
            lemma_ugen_trans(generic_property_a, generic_property_b, generic_property_c);
        },
        (UProperty::UDoubleProperty { generic_property: generic_property_a }, UProperty::UDoubleProperty { generic_property: generic_property_b }, UProperty::UDoubleProperty { generic_property: generic_property_c }) => {
            lemma_ugen_trans(generic_property_a, generic_property_b, generic_property_c);
        },
        (UProperty::UFloatProperty { generic_property: generic_property_a }, UProperty::UFloatProperty { generic_property: generic_property_b }, UProperty::UFloatProperty { generic_property: generic_property_c }) => {
            lemma_ugen_trans(generic_property_a, generic_property_b, generic_property_c);
        },
        (UProperty::UIntProperty { generic_property: generic_property_a }, UProperty::UIntProperty { generic_property: generic_property_b }, UProperty::UIntProperty { generic_property: generic_property_c }) => {
            lemma_ugen_trans(generic_property_a, generic_property_b, generic_property_c);
        },
        (UProperty::UInt8Property { generic_property: generic_property_a }, UProperty::UInt8Property { generic_property: generic_property_b }, UProperty::UInt8Property { generic_property: generic_property_c }) => {
            lemma_ugen_trans(generic_property_a, generic_property_b, generic_property_c);
        },
        (UProperty::UInt16Property { generic_property: generic_property_a }, UProperty::UInt16Property { generic_property: generic_property_b }, UProperty::UInt16Property { generic_property: generic_property_c }) => {
            lemma_ugen_trans(generic_property_a, generic_property_b, generic_property_c);
        },
        (UProperty::UInt64Property { generic_property: generic_property_a }, UProperty::UInt64Property { generic_property: generic_property_b }, UProperty::UInt64Property { generic_property: generic_property_c }) => {
            lemma_ugen_trans(generic_property_a, generic_property_b, generic_property_c);
        },
        (UProperty::UUInt8Property { generic_property: generic_property_a }, UProperty::UUInt8Property { generic_property: generic_property_b }, UProperty::UUInt8Property { generic_property: generic_property_c }) => {
            lemma_ugen_trans(generic_property_a, generic_property_b, generic_property_c);
        },
        (UProperty::UUInt16Property { generic_property: generic_property_a }, UProperty::UUInt16Property { generic_property: generic_property_b }, UProperty::UUInt16Property { generic_property: generic_property_c }) => {
            lemma_ugen_trans(generic_property_a, generic_property_b, generic_property_c);
        },
        (UProperty::UUInt64Property { generic_property: generic_property_a }, UProperty::UUInt64Property { generic_property: generic_property_b }, UProperty::UUInt64Property { generic_property: generic_property_c }) => {
            lemma_ugen_trans(generic_property_a, generic_property_b, generic_property_c);
        },
        (UProperty::UNameProperty { generic_property: generic_property_a }, UProperty::UNameProperty { generic_property: generic_property_b }, UProperty::UNameProperty { generic_property: generic_property_c }) => {
            lemma_ugen_trans(generic_property_a, generic_property_b, generic_property_c);
        },
        (UProperty::UStrProperty { generic_property: generic_property_a }, UProperty::UStrProperty { generic_property: generic_property_b }, UProperty::UStrProperty { generic_property: generic_property_c }) => {
            lemma_ugen_trans(generic_property_a, generic_property_b, generic_property_c);
        },
        _ => {},
    }
}

/// Shows `func` the next field, then the classes, enums, structs and functions that a property declaration refers to, in order.
pub fn on_uprop<V: IndexVisitor>(x: &mut UProperty, func: &mut V)
    ensures
        same_uprop_shape(*old(x), *final(x)),
        uprop_refs(*final(x)) == walk_out::<V>(old(func).visit_state(), uprop_refs(*old(x))),
        final(func).visit_state() == walk_state::<V>(old(func).visit_state(), uprop_refs(*old(x))),
        uprop_walked::<V>(old(func).visit_state(), *old(x), *final(x)),
    decreases *old(x),
{
    proof {
        lemma_uprop_refl(*x);
    }
    match x {
        UProperty::UGenericProperty { generic_property } => {
            on_gen(generic_property, func);
        },
        UProperty::UEnumProperty { generic_property, value, underlying_prop } => {
            on_gen(generic_property, func);
            on_index(value, func);
            on_index(underlying_prop, func);
        },
        UProperty::UArrayProperty { generic_property, inner } => {
            on_gen(generic_property, func);
            on_index(inner, func);
        },
        UProperty::USetProperty { generic_property, element_prop } => {
            on_gen(generic_property, func);
            on_index(element_prop, func);
        },
        UProperty::UObjectProperty { generic_property, property_class } => {
            on_gen(generic_property, func);
            on_index(property_class, func);
        },
        UProperty::USoftObjectProperty { generic_property, property_class } => {
            on_gen(generic_property, func);
            on_index(property_class, func);
        },
        UProperty::ULazyObjectProperty { generic_property, property_class } => {
            on_gen(generic_property, func);
            on_index(property_class, func);
        },
        UProperty::UClassProperty { generic_property, property_class, meta_class } => {
            on_gen(generic_property, func);
            on_index(property_class, func);
            on_index(meta_class, func);
        },
        UProperty::USoftClassProperty { generic_property, property_class, meta_class } => {
            on_gen(generic_property, func);
            on_index(property_class, func);
            on_index(meta_class, func);
        },
        UProperty::UDelegateProperty { generic_property, signature_function } => {
            on_gen(generic_property, func);
            on_index(signature_function, func);
        },
        UProperty::UMulticastDelegateProperty { generic_property, signature_function } => {
            on_gen(generic_property, func);
            on_index(signature_function, func);
        },
        UProperty::UMulticastInlineDelegateProperty { generic_property, signature_function } => {
            on_gen(generic_property, func);
            on_index(signature_function, func);
        },
        UProperty::UInterfaceProperty { generic_property, interface_class } => {
            on_gen(generic_property, func);
            on_index(interface_class, func);
        },
        UProperty::UMapProperty { generic_property, key_prop, value_prop } => {
            on_gen(generic_property, func);
            on_index(key_prop, func);
            on_index(value_prop, func);
        },
        UProperty::UBoolProperty { generic_property, .. } => {
            on_gen(generic_property, func);
        },
        UProperty::UByteProperty { generic_property, enum_value } => {
            on_gen(generic_property, func);
            on_index(enum_value, func);
        },
        UProperty::UStructProperty { generic_property, struct_value } => {
            on_gen(generic_property, func);
            on_index(struct_value, func);
        },
        UProperty::UDoubleProperty { generic_property } => {
            on_gen(generic_property, func);
        },
        UProperty::UFloatProperty { generic_property } => {
            on_gen(generic_property, func);
        },
        UProperty::UIntProperty { generic_property } => {
            on_gen(generic_property, func);
        },
        UProperty::UInt8Property { generic_property } => {
            on_gen(generic_property, func);
        },
        UProperty::UInt16Property { generic_property } => {
            on_gen(generic_property, func);
        },
        UProperty::UInt64Property { generic_property } => {
            on_gen(generic_property, func);
        },
        UProperty::UUInt8Property { generic_property } => {
            on_gen(generic_property, func);
        },
        UProperty::UUInt16Property { generic_property } => {
            on_gen(generic_property, func);
        },
        UProperty::UUInt64Property { generic_property } => {
            on_gen(generic_property, func);
        },
        UProperty::UNameProperty { generic_property } => {
            on_gen(generic_property, func);
        },
        UProperty::UStrProperty { generic_property } => {
            on_gen(generic_property, func);
        },
    }
}

/// A copy of `x`.
pub fn duplicate_uprop(x: &UProperty) -> (y: UProperty)
    ensures
        same_uprop_shape(*x, y),
        uprop_refs(y) == uprop_refs(*x),
    decreases *x,
{
    match x {
        UProperty::UGenericProperty { generic_property } => UProperty::UGenericProperty {
            generic_property: duplicate_ugen(generic_property),
        },
        UProperty::UEnumProperty { generic_property, value, underlying_prop } => UProperty::UEnumProperty {
            generic_property: duplicate_ugen(generic_property),
            value: *value,
            underlying_prop: *underlying_prop,
        },
        UProperty::UArrayProperty { generic_property, inner } => UProperty::UArrayProperty {
            generic_property: duplicate_ugen(generic_property),
            inner: *inner,
        },
        UProperty::USetProperty { generic_property, element_prop } => UProperty::USetProperty {
            generic_property: duplicate_ugen(generic_property),
            element_prop: *element_prop,
        },
        UProperty::UObjectProperty { generic_property, property_class } => UProperty::UObjectProperty {
            generic_property: duplicate_ugen(generic_property),
            property_class: *property_class,
        },
        UProperty::USoftObjectProperty { generic_property, property_class } => UProperty::USoftObjectProperty {
            generic_property: duplicate_ugen(generic_property),
            property_class: *property_class,
        },
        UProperty::ULazyObjectProperty { generic_property, property_class } => UProperty::ULazyObjectProperty {
            generic_property: duplicate_ugen(generic_property),
            property_class: *property_class,
        },
        UProperty::UClassProperty { generic_property, property_class, meta_class } => UProperty::UClassProperty {
            generic_property: duplicate_ugen(generic_property),
            property_class: *property_class,
            meta_class: *meta_class,
        },
        UProperty::USoftClassProperty { generic_property, property_class, meta_class } => UProperty::USoftClassProperty {
            generic_property: duplicate_ugen(generic_property),
            property_class: *property_class,
            meta_class: *meta_class,
        },
        UProperty::UDelegateProperty { generic_property, signature_function } => UProperty::UDelegateProperty {
            generic_property: duplicate_ugen(generic_property),
            signature_function: *signature_function,
        },
        UProperty::UMulticastDelegateProperty { generic_property, signature_function } => UProperty::UMulticastDelegateProperty {
            generic_property: duplicate_ugen(generic_property),
            signature_function: *signature_function,
        },
        UProperty::UMulticastInlineDelegateProperty { generic_property, signature_function } => UProperty::UMulticastInlineDelegateProperty {
            generic_property: duplicate_ugen(generic_property),
            signature_function: *signature_function,
        },
        UProperty::UInterfaceProperty { generic_property, interface_class } => UProperty::UInterfaceProperty {
            generic_property: duplicate_ugen(generic_property),
            interface_class: *interface_class,
        },
        UProperty::UMapProperty { generic_property, key_prop, value_prop } => UProperty::UMapProperty {
            generic_property: duplicate_ugen(generic_property),
            key_prop: *key_prop,
            value_prop: *value_prop,
        },
        UProperty::UBoolProperty { generic_property, element_size, native_bool } => UProperty::UBoolProperty {
            generic_property: duplicate_ugen(generic_property),
            element_size: *element_size,
            native_bool: *native_bool,
        },
        UProperty::UByteProperty { generic_property, enum_value } => UProperty::UByteProperty {
            generic_property: duplicate_ugen(generic_property),
            enum_value: *enum_value,
        },
        UProperty::UStructProperty { generic_property, struct_value } => UProperty::UStructProperty {
            generic_property: duplicate_ugen(generic_property),
            struct_value: *struct_value,
        },
        UProperty::UDoubleProperty { generic_property } => UProperty::UDoubleProperty {
            generic_property: duplicate_ugen(generic_property),
        },
        UProperty::UFloatProperty { generic_property } => UProperty::UFloatProperty {
            generic_property: duplicate_ugen(generic_property),
        },
        UProperty::UIntProperty { generic_property } => UProperty::UIntProperty {
            generic_property: duplicate_ugen(generic_property),
        },
        UProperty::UInt8Property { generic_property } => UProperty::UInt8Property {
            generic_property: duplicate_ugen(generic_property),
        },
        UProperty::UInt16Property { generic_property } => UProperty::UInt16Property {
            generic_property: duplicate_ugen(generic_property),
        },
        UProperty::UInt64Property { generic_property } => UProperty::UInt64Property {
            generic_property: duplicate_ugen(generic_property),
        },
        UProperty::UUInt8Property { generic_property } => UProperty::UUInt8Property {
            generic_property: duplicate_ugen(generic_property),
        },
        UProperty::UUInt16Property { generic_property } => UProperty::UUInt16Property {
            generic_property: duplicate_ugen(generic_property),
        },
        UProperty::UUInt64Property { generic_property } => UProperty::UUInt64Property {
            generic_property: duplicate_ugen(generic_property),
        },
        UProperty::UNameProperty { generic_property } => UProperty::UNameProperty {
            generic_property: duplicate_ugen(generic_property),
        },
        UProperty::UStrProperty { generic_property } => UProperty::UStrProperty {
            generic_property: duplicate_ugen(generic_property),
        },
    }
}


/// Whether `x1` is what `on_uprop` makes of `x0` with a visitor in the state
/// `s`: the same shape, with the references that the visitor hands back.
pub open spec fn uprop_walked<V: IndexVisitor>(s: V::State, x0: UProperty, x1: UProperty) -> bool {
    &&& same_uprop_shape(x0, x1)
    &&& uprop_refs(x1) == walk_out::<V>(s, uprop_refs(x0))
}

/// Two calls of `on_uprop` in turn, the first with a visitor in the state
/// `s1` and the second with one in the state `s2`, leave the property as one
/// call with both visitors at once (see `Both`) does: the references visited,
/// and their order, depend on the property's shape alone.
pub proof fn lemma_on_uprop_compose<A: IndexVisitor, B: IndexVisitor>(
    x0: UProperty,
    x1: UProperty,
    x2: UProperty,
    s1: A::State,
    s2: B::State,
)
    requires
        uprop_walked::<A>(s1, x0, x1),
        uprop_walked::<B>(s2, x1, x2),
    ensures
        uprop_walked::<Both<A, B>>((s1, s2), x0, x2),
{
    lemma_uprop_trans(x0, x1, x2);
    lemma_walk_both::<A, B>(s1, s2, uprop_refs(x0));
}

/// The next field named by a property's generic part, if any.
pub open spec fn next_index(g: UGenericProperty) -> Seq<i32> {
    match g.u_field.next {
        Some(n) => seq![n.index],
        None => Seq::empty(),
    }
}

/// The package references that a property declaration holds: the next
/// field of its generic part, and the enum, inner, element, class, meta
/// class, signature function, interface, key, value or struct it names.
pub open spec fn uprop_indices(x: UProperty) -> Seq<i32> {
    match x {
        UProperty::UGenericProperty { generic_property } => next_index(generic_property),
        UProperty::UEnumProperty { generic_property, value, underlying_prop } => next_index(generic_property) + seq![value.index] + seq![underlying_prop.index],
        UProperty::UArrayProperty { generic_property, inner } => next_index(generic_property) + seq![inner.index],
        UProperty::USetProperty { generic_property, element_prop } => next_index(generic_property) + seq![element_prop.index],
        UProperty::UObjectProperty { generic_property, property_class } => next_index(generic_property) + seq![property_class.index],
        UProperty::USoftObjectProperty { generic_property, property_class } => next_index(generic_property) + seq![property_class.index],
        UProperty::ULazyObjectProperty { generic_property, property_class } => next_index(generic_property) + seq![property_class.index],
        UProperty::UClassProperty { generic_property, property_class, meta_class } => next_index(generic_property) + seq![property_class.index] + seq![meta_class.index],
        UProperty::USoftClassProperty { generic_property, property_class, meta_class } => next_index(generic_property) + seq![property_class.index] + seq![meta_class.index],
        UProperty::UDelegateProperty { generic_property, signature_function } => next_index(generic_property) + seq![signature_function.index],
        UProperty::UMulticastDelegateProperty { generic_property, signature_function } => next_index(generic_property) + seq![signature_function.index],
        UProperty::UMulticastInlineDelegateProperty { generic_property, signature_function } => next_index(generic_property) + seq![signature_function.index],
        UProperty::UInterfaceProperty { generic_property, interface_class } => next_index(generic_property) + seq![interface_class.index],
        UProperty::UMapProperty { generic_property, key_prop, value_prop } => next_index(generic_property) + seq![key_prop.index] + seq![value_prop.index],
        UProperty::UBoolProperty { generic_property, .. } => next_index(generic_property),
        UProperty::UByteProperty { generic_property, enum_value } => next_index(generic_property) + seq![enum_value.index],
        UProperty::UStructProperty { generic_property, struct_value } => next_index(generic_property) + seq![struct_value.index],
        UProperty::UDoubleProperty { generic_property } => next_index(generic_property),
        UProperty::UFloatProperty { generic_property } => next_index(generic_property),
        UProperty::UIntProperty { generic_property } => next_index(generic_property),
        UProperty::UInt8Property { generic_property } => next_index(generic_property),
        UProperty::UInt16Property { generic_property } => next_index(generic_property),
        UProperty::UInt64Property { generic_property } => next_index(generic_property),
        UProperty::UUInt8Property { generic_property } => next_index(generic_property),
        UProperty::UUInt16Property { generic_property } => next_index(generic_property),
        UProperty::UUInt64Property { generic_property } => next_index(generic_property),
        UProperty::UNameProperty { generic_property } => next_index(generic_property),
        UProperty::UStrProperty { generic_property } => next_index(generic_property),
    }
}

/// `on_uprop` shows its visitor every reference a property declaration
/// holds.
pub proof fn lemma_on_uprop_covers(x: UProperty)
    ensures
        forall|i: i32| #[trigger] uprop_indices(x).contains(i) ==> uprop_refs(x).contains(i),
{
    broadcast use lemma_add_contains;

    assert forall|i: i32| #[trigger] uprop_indices(x).contains(i) implies uprop_refs(x).contains(i) by {
        match x {
            UProperty::UGenericProperty { generic_property } => {
                assert(uprop_refs(x) == ugen_refs(generic_property));
            },
            UProperty::UEnumProperty { generic_property, value, underlying_prop } => {
                assert(uprop_refs(x) == ugen_refs(generic_property) + seq![value.index] + seq![underlying_prop.index]);
            },
            UProperty::UArrayProperty { generic_property, inner } => {
                assert(uprop_refs(x) == ugen_refs(generic_property) + seq![inner.index]);
            },
            UProperty::USetProperty { generic_property, element_prop } => {
                assert(uprop_refs(x) == ugen_refs(generic_property) + seq![element_prop.index]);
            },
            UProperty::UObjectProperty { generic_property, property_class } => {
                assert(uprop_refs(x) == ugen_refs(generic_property) + seq![property_class.index]);
            },
            UProperty::USoftObjectProperty { generic_property, property_class } => {
                assert(uprop_refs(x) == ugen_refs(generic_property) + seq![property_class.index]);
            },
            UProperty::ULazyObjectProperty { generic_property, property_class } => {
                assert(uprop_refs(x) == ugen_refs(generic_property) + seq![property_class.index]);
            },
            UProperty::UClassProperty { generic_property, property_class, meta_class } => {
                assert(uprop_refs(x) == ugen_refs(generic_property) + seq![property_class.index] + seq![meta_class.index]);
            },
            UProperty::USoftClassProperty { generic_property, property_class, meta_class } => {
                assert(uprop_refs(x) == ugen_refs(generic_property) + seq![property_class.index] + seq![meta_class.index]);
            },
            UProperty::UDelegateProperty { generic_property, signature_function } => {
                assert(uprop_refs(x) == ugen_refs(generic_property) + seq![signature_function.index]);
            },
            UProperty::UMulticastDelegateProperty { generic_property, signature_function } => {
                assert(uprop_refs(x) == ugen_refs(generic_property) + seq![signature_function.index]);
            },
            UProperty::UMulticastInlineDelegateProperty { generic_property, signature_function } => {
                assert(uprop_refs(x) == ugen_refs(generic_property) + seq![signature_function.index]);
            },
            UProperty::UInterfaceProperty { generic_property, interface_class } => {
                assert(uprop_refs(x) == ugen_refs(generic_property) + seq![interface_class.index]);
            },
            UProperty::UMapProperty { generic_property, key_prop, value_prop } => {
                assert(uprop_refs(x) == ugen_refs(generic_property) + seq![key_prop.index] + seq![value_prop.index]);
            },
            UProperty::UBoolProperty { generic_property, .. } => {
                assert(uprop_refs(x) == ugen_refs(generic_property));
            },
            UProperty::UByteProperty { generic_property, enum_value } => {
                assert(uprop_refs(x) == ugen_refs(generic_property) + seq![enum_value.index]);
            },
            UProperty::UStructProperty { generic_property, struct_value } => {
                assert(uprop_refs(x) == ugen_refs(generic_property) + seq![struct_value.index]);
            },
            UProperty::UDoubleProperty { generic_property } => {
                assert(uprop_refs(x) == ugen_refs(generic_property));
            },
            UProperty::UFloatProperty { generic_property } => {
                assert(uprop_refs(x) == ugen_refs(generic_property));
            },
            UProperty::UIntProperty { generic_property } => {
                assert(uprop_refs(x) == ugen_refs(generic_property));
            },
            UProperty::UInt8Property { generic_property } => {
                assert(uprop_refs(x) == ugen_refs(generic_property));
            },
            UProperty::UInt16Property { generic_property } => {
                assert(uprop_refs(x) == ugen_refs(generic_property));
            },
            UProperty::UInt64Property { generic_property } => {
                assert(uprop_refs(x) == ugen_refs(generic_property));
            },
            UProperty::UUInt8Property { generic_property } => {
                assert(uprop_refs(x) == ugen_refs(generic_property));
            },
            UProperty::UUInt16Property { generic_property } => {
                assert(uprop_refs(x) == ugen_refs(generic_property));
            },
            UProperty::UUInt64Property { generic_property } => {
                assert(uprop_refs(x) == ugen_refs(generic_property));
            },
            UProperty::UNameProperty { generic_property } => {
                assert(uprop_refs(x) == ugen_refs(generic_property));
            },
            UProperty::UStrProperty { generic_property } => {
                assert(uprop_refs(x) == ugen_refs(generic_property));
            },
        }
    }
}

} // verus!
