//! Property values stored in exports, and the references they hold.
use vstd::prelude::*;
use crate::index::{
    IndexVisitor, PackageIndex, copy_index_list, lemma_add_contains, index_list_refs, index_opt_refs, lemma_walk_empty,
    lemma_walk_out_append, lemma_walk_state_append, on_index, on_index_list, on_opt_index,
    walk_out, walk_state,
};
use crate::strings::copy_opt_string;

verus! {

broadcast use lemma_walk_state_append, lemma_walk_out_append;

/// A delegate: an object and the name of a function of it.
pub struct Delegate {
    pub object: PackageIndex,
    pub delegate: String,
}

/// The references that `on_delegate` shows, in the order it shows them.
pub open spec fn delegate_refs(x: Delegate) -> Seq<i32>
    decreases x,
{
    seq![x.object.index]
}

/// `a` and `b` differ at most in the references that `on_delegate` shows.
pub open spec fn same_delegate_shape(a: Delegate, b: Delegate) -> bool
    decreases a,
{
    a.delegate@ == b.delegate@
}

/// Every Delegate has its own shape.
pub proof fn lemma_delegate_refl(x: Delegate)
    ensures
        same_delegate_shape(x, x),
    decreases x,
{
}

/// Shapes that agree in turn agree.
pub proof fn lemma_delegate_trans(a: Delegate, b: Delegate, c: Delegate)
    requires
        same_delegate_shape(a, b),
        same_delegate_shape(b, c),
    ensures
        same_delegate_shape(a, c),
    decreases a,
{
}

/// Shows `func` a delegate's object.
pub fn on_delegate<V: IndexVisitor>(x: &mut Delegate, func: &mut V)
    ensures
        same_delegate_shape(*old(x), *final(x)),
        delegate_refs(*final(x)) == walk_out::<V>(old(func).visit_state(), delegate_refs(*old(x))),
        final(func).visit_state() == walk_state::<V>(old(func).visit_state(), delegate_refs(*old(x))),
    decreases *old(x),
{
    let Delegate { object, .. } = x;
    on_index(object, func);
}

/// A copy of `x`.
pub fn duplicate_delegate(x: &Delegate) -> (y: Delegate)
    ensures
        same_delegate_shape(*x, y),
        delegate_refs(y) == delegate_refs(*x),
    decreases *x,
{
    let Delegate { object, delegate } = x;
    Delegate {
        object: *object,
        delegate: delegate.clone(),
    }
}
/// The references of a list of `Delegate`, in order.
pub open spec fn delegate_list_refs(s: Seq<Delegate>) -> Seq<i32>
    decreases s,
{
    if s.len() == 0 {
        Seq::empty()
    } else {
        delegate_list_refs(s.drop_last()) + delegate_refs(s.last())
    }
}

/// Two lists of `Delegate` differ at most in their references.
pub open spec fn same_delegate_list_shape(a: Seq<Delegate>, b: Seq<Delegate>) -> bool
    decreases a,
{
    &&& a.len() == b.len()
    &&& a.len() > 0 ==> same_delegate_list_shape(a.drop_last(), b.drop_last()) && same_delegate_shape(
        a.last(),
        b.last(),
    )
}

/// Every list of `Delegate` has its own shape.
pub proof fn lemma_delegate_list_refl(s: Seq<Delegate>)
    ensures
        same_delegate_list_shape(s, s),
    decreases s,
{
    if s.len() > 0 {
        lemma_delegate_list_refl(s.drop_last());
        lemma_delegate_refl(s.last());
    }
}

/// List shapes that agree in turn agree.
pub proof fn lemma_delegate_list_trans(a: Seq<Delegate>, b: Seq<Delegate>, c: Seq<Delegate>)
    requires
        same_delegate_list_shape(a, b),
        same_delegate_list_shape(b, c),
    ensures
        same_delegate_list_shape(a, c),
    decreases a,
{
    if a.len() > 0 {
        lemma_delegate_list_trans(a.drop_last(), b.drop_last(), c.drop_last());
        lemma_delegate_trans(a.last(), b.last(), c.last());
    }
}

/// Shows `func` the references of each element of `list`, in order.
pub fn on_delegate_list<V: IndexVisitor>(list: &mut Vec<Delegate>, func: &mut V)
    ensures
        same_delegate_list_shape(old(list)@, final(list)@),
        delegate_list_refs(final(list)@) == walk_out::<V>(old(func).visit_state(), delegate_list_refs(old(list)@)),
        final(func).visit_state() == walk_state::<V>(old(func).visit_state(), delegate_list_refs(old(list)@)),
    decreases *old(list),
{
    let ghost old_list = *list;
    let ghost orig = list@;
    let ghost v0 = func.visit_state();
    let mut i: usize = 0;
    proof {
        lemma_walk_empty::<V>(v0);
        assert(orig.take(0) =~= Seq::<Delegate>::empty());
    }
    while i < list.len()
        invariant
            i <= list@.len(),
            list@.len() == orig.len(),
            forall|j: int| i <= j < orig.len() ==> list@[j] == orig[j],
            same_delegate_list_shape(orig.take(i as int), list@.take(i as int)),
            delegate_list_refs(list@.take(i as int)) == walk_out::<V>(v0, delegate_list_refs(orig.take(i as int))),
            func.visit_state() == walk_state::<V>(v0, delegate_list_refs(orig.take(i as int))),
            old_list == *old(list),
            orig == old_list@,
        decreases orig.len() - i,
    {
        proof {
            assert(decreases_to!(old_list => old_list@));
            assert(decreases_to!(old_list@ => old_list@[i as int]));
        }
        let ghost prev = list@;
        on_delegate(&mut list[i], func);
        proof {
            assert(list@.take(i as int) =~= prev.take(i as int));
            assert(orig.take(i + 1).drop_last() =~= orig.take(i as int));
            assert(list@.take(i + 1).drop_last() =~= list@.take(i as int));
            assert(orig.take(i + 1).last() == orig[i as int]);
            assert(list@.take(i + 1).last() == list@[i as int]);
            assert(delegate_list_refs(orig.take(i + 1)) == delegate_list_refs(orig.take(i as int))
                + delegate_refs(orig[i as int]));
            assert(delegate_list_refs(list@.take(i + 1)) == delegate_list_refs(list@.take(i as int))
                + delegate_refs(list@[i as int]));
        }
        i = i + 1;
    }
    assert(orig.take(orig.len() as int) =~= orig);
    assert(list@.take(orig.len() as int) =~= list@);
}

/// A copy of a list of `Delegate`.
pub fn duplicate_delegate_list(list: &Vec<Delegate>) -> (copy: Vec<Delegate>)
    ensures
        same_delegate_list_shape(list@, copy@),
        delegate_list_refs(copy@) == delegate_list_refs(list@),
    decreases *list,
{
    let mut copy: Vec<Delegate> = Vec::new();
    let mut i: usize = 0;
    proof {
        assert(list@.take(0) =~= Seq::<Delegate>::empty());
    }
    while i < list.len()
        invariant
            i <= list@.len(),
            copy@.len() == i,
            same_delegate_list_shape(list@.take(i as int), copy@),
            delegate_list_refs(copy@) == delegate_list_refs(list@.take(i as int)),
        decreases list@.len() - i,
    {
        proof {
            assert(decreases_to!(*list => list@));
            assert(decreases_to!(list@ => list@[i as int]));
        }
        let ghost prev = copy@;
        let item = duplicate_delegate(&list[i]);
        copy.push(item);
        proof {
            assert(copy@.drop_last() =~= prev);
            assert(list@.take(i + 1).drop_last() =~= list@.take(i as int));
            assert(list@.take(i + 1).last() == list@[i as int]);
        }
        i = i + 1;
    }
    assert(list@.take(list@.len() as int) =~= list@);
    copy
}
/// An entry of a map property.
pub struct MapEntry {
    pub key: Property,
    pub value: Property,
}

/// The references that `on_map_entry` shows, in the order it shows them.
pub open spec fn map_entry_refs(x: MapEntry) -> Seq<i32>
    decreases x,
{
    prop_refs(x.key) + prop_refs(x.value)
}

/// `a` and `b` differ at most in the references that `on_map_entry` shows.
pub open spec fn same_map_entry_shape(a: MapEntry, b: MapEntry) -> bool
    decreases a,
{
    same_prop_shape(a.key, b.key) && same_prop_shape(a.value, b.value)
}

/// Every MapEntry has its own shape.
pub proof fn lemma_map_entry_refl(x: MapEntry)
    ensures
        same_map_entry_shape(x, x),
    decreases x,
{
    lemma_prop_refl(x.key);
    lemma_prop_refl(x.value);
}

/// Shapes that agree in turn agree.
pub proof fn lemma_map_entry_trans(a: MapEntry, b: MapEntry, c: MapEntry)
    requires
        same_map_entry_shape(a, b),
        same_map_entry_shape(b, c),
    ensures
        same_map_entry_shape(a, c),
    decreases a,
{
    lemma_prop_trans(a.key, b.key, c.key);
    lemma_prop_trans(a.value, b.value, c.value);
}

/// Shows `func` the references of an entry's key, then those of its value.
pub fn on_map_entry<V: IndexVisitor>(x: &mut MapEntry, func: &mut V)
    ensures
        same_map_entry_shape(*old(x), *final(x)),
        map_entry_refs(*final(x)) == walk_out::<V>(old(func).visit_state(), map_entry_refs(*old(x))),
        final(func).visit_state() == walk_state::<V>(old(func).visit_state(), map_entry_refs(*old(x))),
    decreases *old(x),
{
    let MapEntry { key, value } = x;
    on_props(key, func);
    on_props(value, func);
}

/// A copy of `x`.
pub fn duplicate_map_entry(x: &MapEntry) -> (y: MapEntry)
    ensures
        same_map_entry_shape(*x, y),
        map_entry_refs(y) == map_entry_refs(*x),
    decreases *x,
{
    let MapEntry { key, value } = x;
    MapEntry {
        key: duplicate_prop(key),
        value: duplicate_prop(value),
    }
}
/// The references of a list of `MapEntry`, in order.
pub open spec fn map_entry_list_refs(s: Seq<MapEntry>) -> Seq<i32>
    decreases s,
{
    if s.len() == 0 {
        Seq::empty()
    } else {
        map_entry_list_refs(s.drop_last()) + map_entry_refs(s.last())
    }
}

/// Two lists of `MapEntry` differ at most in their references.
pub open spec fn same_map_entry_list_shape(a: Seq<MapEntry>, b: Seq<MapEntry>) -> bool
    decreases a,
{
    &&& a.len() == b.len()
    &&& a.len() > 0 ==> same_map_entry_list_shape(a.drop_last(), b.drop_last()) && same_map_entry_shape(
        a.last(),
        b.last(),
    )
}

/// Every list of `MapEntry` has its own shape.
pub proof fn lemma_map_entry_list_refl(s: Seq<MapEntry>)
    ensures
        same_map_entry_list_shape(s, s),
    decreases s,
{
    if s.len() > 0 {
        lemma_map_entry_list_refl(s.drop_last());
        lemma_map_entry_refl(s.last());
    }
}

/// List shapes that agree in turn agree.
pub proof fn lemma_map_entry_list_trans(a: Seq<MapEntry>, b: Seq<MapEntry>, c: Seq<MapEntry>)
    requires
        same_map_entry_list_shape(a, b),
        same_map_entry_list_shape(b, c),
    ensures
        same_map_entry_list_shape(a, c),
    decreases a,
{
    if a.len() > 0 {
        lemma_map_entry_list_trans(a.drop_last(), b.drop_last(), c.drop_last());
        lemma_map_entry_trans(a.last(), b.last(), c.last());
    }
}

/// Shows `func` the references of each element of `list`, in order.
pub fn on_map_entry_list<V: IndexVisitor>(list: &mut Vec<MapEntry>, func: &mut V)
    ensures
        same_map_entry_list_shape(old(list)@, final(list)@),
        map_entry_list_refs(final(list)@) == walk_out::<V>(old(func).visit_state(), map_entry_list_refs(old(list)@)),
        final(func).visit_state() == walk_state::<V>(old(func).visit_state(), map_entry_list_refs(old(list)@)),
    decreases *old(list),
{
    let ghost old_list = *list;
    let ghost orig = list@;
    let ghost v0 = func.visit_state();
    let mut i: usize = 0;
    proof {
        lemma_walk_empty::<V>(v0);
        assert(orig.take(0) =~= Seq::<MapEntry>::empty());
    }
    while i < list.len()
        invariant
            i <= list@.len(),
            list@.len() == orig.len(),
            forall|j: int| i <= j < orig.len() ==> list@[j] == orig[j],
            same_map_entry_list_shape(orig.take(i as int), list@.take(i as int)),
            map_entry_list_refs(list@.take(i as int)) == walk_out::<V>(v0, map_entry_list_refs(orig.take(i as int))),
            func.visit_state() == walk_state::<V>(v0, map_entry_list_refs(orig.take(i as int))),
            old_list == *old(list),
            orig == old_list@,
        decreases orig.len() - i,
    {
        proof {
            assert(decreases_to!(old_list => old_list@));
            assert(decreases_to!(old_list@ => old_list@[i as int]));
        }
        let ghost prev = list@;
        on_map_entry(&mut list[i], func);
        proof {
            assert(list@.take(i as int) =~= prev.take(i as int));
            assert(orig.take(i + 1).drop_last() =~= orig.take(i as int));
            assert(list@.take(i + 1).drop_last() =~= list@.take(i as int));
            assert(orig.take(i + 1).last() == orig[i as int]);
            assert(list@.take(i + 1).last() == list@[i as int]);
            assert(map_entry_list_refs(orig.take(i + 1)) == map_entry_list_refs(orig.take(i as int))
                + map_entry_refs(orig[i as int]));
            assert(map_entry_list_refs(list@.take(i + 1)) == map_entry_list_refs(list@.take(i as int))
                + map_entry_refs(list@[i as int]));
        }
        i = i + 1;
    }
    assert(orig.take(orig.len() as int) =~= orig);
    assert(list@.take(orig.len() as int) =~= list@);
}

/// A copy of a list of `MapEntry`.
pub fn duplicate_map_entry_list(list: &Vec<MapEntry>) -> (copy: Vec<MapEntry>)
    ensures
        same_map_entry_list_shape(list@, copy@),
        map_entry_list_refs(copy@) == map_entry_list_refs(list@),
    decreases *list,
{
    let mut copy: Vec<MapEntry> = Vec::new();
    let mut i: usize = 0;
    proof {
        assert(list@.take(0) =~= Seq::<MapEntry>::empty());
    }
    while i < list.len()
        invariant
            i <= list@.len(),
            copy@.len() == i,
            same_map_entry_list_shape(list@.take(i as int), copy@),
            map_entry_list_refs(copy@) == map_entry_list_refs(list@.take(i as int)),
        decreases list@.len() - i,
    {
        proof {
            assert(decreases_to!(*list => list@));
            assert(decreases_to!(list@ => list@[i as int]));
        }
        let ghost prev = copy@;
        let item = duplicate_map_entry(&list[i]);
        copy.push(item);
        proof {
            assert(copy@.drop_last() =~= prev);
            assert(list@.take(i + 1).drop_last() =~= list@.take(i as int));
            assert(list@.take(i + 1).last() == list@[i as int]);
        }
        i = i + 1;
    }
    assert(list@.take(list@.len() as int) =~= list@);
    copy
}
/// A property value stored in an export.
pub enum Property {
    /// A reference to an object.
    ObjectProperty { name: String, value: PackageIndex },
    /// An array of properties.
    ArrayProperty { name: String, array_type: Option<String>, value: Vec<Property> },
    /// A map from properties to properties.
    MapProperty { name: String, key_type: String, value_type: String, value: Vec<MapEntry> },
    /// A set of properties, and the items removed from it.
    SetProperty { name: String, array_type: Option<String>, value: Vec<Property>, removed_items: Vec<Property> },
    /// A delegate.
    DelegateProperty { name: String, value: Delegate },
    /// A multicast delegate.
    MulticastDelegateProperty { name: String, value: Vec<Delegate> },
    /// A sparse multicast delegate.
    MulticastSparseDelegateProperty { name: String, value: Vec<Delegate> },
    /// An inline multicast delegate.
    MulticastInlineDelegateProperty { name: String, value: Vec<Delegate> },
    /// A struct of properties.
    StructProperty { name: String, struct_type: Option<String>, value: Vec<Property> },
    /// Any other property: a value that holds no reference that hooking follows.
    Other { name: String, property_type: String },
}

/// The references that `on_props` shows, in the order it shows them.
pub open spec fn prop_refs(x: Property) -> Seq<i32>
    decreases x,
{
    match x {
        Property::ObjectProperty { value, .. } => seq![value.index],
        Property::ArrayProperty { value, .. } => prop_list_refs(value@),
        Property::MapProperty { value, .. } => map_entry_list_refs(value@),
        Property::SetProperty { value, removed_items, .. } => prop_list_refs(value@) + prop_list_refs(removed_items@),
        Property::DelegateProperty { value, .. } => delegate_refs(value),
        Property::MulticastDelegateProperty { value, .. } => delegate_list_refs(value@),
        Property::MulticastSparseDelegateProperty { value, .. } => delegate_list_refs(value@),
        Property::MulticastInlineDelegateProperty { value, .. } => delegate_list_refs(value@),
        Property::StructProperty { value, .. } => prop_list_refs(value@),
        Property::Other { .. } => Seq::empty(),
    }
}

/// `a` and `b` differ at most in the references that `on_props` shows.
pub open spec fn same_prop_shape(a: Property, b: Property) -> bool
    decreases a,
{
    match (a, b) {
        (Property::ObjectProperty { name: name_a, .. }, Property::ObjectProperty { name: name_b, .. }) => name_a@ == name_b@,
        (Property::ArrayProperty { name: name_a, array_type: array_type_a, value: value_a }, Property::ArrayProperty { name: name_b, array_type: array_type_b, value: value_b }) => name_a@ == name_b@ && array_type_a == array_type_b && same_prop_list_shape(value_a@, value_b@),
        (Property::MapProperty { name: name_a, key_type: key_type_a, value_type: value_type_a, value: value_a }, Property::MapProperty { name: name_b, key_type: key_type_b, value_type: value_type_b, value: value_b }) => name_a@ == name_b@ && key_type_a@ == key_type_b@ && value_type_a@ == value_type_b@ && same_map_entry_list_shape(value_a@, value_b@),
        (Property::SetProperty { name: name_a, array_type: array_type_a, value: value_a, removed_items: removed_items_a }, Property::SetProperty { name: name_b, array_type: array_type_b, value: value_b, removed_items: removed_items_b }) => name_a@ == name_b@ && array_type_a == array_type_b && same_prop_list_shape(value_a@, value_b@) && same_prop_list_shape(removed_items_a@, removed_items_b@),
        (Property::DelegateProperty { name: name_a, value: value_a }, Property::DelegateProperty { name: name_b, value: value_b }) => name_a@ == name_b@ && same_delegate_shape(value_a, value_b),
        (Property::MulticastDelegateProperty { name: name_a, value: value_a }, Property::MulticastDelegateProperty { name: name_b, value: value_b }) => name_a@ == name_b@ && same_delegate_list_shape(value_a@, value_b@),
        (Property::MulticastSparseDelegateProperty { name: name_a, value: value_a }, Property::MulticastSparseDelegateProperty { name: name_b, value: value_b }) => name_a@ == name_b@ && same_delegate_list_shape(value_a@, value_b@),
        (Property::MulticastInlineDelegateProperty { name: name_a, value: value_a }, Property::MulticastInlineDelegateProperty { name: name_b, value: value_b }) => name_a@ == name_b@ && same_delegate_list_shape(value_a@, value_b@),
        (Property::StructProperty { name: name_a, struct_type: struct_type_a, value: value_a }, Property::StructProperty { name: name_b, struct_type: struct_type_b, value: value_b }) => name_a@ == name_b@ && struct_type_a == struct_type_b && same_prop_list_shape(value_a@, value_b@),
        (Property::Other { name: name_a, property_type: property_type_a }, Property::Other { name: name_b, property_type: property_type_b }) => name_a@ == name_b@ && property_type_a@ == property_type_b@,
        _ => false,
    }
}

/// Every Property has its own shape.
pub proof fn lemma_prop_refl(x: Property)
    ensures
        same_prop_shape(x, x),
    decreases x,
{
    match x {
        Property::ArrayProperty { value, .. } => {
            lemma_prop_list_refl(value@);
        },
        Property::MapProperty { value, .. } => {
            lemma_map_entry_list_refl(value@);
        },
        Property::SetProperty { value, removed_items, .. } => {
            lemma_prop_list_refl(value@);
            lemma_prop_list_refl(removed_items@);
        },
        Property::DelegateProperty { value, .. } => {
            lemma_delegate_refl(value);
        },
        Property::MulticastDelegateProperty { value, .. } => {
            lemma_delegate_list_refl(value@);
        },
        Property::MulticastSparseDelegateProperty { value, .. } => {
            lemma_delegate_list_refl(value@);
        },
        Property::MulticastInlineDelegateProperty { value, .. } => {
            lemma_delegate_list_refl(value@);
        },
        Property::StructProperty { value, .. } => {
            lemma_prop_list_refl(value@);
        },
        _ => {},
    }
}

/// Shapes that agree in turn agree.
pub proof fn lemma_prop_trans(a: Property, b: Property, c: Property)
    requires
        same_prop_shape(a, b),
        same_prop_shape(b, c),
    ensures
        same_prop_shape(a, c),
    decreases a,
{
    match (a, b, c) {
        (Property::ArrayProperty { value: value_a, .. }, Property::ArrayProperty { value: value_b, .. }, Property::ArrayProperty { value: value_c, .. }) => {
            lemma_prop_list_trans(value_a@, value_b@, value_c@);
        },
        (Property::MapProperty { value: value_a, .. }, Property::MapProperty { value: value_b, .. }, Property::MapProperty { value: value_c, .. }) => {
            lemma_map_entry_list_trans(value_a@, value_b@, value_c@);
        },
        (Property::SetProperty { value: value_a, removed_items: removed_items_a, .. }, Property::SetProperty { value: value_b, removed_items: removed_items_b, .. }, Property::SetProperty { value: value_c, removed_items: removed_items_c, .. }) => {
            lemma_prop_list_trans(value_a@, value_b@, value_c@);
            lemma_prop_list_trans(removed_items_a@, removed_items_b@, removed_items_c@);
        },
        (Property::DelegateProperty { value: value_a, .. }, Property::DelegateProperty { value: value_b, .. }, Property::DelegateProperty { value: value_c, .. }) => {
            lemma_delegate_trans(value_a, value_b, value_c);
        },
        (Property::MulticastDelegateProperty { value: value_a, .. }, Property::MulticastDelegateProperty { value: value_b, .. }, Property::MulticastDelegateProperty { value: value_c, .. }) => {
            lemma_delegate_list_trans(value_a@, value_b@, value_c@);
        },
        (Property::MulticastSparseDelegateProperty { value: value_a, .. }, Property::MulticastSparseDelegateProperty { value: value_b, .. }, Property::MulticastSparseDelegateProperty { value: value_c, .. }) => {
            lemma_delegate_list_trans(value_a@, value_b@, value_c@);
        },
        (Property::MulticastInlineDelegateProperty { value: value_a, .. }, Property::MulticastInlineDelegateProperty { value: value_b, .. }, Property::MulticastInlineDelegateProperty { value: value_c, .. }) => {
            lemma_delegate_list_trans(value_a@, value_b@, value_c@);
        },
        (Property::StructProperty { value: value_a, .. }, Property::StructProperty { value: value_b, .. }, Property::StructProperty { value: value_c, .. }) => {
            lemma_prop_list_trans(value_a@, value_b@, value_c@);
        },
        _ => {},
    }
}

/// Shows `func` every reference stashed away in a property value, in order.
pub fn on_props<V: IndexVisitor>(x: &mut Property, func: &mut V)
    ensures
        same_prop_shape(*old(x), *final(x)),
        prop_refs(*final(x)) == walk_out::<V>(old(func).visit_state(), prop_refs(*old(x))),
        final(func).visit_state() == walk_state::<V>(old(func).visit_state(), prop_refs(*old(x))),
    decreases *old(x),
{
    proof {
        lemma_prop_refl(*x);
    }
    match x {
        Property::ObjectProperty { value, .. } => {
            on_index(value, func);
        },
        Property::ArrayProperty { value, .. } => {
            on_props_list(value, func);
        },
        Property::MapProperty { value, .. } => {
            on_map_entry_list(value, func);
        },
        Property::SetProperty { value, removed_items, .. } => {
            on_props_list(value, func);
            on_props_list(removed_items, func);
        },
        Property::DelegateProperty { value, .. } => {
            on_delegate(value, func);
        },
        Property::MulticastDelegateProperty { value, .. } => {
            on_delegate_list(value, func);
        },
        Property::MulticastSparseDelegateProperty { value, .. } => {
            on_delegate_list(value, func);
        },
        Property::MulticastInlineDelegateProperty { value, .. } => {
            on_delegate_list(value, func);
        },
        Property::StructProperty { value, .. } => {
            on_props_list(value, func);
        },
        _ => {
            proof {
                lemma_walk_empty::<V>(func.visit_state());
            }
        },
    }
}

/// A copy of `x`.
pub fn duplicate_prop(x: &Property) -> (y: Property)
    ensures
        same_prop_shape(*x, y),
        prop_refs(y) == prop_refs(*x),
    decreases *x,
{
    match x {
        Property::ObjectProperty { name, value } => Property::ObjectProperty {
            name: name.clone(),
            value: *value,
        },
        Property::ArrayProperty { name, array_type, value } => Property::ArrayProperty {
            name: name.clone(),
            array_type: copy_opt_string(array_type),
            value: duplicate_prop_list(value),
        },
        Property::MapProperty { name, key_type, value_type, value } => Property::MapProperty {
            name: name.clone(),
            key_type: key_type.clone(),
            value_type: value_type.clone(),
            value: duplicate_map_entry_list(value),
        },
        Property::SetProperty { name, array_type, value, removed_items } => Property::SetProperty {
            name: name.clone(),
            array_type: copy_opt_string(array_type),
            value: duplicate_prop_list(value),
            removed_items: duplicate_prop_list(removed_items),
        },
        Property::DelegateProperty { name, value } => Property::DelegateProperty {
            name: name.clone(),
            value: duplicate_delegate(value),
        },
        Property::MulticastDelegateProperty { name, value } => Property::MulticastDelegateProperty {
            name: name.clone(),
            value: duplicate_delegate_list(value),
        },
        Property::MulticastSparseDelegateProperty { name, value } => Property::MulticastSparseDelegateProperty {
            name: name.clone(),
            value: duplicate_delegate_list(value),
        },
        Property::MulticastInlineDelegateProperty { name, value } => Property::MulticastInlineDelegateProperty {
            name: name.clone(),
            value: duplicate_delegate_list(value),
        },
        Property::StructProperty { name, struct_type, value } => Property::StructProperty {
            name: name.clone(),
            struct_type: copy_opt_string(struct_type),
            value: duplicate_prop_list(value),
        },
        Property::Other { name, property_type } => Property::Other {
            name: name.clone(),
            property_type: property_type.clone(),
        },
    }
}
/// The references of a list of `Property`, in order.
pub open spec fn prop_list_refs(s: Seq<Property>) -> Seq<i32>
    decreases s,
{
    if s.len() == 0 {
        Seq::empty()
    } else {
        prop_list_refs(s.drop_last()) + prop_refs(s.last())
    }
}

/// Two lists of `Property` differ at most in their references.
pub open spec fn same_prop_list_shape(a: Seq<Property>, b: Seq<Property>) -> bool
    decreases a,
{
    &&& a.len() == b.len()
    &&& a.len() > 0 ==> same_prop_list_shape(a.drop_last(), b.drop_last()) && same_prop_shape(
        a.last(),
        b.last(),
    )
}

/// Every list of `Property` has its own shape.
pub proof fn lemma_prop_list_refl(s: Seq<Property>)
    ensures
        same_prop_list_shape(s, s),
    decreases s,
{
    if s.len() > 0 {
        lemma_prop_list_refl(s.drop_last());
        lemma_prop_refl(s.last());
    }
}

/// List shapes that agree in turn agree.
pub proof fn lemma_prop_list_trans(a: Seq<Property>, b: Seq<Property>, c: Seq<Property>)
    requires
        same_prop_list_shape(a, b),
        same_prop_list_shape(b, c),
    ensures
        same_prop_list_shape(a, c),
    decreases a,
{
    if a.len() > 0 {
        lemma_prop_list_trans(a.drop_last(), b.drop_last(), c.drop_last());
        lemma_prop_trans(a.last(), b.last(), c.last());
    }
}

/// Shows `func` the references of each element of `list`, in order.
pub fn on_props_list<V: IndexVisitor>(list: &mut Vec<Property>, func: &mut V)
    ensures
        same_prop_list_shape(old(list)@, final(list)@),
        prop_list_refs(final(list)@) == walk_out::<V>(old(func).visit_state(), prop_list_refs(old(list)@)),
        final(func).visit_state() == walk_state::<V>(old(func).visit_state(), prop_list_refs(old(list)@)),
    decreases *old(list),
{
    let ghost old_list = *list;
    let ghost orig = list@;
    let ghost v0 = func.visit_state();
    let mut i: usize = 0;
    proof {
        lemma_walk_empty::<V>(v0);
        assert(orig.take(0) =~= Seq::<Property>::empty());
    }
    while i < list.len()
        invariant
            i <= list@.len(),
            list@.len() == orig.len(),
            forall|j: int| i <= j < orig.len() ==> list@[j] == orig[j],
            same_prop_list_shape(orig.take(i as int), list@.take(i as int)),
            prop_list_refs(list@.take(i as int)) == walk_out::<V>(v0, prop_list_refs(orig.take(i as int))),
            func.visit_state() == walk_state::<V>(v0, prop_list_refs(orig.take(i as int))),
            old_list == *old(list),
            orig == old_list@,
        decreases orig.len() - i,
    {
        proof {
            assert(decreases_to!(old_list => old_list@));
            assert(decreases_to!(old_list@ => old_list@[i as int]));
        }
        let ghost prev = list@;
        on_props(&mut list[i], func);
        proof {
            assert(list@.take(i as int) =~= prev.take(i as int));
            assert(orig.take(i + 1).drop_last() =~= orig.take(i as int));
            assert(list@.take(i + 1).drop_last() =~= list@.take(i as int));
            assert(orig.take(i + 1).last() == orig[i as int]);
            assert(list@.take(i + 1).last() == list@[i as int]);
            assert(prop_list_refs(orig.take(i + 1)) == prop_list_refs(orig.take(i as int))
                + prop_refs(orig[i as int]));
            assert(prop_list_refs(list@.take(i + 1)) == prop_list_refs(list@.take(i as int))
                + prop_refs(list@[i as int]));
        }
        i = i + 1;
    }
    assert(orig.take(orig.len() as int) =~= orig);
    assert(list@.take(orig.len() as int) =~= list@);
}

/// A copy of a list of `Property`.
pub fn duplicate_prop_list(list: &Vec<Property>) -> (copy: Vec<Property>)
    ensures
        same_prop_list_shape(list@, copy@),
        prop_list_refs(copy@) == prop_list_refs(list@),
    decreases *list,
{
    let mut copy: Vec<Property> = Vec::new();
    let mut i: usize = 0;
    proof {
        assert(list@.take(0) =~= Seq::<Property>::empty());
    }
    while i < list.len()
        invariant
            i <= list@.len(),
            copy@.len() == i,
            same_prop_list_shape(list@.take(i as int), copy@),
            prop_list_refs(copy@) == prop_list_refs(list@.take(i as int)),
        decreases list@.len() - i,
    {
        proof {
            assert(decreases_to!(*list => list@));
            assert(decreases_to!(list@ => list@[i as int]));
        }
        let ghost prev = copy@;
        let item = duplicate_prop(&list[i]);
        copy.push(item);
        proof {
            assert(copy@.drop_last() =~= prev);
            assert(list@.take(i + 1).drop_last() =~= list@.take(i as int));
            assert(list@.take(i + 1).last() == list@[i as int]);
        }
        i = i + 1;
    }
    assert(list@.take(list@.len() as int) =~= list@);
    copy
}

/// The objects of a list of delegates, in order.
pub open spec fn delegate_objects(s: Seq<Delegate>) -> Seq<i32> {
    s.map_values(|d: Delegate| d.object.index)
}

/// The keys of a map's entries, in order.
pub open spec fn entry_keys(s: Seq<MapEntry>) -> Seq<Property> {
    s.map_values(|e: MapEntry| e.key)
}

/// The values of a map's entries, in order.
pub open spec fn entry_values(s: Seq<MapEntry>) -> Seq<Property> {
    s.map_values(|e: MapEntry| e.value)
}

/// The package references that a property value holds in its own fields:
/// an object property's object, and the object of each of its delegates.
pub open spec fn prop_own_indices(x: Property) -> Seq<i32> {
    match x {
        Property::ObjectProperty { value, .. } => seq![value.index],
        Property::DelegateProperty { value, .. } => seq![value.object.index],
        Property::MulticastDelegateProperty { value, .. } => delegate_objects(value@),
        Property::MulticastSparseDelegateProperty { value, .. } => delegate_objects(value@),
        Property::MulticastInlineDelegateProperty { value, .. } => delegate_objects(value@),
        _ => Seq::empty(),
    }
}

/// The property values nested in a property value: the elements of an array
/// or a set (and the set's removed items), the keys and values of a map, and
/// the fields of a struct.
pub open spec fn prop_parts(x: Property) -> Seq<Property> {
    match x {
        Property::ArrayProperty { value, .. } => value@,
        Property::MapProperty { value, .. } => entry_keys(value@) + entry_values(value@),
        Property::SetProperty { value, removed_items, .. } => value@ + removed_items@,
        Property::StructProperty { value, .. } => value@,
        _ => Seq::empty(),
    }
}

/// The object of each delegate of a list is among the list's references.
pub proof fn lemma_delegates_covered(s: Seq<Delegate>, k: int)
    requires
        0 <= k < s.len(),
    ensures
        delegate_list_refs(s).contains(s[k].object.index),
    decreases s.len(),
{
    broadcast use lemma_add_contains;

    if k == s.len() - 1 {
        assert(delegate_refs(s.last())[0] == s[k].object.index);
    } else {
        assert(s.drop_last()[k] == s[k]);
        lemma_delegates_covered(s.drop_last(), k);
    }
}

/// A reference held by an element of a list is among the list's references.
pub proof fn lemma_props_covered(s: Seq<Property>, p: Property, i: i32)
    requires
        s.contains(p),
        prop_refs(p).contains(i),
    ensures
        prop_list_refs(s).contains(i),
    decreases s.len(),
{
    broadcast use lemma_add_contains;

    if s.last() != p {
        let k = choose|k: int| 0 <= k < s.len() && s[k] == p;
        assert(s.drop_last()[k] == p);
        lemma_props_covered(s.drop_last(), p, i);
    }
}

/// A reference held by the key or the value of an entry of a map is among
/// the map's references.
pub proof fn lemma_entries_covered(s: Seq<MapEntry>, k: int, i: i32)
    requires
        0 <= k < s.len(),
        prop_refs(s[k].key).contains(i) || prop_refs(s[k].value).contains(i),
    ensures
        map_entry_list_refs(s).contains(i),
    decreases s.len(),
{
    broadcast use lemma_add_contains;

    if k == s.len() - 1 {
        assert(map_entry_refs(s.last()).contains(i));
    } else {
        assert(s.drop_last()[k] == s[k]);
        lemma_entries_covered(s.drop_last(), k, i);
    }
}

/// `on_props` shows its visitor every reference a property value holds:
/// each one of its own fields, and each one held by a value nested in it, at
/// any depth (an array's, a set's or a struct's elements, a map's keys and
/// values). A visitor that rewrites a reference therefore reaches all of
/// them.
pub proof fn lemma_on_props_covers(x: Property)
    ensures
        forall|i: i32| #[trigger] prop_own_indices(x).contains(i) ==> prop_refs(x).contains(i),
        forall|p: Property, i: i32|
            #[trigger] prop_parts(x).contains(p) && #[trigger] prop_refs(p).contains(i) ==> prop_refs(x).contains(i),
{
    broadcast use lemma_add_contains;

    assert forall|i: i32| #[trigger] prop_own_indices(x).contains(i) implies prop_refs(x).contains(i) by {
        match x {
            Property::MulticastDelegateProperty { value, .. } => {
                let k = choose|k: int| 0 <= k < value@.len() && delegate_objects(value@)[k] == i;
                lemma_delegates_covered(value@, k);
            },
            Property::MulticastSparseDelegateProperty { value, .. } => {
                let k = choose|k: int| 0 <= k < value@.len() && delegate_objects(value@)[k] == i;
                lemma_delegates_covered(value@, k);
            },
            Property::MulticastInlineDelegateProperty { value, .. } => {
                let k = choose|k: int| 0 <= k < value@.len() && delegate_objects(value@)[k] == i;
                lemma_delegates_covered(value@, k);
            },
            _ => {},
        }
    }
    assert forall|p: Property, i: i32| #[trigger] prop_parts(x).contains(p) && #[trigger] prop_refs(p).contains(i) implies prop_refs(
        x,
    ).contains(i) by {
        match x {
            Property::ArrayProperty { value, .. } => {
                lemma_props_covered(value@, p, i);
            },
            Property::MapProperty { value, .. } => {
                if entry_keys(value@).contains(p) {
                    let k = choose|k: int| 0 <= k < value@.len() && entry_keys(value@)[k] == p;
                    lemma_entries_covered(value@, k, i);
                } else {
                    let k = choose|k: int| 0 <= k < value@.len() && entry_values(value@)[k] == p;
                    lemma_entries_covered(value@, k, i);
                }
            },
            Property::SetProperty { value, removed_items, .. } => {
                if value@.contains(p) {
                    lemma_props_covered(value@, p, i);
                } else {
                    lemma_props_covered(removed_items@, p, i);
                }
            },
            Property::StructProperty { value, .. } => {
                lemma_props_covered(value@, p, i);
            },
            _ => {},
        }
    }
}

} // verus!
