//! Exports: the objects an asset defines, and the references they hold.
use vstd::prelude::*;
use crate::index::{
    IndexVisitor, PackageIndex, copy_index_list, index_list_refs, lemma_add_contains, index_opt_refs, lemma_walk_empty,
    lemma_walk_out_append, lemma_walk_state_append, on_index, on_index_list, on_opt_index,
    walk_out, walk_state,
};
use crate::fprop::{FProperty, fprop_list_refs, fprop_refs, lemma_fprops_covered, same_fprop_list_shape, lemma_fprop_list_refl, lemma_fprop_list_trans, on_fprop_list, duplicate_fprop_list};
use crate::kismet::{Expr, expr_opt_list_refs, expr_refs, opt_index, lemma_expr_list_covered, same_expr_opt_list_shape, lemma_expr_opt_list_refl, lemma_expr_opt_list_trans, on_kismet_opt_list, duplicate_expr_opt_list};
use crate::props::{Property, prop_list_refs, prop_refs, lemma_props_covered, same_prop_list_shape, lemma_prop_list_refl, lemma_prop_list_trans, on_props_list, duplicate_prop_list};
use crate::uprop::{UField, UProperty, ufield_refs, uprop_refs, same_ufield_shape, same_uprop_shape, lemma_ufield_refl, lemma_ufield_trans, lemma_uprop_refl, lemma_uprop_trans, on_field, on_uprop, duplicate_ufield, duplicate_uprop};

verus! {

broadcast use lemma_walk_state_append, lemma_walk_out_append;

/// What an object with properties holds beyond its common fields.
pub struct NormalExport {
    pub properties: Vec<Property>,
}

/// The references that `on_norm` shows, in the order it shows them.
pub open spec fn normal_refs(x: NormalExport) -> Seq<i32>
    decreases x,
{
    prop_list_refs(x.properties@)
}

/// `a` and `b` differ at most in the references that `on_norm` shows.
pub open spec fn same_normal_shape(a: NormalExport, b: NormalExport) -> bool
    decreases a,
{
    same_prop_list_shape(a.properties@, b.properties@)
}

/// Every NormalExport has its own shape.
pub proof fn lemma_normal_refl(x: NormalExport)
    ensures
        same_normal_shape(x, x),
    decreases x,
{
    lemma_prop_list_refl(x.properties@);
}

/// Shapes that agree in turn agree.
pub proof fn lemma_normal_trans(a: NormalExport, b: NormalExport, c: NormalExport)
    requires
        same_normal_shape(a, b),
        same_normal_shape(b, c),
    ensures
        same_normal_shape(a, c),
    decreases a,
{
    lemma_prop_list_trans(a.properties@, b.properties@, c.properties@);
}

/// Shows `func` the references of an object's properties.
pub fn on_norm<V: IndexVisitor>(x: &mut NormalExport, func: &mut V)
    ensures
        same_normal_shape(*old(x), *final(x)),
        normal_refs(*final(x)) == walk_out::<V>(old(func).visit_state(), normal_refs(*old(x))),
        final(func).visit_state() == walk_state::<V>(old(func).visit_state(), normal_refs(*old(x))),
    decreases *old(x),
{
    let NormalExport { properties } = x;
    on_props_list(properties, func);
}

/// A copy of `x`.
pub fn duplicate_normal(x: &NormalExport) -> (y: NormalExport)
    ensures
        same_normal_shape(*x, y),
        normal_refs(y) == normal_refs(*x),
    decreases *x,
{
    let NormalExport { properties } = x;
    NormalExport {
        properties: duplicate_prop_list(properties),
    }
}
/// What a struct holds: its next field, super struct, children, property declarations, bytecode and properties.
pub struct StructExport {
    pub field: UField,
    pub super_struct: PackageIndex,
    pub children: Vec<PackageIndex>,
    pub loaded_properties: Vec<FProperty>,
    pub script_bytecode: Option<Vec<Expr>>,
    pub normal_export: NormalExport,
}

/// The references that `on_struct` shows, in the order it shows them.
pub open spec fn struct_export_refs(x: StructExport) -> Seq<i32>
    decreases x,
{
    ufield_refs(x.field) + seq![x.super_struct.index] + index_list_refs(x.children@) + fprop_list_refs(x.loaded_properties@) + expr_opt_list_refs(x.script_bytecode) + normal_refs(x.normal_export)
}

/// `a` and `b` differ at most in the references that `on_struct` shows.
pub open spec fn same_struct_export_shape(a: StructExport, b: StructExport) -> bool
    decreases a,
{
    same_ufield_shape(a.field, b.field)
    && a.children@.len() == b.children@.len()
    && same_fprop_list_shape(a.loaded_properties@, b.loaded_properties@)
    && same_expr_opt_list_shape(a.script_bytecode, b.script_bytecode)
    && same_normal_shape(a.normal_export, b.normal_export)
}

/// Every StructExport has its own shape.
pub proof fn lemma_struct_export_refl(x: StructExport)
    ensures
        same_struct_export_shape(x, x),
    decreases x,
{
    lemma_ufield_refl(x.field);
    lemma_fprop_list_refl(x.loaded_properties@);
    lemma_expr_opt_list_refl(x.script_bytecode);
    lemma_normal_refl(x.normal_export);
}

/// Shapes that agree in turn agree.
pub proof fn lemma_struct_export_trans(a: StructExport, b: StructExport, c: StructExport)
    requires
        same_struct_export_shape(a, b),
        same_struct_export_shape(b, c),
    ensures
        same_struct_export_shape(a, c),
    decreases a,
{
    lemma_ufield_trans(a.field, b.field, c.field);
    lemma_fprop_list_trans(a.loaded_properties@, b.loaded_properties@, c.loaded_properties@);
    lemma_expr_opt_list_trans(a.script_bytecode, b.script_bytecode, c.script_bytecode);
    lemma_normal_trans(a.normal_export, b.normal_export, c.normal_export);
}

/// Shows `func` a struct's next field, super struct, children, declarations, bytecode and properties, in order.
pub fn on_struct<V: IndexVisitor>(x: &mut StructExport, func: &mut V)
    ensures
        same_struct_export_shape(*old(x), *final(x)),
        struct_export_refs(*final(x)) == walk_out::<V>(old(func).visit_state(), struct_export_refs(*old(x))),
        final(func).visit_state() == walk_state::<V>(old(func).visit_state(), struct_export_refs(*old(x))),
    decreases *old(x),
{
    let StructExport { field, super_struct, children, loaded_properties, script_bytecode, normal_export } = x;
    on_field(field, func);
    on_index(super_struct, func);
    on_index_list(children, func);
    on_fprop_list(loaded_properties, func);
    on_kismet_opt_list(script_bytecode, func);
    on_norm(normal_export, func);
}

/// A copy of `x`.
pub fn duplicate_struct_export(x: &StructExport) -> (y: StructExport)
    ensures
        same_struct_export_shape(*x, y),
        struct_export_refs(y) == struct_export_refs(*x),
    decreases *x,
{
    let StructExport { field, super_struct, children, loaded_properties, script_bytecode, normal_export } = x;
    StructExport {
        field: duplicate_ufield(field),
        super_struct: *super_struct,
        children: copy_index_list(children),
        loaded_properties: duplicate_fprop_list(loaded_properties),
        script_bytecode: duplicate_expr_opt_list(script_bytecode),
        normal_export: duplicate_normal(normal_export),
    }
}
/// An entry of a class's function map: a function's name and the export that defines it.
pub struct FuncMapEntry {
    pub name: String,
    pub index: PackageIndex,
}

/// The references that `on_func_entry` shows, in the order it shows them.
pub open spec fn func_entry_refs(x: FuncMapEntry) -> Seq<i32>
    decreases x,
{
    seq![x.index.index]
}

/// `a` and `b` differ at most in the references that `on_func_entry` shows.
pub open spec fn same_func_entry_shape(a: FuncMapEntry, b: FuncMapEntry) -> bool
    decreases a,
{
    a.name@ == b.name@
}

/// Every FuncMapEntry has its own shape.
pub proof fn lemma_func_entry_refl(x: FuncMapEntry)
    ensures
        same_func_entry_shape(x, x),
    decreases x,
{
}

/// Shapes that agree in turn agree.
pub proof fn lemma_func_entry_trans(a: FuncMapEntry, b: FuncMapEntry, c: FuncMapEntry)
    requires
        same_func_entry_shape(a, b),
        same_func_entry_shape(b, c),
    ensures
        same_func_entry_shape(a, c),
    decreases a,
{
}

/// Shows `func` the function an entry names.
pub fn on_func_entry<V: IndexVisitor>(x: &mut FuncMapEntry, func: &mut V)
    ensures
        same_func_entry_shape(*old(x), *final(x)),
        func_entry_refs(*final(x)) == walk_out::<V>(old(func).visit_state(), func_entry_refs(*old(x))),
        final(func).visit_state() == walk_state::<V>(old(func).visit_state(), func_entry_refs(*old(x))),
    decreases *old(x),
{
    let FuncMapEntry { index, .. } = x;
    on_index(index, func);
}

/// A copy of `x`.
pub fn duplicate_func_entry(x: &FuncMapEntry) -> (y: FuncMapEntry)
    ensures
        same_func_entry_shape(*x, y),
        func_entry_refs(y) == func_entry_refs(*x),
    decreases *x,
{
    let FuncMapEntry { name, index } = x;
    FuncMapEntry {
        name: name.clone(),
        index: *index,
    }
}
/// The references of a list of `FuncMapEntry`, in order.
pub open spec fn func_entry_list_refs(s: Seq<FuncMapEntry>) -> Seq<i32>
    decreases s,
{
    if s.len() == 0 {
        Seq::empty()
    } else {
        func_entry_list_refs(s.drop_last()) + func_entry_refs(s.last())
    }
}

/// Two lists of `FuncMapEntry` differ at most in their references.
pub open spec fn same_func_entry_list_shape(a: Seq<FuncMapEntry>, b: Seq<FuncMapEntry>) -> bool
    decreases a,
{
    &&& a.len() == b.len()
    &&& a.len() > 0 ==> same_func_entry_list_shape(a.drop_last(), b.drop_last()) && same_func_entry_shape(
        a.last(),
        b.last(),
    )
}

/// Every list of `FuncMapEntry` has its own shape.
pub proof fn lemma_func_entry_list_refl(s: Seq<FuncMapEntry>)
    ensures
        same_func_entry_list_shape(s, s),
    decreases s,
{
    if s.len() > 0 {
        lemma_func_entry_list_refl(s.drop_last());
        lemma_func_entry_refl(s.last());
    }
}

/// List shapes that agree in turn agree.
pub proof fn lemma_func_entry_list_trans(a: Seq<FuncMapEntry>, b: Seq<FuncMapEntry>, c: Seq<FuncMapEntry>)
    requires
        same_func_entry_list_shape(a, b),
        same_func_entry_list_shape(b, c),
    ensures
        same_func_entry_list_shape(a, c),
    decreases a,
{
    if a.len() > 0 {
        lemma_func_entry_list_trans(a.drop_last(), b.drop_last(), c.drop_last());
        lemma_func_entry_trans(a.last(), b.last(), c.last());
    }
}

/// Shows `func` the references of each element of `list`, in order.
pub fn on_func_entry_list<V: IndexVisitor>(list: &mut Vec<FuncMapEntry>, func: &mut V)
    ensures
        same_func_entry_list_shape(old(list)@, final(list)@),
        func_entry_list_refs(final(list)@) == walk_out::<V>(old(func).visit_state(), func_entry_list_refs(old(list)@)),
        final(func).visit_state() == walk_state::<V>(old(func).visit_state(), func_entry_list_refs(old(list)@)),
    decreases *old(list),
{
    let ghost old_list = *list;
    let ghost orig = list@;
    let ghost v0 = func.visit_state();
    let mut i: usize = 0;
    proof {
        lemma_walk_empty::<V>(v0);
        assert(orig.take(0) =~= Seq::<FuncMapEntry>::empty());
    }
    while i < list.len()
        invariant
            i <= list@.len(),
            list@.len() == orig.len(),
            forall|j: int| i <= j < orig.len() ==> list@[j] == orig[j],
            same_func_entry_list_shape(orig.take(i as int), list@.take(i as int)),
            func_entry_list_refs(list@.take(i as int)) == walk_out::<V>(v0, func_entry_list_refs(orig.take(i as int))),
            func.visit_state() == walk_state::<V>(v0, func_entry_list_refs(orig.take(i as int))),
            old_list == *old(list),
            orig == old_list@,
        decreases orig.len() - i,
    {
        proof {
            assert(decreases_to!(old_list => old_list@));
            assert(decreases_to!(old_list@ => old_list@[i as int]));
        }
        let ghost prev = list@;
        on_func_entry(&mut list[i], func);
        proof {
            assert(list@.take(i as int) =~= prev.take(i as int));
            assert(orig.take(i + 1).drop_last() =~= orig.take(i as int));
            assert(list@.take(i + 1).drop_last() =~= list@.take(i as int));
            assert(orig.take(i + 1).last() == orig[i as int]);
            assert(list@.take(i + 1).last() == list@[i as int]);
            assert(func_entry_list_refs(orig.take(i + 1)) == func_entry_list_refs(orig.take(i as int))
                + func_entry_refs(orig[i as int]));
            assert(func_entry_list_refs(list@.take(i + 1)) == func_entry_list_refs(list@.take(i as int))
                + func_entry_refs(list@[i as int]));
        }
        i = i + 1;
    }
    assert(orig.take(orig.len() as int) =~= orig);
    assert(list@.take(orig.len() as int) =~= list@);
}

/// A copy of a list of `FuncMapEntry`.
pub fn duplicate_func_entry_list(list: &Vec<FuncMapEntry>) -> (copy: Vec<FuncMapEntry>)
    ensures
        same_func_entry_list_shape(list@, copy@),
        func_entry_list_refs(copy@) == func_entry_list_refs(list@),
    decreases *list,
{
    let mut copy: Vec<FuncMapEntry> = Vec::new();
    let mut i: usize = 0;
    proof {
        assert(list@.take(0) =~= Seq::<FuncMapEntry>::empty());
    }
    while i < list.len()
        invariant
            i <= list@.len(),
            copy@.len() == i,
            same_func_entry_list_shape(list@.take(i as int), copy@),
            func_entry_list_refs(copy@) == func_entry_list_refs(list@.take(i as int)),
        decreases list@.len() - i,
    {
        proof {
            assert(decreases_to!(*list => list@));
            assert(decreases_to!(list@ => list@[i as int]));
        }
        let ghost prev = copy@;
        let item = duplicate_func_entry(&list[i]);
        copy.push(item);
        proof {
            assert(copy@.drop_last() =~= prev);
            assert(list@.take(i + 1).drop_last() =~= list@.take(i as int));
            assert(list@.take(i + 1).last() == list@[i as int]);
        }
        i = i + 1;
    }
    assert(list@.take(list@.len() as int) =~= list@);
    copy
}
/// An interface that a class implements.
pub struct InterfaceRef {
    pub class: PackageIndex,
    pub pointer_offset: i32,
    pub implemented_by_k2: bool,
}

/// The references that `on_interface` shows, in the order it shows them.
pub open spec fn interface_refs(x: InterfaceRef) -> Seq<i32>
    decreases x,
{
    seq![x.class.index]
}

/// `a` and `b` differ at most in the references that `on_interface` shows.
pub open spec fn same_interface_shape(a: InterfaceRef, b: InterfaceRef) -> bool
    decreases a,
{
    a.pointer_offset == b.pointer_offset
    && a.implemented_by_k2 == b.implemented_by_k2
}

/// Every InterfaceRef has its own shape.
pub proof fn lemma_interface_refl(x: InterfaceRef)
    ensures
        same_interface_shape(x, x),
    decreases x,
{
}

/// Shapes that agree in turn agree.
pub proof fn lemma_interface_trans(a: InterfaceRef, b: InterfaceRef, c: InterfaceRef)
    requires
        same_interface_shape(a, b),
        same_interface_shape(b, c),
    ensures
        same_interface_shape(a, c),
    decreases a,
{
}

/// Shows `func` an interface's class.
pub fn on_interface<V: IndexVisitor>(x: &mut InterfaceRef, func: &mut V)
    ensures
        same_interface_shape(*old(x), *final(x)),
        interface_refs(*final(x)) == walk_out::<V>(old(func).visit_state(), interface_refs(*old(x))),
        final(func).visit_state() == walk_state::<V>(old(func).visit_state(), interface_refs(*old(x))),
    decreases *old(x),
{
    let InterfaceRef { class, .. } = x;
    on_index(class, func);
}

/// A copy of `x`.
pub fn duplicate_interface(x: &InterfaceRef) -> (y: InterfaceRef)
    ensures
        same_interface_shape(*x, y),
        interface_refs(y) == interface_refs(*x),
    decreases *x,
{
    let InterfaceRef { class, pointer_offset, implemented_by_k2 } = x;
    InterfaceRef {
        class: *class,
        pointer_offset: *pointer_offset,
        implemented_by_k2: *implemented_by_k2,
    }
}
/// The references of a list of `InterfaceRef`, in order.
pub open spec fn interface_list_refs(s: Seq<InterfaceRef>) -> Seq<i32>
    decreases s,
{
    if s.len() == 0 {
        Seq::empty()
    } else {
        interface_list_refs(s.drop_last()) + interface_refs(s.last())
    }
}

/// Two lists of `InterfaceRef` differ at most in their references.
pub open spec fn same_interface_list_shape(a: Seq<InterfaceRef>, b: Seq<InterfaceRef>) -> bool
    decreases a,
{
    &&& a.len() == b.len()
    &&& a.len() > 0 ==> same_interface_list_shape(a.drop_last(), b.drop_last()) && same_interface_shape(
        a.last(),
        b.last(),
    )
}

/// Every list of `InterfaceRef` has its own shape.
pub proof fn lemma_interface_list_refl(s: Seq<InterfaceRef>)
    ensures
        same_interface_list_shape(s, s),
    decreases s,
{
    if s.len() > 0 {
        lemma_interface_list_refl(s.drop_last());
        lemma_interface_refl(s.last());
    }
}

/// List shapes that agree in turn agree.
pub proof fn lemma_interface_list_trans(a: Seq<InterfaceRef>, b: Seq<InterfaceRef>, c: Seq<InterfaceRef>)
    requires
        same_interface_list_shape(a, b),
        same_interface_list_shape(b, c),
    ensures
        same_interface_list_shape(a, c),
    decreases a,
{
    if a.len() > 0 {
        lemma_interface_list_trans(a.drop_last(), b.drop_last(), c.drop_last());
        lemma_interface_trans(a.last(), b.last(), c.last());
    }
}

/// Shows `func` the references of each element of `list`, in order.
pub fn on_interface_list<V: IndexVisitor>(list: &mut Vec<InterfaceRef>, func: &mut V)
    ensures
        same_interface_list_shape(old(list)@, final(list)@),
        interface_list_refs(final(list)@) == walk_out::<V>(old(func).visit_state(), interface_list_refs(old(list)@)),
        final(func).visit_state() == walk_state::<V>(old(func).visit_state(), interface_list_refs(old(list)@)),
    decreases *old(list),
{
    let ghost old_list = *list;
    let ghost orig = list@;
    let ghost v0 = func.visit_state();
    let mut i: usize = 0;
    proof {
        lemma_walk_empty::<V>(v0);
        assert(orig.take(0) =~= Seq::<InterfaceRef>::empty());
    }
    while i < list.len()
        invariant
            i <= list@.len(),
            list@.len() == orig.len(),
            forall|j: int| i <= j < orig.len() ==> list@[j] == orig[j],
            same_interface_list_shape(orig.take(i as int), list@.take(i as int)),
            interface_list_refs(list@.take(i as int)) == walk_out::<V>(v0, interface_list_refs(orig.take(i as int))),
            func.visit_state() == walk_state::<V>(v0, interface_list_refs(orig.take(i as int))),
            old_list == *old(list),
            orig == old_list@,
        decreases orig.len() - i,
    {
        proof {
            assert(decreases_to!(old_list => old_list@));
            assert(decreases_to!(old_list@ => old_list@[i as int]));
        }
        let ghost prev = list@;
        on_interface(&mut list[i], func);
        proof {
            assert(list@.take(i as int) =~= prev.take(i as int));
            assert(orig.take(i + 1).drop_last() =~= orig.take(i as int));
            assert(list@.take(i + 1).drop_last() =~= list@.take(i as int));
            assert(orig.take(i + 1).last() == orig[i as int]);
            assert(list@.take(i + 1).last() == list@[i as int]);
            assert(interface_list_refs(orig.take(i + 1)) == interface_list_refs(orig.take(i as int))
                + interface_refs(orig[i as int]));
            assert(interface_list_refs(list@.take(i + 1)) == interface_list_refs(list@.take(i as int))
                + interface_refs(list@[i as int]));
        }
        i = i + 1;
    }
    assert(orig.take(orig.len() as int) =~= orig);
    assert(list@.take(orig.len() as int) =~= list@);
}

/// A copy of a list of `InterfaceRef`.
pub fn duplicate_interface_list(list: &Vec<InterfaceRef>) -> (copy: Vec<InterfaceRef>)
    ensures
        same_interface_list_shape(list@, copy@),
        interface_list_refs(copy@) == interface_list_refs(list@),
    decreases *list,
{
    let mut copy: Vec<InterfaceRef> = Vec::new();
    let mut i: usize = 0;
    proof {
        assert(list@.take(0) =~= Seq::<InterfaceRef>::empty());
    }
    while i < list.len()
        invariant
            i <= list@.len(),
            copy@.len() == i,
            same_interface_list_shape(list@.take(i as int), copy@),
            interface_list_refs(copy@) == interface_list_refs(list@.take(i as int)),
        decreases list@.len() - i,
    {
        proof {
            assert(decreases_to!(*list => list@));
            assert(decreases_to!(list@ => list@[i as int]));
        }
        let ghost prev = copy@;
        let item = duplicate_interface(&list[i]);
        copy.push(item);
        proof {
            assert(copy@.drop_last() =~= prev);
            assert(list@.take(i + 1).drop_last() =~= list@.take(i as int));
            assert(list@.take(i + 1).last() == list@[i as int]);
        }
        i = i + 1;
    }
    assert(list@.take(list@.len() as int) =~= list@);
    copy
}
/// A row of a data table.
pub struct DataTableRow {
    pub name: String,
    pub value: Vec<Property>,
}

/// The references that `on_row` shows, in the order it shows them.
pub open spec fn row_refs(x: DataTableRow) -> Seq<i32>
    decreases x,
{
    prop_list_refs(x.value@)
}

/// `a` and `b` differ at most in the references that `on_row` shows.
pub open spec fn same_row_shape(a: DataTableRow, b: DataTableRow) -> bool
    decreases a,
{
    a.name@ == b.name@
    && same_prop_list_shape(a.value@, b.value@)
}

/// Every DataTableRow has its own shape.
pub proof fn lemma_row_refl(x: DataTableRow)
    ensures
        same_row_shape(x, x),
    decreases x,
{
    lemma_prop_list_refl(x.value@);
}

/// Shapes that agree in turn agree.
pub proof fn lemma_row_trans(a: DataTableRow, b: DataTableRow, c: DataTableRow)
    requires
        same_row_shape(a, b),
        same_row_shape(b, c),
    ensures
        same_row_shape(a, c),
    decreases a,
{
    lemma_prop_list_trans(a.value@, b.value@, c.value@);
}

/// Shows `func` the references of a row's properties.
pub fn on_row<V: IndexVisitor>(x: &mut DataTableRow, func: &mut V)
    ensures
        same_row_shape(*old(x), *final(x)),
        row_refs(*final(x)) == walk_out::<V>(old(func).visit_state(), row_refs(*old(x))),
        final(func).visit_state() == walk_state::<V>(old(func).visit_state(), row_refs(*old(x))),
    decreases *old(x),
{
    let DataTableRow { value, .. } = x;
    on_props_list(value, func);
}

/// A copy of `x`.
pub fn duplicate_row(x: &DataTableRow) -> (y: DataTableRow)
    ensures
        same_row_shape(*x, y),
        row_refs(y) == row_refs(*x),
    decreases *x,
{
    let DataTableRow { name, value } = x;
    DataTableRow {
        name: name.clone(),
        value: duplicate_prop_list(value),
    }
}
/// The references of a list of `DataTableRow`, in order.
pub open spec fn row_list_refs(s: Seq<DataTableRow>) -> Seq<i32>
    decreases s,
{
    if s.len() == 0 {
        Seq::empty()
    } else {
        row_list_refs(s.drop_last()) + row_refs(s.last())
    }
}

/// Two lists of `DataTableRow` differ at most in their references.
pub open spec fn same_row_list_shape(a: Seq<DataTableRow>, b: Seq<DataTableRow>) -> bool
    decreases a,
{
    &&& a.len() == b.len()
    &&& a.len() > 0 ==> same_row_list_shape(a.drop_last(), b.drop_last()) && same_row_shape(
        a.last(),
        b.last(),
    )
}

/// Every list of `DataTableRow` has its own shape.
pub proof fn lemma_row_list_refl(s: Seq<DataTableRow>)
    ensures
        same_row_list_shape(s, s),
    decreases s,
{
    if s.len() > 0 {
        lemma_row_list_refl(s.drop_last());
        lemma_row_refl(s.last());
    }
}

/// List shapes that agree in turn agree.
pub proof fn lemma_row_list_trans(a: Seq<DataTableRow>, b: Seq<DataTableRow>, c: Seq<DataTableRow>)
    requires
        same_row_list_shape(a, b),
        same_row_list_shape(b, c),
    ensures
        same_row_list_shape(a, c),
    decreases a,
{
    if a.len() > 0 {
        lemma_row_list_trans(a.drop_last(), b.drop_last(), c.drop_last());
        lemma_row_trans(a.last(), b.last(), c.last());
    }
}

/// Shows `func` the references of each element of `list`, in order.
pub fn on_row_list<V: IndexVisitor>(list: &mut Vec<DataTableRow>, func: &mut V)
    ensures
        same_row_list_shape(old(list)@, final(list)@),
        row_list_refs(final(list)@) == walk_out::<V>(old(func).visit_state(), row_list_refs(old(list)@)),
        final(func).visit_state() == walk_state::<V>(old(func).visit_state(), row_list_refs(old(list)@)),
    decreases *old(list),
{
    let ghost old_list = *list;
    let ghost orig = list@;
    let ghost v0 = func.visit_state();
    let mut i: usize = 0;
    proof {
        lemma_walk_empty::<V>(v0);
        assert(orig.take(0) =~= Seq::<DataTableRow>::empty());
    }
    while i < list.len()
        invariant
            i <= list@.len(),
            list@.len() == orig.len(),
            forall|j: int| i <= j < orig.len() ==> list@[j] == orig[j],
            same_row_list_shape(orig.take(i as int), list@.take(i as int)),
            row_list_refs(list@.take(i as int)) == walk_out::<V>(v0, row_list_refs(orig.take(i as int))),
            func.visit_state() == walk_state::<V>(v0, row_list_refs(orig.take(i as int))),
            old_list == *old(list),
            orig == old_list@,
        decreases orig.len() - i,
    {
        proof {
            assert(decreases_to!(old_list => old_list@));
            assert(decreases_to!(old_list@ => old_list@[i as int]));
        }
        let ghost prev = list@;
        on_row(&mut list[i], func);
        proof {
            assert(list@.take(i as int) =~= prev.take(i as int));
            assert(orig.take(i + 1).drop_last() =~= orig.take(i as int));
            assert(list@.take(i + 1).drop_last() =~= list@.take(i as int));
            assert(orig.take(i + 1).last() == orig[i as int]);
            assert(list@.take(i + 1).last() == list@[i as int]);
            assert(row_list_refs(orig.take(i + 1)) == row_list_refs(orig.take(i as int))
                + row_refs(orig[i as int]));
            assert(row_list_refs(list@.take(i + 1)) == row_list_refs(list@.take(i as int))
                + row_refs(list@[i as int]));
        }
        i = i + 1;
    }
    assert(orig.take(orig.len() as int) =~= orig);
    assert(list@.take(orig.len() as int) =~= list@);
}

/// A copy of a list of `DataTableRow`.
pub fn duplicate_row_list(list: &Vec<DataTableRow>) -> (copy: Vec<DataTableRow>)
    ensures
        same_row_list_shape(list@, copy@),
        row_list_refs(copy@) == row_list_refs(list@),
    decreases *list,
{
    let mut copy: Vec<DataTableRow> = Vec::new();
    let mut i: usize = 0;
    proof {
        assert(list@.take(0) =~= Seq::<DataTableRow>::empty());
    }
    while i < list.len()
        invariant
            i <= list@.len(),
            copy@.len() == i,
            same_row_list_shape(list@.take(i as int), copy@),
            row_list_refs(copy@) == row_list_refs(list@.take(i as int)),
        decreases list@.len() - i,
    {
        proof {
            assert(decreases_to!(*list => list@));
            assert(decreases_to!(list@ => list@[i as int]));
        }
        let ghost prev = copy@;
        let item = duplicate_row(&list[i]);
        copy.push(item);
        proof {
            assert(copy@.drop_last() =~= prev);
            assert(list@.take(i + 1).drop_last() =~= list@.take(i as int));
            assert(list@.take(i + 1).last() == list@[i as int]);
        }
        i = i + 1;
    }
    assert(list@.take(list@.len() as int) =~= list@);
    copy
}
/// What an export holds beyond its common fields, by kind.
pub enum ExportData {
    /// An export with nothing beyond its common fields.
    BaseExport,
    /// A class: its function map, interfaces and struct.
    ClassExport { func_map: Vec<FuncMapEntry>, class_within: PackageIndex, interfaces: Vec<InterfaceRef>, class_generated_by: PackageIndex, class_default_object: PackageIndex, struct_export: StructExport },
    /// An enumeration.
    EnumExport { normal_export: NormalExport },
    /// A level.
    LevelExport { actors: Vec<PackageIndex>, model: PackageIndex, model_components: Vec<PackageIndex>, level_script: PackageIndex, nav_list_start: PackageIndex, nav_list_end: PackageIndex, normal_export: NormalExport },
    /// An object with properties.
    NormalExport { normal_export: NormalExport },
    /// A property declaration.
    PropertyExport { property: UProperty, normal_export: NormalExport },
    /// An export kept as raw bytes.
    RawExport,
    /// A string table.
    StringTableExport { normal_export: NormalExport },
    /// A struct.
    StructExport { struct_export: StructExport },
    /// A user defined struct and its default instance.
    UserDefinedStructExport { default_struct_instance: Vec<Property>, struct_export: StructExport },
    /// A function.
    FunctionExport { struct_export: StructExport },
    /// A data table.
    DataTableExport { rows: Vec<DataTableRow>, normal_export: NormalExport },
    /// A world.
    WorldExport { persistent_level: PackageIndex, extra_objects: Vec<PackageIndex>, streaming_levels: Vec<PackageIndex>, normal_export: NormalExport },
}

/// The references that `on_export_data` shows, in the order it shows them.
pub open spec fn export_data_refs(x: ExportData) -> Seq<i32>
    decreases x,
{
    match x {
        ExportData::BaseExport => Seq::empty(),
        ExportData::ClassExport { func_map, class_within, interfaces, class_generated_by, class_default_object, struct_export } => func_entry_list_refs(func_map@) + seq![class_within.index] + interface_list_refs(interfaces@) + seq![class_generated_by.index] + seq![class_default_object.index] + struct_export_refs(struct_export),
        ExportData::EnumExport { normal_export } => normal_refs(normal_export),
        ExportData::LevelExport { actors, model, model_components, level_script, nav_list_start, nav_list_end, normal_export } => index_list_refs(actors@) + seq![model.index] + index_list_refs(model_components@) + seq![level_script.index] + seq![nav_list_start.index] + seq![nav_list_end.index] + normal_refs(normal_export),
        ExportData::NormalExport { normal_export } => normal_refs(normal_export),
        ExportData::PropertyExport { property, normal_export } => uprop_refs(property) + normal_refs(normal_export),
        ExportData::RawExport => Seq::empty(),
        ExportData::StringTableExport { normal_export } => normal_refs(normal_export),
        ExportData::StructExport { struct_export } => struct_export_refs(struct_export),
        ExportData::UserDefinedStructExport { default_struct_instance, struct_export } => prop_list_refs(default_struct_instance@) + struct_export_refs(struct_export),
        ExportData::FunctionExport { struct_export } => struct_export_refs(struct_export),
        ExportData::DataTableExport { rows, normal_export } => row_list_refs(rows@) + normal_refs(normal_export),
        ExportData::WorldExport { persistent_level, extra_objects, streaming_levels, normal_export } => seq![persistent_level.index] + index_list_refs(extra_objects@) + index_list_refs(streaming_levels@) + normal_refs(normal_export),
    }
}

/// `a` and `b` differ at most in the references that `on_export_data` shows.
pub open spec fn same_export_data_shape(a: ExportData, b: ExportData) -> bool
    decreases a,
{
    match (a, b) {
        (ExportData::BaseExport, ExportData::BaseExport) => true,
        (ExportData::ClassExport { func_map: func_map_a, interfaces: interfaces_a, struct_export: struct_export_a, .. }, ExportData::ClassExport { func_map: func_map_b, interfaces: interfaces_b, struct_export: struct_export_b, .. }) => same_func_entry_list_shape(func_map_a@, func_map_b@) && same_interface_list_shape(interfaces_a@, interfaces_b@) && same_struct_export_shape(struct_export_a, struct_export_b),
        (ExportData::EnumExport { normal_export: normal_export_a }, ExportData::EnumExport { normal_export: normal_export_b }) => same_normal_shape(normal_export_a, normal_export_b),
        (ExportData::LevelExport { actors: actors_a, model_components: model_components_a, normal_export: normal_export_a, .. }, ExportData::LevelExport { actors: actors_b, model_components: model_components_b, normal_export: normal_export_b, .. }) => actors_a@.len() == actors_b@.len() && model_components_a@.len() == model_components_b@.len() && same_normal_shape(normal_export_a, normal_export_b),
        (ExportData::NormalExport { normal_export: normal_export_a }, ExportData::NormalExport { normal_export: normal_export_b }) => same_normal_shape(normal_export_a, normal_export_b),
        (ExportData::PropertyExport { property: property_a, normal_export: normal_export_a }, ExportData::PropertyExport { property: property_b, normal_export: normal_export_b }) => same_uprop_shape(property_a, property_b) && same_normal_shape(normal_export_a, normal_export_b),
        (ExportData::RawExport, ExportData::RawExport) => true,
        (ExportData::StringTableExport { normal_export: normal_export_a }, ExportData::StringTableExport { normal_export: normal_export_b }) => same_normal_shape(normal_export_a, normal_export_b),
        (ExportData::StructExport { struct_export: struct_export_a }, ExportData::StructExport { struct_export: struct_export_b }) => same_struct_export_shape(struct_export_a, struct_export_b),
        (ExportData::UserDefinedStructExport { default_struct_instance: default_struct_instance_a, struct_export: struct_export_a }, ExportData::UserDefinedStructExport { default_struct_instance: default_struct_instance_b, struct_export: struct_export_b }) => same_prop_list_shape(default_struct_instance_a@, default_struct_instance_b@) && same_struct_export_shape(struct_export_a, struct_export_b),
        (ExportData::FunctionExport { struct_export: struct_export_a }, ExportData::FunctionExport { struct_export: struct_export_b }) => same_struct_export_shape(struct_export_a, struct_export_b),
        (ExportData::DataTableExport { rows: rows_a, normal_export: normal_export_a }, ExportData::DataTableExport { rows: rows_b, normal_export: normal_export_b }) => same_row_list_shape(rows_a@, rows_b@) && same_normal_shape(normal_export_a, normal_export_b),
        (ExportData::WorldExport { extra_objects: extra_objects_a, streaming_levels: streaming_levels_a, normal_export: normal_export_a, .. }, ExportData::WorldExport { extra_objects: extra_objects_b, streaming_levels: streaming_levels_b, normal_export: normal_export_b, .. }) => extra_objects_a@.len() == extra_objects_b@.len() && streaming_levels_a@.len() == streaming_levels_b@.len() && same_normal_shape(normal_export_a, normal_export_b),
        _ => false,
    }
}

/// Every ExportData has its own shape.
pub proof fn lemma_export_data_refl(x: ExportData)
    ensures
        same_export_data_shape(x, x),
    decreases x,
{
    match x {
        ExportData::ClassExport { func_map, interfaces, struct_export, .. } => {
            lemma_func_entry_list_refl(func_map@);
            lemma_interface_list_refl(interfaces@);
            lemma_struct_export_refl(struct_export);
        },
        ExportData::EnumExport { normal_export } => {
            lemma_normal_refl(normal_export);
        },
        ExportData::LevelExport { normal_export, .. } => {
            lemma_normal_refl(normal_export);
        },
        ExportData::NormalExport { normal_export } => {
            lemma_normal_refl(normal_export);
        },
        ExportData::PropertyExport { property, normal_export } => {
            lemma_uprop_refl(property);
            lemma_normal_refl(normal_export);
        },
        ExportData::StringTableExport { normal_export } => {
            lemma_normal_refl(normal_export);
        },
        ExportData::StructExport { struct_export } => {
            lemma_struct_export_refl(struct_export);
        },
        ExportData::UserDefinedStructExport { default_struct_instance, struct_export } => {
            lemma_prop_list_refl(default_struct_instance@);
            lemma_struct_export_refl(struct_export);
        },
        ExportData::FunctionExport { struct_export } => {
            lemma_struct_export_refl(struct_export);
        },
        ExportData::DataTableExport { rows, normal_export } => {
            lemma_row_list_refl(rows@);
            lemma_normal_refl(normal_export);
        },
        ExportData::WorldExport { normal_export, .. } => {
            lemma_normal_refl(normal_export);
        },
        _ => {},
    }
}

/// Shapes that agree in turn agree.
pub proof fn lemma_export_data_trans(a: ExportData, b: ExportData, c: ExportData)
    requires
        same_export_data_shape(a, b),
        same_export_data_shape(b, c),
    ensures
        same_export_data_shape(a, c),
    decreases a,
{
    match (a, b, c) {
        (ExportData::ClassExport { func_map: func_map_a, interfaces: interfaces_a, struct_export: struct_export_a, .. }, ExportData::ClassExport { func_map: func_map_b, interfaces: interfaces_b, struct_export: struct_export_b, .. }, ExportData::ClassExport { func_map: func_map_c, interfaces: interfaces_c, struct_export: struct_export_c, .. }) => {
            lemma_func_entry_list_trans(func_map_a@, func_map_b@, func_map_c@);
            lemma_interface_list_trans(interfaces_a@, interfaces_b@, interfaces_c@);
            lemma_struct_export_trans(struct_export_a, struct_export_b, struct_export_c);
        },
        (ExportData::EnumExport { normal_export: normal_export_a }, ExportData::EnumExport { normal_export: normal_export_b }, ExportData::EnumExport { normal_export: normal_export_c }) => {
            lemma_normal_trans(normal_export_a, normal_export_b, normal_export_c);
        },
        (ExportData::LevelExport { normal_export: normal_export_a, .. }, ExportData::LevelExport { normal_export: normal_export_b, .. }, ExportData::LevelExport { normal_export: normal_export_c, .. }) => {
            lemma_normal_trans(normal_export_a, normal_export_b, normal_export_c);
        },
        (ExportData::NormalExport { normal_export: normal_export_a }, ExportData::NormalExport { normal_export: normal_export_b }, ExportData::NormalExport { normal_export: normal_export_c }) => {
            lemma_normal_trans(normal_export_a, normal_export_b, normal_export_c);
        },
        (ExportData::PropertyExport { property: property_a, normal_export: normal_export_a }, ExportData::PropertyExport { property: property_b, normal_export: normal_export_b }, ExportData::PropertyExport { property: property_c, normal_export: normal_export_c }) => {
            lemma_uprop_trans(property_a, property_b, property_c);
            lemma_normal_trans(normal_export_a, normal_export_b, normal_export_c);
        },
        (ExportData::StringTableExport { normal_export: normal_export_a }, ExportData::StringTableExport { normal_export: normal_export_b }, ExportData::StringTableExport { normal_export: normal_export_c }) => {
            lemma_normal_trans(normal_export_a, normal_export_b, normal_export_c);
        },
        (ExportData::StructExport { struct_export: struct_export_a }, ExportData::StructExport { struct_export: struct_export_b }, ExportData::StructExport { struct_export: struct_export_c }) => {
            lemma_struct_export_trans(struct_export_a, struct_export_b, struct_export_c);
        },
        (ExportData::UserDefinedStructExport { default_struct_instance: default_struct_instance_a, struct_export: struct_export_a }, ExportData::UserDefinedStructExport { default_struct_instance: default_struct_instance_b, struct_export: struct_export_b }, ExportData::UserDefinedStructExport { default_struct_instance: default_struct_instance_c, struct_export: struct_export_c }) => {
            lemma_prop_list_trans(default_struct_instance_a@, default_struct_instance_b@, default_struct_instance_c@);
            lemma_struct_export_trans(struct_export_a, struct_export_b, struct_export_c);
        },
        (ExportData::FunctionExport { struct_export: struct_export_a }, ExportData::FunctionExport { struct_export: struct_export_b }, ExportData::FunctionExport { struct_export: struct_export_c }) => {
            lemma_struct_export_trans(struct_export_a, struct_export_b, struct_export_c);
        },
        (ExportData::DataTableExport { rows: rows_a, normal_export: normal_export_a }, ExportData::DataTableExport { rows: rows_b, normal_export: normal_export_b }, ExportData::DataTableExport { rows: rows_c, normal_export: normal_export_c }) => {
            lemma_row_list_trans(rows_a@, rows_b@, rows_c@);
            lemma_normal_trans(normal_export_a, normal_export_b, normal_export_c);
        },
        (ExportData::WorldExport { normal_export: normal_export_a, .. }, ExportData::WorldExport { normal_export: normal_export_b, .. }, ExportData::WorldExport { normal_export: normal_export_c, .. }) => {
            lemma_normal_trans(normal_export_a, normal_export_b, normal_export_c);
        },
        _ => {},
    }
}

/// Shows `func` every reference an export's own data holds, in order.
#[verifier::rlimit(40)]
#[verifier::spinoff_prover]
pub fn on_export_data<V: IndexVisitor>(x: &mut ExportData, func: &mut V)
    ensures
        same_export_data_shape(*old(x), *final(x)),
        export_data_refs(*final(x)) == walk_out::<V>(old(func).visit_state(), export_data_refs(*old(x))),
        final(func).visit_state() == walk_state::<V>(old(func).visit_state(), export_data_refs(*old(x))),
    decreases *old(x),
{
    proof {
        lemma_export_data_refl(*x);
    }
    match x {
        ExportData::ClassExport { func_map, class_within, interfaces, class_generated_by, class_default_object, struct_export } => {
            on_func_entry_list(func_map, func);
            on_index(class_within, func);
            on_interface_list(interfaces, func);
            on_index(class_generated_by, func);
            on_index(class_default_object, func);
            on_struct(struct_export, func);
        },
        ExportData::EnumExport { normal_export } => {
            on_norm(normal_export, func);
        },
        ExportData::LevelExport { actors, model, model_components, level_script, nav_list_start, nav_list_end, normal_export } => {
            on_index_list(actors, func);
            on_index(model, func);
            on_index_list(model_components, func);
            on_index(level_script, func);
            on_index(nav_list_start, func);
            on_index(nav_list_end, func);
            on_norm(normal_export, func);
        },
        ExportData::NormalExport { normal_export } => {
            on_norm(normal_export, func);
        },
        ExportData::PropertyExport { property, normal_export } => {
            on_uprop(property, func);
            on_norm(normal_export, func);
        },
        ExportData::StringTableExport { normal_export } => {
            on_norm(normal_export, func);
        },
        ExportData::StructExport { struct_export } => {
            on_struct(struct_export, func);
        },
        ExportData::UserDefinedStructExport { default_struct_instance, struct_export } => {
            on_props_list(default_struct_instance, func);
            on_struct(struct_export, func);
        },
        ExportData::FunctionExport { struct_export } => {
            on_struct(struct_export, func);
        },
        ExportData::DataTableExport { rows, normal_export } => {
            on_row_list(rows, func);
            on_norm(normal_export, func);
        },
        ExportData::WorldExport { persistent_level, extra_objects, streaming_levels, normal_export } => {
            on_index(persistent_level, func);
            on_index_list(extra_objects, func);
            on_index_list(streaming_levels, func);
            on_norm(normal_export, func);
        },
        _ => {
            proof {
                lemma_walk_empty::<V>(func.visit_state());
            }
        },
    }
}

/// A copy of `x`.
pub fn duplicate_export_data(x: &ExportData) -> (y: ExportData)
    ensures
        same_export_data_shape(*x, y),
        export_data_refs(y) == export_data_refs(*x),
    decreases *x,
{
    match x {
        ExportData::BaseExport => ExportData::BaseExport,
        ExportData::ClassExport { func_map, class_within, interfaces, class_generated_by, class_default_object, struct_export } => ExportData::ClassExport {
            func_map: duplicate_func_entry_list(func_map),
            class_within: *class_within,
            interfaces: duplicate_interface_list(interfaces),
            class_generated_by: *class_generated_by,
            class_default_object: *class_default_object,
            struct_export: duplicate_struct_export(struct_export),
        },
        ExportData::EnumExport { normal_export } => ExportData::EnumExport {
            normal_export: duplicate_normal(normal_export),
        },
        ExportData::LevelExport { actors, model, model_components, level_script, nav_list_start, nav_list_end, normal_export } => ExportData::LevelExport {
            actors: copy_index_list(actors),
            model: *model,
            model_components: copy_index_list(model_components),
            level_script: *level_script,
            nav_list_start: *nav_list_start,
            nav_list_end: *nav_list_end,
            normal_export: duplicate_normal(normal_export),
        },
        ExportData::NormalExport { normal_export } => ExportData::NormalExport {
            normal_export: duplicate_normal(normal_export),
        },
        ExportData::PropertyExport { property, normal_export } => ExportData::PropertyExport {
            property: duplicate_uprop(property),
            normal_export: duplicate_normal(normal_export),
        },
        ExportData::RawExport => ExportData::RawExport,
        ExportData::StringTableExport { normal_export } => ExportData::StringTableExport {
            normal_export: duplicate_normal(normal_export),
        },
        ExportData::StructExport { struct_export } => ExportData::StructExport {
            struct_export: duplicate_struct_export(struct_export),
        },
        ExportData::UserDefinedStructExport { default_struct_instance, struct_export } => ExportData::UserDefinedStructExport {
            default_struct_instance: duplicate_prop_list(default_struct_instance),
            struct_export: duplicate_struct_export(struct_export),
        },
        ExportData::FunctionExport { struct_export } => ExportData::FunctionExport {
            struct_export: duplicate_struct_export(struct_export),
        },
        ExportData::DataTableExport { rows, normal_export } => ExportData::DataTableExport {
            rows: duplicate_row_list(rows),
            normal_export: duplicate_normal(normal_export),
        },
        ExportData::WorldExport { persistent_level, extra_objects, streaming_levels, normal_export } => ExportData::WorldExport {
            persistent_level: *persistent_level,
            extra_objects: copy_index_list(extra_objects),
            streaming_levels: copy_index_list(streaming_levels),
            normal_export: duplicate_normal(normal_export),
        },
    }
}
/// The fields that every export holds.
pub struct BaseExport {
    pub class_index: PackageIndex,
    pub super_index: PackageIndex,
    pub template_index: PackageIndex,
    pub outer_index: PackageIndex,
    pub object_name: String,
    pub serialization_before_serialization_dependencies: Vec<PackageIndex>,
    pub create_before_serialization_dependencies: Vec<PackageIndex>,
    pub serialization_before_create_dependencies: Vec<PackageIndex>,
    pub create_before_create_dependencies: Vec<PackageIndex>,
}

/// A copy of an export's common fields.
pub fn duplicate_base(b: &BaseExport) -> (c: BaseExport)
    ensures
        c.class_index == b.class_index,
        c.super_index == b.super_index,
        c.template_index == b.template_index,
        c.outer_index == b.outer_index,
        c.object_name@ == b.object_name@,
        c.serialization_before_serialization_dependencies@
            == b.serialization_before_serialization_dependencies@,
        c.create_before_serialization_dependencies@ == b.create_before_serialization_dependencies@,
        c.serialization_before_create_dependencies@ == b.serialization_before_create_dependencies@,
        c.create_before_create_dependencies@ == b.create_before_create_dependencies@,
{
    BaseExport {
        class_index: b.class_index,
        super_index: b.super_index,
        template_index: b.template_index,
        outer_index: b.outer_index,
        object_name: b.object_name.clone(),
        serialization_before_serialization_dependencies: copy_index_list(
            &b.serialization_before_serialization_dependencies,
        ),
        create_before_serialization_dependencies: copy_index_list(
            &b.create_before_serialization_dependencies,
        ),
        serialization_before_create_dependencies: copy_index_list(
            &b.serialization_before_create_dependencies,
        ),
        create_before_create_dependencies: copy_index_list(&b.create_before_create_dependencies),
    }
}

/// An object that an asset defines: its common fields and its own data.
pub struct Export {
    pub base_export: BaseExport,
    pub data: ExportData,
}

/// `a` and `b` have the same data up to the references of their own data and
/// the package indices of their common fields; their names and the lengths of
/// their dependency lists agree.
pub open spec fn same_export_shape(a: Export, b: Export) -> bool {
    &&& same_export_data_shape(a.data, b.data)
    &&& a.base_export.object_name@ == b.base_export.object_name@
    &&& a.base_export.serialization_before_serialization_dependencies@.len()
        == b.base_export.serialization_before_serialization_dependencies@.len()
    &&& a.base_export.create_before_serialization_dependencies@.len()
        == b.base_export.create_before_serialization_dependencies@.len()
    &&& a.base_export.serialization_before_create_dependencies@.len()
        == b.base_export.serialization_before_create_dependencies@.len()
    &&& a.base_export.create_before_create_dependencies@.len()
        == b.base_export.create_before_create_dependencies@.len()
}

/// Export shapes that agree in turn agree.
pub proof fn lemma_export_shape_trans(a: Export, b: Export, c: Export)
    requires
        same_export_shape(a, b),
        same_export_shape(b, c),
    ensures
        same_export_shape(a, c),
{
    lemma_export_data_trans(a.data, b.data, c.data);
}

/// Whether `c` is a copy of `e`: same shape, same references and same
/// dependencies.
pub open spec fn is_copy(e: Export, c: Export) -> bool {
    &&& same_export_shape(e, c)
    &&& export_data_refs(c.data) == export_data_refs(e.data)
    &&& c.base_export.class_index == e.base_export.class_index
    &&& c.base_export.super_index == e.base_export.super_index
    &&& c.base_export.template_index == e.base_export.template_index
    &&& c.base_export.outer_index == e.base_export.outer_index
    &&& c.base_export.serialization_before_serialization_dependencies@
        == e.base_export.serialization_before_serialization_dependencies@
    &&& c.base_export.create_before_serialization_dependencies@
        == e.base_export.create_before_serialization_dependencies@
    &&& c.base_export.serialization_before_create_dependencies@
        == e.base_export.serialization_before_create_dependencies@
    &&& c.base_export.create_before_create_dependencies@ == e.base_export.create_before_create_dependencies@
}

/// A copy of an export.
pub fn duplicate_export(e: &Export) -> (c: Export)
    ensures
        is_copy(*e, c),
        same_export_shape(*e, c),
        export_data_refs(c.data) == export_data_refs(e.data),
        c.base_export.class_index == e.base_export.class_index,
        c.base_export.super_index == e.base_export.super_index,
        c.base_export.template_index == e.base_export.template_index,
        c.base_export.outer_index == e.base_export.outer_index,
        c.base_export.serialization_before_serialization_dependencies@
            == e.base_export.serialization_before_serialization_dependencies@,
        c.base_export.create_before_serialization_dependencies@
            == e.base_export.create_before_serialization_dependencies@,
        c.base_export.serialization_before_create_dependencies@
            == e.base_export.serialization_before_create_dependencies@,
        c.base_export.create_before_create_dependencies@
            == e.base_export.create_before_create_dependencies@,
{
    Export { base_export: duplicate_base(&e.base_export), data: duplicate_export_data(&e.data) }
}

/// Shows `func` every reference of an export's own data; its common fields
/// are left alone.
pub fn on_export<V: IndexVisitor>(export: &mut Export, func: &mut V)
    ensures
        same_export_data_shape(old(export).data, final(export).data),
        final(export).base_export == old(export).base_export,
        export_data_refs(final(export).data) == walk_out::<V>(old(func).visit_state(), export_data_refs(old(export).data)),
        final(func).visit_state() == walk_state::<V>(old(func).visit_state(), export_data_refs(old(export).data)),
{
    on_export_data(&mut export.data, func);
}

/// The references that `on_export_refs` shows, in order: those of the
/// export's own data, its create-before-create, create-before-serialisation
/// and serialisation-before-create dependencies, and its outer object.
pub open spec fn export_ref_targets(e: Export) -> Seq<i32> {
    export_data_refs(e.data) + index_list_refs(e.base_export.create_before_create_dependencies@)
        + index_list_refs(e.base_export.create_before_serialization_dependencies@)
        + index_list_refs(e.base_export.serialization_before_create_dependencies@)
        + seq![e.base_export.outer_index.index]
}

/// The references that `on_import_refs` shows, in order: those of the
/// export's own data, its class, its template, and its
/// serialisation-before-create, create-before-serialisation and
/// create-before-create dependencies.
pub open spec fn import_ref_targets(e: Export) -> Seq<i32> {
    export_data_refs(e.data) + seq![e.base_export.class_index.index] + seq![
        e.base_export.template_index.index,
    ] + index_list_refs(e.base_export.serialization_before_create_dependencies@) + index_list_refs(
        e.base_export.create_before_serialization_dependencies@,
    ) + index_list_refs(e.base_export.create_before_create_dependencies@)
}

/// Shows `func` every possible reference of an export to another export.
pub fn on_export_refs<V: IndexVisitor>(export: &mut Export, func: &mut V)
    ensures
        same_export_shape(*old(export), *final(export)),
        final(export).base_export.class_index == old(export).base_export.class_index,
        final(export).base_export.super_index == old(export).base_export.super_index,
        final(export).base_export.template_index == old(export).base_export.template_index,
        final(export).base_export.serialization_before_serialization_dependencies
            == old(export).base_export.serialization_before_serialization_dependencies,
        export_ref_targets(*final(export)) == walk_out::<V>(old(func).visit_state(), export_ref_targets(*old(export))),
        final(func).visit_state() == walk_state::<V>(old(func).visit_state(), export_ref_targets(*old(export))),
{
    on_export(export, func);
    let base = &mut export.base_export;
    on_index_list(&mut base.create_before_create_dependencies, func);
    on_index_list(&mut base.create_before_serialization_dependencies, func);
    on_index_list(&mut base.serialization_before_create_dependencies, func);
    on_index(&mut base.outer_index, func);
}

/// Shows `func` every possible reference of an export to an import.
pub fn on_import_refs<V: IndexVisitor>(export: &mut Export, func: &mut V)
    ensures
        same_export_shape(*old(export), *final(export)),
        final(export).base_export.super_index == old(export).base_export.super_index,
        final(export).base_export.outer_index == old(export).base_export.outer_index,
        final(export).base_export.serialization_before_serialization_dependencies
            == old(export).base_export.serialization_before_serialization_dependencies,
        import_ref_targets(*final(export)) == walk_out::<V>(old(func).visit_state(), import_ref_targets(*old(export))),
        final(func).visit_state() == walk_state::<V>(old(func).visit_state(), import_ref_targets(*old(export))),
{
    on_export(export, func);
    let base = &mut export.base_export;
    on_index(&mut base.class_index, func);
    on_index(&mut base.template_index, func);
    on_index_list(&mut base.serialization_before_create_dependencies, func);
    on_index_list(&mut base.create_before_serialization_dependencies, func);
    on_index_list(&mut base.create_before_create_dependencies, func);
}


/// The package references that a struct holds in its own fields: the field
/// that follows it, its super struct and its children.
pub open spec fn struct_own_indices(x: StructExport) -> Seq<i32> {
    opt_index(x.field.next) + seq![x.super_struct.index] + x.children@.map_values(|c: PackageIndex| c.index)
}

/// The struct that an export's data holds, if any.
pub open spec fn struct_of(x: ExportData) -> Option<StructExport> {
    match x {
        ExportData::ClassExport { struct_export, .. } => Some(struct_export),
        ExportData::StructExport { struct_export } => Some(struct_export),
        ExportData::UserDefinedStructExport { struct_export, .. } => Some(struct_export),
        ExportData::FunctionExport { struct_export } => Some(struct_export),
        _ => None,
    }
}

/// The package references that an export's data holds in its own fields
/// (beyond the property values, declarations and bytecode within it): a
/// class's function map entries, outer class, interfaces, generating class
/// and default object; a level's actors, model, model components, level
/// script and navigation list ends; a world's persistent level, extra
/// objects and streaming levels; and a struct's own fields.
pub open spec fn export_data_own_indices(x: ExportData) -> Seq<i32> {
    match x {
        ExportData::ClassExport { func_map, class_within, interfaces, class_generated_by, class_default_object, struct_export } =>
            func_map@.map_values(|e: FuncMapEntry| e.index.index) + seq![class_within.index] + interfaces@.map_values(
            |r: InterfaceRef| r.class.index,
        ) + seq![class_generated_by.index] + seq![class_default_object.index] + struct_own_indices(struct_export),
        ExportData::LevelExport { actors, model, model_components, level_script, nav_list_start, nav_list_end, .. } =>
            actors@.map_values(|c: PackageIndex| c.index) + seq![model.index] + model_components@.map_values(
            |c: PackageIndex| c.index,
        ) + seq![level_script.index] + seq![nav_list_start.index] + seq![nav_list_end.index],
        ExportData::StructExport { struct_export } => struct_own_indices(struct_export),
        ExportData::UserDefinedStructExport { struct_export, .. } => struct_own_indices(struct_export),
        ExportData::FunctionExport { struct_export } => struct_own_indices(struct_export),
        ExportData::WorldExport { persistent_level, extra_objects, streaming_levels, .. } => seq![persistent_level.index]
            + extra_objects@.map_values(|c: PackageIndex| c.index) + streaming_levels@.map_values(|c: PackageIndex| c.index),
        _ => Seq::empty(),
    }
}

/// The property values that an export's data holds: those of its object
/// part, a struct's default instance, and a data table's rows.
pub open spec fn export_data_props(x: ExportData) -> Seq<Property> {
    match x {
        ExportData::ClassExport { struct_export, .. } => struct_export.normal_export.properties@,
        ExportData::EnumExport { normal_export } => normal_export.properties@,
        ExportData::LevelExport { normal_export, .. } => normal_export.properties@,
        ExportData::NormalExport { normal_export } => normal_export.properties@,
        ExportData::PropertyExport { normal_export, .. } => normal_export.properties@,
        ExportData::StringTableExport { normal_export } => normal_export.properties@,
        ExportData::StructExport { struct_export } => struct_export.normal_export.properties@,
        ExportData::UserDefinedStructExport { default_struct_instance, struct_export } => default_struct_instance@
            + struct_export.normal_export.properties@,
        ExportData::FunctionExport { struct_export } => struct_export.normal_export.properties@,
        ExportData::DataTableExport { normal_export, .. } => normal_export.properties@,
        ExportData::WorldExport { normal_export, .. } => normal_export.properties@,
        _ => Seq::empty(),
    }
}

/// The rows of a data table; nothing for another export.
pub open spec fn export_data_rows(x: ExportData) -> Seq<DataTableRow> {
    match x {
        ExportData::DataTableExport { rows, .. } => rows@,
        _ => Seq::empty(),
    }
}

/// The property declarations of a struct's export.
pub open spec fn export_data_fprops(x: ExportData) -> Seq<FProperty> {
    match struct_of(x) {
        Some(s) => s.loaded_properties@,
        None => Seq::empty(),
    }
}

/// The bytecode of a struct, if it has any.
pub open spec fn struct_code(x: StructExport) -> Seq<Expr> {
    match x.script_bytecode {
        Some(c) => c@,
        None => Seq::empty(),
    }
}

/// The bytecode of a struct's export.
pub open spec fn export_data_code(x: ExportData) -> Seq<Expr> {
    match struct_of(x) {
        Some(s) => struct_code(s),
        None => Seq::empty(),
    }
}

/// A reference held by a property of a row of a table is among the table's
/// references.
pub proof fn lemma_rows_covered(s: Seq<DataTableRow>, k: int, p: Property, i: i32)
    requires
        0 <= k < s.len(),
        s[k].value@.contains(p),
        prop_refs(p).contains(i),
    ensures
        row_list_refs(s).contains(i),
    decreases s.len(),
{
    broadcast use lemma_add_contains;

    if k == s.len() - 1 {
        lemma_props_covered(s[k].value@, p, i);
    } else {
        assert(s.drop_last()[k] == s[k]);
        lemma_rows_covered(s.drop_last(), k, p, i);
    }
}

/// The index of each entry of a function map is among the map's references.
pub proof fn lemma_func_entries_covered(s: Seq<FuncMapEntry>, k: int)
    requires
        0 <= k < s.len(),
    ensures
        func_entry_list_refs(s).contains(s[k].index.index),
    decreases s.len(),
{
    broadcast use lemma_add_contains;

    if k == s.len() - 1 {
        assert(func_entry_refs(s.last())[0] == s[k].index.index);
    } else {
        assert(s.drop_last()[k] == s[k]);
        lemma_func_entries_covered(s.drop_last(), k);
    }
}

/// The class of each interface of a list is among the list's references.
pub proof fn lemma_interfaces_covered(s: Seq<InterfaceRef>, k: int)
    requires
        0 <= k < s.len(),
    ensures
        interface_list_refs(s).contains(s[k].class.index),
    decreases s.len(),
{
    broadcast use lemma_add_contains;

    if k == s.len() - 1 {
        assert(interface_refs(s.last())[0] == s[k].class.index);
    } else {
        assert(s.drop_last()[k] == s[k]);
        lemma_interfaces_covered(s.drop_last(), k);
    }
}

/// Every reference a struct holds, in its own fields or in its property
/// declarations, bytecode and property values, is among those that
/// `on_struct` shows.
pub proof fn lemma_struct_export_covers(x: StructExport)
    ensures
        forall|i: i32| #[trigger] struct_own_indices(x).contains(i) ==> struct_export_refs(x).contains(i),
        forall|f: FProperty, i: i32|
            #[trigger] x.loaded_properties@.contains(f) && #[trigger] fprop_refs(f).contains(i) ==> struct_export_refs(x).contains(i),
        forall|e: Expr, i: i32|
            #[trigger] struct_code(x).contains(e) && #[trigger] expr_refs(e).contains(i) ==> struct_export_refs(x).contains(i),
        forall|p: Property, i: i32|
            #[trigger] x.normal_export.properties@.contains(p) && #[trigger] prop_refs(p).contains(i)
                ==> struct_export_refs(x).contains(i),
{
    broadcast use lemma_add_contains;

    assert forall|i: i32| #[trigger] struct_own_indices(x).contains(i) implies struct_export_refs(x).contains(i) by {
        let ch = x.children@.map_values(|c: PackageIndex| c.index);
        if ch.contains(i) {
            let k = choose|k: int| 0 <= k < ch.len() && ch[k] == i;
            assert(index_list_refs(x.children@)[k] == i);
        }
    }
    assert forall|f: FProperty, i: i32|
        #[trigger] x.loaded_properties@.contains(f) && #[trigger] fprop_refs(f).contains(i) implies struct_export_refs(x).contains(i) by {
        lemma_fprops_covered(x.loaded_properties@, f, i);
    }
    assert forall|e: Expr, i: i32|
        #[trigger] struct_code(x).contains(e) && #[trigger] expr_refs(e).contains(i) implies struct_export_refs(x).contains(i) by {
        if let Some(c) = x.script_bytecode {
            lemma_expr_list_covered(c@, e, i);
        }
    }
    assert forall|p: Property, i: i32|
        #[trigger] x.normal_export.properties@.contains(p) && #[trigger] prop_refs(p).contains(i) implies struct_export_refs(x).contains(i) by {
        lemma_props_covered(x.normal_export.properties@, p, i);
    }
}

/// `on_export_data` shows its visitor every reference an export's data
/// holds: each one of its own fields, and each one held by its property
/// values (its rows' too), property declarations, bytecode and, for a
/// property export, its property.
pub proof fn lemma_on_export_data_covers(x: ExportData)
    ensures
        forall|i: i32| #[trigger] export_data_own_indices(x).contains(i) ==> export_data_refs(x).contains(i),
        forall|p: Property, i: i32|
            #[trigger] export_data_props(x).contains(p) && #[trigger] prop_refs(p).contains(i) ==> export_data_refs(x).contains(i),
        forall|k: int, p: Property, i: i32|
            0 <= k < export_data_rows(x).len() && #[trigger] export_data_rows(x)[k].value@.contains(p)
                && #[trigger] prop_refs(p).contains(i) ==> export_data_refs(x).contains(i),
        forall|f: FProperty, i: i32|
            #[trigger] export_data_fprops(x).contains(f) && #[trigger] fprop_refs(f).contains(i) ==> export_data_refs(x).contains(i),
        forall|e: Expr, i: i32|
            #[trigger] export_data_code(x).contains(e) && #[trigger] expr_refs(e).contains(i) ==> export_data_refs(x).contains(i),
        x matches ExportData::PropertyExport { property, .. } ==> forall|i: i32|
            #[trigger] uprop_refs(property).contains(i) ==> export_data_refs(x).contains(i),
{
    broadcast use lemma_add_contains;

    match x {
        ExportData::ClassExport { func_map, class_within, interfaces, class_generated_by, class_default_object, struct_export } => {
            lemma_struct_export_covers(struct_export);
            assert(export_data_refs(x) == func_entry_list_refs(func_map@) + seq![class_within.index] + interface_list_refs(interfaces@) + seq![class_generated_by.index] + seq![class_default_object.index] + struct_export_refs(struct_export));
            assert forall|i: i32| #[trigger] export_data_own_indices(x).contains(i) implies export_data_refs(x).contains(i) by {
                let fm = func_map@.map_values(|e: FuncMapEntry| e.index.index);
                let it = interfaces@.map_values(|r: InterfaceRef| r.class.index);
                if fm.contains(i) {
                    let k = choose|k: int| 0 <= k < fm.len() && fm[k] == i;
                    lemma_func_entries_covered(func_map@, k);
                }
                if it.contains(i) {
                    let k = choose|k: int| 0 <= k < it.len() && it[k] == i;
                    lemma_interfaces_covered(interfaces@, k);
                }
            }
        },
        ExportData::LevelExport { actors, model, model_components, level_script, nav_list_start, nav_list_end, normal_export } => {
            assert(export_data_refs(x) == index_list_refs(actors@) + seq![model.index] + index_list_refs(model_components@) + seq![level_script.index] + seq![nav_list_start.index] + seq![nav_list_end.index] + normal_refs(normal_export));
            assert forall|i: i32| #[trigger] export_data_own_indices(x).contains(i) implies export_data_refs(x).contains(i) by {
                let a = actors@.map_values(|c: PackageIndex| c.index);
                let m = model_components@.map_values(|c: PackageIndex| c.index);
                if a.contains(i) {
                    let k = choose|k: int| 0 <= k < a.len() && a[k] == i;
                    assert(index_list_refs(actors@)[k] == i);
                }
                if m.contains(i) {
                    let k = choose|k: int| 0 <= k < m.len() && m[k] == i;
                    assert(index_list_refs(model_components@)[k] == i);
                }
            }
            assert forall|p: Property, i: i32| #[trigger] export_data_props(x).contains(p) && #[trigger] prop_refs(p).contains(i) implies export_data_refs(x).contains(i) by {
                lemma_props_covered(normal_export.properties@, p, i);
            }
        },
        ExportData::WorldExport { persistent_level, extra_objects, streaming_levels, normal_export } => {
            assert(export_data_refs(x) == seq![persistent_level.index] + index_list_refs(extra_objects@) + index_list_refs(streaming_levels@) + normal_refs(normal_export));
            assert forall|i: i32| #[trigger] export_data_own_indices(x).contains(i) implies export_data_refs(x).contains(i) by {
                let a = extra_objects@.map_values(|c: PackageIndex| c.index);
                let m = streaming_levels@.map_values(|c: PackageIndex| c.index);
                if a.contains(i) {
                    let k = choose|k: int| 0 <= k < a.len() && a[k] == i;
                    assert(index_list_refs(extra_objects@)[k] == i);
                }
                if m.contains(i) {
                    let k = choose|k: int| 0 <= k < m.len() && m[k] == i;
                    assert(index_list_refs(streaming_levels@)[k] == i);
                }
            }
            assert forall|p: Property, i: i32| #[trigger] export_data_props(x).contains(p) && #[trigger] prop_refs(p).contains(i) implies export_data_refs(x).contains(i) by {
                lemma_props_covered(normal_export.properties@, p, i);
            }
        },
        ExportData::StructExport { struct_export } => {
            lemma_struct_export_covers(struct_export);
        },
        ExportData::FunctionExport { struct_export } => {
            lemma_struct_export_covers(struct_export);
        },
        ExportData::UserDefinedStructExport { default_struct_instance, struct_export } => {
            lemma_struct_export_covers(struct_export);
            assert(export_data_refs(x) == prop_list_refs(default_struct_instance@) + struct_export_refs(struct_export));
            assert forall|p: Property, i: i32| #[trigger] export_data_props(x).contains(p) && #[trigger] prop_refs(p).contains(i) implies export_data_refs(x).contains(i) by {
                if default_struct_instance@.contains(p) {
                    lemma_props_covered(default_struct_instance@, p, i);
                }
            }
        },
        ExportData::DataTableExport { rows, normal_export } => {
            assert(export_data_refs(x) == row_list_refs(rows@) + normal_refs(normal_export));
            assert forall|k: int, p: Property, i: i32|
                0 <= k < export_data_rows(x).len() && #[trigger] export_data_rows(x)[k].value@.contains(p)
                    && #[trigger] prop_refs(p).contains(i) implies export_data_refs(x).contains(i) by {
                lemma_rows_covered(rows@, k, p, i);
            }
            assert forall|p: Property, i: i32| #[trigger] export_data_props(x).contains(p) && #[trigger] prop_refs(p).contains(i) implies export_data_refs(x).contains(i) by {
                lemma_props_covered(normal_export.properties@, p, i);
            }
        },
        ExportData::EnumExport { normal_export } => {
            assert forall|p: Property, i: i32| #[trigger] export_data_props(x).contains(p) && #[trigger] prop_refs(p).contains(i) implies export_data_refs(x).contains(i) by {
                lemma_props_covered(normal_export.properties@, p, i);
            }
        },
        ExportData::NormalExport { normal_export } => {
            assert forall|p: Property, i: i32| #[trigger] export_data_props(x).contains(p) && #[trigger] prop_refs(p).contains(i) implies export_data_refs(x).contains(i) by {
                lemma_props_covered(normal_export.properties@, p, i);
            }
        },
        ExportData::PropertyExport { property, normal_export } => {
            assert(export_data_refs(x) == uprop_refs(property) + normal_refs(normal_export));
            assert forall|p: Property, i: i32| #[trigger] export_data_props(x).contains(p) && #[trigger] prop_refs(p).contains(i) implies export_data_refs(x).contains(i) by {
                lemma_props_covered(normal_export.properties@, p, i);
            }
        },
        ExportData::StringTableExport { normal_export } => {
            assert forall|p: Property, i: i32| #[trigger] export_data_props(x).contains(p) && #[trigger] prop_refs(p).contains(i) implies export_data_refs(x).contains(i) by {
                lemma_props_covered(normal_export.properties@, p, i);
            }
        },
        _ => {},
    }
}

/// Whether `r` is the index of one of the references `s`.
pub open spec fn lists_index(s: Seq<PackageIndex>, r: i32) -> bool {
    exists|k: int| 0 <= k < s.len() && s[k].index == r
}

/// `on_export_refs` shows its visitor every reference that may name another
/// export: all those of the export's data, its outer object, and each of its
/// create-before-create, create-before-serialisation and
/// serialisation-before-create dependencies.
pub proof fn lemma_on_export_refs_covers(e: Export)
    ensures
        export_ref_targets(e).contains(e.base_export.outer_index.index),
        forall|i: i32| #[trigger] export_data_refs(e.data).contains(i) ==> export_ref_targets(e).contains(i),
        forall|r: i32|
            lists_index(e.base_export.create_before_create_dependencies@, r) || lists_index(
                e.base_export.create_before_serialization_dependencies@,
                r,
            ) || lists_index(e.base_export.serialization_before_create_dependencies@, r)
                ==> #[trigger] export_ref_targets(e).contains(r),
{
    broadcast use lemma_add_contains;

    let b = e.base_export;
    assert(seq![b.outer_index.index][0] == b.outer_index.index);
    assert forall|r: i32|
        lists_index(b.create_before_create_dependencies@, r) || lists_index(b.create_before_serialization_dependencies@, r)
            || lists_index(b.serialization_before_create_dependencies@, r) implies #[trigger] export_ref_targets(e).contains(r) by {
        if lists_index(b.create_before_create_dependencies@, r) {
            let k = choose|k: int| 0 <= k < b.create_before_create_dependencies@.len() && b.create_before_create_dependencies@[k].index == r;
            assert(index_list_refs(b.create_before_create_dependencies@)[k] == r);
        }
        if lists_index(b.create_before_serialization_dependencies@, r) {
            let k = choose|k: int| 0 <= k < b.create_before_serialization_dependencies@.len() && b.create_before_serialization_dependencies@[k].index == r;
            assert(index_list_refs(b.create_before_serialization_dependencies@)[k] == r);
        }
        if lists_index(b.serialization_before_create_dependencies@, r) {
            let k = choose|k: int| 0 <= k < b.serialization_before_create_dependencies@.len() && b.serialization_before_create_dependencies@[k].index == r;
            assert(index_list_refs(b.serialization_before_create_dependencies@)[k] == r);
        }
    }
}

/// `on_import_refs` shows its visitor every reference that may name an
/// import: all those of the export's data, its class, its template, and
/// each of its serialisation-before-create, create-before-serialisation and
/// create-before-create dependencies.
pub proof fn lemma_on_import_refs_covers(e: Export)
    ensures
        import_ref_targets(e).contains(e.base_export.class_index.index),
        import_ref_targets(e).contains(e.base_export.template_index.index),
        forall|i: i32| #[trigger] export_data_refs(e.data).contains(i) ==> import_ref_targets(e).contains(i),
        forall|r: i32|
            lists_index(e.base_export.create_before_create_dependencies@, r) || lists_index(
                e.base_export.create_before_serialization_dependencies@,
                r,
            ) || lists_index(e.base_export.serialization_before_create_dependencies@, r)
                ==> #[trigger] import_ref_targets(e).contains(r),
{
    broadcast use lemma_add_contains;

    let b = e.base_export;
    assert(seq![b.class_index.index][0] == b.class_index.index);
    assert(seq![b.template_index.index][0] == b.template_index.index);
    assert forall|r: i32|
        lists_index(b.create_before_create_dependencies@, r) || lists_index(b.create_before_serialization_dependencies@, r)
            || lists_index(b.serialization_before_create_dependencies@, r) implies #[trigger] import_ref_targets(e).contains(r) by {
        if lists_index(b.create_before_create_dependencies@, r) {
            let k = choose|k: int| 0 <= k < b.create_before_create_dependencies@.len() && b.create_before_create_dependencies@[k].index == r;
            assert(index_list_refs(b.create_before_create_dependencies@)[k] == r);
        }
        if lists_index(b.create_before_serialization_dependencies@, r) {
            let k = choose|k: int| 0 <= k < b.create_before_serialization_dependencies@.len() && b.create_before_serialization_dependencies@[k].index == r;
            assert(index_list_refs(b.create_before_serialization_dependencies@)[k] == r);
        }
        if lists_index(b.serialization_before_create_dependencies@, r) {
            let k = choose|k: int| 0 <= k < b.serialization_before_create_dependencies@.len() && b.serialization_before_create_dependencies@[k].index == r;
            assert(index_list_refs(b.serialization_before_create_dependencies@)[k] == r);
        }
    }
}

} // verus!
