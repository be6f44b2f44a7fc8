//! Kismet bytecode: the expressions of a blueprint function, the references
//! they hold and the number of bytes each takes once serialised.
use vstd::prelude::*;
use vstd::string::StringSliceAdditionalSpecFns;
use vstd::utf8::encode_utf8;
use crate::index::{
    Both, IndexVisitor, PackageIndex, lemma_walk_both, lemma_add_contains, index_opt_refs, lemma_walk_empty, lemma_walk_out_append,
    lemma_walk_state_append, on_index, on_opt_index, walk_out, walk_state,
};
use crate::strings::{copy_opt_string, copy_strings};

verus! {

broadcast use lemma_walk_state_append, lemma_walk_out_append;

/// A path to a property, and the object it resolves in.
pub struct FieldPath {
    pub path: Vec<String>,
    pub resolved_owner: PackageIndex,
}

/// A reference to a property, in the old (package index) or the new (field
/// path) serialisation.
pub struct KismetPropertyPointer {
    pub old: Option<PackageIndex>,
    pub new: Option<FieldPath>,
}

/// The kind of a primitive cast.
#[derive(Clone, Copy, Debug, PartialEq, Eq, Structural)]
pub enum CastToken {
    ObjectToInterface,
    ObjectToBool,
    InterfaceToBool,
    ObjectToBool2,
    InterfaceToBool2,
    Max,
}

/// The kind of a text constant.
#[derive(Clone, Copy, Debug, PartialEq, Eq, Structural)]
pub enum TextLiteralType {
    Empty,
    LocalizedText,
    InvariantText,
    LiteralString,
    StringTableEntry,
}

/// The UE5 object version from which vectors, rotations and transforms hold
/// double precision components.
pub open spec fn large_world_coordinates_version() -> i32 {
    1004
}

/// Calls `i32::from` on `ObjectVersionUE5::LARGE_WORLD_COORDINATES`. The
/// enumeration is `repr(i32)` and numbers its versions from `INITIAL_VERSION =
/// 1000` on, `LARGE_WORLD_COORDINATES` being the fifth of them.
#[verifier::external_body]
fn large_world_coordinates() -> (v: i32)
    ensures
        v == large_world_coordinates_version(),
{
    i32::from(unreal_asset::object_version::ObjectVersionUE5::LARGE_WORLD_COORDINATES)
}

/// The references a property pointer holds: its package index, then the owner
/// of its field path.
pub open spec fn pointer_refs(p: KismetPropertyPointer) -> Seq<i32> {
    (match p.old {
        Some(o) => seq![o.index],
        None => Seq::empty(),
    }) + (match p.new {
        Some(n) => seq![n.resolved_owner.index],
        None => Seq::empty(),
    })
}

/// `a` and `b` differ at most in the references they hold.
pub open spec fn same_pointer_shape(a: KismetPropertyPointer, b: KismetPropertyPointer) -> bool {
    &&& (a.old is Some <==> b.old is Some)
    &&& (a.new is Some <==> b.new is Some)
    &&& (a.new is Some ==> a.new.unwrap().path@ == b.new.unwrap().path@)
}


fn on_pointer<V: IndexVisitor>(pointer: &mut KismetPropertyPointer, func: &mut V)
    ensures
        same_pointer_shape(*old(pointer), *final(pointer)),
        pointer_refs(*final(pointer)) == walk_out::<V>(old(func).visit_state(), pointer_refs(*old(pointer))),
        final(func).visit_state() == walk_state::<V>(old(func).visit_state(), pointer_refs(*old(pointer))),
{
    proof {
        lemma_walk_empty::<V>(func.visit_state());
    }
    if let Some(old) = pointer.old.as_mut() {
        on_index(old, func);
    }
    if let Some(new) = pointer.new.as_mut() {
        on_index(&mut new.resolved_owner, func);
    }
}

/// A copy of a property pointer.
pub fn duplicate_pointer(p: &KismetPropertyPointer) -> (q: KismetPropertyPointer)
    ensures
        same_pointer_shape(*p, q),
        pointer_refs(q) == pointer_refs(*p),
{
    let new = match &p.new {
        Some(n) => Some(FieldPath { path: copy_strings(&n.path), resolved_owner: n.resolved_owner }),
        None => None,
    };
    KismetPropertyPointer { old: p.old, new }
}

/// The size of an optional expression, zero where there is none.
pub open spec fn expr_opt_size(object_version: i32, o: Option<Box<Expr>>) -> nat
    decreases o,
{
    match o {
        Some(e) => expr_size(object_version, *e),
        None => 0,
    }
}

/// The summed size of a list of expressions.
pub open spec fn expr_list_size(object_version: i32, s: Seq<Expr>) -> nat
    decreases s,
{
    if s.len() == 0 {
        0
    } else {
        expr_list_size(object_version, s.drop_last()) + expr_size(object_version, s.last())
    }
}

/// The summed size of the cases of a switch: each case's value, its next
/// offset and its result.
pub open spec fn case_list_size(object_version: i32, s: Seq<SwitchCase>) -> nat
    decreases s,
{
    if s.len() == 0 {
        0
    } else {
        case_list_size(object_version, s.drop_last()) + expr_size(
            object_version,
            s.last().case_index_value_term,
        ) + 4 + expr_size(object_version, s.last().case_term)
    }
}

/// Whether an optional expression, where there is one, has a known size.
pub open spec fn expr_opt_sized(o: Option<Box<Expr>>) -> bool
    decreases o,
{
    match o {
        Some(e) => expr_sized(*e),
        None => true,
    }
}

/// Whether every expression of a list has a known size.
pub open spec fn expr_list_sized(s: Seq<Expr>) -> bool
    decreases s,
{
    s.len() > 0 ==> expr_list_sized(s.drop_last()) && expr_sized(s.last())
}

/// Whether every case of a switch has a known size.
pub open spec fn case_list_sized(s: Seq<SwitchCase>) -> bool
    decreases s,
{
    s.len() > 0 ==> case_list_sized(s.drop_last()) && expr_sized(s.last().case_index_value_term)
        && expr_sized(s.last().case_term)
}

/// One case of a switch over values.
pub struct SwitchCase {
    pub case_index_value_term: Expr,
    pub next_offset: u32,
    pub case_term: Expr,
}

/// The references that `on_switch_case` shows, in the order it shows them.
pub open spec fn switch_case_refs(x: SwitchCase) -> Seq<i32>
    decreases x,
{
    expr_refs(x.case_index_value_term) + expr_refs(x.case_term)
}

/// `a` and `b` differ at most in the references that `on_switch_case` shows.
pub open spec fn same_switch_case_shape(a: SwitchCase, b: SwitchCase) -> bool
    decreases a,
{
    same_expr_shape(a.case_index_value_term, b.case_index_value_term)
    && a.next_offset == b.next_offset
    && same_expr_shape(a.case_term, b.case_term)
}

/// Every SwitchCase has its own shape.
pub proof fn lemma_switch_case_refl(x: SwitchCase)
    ensures
        same_switch_case_shape(x, x),
    decreases x,
{
    lemma_expr_refl(x.case_index_value_term);
    lemma_expr_refl(x.case_term);
}

/// Shapes that agree in turn agree.
pub proof fn lemma_switch_case_trans(a: SwitchCase, b: SwitchCase, c: SwitchCase)
    requires
        same_switch_case_shape(a, b),
        same_switch_case_shape(b, c),
    ensures
        same_switch_case_shape(a, c),
    decreases a,
{
    lemma_expr_trans(a.case_index_value_term, b.case_index_value_term, c.case_index_value_term);
    lemma_expr_trans(a.case_term, b.case_term, c.case_term);
}

/// Shows `func` the references of a switch case.
fn on_switch_case<V: IndexVisitor>(x: &mut SwitchCase, func: &mut V)
    ensures
        same_switch_case_shape(*old(x), *final(x)),
        switch_case_refs(*final(x)) == walk_out::<V>(old(func).visit_state(), switch_case_refs(*old(x))),
        final(func).visit_state() == walk_state::<V>(old(func).visit_state(), switch_case_refs(*old(x))),
    decreases *old(x),
{
    let SwitchCase { case_index_value_term, case_term, .. } = x;
    on_kismet(case_index_value_term, func);
    on_kismet(case_term, func);
}

/// A copy of `x`.
pub fn duplicate_switch_case(x: &SwitchCase) -> (y: SwitchCase)
    ensures
        same_switch_case_shape(*x, y),
        switch_case_refs(y) == switch_case_refs(*x),
    decreases *x,
{
    let SwitchCase { case_index_value_term, next_offset, case_term } = x;
    SwitchCase {
        case_index_value_term: duplicate_expr(case_index_value_term),
        next_offset: *next_offset,
        case_term: duplicate_expr(case_term),
    }
}

/// The references of a list of `SwitchCase`, in order.
pub open spec fn switch_case_list_refs(s: Seq<SwitchCase>) -> Seq<i32>
    decreases s,
{
    if s.len() == 0 {
        Seq::empty()
    } else {
        switch_case_list_refs(s.drop_last()) + switch_case_refs(s.last())
    }
}

/// Two lists of `SwitchCase` differ at most in their references.
pub open spec fn same_switch_case_list_shape(a: Seq<SwitchCase>, b: Seq<SwitchCase>) -> bool
    decreases a,
{
    &&& a.len() == b.len()
    &&& a.len() > 0 ==> same_switch_case_list_shape(a.drop_last(), b.drop_last()) && same_switch_case_shape(
        a.last(),
        b.last(),
    )
}

/// Every list of `SwitchCase` has its own shape.
pub proof fn lemma_switch_case_list_refl(s: Seq<SwitchCase>)
    ensures
        same_switch_case_list_shape(s, s),
    decreases s,
{
    if s.len() > 0 {
        lemma_switch_case_list_refl(s.drop_last());
        lemma_switch_case_refl(s.last());
    }
}

/// List shapes that agree in turn agree.
pub proof fn lemma_switch_case_list_trans(a: Seq<SwitchCase>, b: Seq<SwitchCase>, c: Seq<SwitchCase>)
    requires
        same_switch_case_list_shape(a, b),
        same_switch_case_list_shape(b, c),
    ensures
        same_switch_case_list_shape(a, c),
    decreases a,
{
    if a.len() > 0 {
        lemma_switch_case_list_trans(a.drop_last(), b.drop_last(), c.drop_last());
        lemma_switch_case_trans(a.last(), b.last(), c.last());
    }
}

/// Shows `func` the references of each element of `list`, in order.
pub fn on_switch_case_list<V: IndexVisitor>(list: &mut Vec<SwitchCase>, func: &mut V)
    ensures
        same_switch_case_list_shape(old(list)@, final(list)@),
        switch_case_list_refs(final(list)@) == walk_out::<V>(old(func).visit_state(), switch_case_list_refs(old(list)@)),
        final(func).visit_state() == walk_state::<V>(old(func).visit_state(), switch_case_list_refs(old(list)@)),
    decreases *old(list),
{
    let ghost old_list = *list;
    let ghost orig = list@;
    let ghost v0 = func.visit_state();
    let mut i: usize = 0;
    proof {
        lemma_walk_empty::<V>(v0);
        assert(orig.take(0) =~= Seq::<SwitchCase>::empty());
    }
    while i < list.len()
        invariant
            i <= list@.len(),
            list@.len() == orig.len(),
            forall|j: int| i <= j < orig.len() ==> list@[j] == orig[j],
            same_switch_case_list_shape(orig.take(i as int), list@.take(i as int)),
            switch_case_list_refs(list@.take(i as int)) == walk_out::<V>(v0, switch_case_list_refs(orig.take(i as int))),
            func.visit_state() == walk_state::<V>(v0, switch_case_list_refs(orig.take(i as int))),
            old_list == *old(list),
            orig == old_list@,
        decreases orig.len() - i,
    {
        proof {
            assert(decreases_to!(old_list => old_list@));
            assert(decreases_to!(old_list@ => old_list@[i as int]));
        }
        let ghost prev = list@;
        on_switch_case(&mut list[i], func);
        proof {
            assert(list@.take(i as int) =~= prev.take(i as int));
            assert(orig.take(i + 1).drop_last() =~= orig.take(i as int));
            assert(list@.take(i + 1).drop_last() =~= list@.take(i as int));
            assert(orig.take(i + 1).last() == orig[i as int]);
            assert(list@.take(i + 1).last() == list@[i as int]);
            assert(switch_case_list_refs(orig.take(i + 1)) == switch_case_list_refs(orig.take(i as int))
                + switch_case_refs(orig[i as int]));
            assert(switch_case_list_refs(list@.take(i + 1)) == switch_case_list_refs(list@.take(i as int))
                + switch_case_refs(list@[i as int]));
        }
        i = i + 1;
    }
    assert(orig.take(orig.len() as int) =~= orig);
    assert(list@.take(orig.len() as int) =~= list@);
}

/// A copy of a list of `SwitchCase`.
pub fn duplicate_switch_case_list(list: &Vec<SwitchCase>) -> (copy: Vec<SwitchCase>)
    ensures
        same_switch_case_list_shape(list@, copy@),
        switch_case_list_refs(copy@) == switch_case_list_refs(list@),
    decreases *list,
{
    let mut copy: Vec<SwitchCase> = Vec::new();
    let mut i: usize = 0;
    proof {
        assert(list@.take(0) =~= Seq::<SwitchCase>::empty());
    }
    while i < list.len()
        invariant
            i <= list@.len(),
            copy@.len() == i,
            same_switch_case_list_shape(list@.take(i as int), copy@),
            switch_case_list_refs(copy@) == switch_case_list_refs(list@.take(i as int)),
        decreases list@.len() - i,
    {
        proof {
            assert(decreases_to!(*list => list@));
            assert(decreases_to!(list@ => list@[i as int]));
        }
        let ghost prev = copy@;
        let item = duplicate_switch_case(&list[i]);
        copy.push(item);
        proof {
            assert(copy@.drop_last() =~= prev);
            assert(list@.take(i + 1).drop_last() =~= list@.take(i as int));
            assert(list@.take(i + 1).last() == list@[i as int]);
        }
        i = i + 1;
    }
    assert(list@.take(list@.len() as int) =~= list@);
    copy
}

/// A Kismet bytecode expression, holding what hooking reads and writes.
pub enum Expr {
    /// A local variable.
    LocalVariable { variable: KismetPropertyPointer },
    /// An object variable.
    InstanceVariable { variable: KismetPropertyPointer },
    /// A default variable of a class context.
    DefaultVariable { variable: KismetPropertyPointer },
    /// Return from the function.
    Return { return_expression: Box<Expr> },
    /// Go to a code offset.
    Jump { code_offset: u32 },
    /// Go to a code offset unless the condition holds.
    JumpIfNot { code_offset: u32, boolean_expression: Box<Expr> },
    /// An assertion.
    Assert { line_number: u16, debug_mode: bool, assert_expression: Box<Expr> },
    /// No operation.
    Nothing,
    /// Assign a value of any size to a variable.
    Let { value: KismetPropertyPointer, variable: Box<Expr>, expression: Box<Expr> },
    /// A class default object context.
    ClassContext { object_expression: Box<Expr>, offset: u32, r_value_pointer: KismetPropertyPointer, context_expression: Box<Expr> },
    /// A metaclass cast.
    MetaCast { class_ptr: PackageIndex, target_expression: Box<Expr> },
    /// Assign a boolean variable.
    LetBool { variable_expression: Box<Expr>, assignment_expression: Box<Expr> },
    /// End of an optional parameter's default value.
    EndParmValue,
    /// End of a call's parameters.
    EndFunctionParms,
    /// The object itself.
    SelfObject,
    /// A skippable expression.
    Skip { code_offset: u32, skip_expression: Box<Expr> },
    /// A call through an object context.
    Context { object_expression: Box<Expr>, offset: u32, r_value_pointer: KismetPropertyPointer, context_expression: Box<Expr> },
    /// A call through an object context that does nothing when the context is null.
    ContextFailSilent { object_expression: Box<Expr>, offset: u32, r_value_pointer: KismetPropertyPointer, context_expression: Box<Expr> },
    /// A call of a function by name.
    VirtualFunction { virtual_function_name: String, parameters: Vec<Expr> },
    /// A call of a prebound function.
    FinalFunction { stack_node: PackageIndex, parameters: Vec<Expr> },
    /// A 32-bit integer constant.
    IntConst { value: i32 },
    /// A 32-bit floating point constant, held as its bits.
    FloatConst { bits: u32 },
    /// A string constant.
    StringConst { value: String },
    /// An object constant.
    ObjectConst { value: PackageIndex },
    /// A name constant.
    NameConst { value: String },
    /// A rotation constant (its components are not held).
    RotationConst,
    /// A vector constant (its components are not held).
    VectorConst,
    /// A byte constant.
    ByteConst { value: u8 },
    /// Zero.
    IntZero,
    /// One.
    IntOne,
    /// Boolean true.
    True,
    /// Boolean false.
    False,
    /// A text constant.
    TextConst { text_literal_type: TextLiteralType, localized_source: Option<Box<Expr>>, localized_key: Option<Box<Expr>>, localized_namespace: Option<Box<Expr>>, invariant_literal_string: Option<Box<Expr>>, literal_string: Option<Box<Expr>>, string_table_asset: Option<PackageIndex>, string_table_id: Option<Box<Expr>>, string_table_key: Option<Box<Expr>> },
    /// No object.
    NoObject,
    /// A transform constant (its components are not held).
    TransformConst,
    /// An integer constant held in one byte.
    IntConstByte { value: u8 },
    /// A null interface.
    NoInterface,
    /// A checked class cast.
    DynamicCast { class_ptr: PackageIndex, target_expression: Box<Expr> },
    /// A struct constant.
    StructConst { struct_value: PackageIndex, struct_size: i32, value: Vec<Expr> },
    /// End of a struct constant.
    EndStructConst,
    /// Set the contents of an array.
    SetArray { assigning_property: Option<Box<Expr>>, array_inner_prop: Option<PackageIndex>, elements: Vec<Expr> },
    /// End of an array.
    EndArray,
    /// A property constant.
    PropertyConst { property: KismetPropertyPointer },
    /// A wide string constant.
    UnicodeStringConst { value: String },
    /// A 64-bit integer constant.
    Int64Const { value: i64 },
    /// An unsigned 64-bit integer constant.
    UInt64Const { value: u64 },
    /// A cast between primitive types.
    PrimitiveCast { conversion_type: CastToken, target: Box<Expr> },
    /// Set the contents of a set.
    SetSet { set_property: Box<Expr>, elements: Vec<Expr> },
    /// End of a set.
    EndSet,
    /// Set the contents of a map.
    SetMap { map_property: Box<Expr>, elements: Vec<Expr> },
    /// End of a map.
    EndMap,
    /// A set constant.
    SetConst { inner_property: KismetPropertyPointer, elements: Vec<Expr> },
    /// End of a set constant.
    EndSetConst,
    /// A map constant.
    MapConst { key_property: KismetPropertyPointer, value_property: KismetPropertyPointer, elements: Vec<Expr> },
    /// End of a map constant.
    EndMapConst,
    /// A property within a struct.
    StructMemberContext { struct_member_expression: KismetPropertyPointer, struct_expression: Box<Expr> },
    /// Assign a multicast delegate.
    LetMulticastDelegate { variable_expression: Box<Expr>, assignment_expression: Box<Expr> },
    /// Assign a delegate.
    LetDelegate { variable_expression: Box<Expr>, assignment_expression: Box<Expr> },
    /// A local call of a function by name.
    LocalVirtualFunction { virtual_function_name: String, parameters: Vec<Expr> },
    /// A local call of a prebound function.
    LocalFinalFunction { stack_node: PackageIndex, parameters: Vec<Expr> },
    /// A parameter passed by reference.
    LocalOutVariable { variable: KismetPropertyPointer },
    /// A deprecated operation.
    DeprecatedOp4A,
    /// A reference to a delegate or function.
    InstanceDelegate { function_name: String },
    /// Push an address onto the execution flow stack.
    PushExecutionFlow { pushing_address: u32 },
    /// Continue at the address last pushed.
    PopExecutionFlow,
    /// Go to a computed code offset.
    ComputedJump { code_offset_expression: Box<Expr> },
    /// Continue at the address last pushed unless the condition holds.
    PopExecutionFlowIfNot { boolean_expression: Box<Expr> },
    /// A breakpoint.
    Breakpoint,
    /// A call through an interface.
    InterfaceContext { interface_value: Box<Expr> },
    /// Convert an object to an interface.
    ObjToInterfaceCast { class_ptr: PackageIndex, target: Box<Expr> },
    /// End of the script.
    EndOfScript,
    /// Convert one interface to another.
    CrossInterfaceCast { class_ptr: PackageIndex, target: Box<Expr> },
    /// Convert an interface to an object.
    InterfaceToObjCast { class_ptr: PackageIndex, target: Box<Expr> },
    /// A wire trace point.
    WireTracepoint,
    /// A code skip offset constant.
    SkipOffsetConst { value: u32 },
    /// Add a delegate to a multicast delegate.
    AddMulticastDelegate { delegate: Box<Expr>, delegate_to_add: Box<Expr> },
    /// Clear a multicast delegate.
    ClearMulticastDelegate { delegate_to_clear: Box<Expr> },
    /// A trace point.
    Tracepoint,
    /// Assign an object reference.
    LetObj { variable_expression: Box<Expr>, assignment_expression: Box<Expr> },
    /// Assign a weak object pointer.
    LetWeakObjPtr { variable_expression: Box<Expr>, assignment_expression: Box<Expr> },
    /// Bind an object and a function name to a delegate.
    BindDelegate { function_name: String, delegate: Box<Expr>, object_term: Box<Expr> },
    /// Remove a delegate from a multicast delegate.
    RemoveMulticastDelegate { delegate: Box<Expr>, delegate_to_add: Box<Expr> },
    /// Call a multicast delegate.
    CallMulticastDelegate { stack_node: PackageIndex, parameters: Vec<Expr>, delegate: Box<Expr> },
    /// Assign a value on the persistent frame.
    LetValueOnPersistentFrame { destination_property: KismetPropertyPointer, assignment_expression: Box<Expr> },
    /// An array constant.
    ArrayConst { inner_property: KismetPropertyPointer, elements: Vec<Expr> },
    /// End of an array constant.
    EndArrayConst,
    /// A soft object constant.
    SoftObjectConst { value: Box<Expr> },
    /// A call of a static pure function.
    CallMath { stack_node: PackageIndex, parameters: Vec<Expr> },
    /// A switch over values.
    SwitchValue { end_goto_offset: u32, index_term: Box<Expr>, default_term: Box<Expr>, cases: Vec<SwitchCase> },
    /// An instrumentation event.
    InstrumentationEvent { event_type: u8, event_name: Option<String> },
    /// An array element by reference.
    ArrayGetByRef { array_variable: Box<Expr>, array_index: Box<Expr> },
    /// A class sparse data variable.
    ClassSparseDataVariable { variable: KismetPropertyPointer },
    /// A field path constant.
    FieldPathConst { value: Box<Expr> },
}

/// The references that `on_kismet` shows, in the order it shows them.
pub open spec fn expr_refs(x: Expr) -> Seq<i32>
    decreases x,
{
    match x {
        Expr::LocalVariable { variable } => pointer_refs(variable),
        Expr::InstanceVariable { variable } => pointer_refs(variable),
        Expr::DefaultVariable { variable } => pointer_refs(variable),
        Expr::Return { return_expression } => expr_refs(*return_expression),
        Expr::Jump { .. } => Seq::empty(),
        Expr::JumpIfNot { boolean_expression, .. } => expr_refs(*boolean_expression),
        Expr::Assert { assert_expression, .. } => expr_refs(*assert_expression),
        Expr::Nothing => Seq::empty(),
        Expr::Let { value, variable, expression } => pointer_refs(value) + expr_refs(*variable) + expr_refs(*expression),
        Expr::ClassContext { object_expression, r_value_pointer, context_expression, .. } => expr_refs(*object_expression) + pointer_refs(r_value_pointer) + expr_refs(*context_expression),
        Expr::MetaCast { class_ptr, target_expression } => seq![class_ptr.index] + expr_refs(*target_expression),
        Expr::LetBool { variable_expression, assignment_expression } => expr_refs(*variable_expression) + expr_refs(*assignment_expression),
        Expr::EndParmValue => Seq::empty(),
        Expr::EndFunctionParms => Seq::empty(),
        Expr::SelfObject => Seq::empty(),
        Expr::Skip { skip_expression, .. } => expr_refs(*skip_expression),
        Expr::Context { object_expression, r_value_pointer, context_expression, .. } => expr_refs(*object_expression) + pointer_refs(r_value_pointer) + expr_refs(*context_expression),
        Expr::ContextFailSilent { object_expression, r_value_pointer, context_expression, .. } => expr_refs(*object_expression) + pointer_refs(r_value_pointer) + expr_refs(*context_expression),
        Expr::VirtualFunction { parameters, .. } => expr_list_refs(parameters@),
        Expr::FinalFunction { stack_node, parameters } => seq![stack_node.index] + expr_list_refs(parameters@),
        Expr::IntConst { .. } => Seq::empty(),
        Expr::FloatConst { .. } => Seq::empty(),
        Expr::StringConst { .. } => Seq::empty(),
        Expr::ObjectConst { value } => seq![value.index],
        Expr::NameConst { .. } => Seq::empty(),
        Expr::RotationConst => Seq::empty(),
        Expr::VectorConst => Seq::empty(),
        Expr::ByteConst { .. } => Seq::empty(),
        Expr::IntZero => Seq::empty(),
        Expr::IntOne => Seq::empty(),
        Expr::True => Seq::empty(),
        Expr::False => Seq::empty(),
        Expr::TextConst { .. } => Seq::empty(),
        Expr::NoObject => Seq::empty(),
        Expr::TransformConst => Seq::empty(),
        Expr::IntConstByte { .. } => Seq::empty(),
        Expr::NoInterface => Seq::empty(),
        Expr::DynamicCast { class_ptr, target_expression } => seq![class_ptr.index] + expr_refs(*target_expression),
        Expr::StructConst { struct_value, value, .. } => seq![struct_value.index] + expr_list_refs(value@),
        Expr::EndStructConst => Seq::empty(),
        Expr::SetArray { assigning_property, array_inner_prop, elements } => expr_opt_refs(assigning_property) + index_opt_refs(array_inner_prop) + expr_list_refs(elements@),
        Expr::EndArray => Seq::empty(),
        Expr::PropertyConst { property } => pointer_refs(property),
        Expr::UnicodeStringConst { .. } => Seq::empty(),
        Expr::Int64Const { .. } => Seq::empty(),
        Expr::UInt64Const { .. } => Seq::empty(),
        Expr::PrimitiveCast { target, .. } => expr_refs(*target),
        Expr::SetSet { set_property, elements } => expr_refs(*set_property) + expr_list_refs(elements@),
        Expr::EndSet => Seq::empty(),
        Expr::SetMap { map_property, elements } => expr_refs(*map_property) + expr_list_refs(elements@),
        Expr::EndMap => Seq::empty(),
        Expr::SetConst { inner_property, elements } => pointer_refs(inner_property) + expr_list_refs(elements@),
        Expr::EndSetConst => Seq::empty(),
        Expr::MapConst { key_property, value_property, .. } => pointer_refs(key_property) + pointer_refs(value_property),
        Expr::EndMapConst => Seq::empty(),
        Expr::StructMemberContext { struct_member_expression, struct_expression } => pointer_refs(struct_member_expression) + expr_refs(*struct_expression),
        Expr::LetMulticastDelegate { variable_expression, assignment_expression } => expr_refs(*variable_expression) + expr_refs(*assignment_expression),
        Expr::LetDelegate { variable_expression, assignment_expression } => expr_refs(*variable_expression) + expr_refs(*assignment_expression),
        Expr::LocalVirtualFunction { parameters, .. } => expr_list_refs(parameters@),
        Expr::LocalFinalFunction { stack_node, parameters } => seq![stack_node.index] + expr_list_refs(parameters@),
        Expr::LocalOutVariable { variable } => pointer_refs(variable),
        Expr::DeprecatedOp4A => Seq::empty(),
        Expr::InstanceDelegate { .. } => Seq::empty(),
        Expr::PushExecutionFlow { .. } => Seq::empty(),
        Expr::PopExecutionFlow => Seq::empty(),
        Expr::ComputedJump { code_offset_expression } => expr_refs(*code_offset_expression),
        Expr::PopExecutionFlowIfNot { boolean_expression } => expr_refs(*boolean_expression),
        Expr::Breakpoint => Seq::empty(),
        Expr::InterfaceContext { interface_value } => expr_refs(*interface_value),
        Expr::ObjToInterfaceCast { class_ptr, target } => seq![class_ptr.index] + expr_refs(*target),
        Expr::EndOfScript => Seq::empty(),
        Expr::CrossInterfaceCast { class_ptr, target } => seq![class_ptr.index] + expr_refs(*target),
        Expr::InterfaceToObjCast { class_ptr, target } => seq![class_ptr.index] + expr_refs(*target),
        Expr::WireTracepoint => Seq::empty(),
        Expr::SkipOffsetConst { .. } => Seq::empty(),
        Expr::AddMulticastDelegate { delegate, delegate_to_add } => expr_refs(*delegate) + expr_refs(*delegate_to_add),
        Expr::ClearMulticastDelegate { delegate_to_clear } => expr_refs(*delegate_to_clear),
        Expr::Tracepoint => Seq::empty(),
        Expr::LetObj { variable_expression, assignment_expression } => expr_refs(*variable_expression) + expr_refs(*assignment_expression),
        Expr::LetWeakObjPtr { variable_expression, assignment_expression } => expr_refs(*variable_expression) + expr_refs(*assignment_expression),
        Expr::BindDelegate { delegate, object_term, .. } => expr_refs(*delegate) + expr_refs(*object_term),
        Expr::RemoveMulticastDelegate { delegate, delegate_to_add } => expr_refs(*delegate) + expr_refs(*delegate_to_add),
        Expr::CallMulticastDelegate { stack_node, parameters, delegate } => seq![stack_node.index] + expr_list_refs(parameters@) + expr_refs(*delegate),
        Expr::LetValueOnPersistentFrame { destination_property, assignment_expression } => pointer_refs(destination_property) + expr_refs(*assignment_expression),
        Expr::ArrayConst { inner_property, elements } => pointer_refs(inner_property) + expr_list_refs(elements@),
        Expr::EndArrayConst => Seq::empty(),
        Expr::SoftObjectConst { value } => expr_refs(*value),
        Expr::CallMath { stack_node, parameters } => seq![stack_node.index] + expr_list_refs(parameters@),
        Expr::SwitchValue { index_term, default_term, cases, .. } => expr_refs(*index_term) + expr_refs(*default_term) + switch_case_list_refs(cases@),
        Expr::InstrumentationEvent { .. } => Seq::empty(),
        Expr::ArrayGetByRef { array_variable, array_index } => expr_refs(*array_variable) + expr_refs(*array_index),
        Expr::ClassSparseDataVariable { variable } => pointer_refs(variable),
        Expr::FieldPathConst { value } => expr_refs(*value),
    }
}

/// `a` and `b` differ at most in the references that `on_kismet` shows.
pub open spec fn same_expr_shape(a: Expr, b: Expr) -> bool
    decreases a,
{
    match (a, b) {
        (Expr::LocalVariable { variable: variable_a }, Expr::LocalVariable { variable: variable_b }) => same_pointer_shape(variable_a, variable_b),
        (Expr::InstanceVariable { variable: variable_a }, Expr::InstanceVariable { variable: variable_b }) => same_pointer_shape(variable_a, variable_b),
        (Expr::DefaultVariable { variable: variable_a }, Expr::DefaultVariable { variable: variable_b }) => same_pointer_shape(variable_a, variable_b),
        (Expr::Return { return_expression: return_expression_a }, Expr::Return { return_expression: return_expression_b }) => same_expr_shape(*return_expression_a, *return_expression_b),
        (Expr::Jump { code_offset: code_offset_a }, Expr::Jump { code_offset: code_offset_b }) => code_offset_a == code_offset_b,
        (Expr::JumpIfNot { code_offset: code_offset_a, boolean_expression: boolean_expression_a }, Expr::JumpIfNot { code_offset: code_offset_b, boolean_expression: boolean_expression_b }) => code_offset_a == code_offset_b && same_expr_shape(*boolean_expression_a, *boolean_expression_b),
        (Expr::Assert { line_number: line_number_a, debug_mode: debug_mode_a, assert_expression: assert_expression_a }, Expr::Assert { line_number: line_number_b, debug_mode: debug_mode_b, assert_expression: assert_expression_b }) => line_number_a == line_number_b && debug_mode_a == debug_mode_b && same_expr_shape(*assert_expression_a, *assert_expression_b),
        (Expr::Nothing, Expr::Nothing) => true,
        (Expr::Let { value: value_a, variable: variable_a, expression: expression_a }, Expr::Let { value: value_b, variable: variable_b, expression: expression_b }) => same_pointer_shape(value_a, value_b) && same_expr_shape(*variable_a, *variable_b) && same_expr_shape(*expression_a, *expression_b),
        (Expr::ClassContext { object_expression: object_expression_a, offset: offset_a, r_value_pointer: r_value_pointer_a, context_expression: context_expression_a }, Expr::ClassContext { object_expression: object_expression_b, offset: offset_b, r_value_pointer: r_value_pointer_b, context_expression: context_expression_b }) => same_expr_shape(*object_expression_a, *object_expression_b) && offset_a == offset_b && same_pointer_shape(r_value_pointer_a, r_value_pointer_b) && same_expr_shape(*context_expression_a, *context_expression_b),
        (Expr::MetaCast { target_expression: target_expression_a, .. }, Expr::MetaCast { target_expression: target_expression_b, .. }) => same_expr_shape(*target_expression_a, *target_expression_b),
        (Expr::LetBool { variable_expression: variable_expression_a, assignment_expression: assignment_expression_a }, Expr::LetBool { variable_expression: variable_expression_b, assignment_expression: assignment_expression_b }) => same_expr_shape(*variable_expression_a, *variable_expression_b) && same_expr_shape(*assignment_expression_a, *assignment_expression_b),
        (Expr::EndParmValue, Expr::EndParmValue) => true,
        (Expr::EndFunctionParms, Expr::EndFunctionParms) => true,
        (Expr::SelfObject, Expr::SelfObject) => true,
        (Expr::Skip { code_offset: code_offset_a, skip_expression: skip_expression_a }, Expr::Skip { code_offset: code_offset_b, skip_expression: skip_expression_b }) => code_offset_a == code_offset_b && same_expr_shape(*skip_expression_a, *skip_expression_b),
        (Expr::Context { object_expression: object_expression_a, offset: offset_a, r_value_pointer: r_value_pointer_a, context_expression: context_expression_a }, Expr::Context { object_expression: object_expression_b, offset: offset_b, r_value_pointer: r_value_pointer_b, context_expression: context_expression_b }) => same_expr_shape(*object_expression_a, *object_expression_b) && offset_a == offset_b && same_pointer_shape(r_value_pointer_a, r_value_pointer_b) && same_expr_shape(*context_expression_a, *context_expression_b),
        (Expr::ContextFailSilent { object_expression: object_expression_a, offset: offset_a, r_value_pointer: r_value_pointer_a, context_expression: context_expression_a }, Expr::ContextFailSilent { object_expression: object_expression_b, offset: offset_b, r_value_pointer: r_value_pointer_b, context_expression: context_expression_b }) => same_expr_shape(*object_expression_a, *object_expression_b) && offset_a == offset_b && same_pointer_shape(r_value_pointer_a, r_value_pointer_b) && same_expr_shape(*context_expression_a, *context_expression_b),
        (Expr::VirtualFunction { virtual_function_name: virtual_function_name_a, parameters: parameters_a }, Expr::VirtualFunction { virtual_function_name: virtual_function_name_b, parameters: parameters_b }) => virtual_function_name_a@ == virtual_function_name_b@ && same_expr_list_shape(parameters_a@, parameters_b@),
        (Expr::FinalFunction { parameters: parameters_a, .. }, Expr::FinalFunction { parameters: parameters_b, .. }) => same_expr_list_shape(parameters_a@, parameters_b@),
        (Expr::IntConst { value: value_a }, Expr::IntConst { value: value_b }) => value_a == value_b,
        (Expr::FloatConst { bits: bits_a }, Expr::FloatConst { bits: bits_b }) => bits_a == bits_b,
        (Expr::StringConst { value: value_a }, Expr::StringConst { value: value_b }) => value_a@ == value_b@,
        (Expr::ObjectConst { .. }, Expr::ObjectConst { .. }) => true,
        (Expr::NameConst { value: value_a }, Expr::NameConst { value: value_b }) => value_a@ == value_b@,
        (Expr::RotationConst, Expr::RotationConst) => true,
        (Expr::VectorConst, Expr::VectorConst) => true,
        (Expr::ByteConst { value: value_a }, Expr::ByteConst { value: value_b }) => value_a == value_b,
        (Expr::IntZero, Expr::IntZero) => true,
        (Expr::IntOne, Expr::IntOne) => true,
        (Expr::True, Expr::True) => true,
        (Expr::False, Expr::False) => true,
        (Expr::TextConst { text_literal_type: text_literal_type_a, localized_source: localized_source_a, localized_key: localized_key_a, localized_namespace: localized_namespace_a, invariant_literal_string: invariant_literal_string_a, literal_string: literal_string_a, string_table_asset: string_table_asset_a, string_table_id: string_table_id_a, string_table_key: string_table_key_a }, Expr::TextConst { text_literal_type: text_literal_type_b, localized_source: localized_source_b, localized_key: localized_key_b, localized_namespace: localized_namespace_b, invariant_literal_string: invariant_literal_string_b, literal_string: literal_string_b, string_table_asset: string_table_asset_b, string_table_id: string_table_id_b, string_table_key: string_table_key_b }) => text_literal_type_a == text_literal_type_b && (same_expr_opt_shape(localized_source_a, localized_source_b) && expr_opt_refs(localized_source_a) == expr_opt_refs(localized_source_b)) && (same_expr_opt_shape(localized_key_a, localized_key_b) && expr_opt_refs(localized_key_a) == expr_opt_refs(localized_key_b)) && (same_expr_opt_shape(localized_namespace_a, localized_namespace_b) && expr_opt_refs(localized_namespace_a) == expr_opt_refs(localized_namespace_b)) && (same_expr_opt_shape(invariant_literal_string_a, invariant_literal_string_b) && expr_opt_refs(invariant_literal_string_a) == expr_opt_refs(invariant_literal_string_b)) && (same_expr_opt_shape(literal_string_a, literal_string_b) && expr_opt_refs(literal_string_a) == expr_opt_refs(literal_string_b)) && string_table_asset_a == string_table_asset_b && (same_expr_opt_shape(string_table_id_a, string_table_id_b) && expr_opt_refs(string_table_id_a) == expr_opt_refs(string_table_id_b)) && (same_expr_opt_shape(string_table_key_a, string_table_key_b) && expr_opt_refs(string_table_key_a) == expr_opt_refs(string_table_key_b)),
        (Expr::NoObject, Expr::NoObject) => true,
        (Expr::TransformConst, Expr::TransformConst) => true,
        (Expr::IntConstByte { value: value_a }, Expr::IntConstByte { value: value_b }) => value_a == value_b,
        (Expr::NoInterface, Expr::NoInterface) => true,
        (Expr::DynamicCast { target_expression: target_expression_a, .. }, Expr::DynamicCast { target_expression: target_expression_b, .. }) => same_expr_shape(*target_expression_a, *target_expression_b),
        (Expr::StructConst { struct_size: struct_size_a, value: value_a, .. }, Expr::StructConst { struct_size: struct_size_b, value: value_b, .. }) => struct_size_a == struct_size_b && same_expr_list_shape(value_a@, value_b@),
        (Expr::EndStructConst, Expr::EndStructConst) => true,
        (Expr::SetArray { assigning_property: assigning_property_a, array_inner_prop: array_inner_prop_a, elements: elements_a }, Expr::SetArray { assigning_property: assigning_property_b, array_inner_prop: array_inner_prop_b, elements: elements_b }) => same_expr_opt_shape(assigning_property_a, assigning_property_b) && (array_inner_prop_a is Some <==> array_inner_prop_b is Some) && same_expr_list_shape(elements_a@, elements_b@),
        (Expr::EndArray, Expr::EndArray) => true,
        (Expr::PropertyConst { property: property_a }, Expr::PropertyConst { property: property_b }) => same_pointer_shape(property_a, property_b),
        (Expr::UnicodeStringConst { value: value_a }, Expr::UnicodeStringConst { value: value_b }) => value_a@ == value_b@,
        (Expr::Int64Const { value: value_a }, Expr::Int64Const { value: value_b }) => value_a == value_b,
        (Expr::UInt64Const { value: value_a }, Expr::UInt64Const { value: value_b }) => value_a == value_b,
        (Expr::PrimitiveCast { conversion_type: conversion_type_a, target: target_a }, Expr::PrimitiveCast { conversion_type: conversion_type_b, target: target_b }) => conversion_type_a == conversion_type_b && same_expr_shape(*target_a, *target_b),
        (Expr::SetSet { set_property: set_property_a, elements: elements_a }, Expr::SetSet { set_property: set_property_b, elements: elements_b }) => same_expr_shape(*set_property_a, *set_property_b) && same_expr_list_shape(elements_a@, elements_b@),
        (Expr::EndSet, Expr::EndSet) => true,
        (Expr::SetMap { map_property: map_property_a, elements: elements_a }, Expr::SetMap { map_property: map_property_b, elements: elements_b }) => same_expr_shape(*map_property_a, *map_property_b) && same_expr_list_shape(elements_a@, elements_b@),
        (Expr::EndMap, Expr::EndMap) => true,
        (Expr::SetConst { inner_property: inner_property_a, elements: elements_a }, Expr::SetConst { inner_property: inner_property_b, elements: elements_b }) => same_pointer_shape(inner_property_a, inner_property_b) && same_expr_list_shape(elements_a@, elements_b@),
        (Expr::EndSetConst, Expr::EndSetConst) => true,
        (Expr::MapConst { key_property: key_property_a, value_property: value_property_a, elements: elements_a }, Expr::MapConst { key_property: key_property_b, value_property: value_property_b, elements: elements_b }) => same_pointer_shape(key_property_a, key_property_b) && same_pointer_shape(value_property_a, value_property_b) && (same_expr_list_shape(elements_a@, elements_b@) && expr_list_refs(elements_a@) == expr_list_refs(elements_b@)),
        (Expr::EndMapConst, Expr::EndMapConst) => true,
        (Expr::StructMemberContext { struct_member_expression: struct_member_expression_a, struct_expression: struct_expression_a }, Expr::StructMemberContext { struct_member_expression: struct_member_expression_b, struct_expression: struct_expression_b }) => same_pointer_shape(struct_member_expression_a, struct_member_expression_b) && same_expr_shape(*struct_expression_a, *struct_expression_b),
        (Expr::LetMulticastDelegate { variable_expression: variable_expression_a, assignment_expression: assignment_expression_a }, Expr::LetMulticastDelegate { variable_expression: variable_expression_b, assignment_expression: assignment_expression_b }) => same_expr_shape(*variable_expression_a, *variable_expression_b) && same_expr_shape(*assignment_expression_a, *assignment_expression_b),
        (Expr::LetDelegate { variable_expression: variable_expression_a, assignment_expression: assignment_expression_a }, Expr::LetDelegate { variable_expression: variable_expression_b, assignment_expression: assignment_expression_b }) => same_expr_shape(*variable_expression_a, *variable_expression_b) && same_expr_shape(*assignment_expression_a, *assignment_expression_b),
        (Expr::LocalVirtualFunction { virtual_function_name: virtual_function_name_a, parameters: parameters_a }, Expr::LocalVirtualFunction { virtual_function_name: virtual_function_name_b, parameters: parameters_b }) => virtual_function_name_a@ == virtual_function_name_b@ && same_expr_list_shape(parameters_a@, parameters_b@),
        (Expr::LocalFinalFunction { parameters: parameters_a, .. }, Expr::LocalFinalFunction { parameters: parameters_b, .. }) => same_expr_list_shape(parameters_a@, parameters_b@),
        (Expr::LocalOutVariable { variable: variable_a }, Expr::LocalOutVariable { variable: variable_b }) => same_pointer_shape(variable_a, variable_b),
        (Expr::DeprecatedOp4A, Expr::DeprecatedOp4A) => true,
        (Expr::InstanceDelegate { function_name: function_name_a }, Expr::InstanceDelegate { function_name: function_name_b }) => function_name_a@ == function_name_b@,
        (Expr::PushExecutionFlow { pushing_address: pushing_address_a }, Expr::PushExecutionFlow { pushing_address: pushing_address_b }) => pushing_address_a == pushing_address_b,
        (Expr::PopExecutionFlow, Expr::PopExecutionFlow) => true,
        (Expr::ComputedJump { code_offset_expression: code_offset_expression_a }, Expr::ComputedJump { code_offset_expression: code_offset_expression_b }) => same_expr_shape(*code_offset_expression_a, *code_offset_expression_b),
        (Expr::PopExecutionFlowIfNot { boolean_expression: boolean_expression_a }, Expr::PopExecutionFlowIfNot { boolean_expression: boolean_expression_b }) => same_expr_shape(*boolean_expression_a, *boolean_expression_b),
        (Expr::Breakpoint, Expr::Breakpoint) => true,
        (Expr::InterfaceContext { interface_value: interface_value_a }, Expr::InterfaceContext { interface_value: interface_value_b }) => same_expr_shape(*interface_value_a, *interface_value_b),
        (Expr::ObjToInterfaceCast { target: target_a, .. }, Expr::ObjToInterfaceCast { target: target_b, .. }) => same_expr_shape(*target_a, *target_b),
        (Expr::EndOfScript, Expr::EndOfScript) => true,
        (Expr::CrossInterfaceCast { target: target_a, .. }, Expr::CrossInterfaceCast { target: target_b, .. }) => same_expr_shape(*target_a, *target_b),
        (Expr::InterfaceToObjCast { target: target_a, .. }, Expr::InterfaceToObjCast { target: target_b, .. }) => same_expr_shape(*target_a, *target_b),
        (Expr::WireTracepoint, Expr::WireTracepoint) => true,
        (Expr::SkipOffsetConst { value: value_a }, Expr::SkipOffsetConst { value: value_b }) => value_a == value_b,
        (Expr::AddMulticastDelegate { delegate: delegate_a, delegate_to_add: delegate_to_add_a }, Expr::AddMulticastDelegate { delegate: delegate_b, delegate_to_add: delegate_to_add_b }) => same_expr_shape(*delegate_a, *delegate_b) && same_expr_shape(*delegate_to_add_a, *delegate_to_add_b),
        (Expr::ClearMulticastDelegate { delegate_to_clear: delegate_to_clear_a }, Expr::ClearMulticastDelegate { delegate_to_clear: delegate_to_clear_b }) => same_expr_shape(*delegate_to_clear_a, *delegate_to_clear_b),
        (Expr::Tracepoint, Expr::Tracepoint) => true,
        (Expr::LetObj { variable_expression: variable_expression_a, assignment_expression: assignment_expression_a }, Expr::LetObj { variable_expression: variable_expression_b, assignment_expression: assignment_expression_b }) => same_expr_shape(*variable_expression_a, *variable_expression_b) && same_expr_shape(*assignment_expression_a, *assignment_expression_b),
        (Expr::LetWeakObjPtr { variable_expression: variable_expression_a, assignment_expression: assignment_expression_a }, Expr::LetWeakObjPtr { variable_expression: variable_expression_b, assignment_expression: assignment_expression_b }) => same_expr_shape(*variable_expression_a, *variable_expression_b) && same_expr_shape(*assignment_expression_a, *assignment_expression_b),
        (Expr::BindDelegate { function_name: function_name_a, delegate: delegate_a, object_term: object_term_a }, Expr::BindDelegate { function_name: function_name_b, delegate: delegate_b, object_term: object_term_b }) => function_name_a@ == function_name_b@ && same_expr_shape(*delegate_a, *delegate_b) && same_expr_shape(*object_term_a, *object_term_b),
        (Expr::RemoveMulticastDelegate { delegate: delegate_a, delegate_to_add: delegate_to_add_a }, Expr::RemoveMulticastDelegate { delegate: delegate_b, delegate_to_add: delegate_to_add_b }) => same_expr_shape(*delegate_a, *delegate_b) && same_expr_shape(*delegate_to_add_a, *delegate_to_add_b),
        (Expr::CallMulticastDelegate { parameters: parameters_a, delegate: delegate_a, .. }, Expr::CallMulticastDelegate { parameters: parameters_b, delegate: delegate_b, .. }) => same_expr_list_shape(parameters_a@, parameters_b@) && same_expr_shape(*delegate_a, *delegate_b),
        (Expr::LetValueOnPersistentFrame { destination_property: destination_property_a, assignment_expression: assignment_expression_a }, Expr::LetValueOnPersistentFrame { destination_property: destination_property_b, assignment_expression: assignment_expression_b }) => same_pointer_shape(destination_property_a, destination_property_b) && same_expr_shape(*assignment_expression_a, *assignment_expression_b),
        (Expr::ArrayConst { inner_property: inner_property_a, elements: elements_a }, Expr::ArrayConst { inner_property: inner_property_b, elements: elements_b }) => same_pointer_shape(inner_property_a, inner_property_b) && same_expr_list_shape(elements_a@, elements_b@),
        (Expr::EndArrayConst, Expr::EndArrayConst) => true,
        (Expr::SoftObjectConst { value: value_a }, Expr::SoftObjectConst { value: value_b }) => same_expr_shape(*value_a, *value_b),
        (Expr::CallMath { parameters: parameters_a, .. }, Expr::CallMath { parameters: parameters_b, .. }) => same_expr_list_shape(parameters_a@, parameters_b@),
        (Expr::SwitchValue { end_goto_offset: end_goto_offset_a, index_term: index_term_a, default_term: default_term_a, cases: cases_a }, Expr::SwitchValue { end_goto_offset: end_goto_offset_b, index_term: index_term_b, default_term: default_term_b, cases: cases_b }) => end_goto_offset_a == end_goto_offset_b && same_expr_shape(*index_term_a, *index_term_b) && same_expr_shape(*default_term_a, *default_term_b) && same_switch_case_list_shape(cases_a@, cases_b@),
        (Expr::InstrumentationEvent { event_type: event_type_a, event_name: event_name_a }, Expr::InstrumentationEvent { event_type: event_type_b, event_name: event_name_b }) => event_type_a == event_type_b && event_name_a == event_name_b,
        (Expr::ArrayGetByRef { array_variable: array_variable_a, array_index: array_index_a }, Expr::ArrayGetByRef { array_variable: array_variable_b, array_index: array_index_b }) => same_expr_shape(*array_variable_a, *array_variable_b) && same_expr_shape(*array_index_a, *array_index_b),
        (Expr::ClassSparseDataVariable { variable: variable_a }, Expr::ClassSparseDataVariable { variable: variable_b }) => same_pointer_shape(variable_a, variable_b),
        (Expr::FieldPathConst { value: value_a }, Expr::FieldPathConst { value: value_b }) => same_expr_shape(*value_a, *value_b),
        _ => false,
    }
}

/// Every Expr has its own shape.
pub proof fn lemma_expr_refl(x: Expr)
    ensures
        same_expr_shape(x, x),
    decreases x,
{
    match x {
        Expr::Return { return_expression } => {
            lemma_expr_refl(*return_expression);
        },
        Expr::JumpIfNot { boolean_expression, .. } => {
            lemma_expr_refl(*boolean_expression);
        },
        Expr::Assert { assert_expression, .. } => {
            lemma_expr_refl(*assert_expression);
        },
        Expr::Let { variable, expression, .. } => {
            lemma_expr_refl(*variable);
            lemma_expr_refl(*expression);
        },
        Expr::ClassContext { object_expression, context_expression, .. } => {
            lemma_expr_refl(*object_expression);
            lemma_expr_refl(*context_expression);
        },
        Expr::MetaCast { target_expression, .. } => {
            lemma_expr_refl(*target_expression);
        },
        Expr::LetBool { variable_expression, assignment_expression } => {
            lemma_expr_refl(*variable_expression);
            lemma_expr_refl(*assignment_expression);
        },
        Expr::Skip { skip_expression, .. } => {
            lemma_expr_refl(*skip_expression);
        },
        Expr::Context { object_expression, context_expression, .. } => {
            lemma_expr_refl(*object_expression);
            lemma_expr_refl(*context_expression);
        },
        Expr::ContextFailSilent { object_expression, context_expression, .. } => {
            lemma_expr_refl(*object_expression);
            lemma_expr_refl(*context_expression);
        },
        Expr::VirtualFunction { parameters, .. } => {
            lemma_expr_list_refl(parameters@);
        },
        Expr::FinalFunction { parameters, .. } => {
            lemma_expr_list_refl(parameters@);
        },
        Expr::TextConst { localized_source, localized_key, localized_namespace, invariant_literal_string, literal_string, string_table_id, string_table_key, .. } => {
            lemma_expr_opt_refl(localized_source);
            lemma_expr_opt_refl(localized_key);
            lemma_expr_opt_refl(localized_namespace);
            lemma_expr_opt_refl(invariant_literal_string);
            lemma_expr_opt_refl(literal_string);
            lemma_expr_opt_refl(string_table_id);
            lemma_expr_opt_refl(string_table_key);
        },
        Expr::DynamicCast { target_expression, .. } => {
            lemma_expr_refl(*target_expression);
        },
        Expr::StructConst { value, .. } => {
            lemma_expr_list_refl(value@);
        },
        Expr::SetArray { assigning_property, elements, .. } => {
            lemma_expr_opt_refl(assigning_property);
            lemma_expr_list_refl(elements@);
        },
        Expr::PrimitiveCast { target, .. } => {
            lemma_expr_refl(*target);
        },
        Expr::SetSet { set_property, elements } => {
            lemma_expr_refl(*set_property);
            lemma_expr_list_refl(elements@);
        },
        Expr::SetMap { map_property, elements } => {
            lemma_expr_refl(*map_property);
            lemma_expr_list_refl(elements@);
        },
        Expr::SetConst { elements, .. } => {
            lemma_expr_list_refl(elements@);
        },
        Expr::MapConst { elements, .. } => {
            lemma_expr_list_refl(elements@);
        },
        Expr::StructMemberContext { struct_expression, .. } => {
            lemma_expr_refl(*struct_expression);
        },
        Expr::LetMulticastDelegate { variable_expression, assignment_expression } => {
            lemma_expr_refl(*variable_expression);
            lemma_expr_refl(*assignment_expression);
        },
        Expr::LetDelegate { variable_expression, assignment_expression } => {
            lemma_expr_refl(*variable_expression);
            lemma_expr_refl(*assignment_expression);
        },
        Expr::LocalVirtualFunction { parameters, .. } => {
            lemma_expr_list_refl(parameters@);
        },
        Expr::LocalFinalFunction { parameters, .. } => {
            lemma_expr_list_refl(parameters@);
        },
        Expr::ComputedJump { code_offset_expression } => {
            lemma_expr_refl(*code_offset_expression);
        },
        Expr::PopExecutionFlowIfNot { boolean_expression } => {
            lemma_expr_refl(*boolean_expression);
        },
        Expr::InterfaceContext { interface_value } => {
            lemma_expr_refl(*interface_value);
        },
        Expr::ObjToInterfaceCast { target, .. } => {
            lemma_expr_refl(*target);
        },
        Expr::CrossInterfaceCast { target, .. } => {
            lemma_expr_refl(*target);
        },
        Expr::InterfaceToObjCast { target, .. } => {
            lemma_expr_refl(*target);
        },
        Expr::AddMulticastDelegate { delegate, delegate_to_add } => {
            lemma_expr_refl(*delegate);
            lemma_expr_refl(*delegate_to_add);
        },
        Expr::ClearMulticastDelegate { delegate_to_clear } => {
            lemma_expr_refl(*delegate_to_clear);
        },
        Expr::LetObj { variable_expression, assignment_expression } => {
            lemma_expr_refl(*variable_expression);
            lemma_expr_refl(*assignment_expression);
        },
        Expr::LetWeakObjPtr { variable_expression, assignment_expression } => {
            lemma_expr_refl(*variable_expression);
            lemma_expr_refl(*assignment_expression);
        },
        Expr::BindDelegate { delegate, object_term, .. } => {
            lemma_expr_refl(*delegate);
            lemma_expr_refl(*object_term);
        },
        Expr::RemoveMulticastDelegate { delegate, delegate_to_add } => {
            lemma_expr_refl(*delegate);
            lemma_expr_refl(*delegate_to_add);
        },
        Expr::CallMulticastDelegate { parameters, delegate, .. } => {
            lemma_expr_list_refl(parameters@);
            lemma_expr_refl(*delegate);
        },
        Expr::LetValueOnPersistentFrame { assignment_expression, .. } => {
            lemma_expr_refl(*assignment_expression);
        },
        Expr::ArrayConst { elements, .. } => {
            lemma_expr_list_refl(elements@);
        },
        Expr::SoftObjectConst { value } => {
            lemma_expr_refl(*value);
        },
        Expr::CallMath { parameters, .. } => {
            lemma_expr_list_refl(parameters@);
        },
        Expr::SwitchValue { index_term, default_term, cases, .. } => {
            lemma_expr_refl(*index_term);
            lemma_expr_refl(*default_term);
            lemma_switch_case_list_refl(cases@);
        },
        Expr::ArrayGetByRef { array_variable, array_index } => {
            lemma_expr_refl(*array_variable);
            lemma_expr_refl(*array_index);
        },
        Expr::FieldPathConst { value } => {
            lemma_expr_refl(*value);
        },
        _ => {},
    }
}

/// Shapes that agree in turn agree.
pub proof fn lemma_expr_trans(a: Expr, b: Expr, c: Expr)
    requires
        same_expr_shape(a, b),
        same_expr_shape(b, c),
    ensures
        same_expr_shape(a, c),
    decreases a,
{
    match (a, b, c) {
        (Expr::Return { return_expression: return_expression_a }, Expr::Return { return_expression: return_expression_b }, Expr::Return { return_expression: return_expression_c }) => {
            lemma_expr_trans(*return_expression_a, *return_expression_b, *return_expression_c);
        },
        (Expr::JumpIfNot { boolean_expression: boolean_expression_a, .. }, Expr::JumpIfNot { boolean_expression: boolean_expression_b, .. }, Expr::JumpIfNot { boolean_expression: boolean_expression_c, .. }) => {
            lemma_expr_trans(*boolean_expression_a, *boolean_expression_b, *boolean_expression_c);
        },
        (Expr::Assert { assert_expression: assert_expression_a, .. }, Expr::Assert { assert_expression: assert_expression_b, .. }, Expr::Assert { assert_expression: assert_expression_c, .. }) => {
            lemma_expr_trans(*assert_expression_a, *assert_expression_b, *assert_expression_c);
        },
        (Expr::Let { variable: variable_a, expression: expression_a, .. }, Expr::Let { variable: variable_b, expression: expression_b, .. }, Expr::Let { variable: variable_c, expression: expression_c, .. }) => {
            lemma_expr_trans(*variable_a, *variable_b, *variable_c);
            lemma_expr_trans(*expression_a, *expression_b, *expression_c);
        },
        (Expr::ClassContext { object_expression: object_expression_a, context_expression: context_expression_a, .. }, Expr::ClassContext { object_expression: object_expression_b, context_expression: context_expression_b, .. }, Expr::ClassContext { object_expression: object_expression_c, context_expression: context_expression_c, .. }) => {
            lemma_expr_trans(*object_expression_a, *object_expression_b, *object_expression_c);
            lemma_expr_trans(*context_expression_a, *context_expression_b, *context_expression_c);
        },
        (Expr::MetaCast { target_expression: target_expression_a, .. }, Expr::MetaCast { target_expression: target_expression_b, .. }, Expr::MetaCast { target_expression: target_expression_c, .. }) => {
            lemma_expr_trans(*target_expression_a, *target_expression_b, *target_expression_c);
        },
        (Expr::LetBool { variable_expression: variable_expression_a, assignment_expression: assignment_expression_a }, Expr::LetBool { variable_expression: variable_expression_b, assignment_expression: assignment_expression_b }, Expr::LetBool { variable_expression: variable_expression_c, assignment_expression: assignment_expression_c }) => {
            lemma_expr_trans(*variable_expression_a, *variable_expression_b, *variable_expression_c);
            lemma_expr_trans(*assignment_expression_a, *assignment_expression_b, *assignment_expression_c);
        },
        (Expr::Skip { skip_expression: skip_expression_a, .. }, Expr::Skip { skip_expression: skip_expression_b, .. }, Expr::Skip { skip_expression: skip_expression_c, .. }) => {
            lemma_expr_trans(*skip_expression_a, *skip_expression_b, *skip_expression_c);
        },
        (Expr::Context { object_expression: object_expression_a, context_expression: context_expression_a, .. }, Expr::Context { object_expression: object_expression_b, context_expression: context_expression_b, .. }, Expr::Context { object_expression: object_expression_c, context_expression: context_expression_c, .. }) => {
            lemma_expr_trans(*object_expression_a, *object_expression_b, *object_expression_c);
            lemma_expr_trans(*context_expression_a, *context_expression_b, *context_expression_c);
        },
        (Expr::ContextFailSilent { object_expression: object_expression_a, context_expression: context_expression_a, .. }, Expr::ContextFailSilent { object_expression: object_expression_b, context_expression: context_expression_b, .. }, Expr::ContextFailSilent { object_expression: object_expression_c, context_expression: context_expression_c, .. }) => {
            lemma_expr_trans(*object_expression_a, *object_expression_b, *object_expression_c);
            lemma_expr_trans(*context_expression_a, *context_expression_b, *context_expression_c);
        },
        (Expr::VirtualFunction { parameters: parameters_a, .. }, Expr::VirtualFunction { parameters: parameters_b, .. }, Expr::VirtualFunction { parameters: parameters_c, .. }) => {
            lemma_expr_list_trans(parameters_a@, parameters_b@, parameters_c@);
        },
        (Expr::FinalFunction { parameters: parameters_a, .. }, Expr::FinalFunction { parameters: parameters_b, .. }, Expr::FinalFunction { parameters: parameters_c, .. }) => {
            lemma_expr_list_trans(parameters_a@, parameters_b@, parameters_c@);
        },
        (Expr::TextConst { localized_source: localized_source_a, localized_key: localized_key_a, localized_namespace: localized_namespace_a, invariant_literal_string: invariant_literal_string_a, literal_string: literal_string_a, string_table_id: string_table_id_a, string_table_key: string_table_key_a, .. }, Expr::TextConst { localized_source: localized_source_b, localized_key: localized_key_b, localized_namespace: localized_namespace_b, invariant_literal_string: invariant_literal_string_b, literal_string: literal_string_b, string_table_id: string_table_id_b, string_table_key: string_table_key_b, .. }, Expr::TextConst { localized_source: localized_source_c, localized_key: localized_key_c, localized_namespace: localized_namespace_c, invariant_literal_string: invariant_literal_string_c, literal_string: literal_string_c, string_table_id: string_table_id_c, string_table_key: string_table_key_c, .. }) => {
            lemma_expr_opt_trans(localized_source_a, localized_source_b, localized_source_c);
            lemma_expr_opt_trans(localized_key_a, localized_key_b, localized_key_c);
            lemma_expr_opt_trans(localized_namespace_a, localized_namespace_b, localized_namespace_c);
            lemma_expr_opt_trans(invariant_literal_string_a, invariant_literal_string_b, invariant_literal_string_c);
            lemma_expr_opt_trans(literal_string_a, literal_string_b, literal_string_c);
            lemma_expr_opt_trans(string_table_id_a, string_table_id_b, string_table_id_c);
            lemma_expr_opt_trans(string_table_key_a, string_table_key_b, string_table_key_c);
        },
        (Expr::DynamicCast { target_expression: target_expression_a, .. }, Expr::DynamicCast { target_expression: target_expression_b, .. }, Expr::DynamicCast { target_expression: target_expression_c, .. }) => {
            lemma_expr_trans(*target_expression_a, *target_expression_b, *target_expression_c);
        },
        (Expr::StructConst { value: value_a, .. }, Expr::StructConst { value: value_b, .. }, Expr::StructConst { value: value_c, .. }) => {
            lemma_expr_list_trans(value_a@, value_b@, value_c@);
        },
        (Expr::SetArray { assigning_property: assigning_property_a, elements: elements_a, .. }, Expr::SetArray { assigning_property: assigning_property_b, elements: elements_b, .. }, Expr::SetArray { assigning_property: assigning_property_c, elements: elements_c, .. }) => {
            lemma_expr_opt_trans(assigning_property_a, assigning_property_b, assigning_property_c);
            lemma_expr_list_trans(elements_a@, elements_b@, elements_c@);
        },
        (Expr::PrimitiveCast { target: target_a, .. }, Expr::PrimitiveCast { target: target_b, .. }, Expr::PrimitiveCast { target: target_c, .. }) => {
            lemma_expr_trans(*target_a, *target_b, *target_c);
        },
        (Expr::SetSet { set_property: set_property_a, elements: elements_a }, Expr::SetSet { set_property: set_property_b, elements: elements_b }, Expr::SetSet { set_property: set_property_c, elements: elements_c }) => {
            lemma_expr_trans(*set_property_a, *set_property_b, *set_property_c);
            lemma_expr_list_trans(elements_a@, elements_b@, elements_c@);
        },
        (Expr::SetMap { map_property: map_property_a, elements: elements_a }, Expr::SetMap { map_property: map_property_b, elements: elements_b }, Expr::SetMap { map_property: map_property_c, elements: elements_c }) => {
            lemma_expr_trans(*map_property_a, *map_property_b, *map_property_c);
            lemma_expr_list_trans(elements_a@, elements_b@, elements_c@);
        },
        (Expr::SetConst { elements: elements_a, .. }, Expr::SetConst { elements: elements_b, .. }, Expr::SetConst { elements: elements_c, .. }) => {
            lemma_expr_list_trans(elements_a@, elements_b@, elements_c@);
        },
        (Expr::MapConst { elements: elements_a, .. }, Expr::MapConst { elements: elements_b, .. }, Expr::MapConst { elements: elements_c, .. }) => {
            lemma_expr_list_trans(elements_a@, elements_b@, elements_c@);
        },
        (Expr::StructMemberContext { struct_expression: struct_expression_a, .. }, Expr::StructMemberContext { struct_expression: struct_expression_b, .. }, Expr::StructMemberContext { struct_expression: struct_expression_c, .. }) => {
            lemma_expr_trans(*struct_expression_a, *struct_expression_b, *struct_expression_c);
        },
        (Expr::LetMulticastDelegate { variable_expression: variable_expression_a, assignment_expression: assignment_expression_a }, Expr::LetMulticastDelegate { variable_expression: variable_expression_b, assignment_expression: assignment_expression_b }, Expr::LetMulticastDelegate { variable_expression: variable_expression_c, assignment_expression: assignment_expression_c }) => {
            lemma_expr_trans(*variable_expression_a, *variable_expression_b, *variable_expression_c);
            lemma_expr_trans(*assignment_expression_a, *assignment_expression_b, *assignment_expression_c);
        },
        (Expr::LetDelegate { variable_expression: variable_expression_a, assignment_expression: assignment_expression_a }, Expr::LetDelegate { variable_expression: variable_expression_b, assignment_expression: assignment_expression_b }, Expr::LetDelegate { variable_expression: variable_expression_c, assignment_expression: assignment_expression_c }) => {
            lemma_expr_trans(*variable_expression_a, *variable_expression_b, *variable_expression_c);
            lemma_expr_trans(*assignment_expression_a, *assignment_expression_b, *assignment_expression_c);
        },
        (Expr::LocalVirtualFunction { parameters: parameters_a, .. }, Expr::LocalVirtualFunction { parameters: parameters_b, .. }, Expr::LocalVirtualFunction { parameters: parameters_c, .. }) => {
            lemma_expr_list_trans(parameters_a@, parameters_b@, parameters_c@);
        },
        (Expr::LocalFinalFunction { parameters: parameters_a, .. }, Expr::LocalFinalFunction { parameters: parameters_b, .. }, Expr::LocalFinalFunction { parameters: parameters_c, .. }) => {
            lemma_expr_list_trans(parameters_a@, parameters_b@, parameters_c@);
        },
        (Expr::ComputedJump { code_offset_expression: code_offset_expression_a }, Expr::ComputedJump { code_offset_expression: code_offset_expression_b }, Expr::ComputedJump { code_offset_expression: code_offset_expression_c }) => {
            lemma_expr_trans(*code_offset_expression_a, *code_offset_expression_b, *code_offset_expression_c);
        },
        (Expr::PopExecutionFlowIfNot { boolean_expression: boolean_expression_a }, Expr::PopExecutionFlowIfNot { boolean_expression: boolean_expression_b }, Expr::PopExecutionFlowIfNot { boolean_expression: boolean_expression_c }) => {
            lemma_expr_trans(*boolean_expression_a, *boolean_expression_b, *boolean_expression_c);
        },
        (Expr::InterfaceContext { interface_value: interface_value_a }, Expr::InterfaceContext { interface_value: interface_value_b }, Expr::InterfaceContext { interface_value: interface_value_c }) => {
            lemma_expr_trans(*interface_value_a, *interface_value_b, *interface_value_c);
        },
        (Expr::ObjToInterfaceCast { target: target_a, .. }, Expr::ObjToInterfaceCast { target: target_b, .. }, Expr::ObjToInterfaceCast { target: target_c, .. }) => {
            lemma_expr_trans(*target_a, *target_b, *target_c);
        },
        (Expr::CrossInterfaceCast { target: target_a, .. }, Expr::CrossInterfaceCast { target: target_b, .. }, Expr::CrossInterfaceCast { target: target_c, .. }) => {
            lemma_expr_trans(*target_a, *target_b, *target_c);
        },
        (Expr::InterfaceToObjCast { target: target_a, .. }, Expr::InterfaceToObjCast { target: target_b, .. }, Expr::InterfaceToObjCast { target: target_c, .. }) => {
            lemma_expr_trans(*target_a, *target_b, *target_c);
        },
        (Expr::AddMulticastDelegate { delegate: delegate_a, delegate_to_add: delegate_to_add_a }, Expr::AddMulticastDelegate { delegate: delegate_b, delegate_to_add: delegate_to_add_b }, Expr::AddMulticastDelegate { delegate: delegate_c, delegate_to_add: delegate_to_add_c }) => {
            lemma_expr_trans(*delegate_a, *delegate_b, *delegate_c);
            lemma_expr_trans(*delegate_to_add_a, *delegate_to_add_b, *delegate_to_add_c);
        },
        (Expr::ClearMulticastDelegate { delegate_to_clear: delegate_to_clear_a }, Expr::ClearMulticastDelegate { delegate_to_clear: delegate_to_clear_b }, Expr::ClearMulticastDelegate { delegate_to_clear: delegate_to_clear_c }) => {
            lemma_expr_trans(*delegate_to_clear_a, *delegate_to_clear_b, *delegate_to_clear_c);
        },
        (Expr::LetObj { variable_expression: variable_expression_a, assignment_expression: assignment_expression_a }, Expr::LetObj { variable_expression: variable_expression_b, assignment_expression: assignment_expression_b }, Expr::LetObj { variable_expression: variable_expression_c, assignment_expression: assignment_expression_c }) => {
            lemma_expr_trans(*variable_expression_a, *variable_expression_b, *variable_expression_c);
            lemma_expr_trans(*assignment_expression_a, *assignment_expression_b, *assignment_expression_c);
        },
        (Expr::LetWeakObjPtr { variable_expression: variable_expression_a, assignment_expression: assignment_expression_a }, Expr::LetWeakObjPtr { variable_expression: variable_expression_b, assignment_expression: assignment_expression_b }, Expr::LetWeakObjPtr { variable_expression: variable_expression_c, assignment_expression: assignment_expression_c }) => {
            lemma_expr_trans(*variable_expression_a, *variable_expression_b, *variable_expression_c);
            lemma_expr_trans(*assignment_expression_a, *assignment_expression_b, *assignment_expression_c);
        },
        (Expr::BindDelegate { delegate: delegate_a, object_term: object_term_a, .. }, Expr::BindDelegate { delegate: delegate_b, object_term: object_term_b, .. }, Expr::BindDelegate { delegate: delegate_c, object_term: object_term_c, .. }) => {
            lemma_expr_trans(*delegate_a, *delegate_b, *delegate_c);
            lemma_expr_trans(*object_term_a, *object_term_b, *object_term_c);
        },
        (Expr::RemoveMulticastDelegate { delegate: delegate_a, delegate_to_add: delegate_to_add_a }, Expr::RemoveMulticastDelegate { delegate: delegate_b, delegate_to_add: delegate_to_add_b }, Expr::RemoveMulticastDelegate { delegate: delegate_c, delegate_to_add: delegate_to_add_c }) => {
            lemma_expr_trans(*delegate_a, *delegate_b, *delegate_c);
            lemma_expr_trans(*delegate_to_add_a, *delegate_to_add_b, *delegate_to_add_c);
        },
        (Expr::CallMulticastDelegate { parameters: parameters_a, delegate: delegate_a, .. }, Expr::CallMulticastDelegate { parameters: parameters_b, delegate: delegate_b, .. }, Expr::CallMulticastDelegate { parameters: parameters_c, delegate: delegate_c, .. }) => {
            lemma_expr_list_trans(parameters_a@, parameters_b@, parameters_c@);
            lemma_expr_trans(*delegate_a, *delegate_b, *delegate_c);
        },
        (Expr::LetValueOnPersistentFrame { assignment_expression: assignment_expression_a, .. }, Expr::LetValueOnPersistentFrame { assignment_expression: assignment_expression_b, .. }, Expr::LetValueOnPersistentFrame { assignment_expression: assignment_expression_c, .. }) => {
            lemma_expr_trans(*assignment_expression_a, *assignment_expression_b, *assignment_expression_c);
        },
        (Expr::ArrayConst { elements: elements_a, .. }, Expr::ArrayConst { elements: elements_b, .. }, Expr::ArrayConst { elements: elements_c, .. }) => {
            lemma_expr_list_trans(elements_a@, elements_b@, elements_c@);
        },
        (Expr::SoftObjectConst { value: value_a }, Expr::SoftObjectConst { value: value_b }, Expr::SoftObjectConst { value: value_c }) => {
            lemma_expr_trans(*value_a, *value_b, *value_c);
        },
        (Expr::CallMath { parameters: parameters_a, .. }, Expr::CallMath { parameters: parameters_b, .. }, Expr::CallMath { parameters: parameters_c, .. }) => {
            lemma_expr_list_trans(parameters_a@, parameters_b@, parameters_c@);
        },
        (Expr::SwitchValue { index_term: index_term_a, default_term: default_term_a, cases: cases_a, .. }, Expr::SwitchValue { index_term: index_term_b, default_term: default_term_b, cases: cases_b, .. }, Expr::SwitchValue { index_term: index_term_c, default_term: default_term_c, cases: cases_c, .. }) => {
            lemma_expr_trans(*index_term_a, *index_term_b, *index_term_c);
            lemma_expr_trans(*default_term_a, *default_term_b, *default_term_c);
            lemma_switch_case_list_trans(cases_a@, cases_b@, cases_c@);
        },
        (Expr::ArrayGetByRef { array_variable: array_variable_a, array_index: array_index_a }, Expr::ArrayGetByRef { array_variable: array_variable_b, array_index: array_index_b }, Expr::ArrayGetByRef { array_variable: array_variable_c, array_index: array_index_c }) => {
            lemma_expr_trans(*array_variable_a, *array_variable_b, *array_variable_c);
            lemma_expr_trans(*array_index_a, *array_index_b, *array_index_c);
        },
        (Expr::FieldPathConst { value: value_a }, Expr::FieldPathConst { value: value_b }, Expr::FieldPathConst { value: value_c }) => {
            lemma_expr_trans(*value_a, *value_b, *value_c);
        },
        _ => {},
    }
}

/// Shows `func` every reference that an expression holds as hooking needs them: pointers, classes, stack nodes and nested expressions, in order.
#[verifier::rlimit(60)]
#[verifier::spinoff_prover]
pub fn on_kismet<V: IndexVisitor>(x: &mut Expr, func: &mut V)
    ensures
        same_expr_shape(*old(x), *final(x)),
        expr_refs(*final(x)) == walk_out::<V>(old(func).visit_state(), expr_refs(*old(x))),
        final(func).visit_state() == walk_state::<V>(old(func).visit_state(), expr_refs(*old(x))),
        kismet_walked::<V>(old(func).visit_state(), *old(x), *final(x)),
    decreases *old(x),
{
    proof {
        lemma_expr_refl(*x);
    }
    match x {
        Expr::LocalVariable { variable } => {
            on_pointer(variable, func);
        },
        Expr::InstanceVariable { variable } => {
            on_pointer(variable, func);
        },
        Expr::DefaultVariable { variable } => {
            on_pointer(variable, func);
        },
        Expr::Return { return_expression } => {
            on_kismet(&mut **return_expression, func);
        },
        Expr::JumpIfNot { boolean_expression, .. } => {
            on_kismet(&mut **boolean_expression, func);
        },
        Expr::Assert { assert_expression, .. } => {
            on_kismet(&mut **assert_expression, func);
        },
        Expr::Let { value, variable, expression } => {
            on_pointer(value, func);
            on_kismet(&mut **variable, func);
            on_kismet(&mut **expression, func);
        },
        Expr::ClassContext { object_expression, r_value_pointer, context_expression, .. } => {
            on_kismet(&mut **object_expression, func);
            on_pointer(r_value_pointer, func);
            on_kismet(&mut **context_expression, func);
        },
        Expr::MetaCast { class_ptr, target_expression } => {
            on_index(class_ptr, func);
            on_kismet(&mut **target_expression, func);
        },
        Expr::LetBool { variable_expression, assignment_expression } => {
            on_kismet(&mut **variable_expression, func);
            on_kismet(&mut **assignment_expression, func);
        },
        Expr::Skip { skip_expression, .. } => {
            on_kismet(&mut **skip_expression, func);
        },
        Expr::Context { object_expression, r_value_pointer, context_expression, .. } => {
            on_kismet(&mut **object_expression, func);
            on_pointer(r_value_pointer, func);
            on_kismet(&mut **context_expression, func);
        },
        Expr::ContextFailSilent { object_expression, r_value_pointer, context_expression, .. } => {
            on_kismet(&mut **object_expression, func);
            on_pointer(r_value_pointer, func);
            on_kismet(&mut **context_expression, func);
        },
        Expr::VirtualFunction { parameters, .. } => {
            on_kismet_list(parameters, func);
        },
        Expr::FinalFunction { stack_node, parameters } => {
            on_index(stack_node, func);
            on_kismet_list(parameters, func);
        },
        Expr::ObjectConst { value } => {
            on_index(value, func);
        },
        Expr::DynamicCast { class_ptr, target_expression } => {
            on_index(class_ptr, func);
            on_kismet(&mut **target_expression, func);
        },
        Expr::StructConst { struct_value, value, .. } => {
            on_index(struct_value, func);
            on_kismet_list(value, func);
        },
        Expr::SetArray { assigning_property, array_inner_prop, elements } => {
            on_kismet_opt(assigning_property, func);
            on_opt_index(array_inner_prop, func);
            on_kismet_list(elements, func);
        },
        Expr::PropertyConst { property } => {
            on_pointer(property, func);
        },
        Expr::PrimitiveCast { target, .. } => {
            on_kismet(&mut **target, func);
        },
        Expr::SetSet { set_property, elements } => {
            on_kismet(&mut **set_property, func);
            on_kismet_list(elements, func);
        },
        Expr::SetMap { map_property, elements } => {
            on_kismet(&mut **map_property, func);
            on_kismet_list(elements, func);
        },
        Expr::SetConst { inner_property, elements } => {
            on_pointer(inner_property, func);
            on_kismet_list(elements, func);
        },
        Expr::MapConst { key_property, value_property, .. } => {
            on_pointer(key_property, func);
            on_pointer(value_property, func);
        },
        Expr::StructMemberContext { struct_member_expression, struct_expression } => {
            on_pointer(struct_member_expression, func);
            on_kismet(&mut **struct_expression, func);
        },
        Expr::LetMulticastDelegate { variable_expression, assignment_expression } => {
            on_kismet(&mut **variable_expression, func);
            on_kismet(&mut **assignment_expression, func);
        },
        Expr::LetDelegate { variable_expression, assignment_expression } => {
            on_kismet(&mut **variable_expression, func);
            on_kismet(&mut **assignment_expression, func);
        },
        Expr::LocalVirtualFunction { parameters, .. } => {
            on_kismet_list(parameters, func);
        },
        Expr::LocalFinalFunction { stack_node, parameters } => {
            on_index(stack_node, func);
            on_kismet_list(parameters, func);
        },
        Expr::LocalOutVariable { variable } => {
            on_pointer(variable, func);
        },
        Expr::ComputedJump { code_offset_expression } => {
            on_kismet(&mut **code_offset_expression, func);
        },
        Expr::PopExecutionFlowIfNot { boolean_expression } => {
            on_kismet(&mut **boolean_expression, func);
        },
        Expr::InterfaceContext { interface_value } => {
            on_kismet(&mut **interface_value, func);
        },
        Expr::ObjToInterfaceCast { class_ptr, target } => {
            on_index(class_ptr, func);
            on_kismet(&mut **target, func);
        },
        Expr::CrossInterfaceCast { class_ptr, target } => {
            on_index(class_ptr, func);
            on_kismet(&mut **target, func);
        },
        Expr::InterfaceToObjCast { class_ptr, target } => {
            on_index(class_ptr, func);
            on_kismet(&mut **target, func);
        },
        Expr::AddMulticastDelegate { delegate, delegate_to_add } => {
            on_kismet(&mut **delegate, func);
            on_kismet(&mut **delegate_to_add, func);
        },
        Expr::ClearMulticastDelegate { delegate_to_clear } => {
            on_kismet(&mut **delegate_to_clear, func);
        },
        Expr::LetObj { variable_expression, assignment_expression } => {
            on_kismet(&mut **variable_expression, func);
            on_kismet(&mut **assignment_expression, func);
        },
        Expr::LetWeakObjPtr { variable_expression, assignment_expression } => {
            on_kismet(&mut **variable_expression, func);
            on_kismet(&mut **assignment_expression, func);
        },
        Expr::BindDelegate { delegate, object_term, .. } => {
            on_kismet(&mut **delegate, func);
            on_kismet(&mut **object_term, func);
        },
        Expr::RemoveMulticastDelegate { delegate, delegate_to_add } => {
            on_kismet(&mut **delegate, func);
            on_kismet(&mut **delegate_to_add, func);
        },
        Expr::CallMulticastDelegate { stack_node, parameters, delegate } => {
            on_index(stack_node, func);
            on_kismet_list(parameters, func);
            on_kismet(&mut **delegate, func);
        },
        Expr::LetValueOnPersistentFrame { destination_property, assignment_expression } => {
            on_pointer(destination_property, func);
            on_kismet(&mut **assignment_expression, func);
        },
        Expr::ArrayConst { inner_property, elements } => {
            on_pointer(inner_property, func);
            on_kismet_list(elements, func);
        },
        Expr::SoftObjectConst { value } => {
            on_kismet(&mut **value, func);
        },
        Expr::CallMath { stack_node, parameters } => {
            on_index(stack_node, func);
            on_kismet_list(parameters, func);
        },
        Expr::SwitchValue { index_term, default_term, cases, .. } => {
            on_kismet(&mut **index_term, func);
            on_kismet(&mut **default_term, func);
            on_switch_case_list(cases, func);
        },
        Expr::ArrayGetByRef { array_variable, array_index } => {
            on_kismet(&mut **array_variable, func);
            on_kismet(&mut **array_index, func);
        },
        Expr::ClassSparseDataVariable { variable } => {
            on_pointer(variable, func);
        },
        Expr::FieldPathConst { value } => {
            on_kismet(&mut **value, func);
        },
        _ => {
            proof {
                lemma_walk_empty::<V>(func.visit_state());
            }
        },
    }
}

/// A copy of `x`.
pub fn duplicate_expr(x: &Expr) -> (y: Expr)
    ensures
        same_expr_shape(*x, y),
        expr_refs(y) == expr_refs(*x),
    decreases *x,
{
    match x {
        Expr::LocalVariable { variable } => Expr::LocalVariable {
            variable: duplicate_pointer(variable),
        },
        Expr::InstanceVariable { variable } => Expr::InstanceVariable {
            variable: duplicate_pointer(variable),
        },
        Expr::DefaultVariable { variable } => Expr::DefaultVariable {
            variable: duplicate_pointer(variable),
        },
        Expr::Return { return_expression } => Expr::Return {
            return_expression: Box::new(duplicate_expr(&**return_expression)),
        },
        Expr::Jump { code_offset } => Expr::Jump {
            code_offset: *code_offset,
        },
        Expr::JumpIfNot { code_offset, boolean_expression } => Expr::JumpIfNot {
            code_offset: *code_offset,
            boolean_expression: Box::new(duplicate_expr(&**boolean_expression)),
        },
        Expr::Assert { line_number, debug_mode, assert_expression } => Expr::Assert {
            line_number: *line_number,
            debug_mode: *debug_mode,
            assert_expression: Box::new(duplicate_expr(&**assert_expression)),
        },
        Expr::Nothing => Expr::Nothing,
        Expr::Let { value, variable, expression } => Expr::Let {
            value: duplicate_pointer(value),
            variable: Box::new(duplicate_expr(&**variable)),
            expression: Box::new(duplicate_expr(&**expression)),
        },
        Expr::ClassContext { object_expression, offset, r_value_pointer, context_expression } => Expr::ClassContext {
            object_expression: Box::new(duplicate_expr(&**object_expression)),
            offset: *offset,
            r_value_pointer: duplicate_pointer(r_value_pointer),
            context_expression: Box::new(duplicate_expr(&**context_expression)),
        },
        Expr::MetaCast { class_ptr, target_expression } => Expr::MetaCast {
            class_ptr: *class_ptr,
            target_expression: Box::new(duplicate_expr(&**target_expression)),
        },
        Expr::LetBool { variable_expression, assignment_expression } => Expr::LetBool {
            variable_expression: Box::new(duplicate_expr(&**variable_expression)),
            assignment_expression: Box::new(duplicate_expr(&**assignment_expression)),
        },
        Expr::EndParmValue => Expr::EndParmValue,
        Expr::EndFunctionParms => Expr::EndFunctionParms,
        Expr::SelfObject => Expr::SelfObject,
        Expr::Skip { code_offset, skip_expression } => Expr::Skip {
            code_offset: *code_offset,
            skip_expression: Box::new(duplicate_expr(&**skip_expression)),
        },
        Expr::Context { object_expression, offset, r_value_pointer, context_expression } => Expr::Context {
            object_expression: Box::new(duplicate_expr(&**object_expression)),
            offset: *offset,
            r_value_pointer: duplicate_pointer(r_value_pointer),
            context_expression: Box::new(duplicate_expr(&**context_expression)),
        },
        Expr::ContextFailSilent { object_expression, offset, r_value_pointer, context_expression } => Expr::ContextFailSilent {
            object_expression: Box::new(duplicate_expr(&**object_expression)),
            offset: *offset,
            r_value_pointer: duplicate_pointer(r_value_pointer),
            context_expression: Box::new(duplicate_expr(&**context_expression)),
        },
        Expr::VirtualFunction { virtual_function_name, parameters } => Expr::VirtualFunction {
            virtual_function_name: virtual_function_name.clone(),
            parameters: duplicate_expr_list(parameters),
        },
        Expr::FinalFunction { stack_node, parameters } => Expr::FinalFunction {
            stack_node: *stack_node,
            parameters: duplicate_expr_list(parameters),
        },
        Expr::IntConst { value } => Expr::IntConst {
            value: *value,
        },
        Expr::FloatConst { bits } => Expr::FloatConst {
            bits: *bits,
        },
        Expr::StringConst { value } => Expr::StringConst {
            value: value.clone(),
        },
        Expr::ObjectConst { value } => Expr::ObjectConst {
            value: *value,
        },
        Expr::NameConst { value } => Expr::NameConst {
            value: value.clone(),
        },
        Expr::RotationConst => Expr::RotationConst,
        Expr::VectorConst => Expr::VectorConst,
        Expr::ByteConst { value } => Expr::ByteConst {
            value: *value,
        },
        Expr::IntZero => Expr::IntZero,
        Expr::IntOne => Expr::IntOne,
        Expr::True => Expr::True,
        Expr::False => Expr::False,
        Expr::TextConst { text_literal_type, localized_source, localized_key, localized_namespace, invariant_literal_string, literal_string, string_table_asset, string_table_id, string_table_key } => Expr::TextConst {
            text_literal_type: *text_literal_type,
            localized_source: duplicate_expr_opt(localized_source),
            localized_key: duplicate_expr_opt(localized_key),
            localized_namespace: duplicate_expr_opt(localized_namespace),
            invariant_literal_string: duplicate_expr_opt(invariant_literal_string),
            literal_string: duplicate_expr_opt(literal_string),
            string_table_asset: *string_table_asset,
            string_table_id: duplicate_expr_opt(string_table_id),
            string_table_key: duplicate_expr_opt(string_table_key),
        },
        Expr::NoObject => Expr::NoObject,
        Expr::TransformConst => Expr::TransformConst,
        Expr::IntConstByte { value } => Expr::IntConstByte {
            value: *value,
        },
        Expr::NoInterface => Expr::NoInterface,
        Expr::DynamicCast { class_ptr, target_expression } => Expr::DynamicCast {
            class_ptr: *class_ptr,
            target_expression: Box::new(duplicate_expr(&**target_expression)),
        },
        Expr::StructConst { struct_value, struct_size, value } => Expr::StructConst {
            struct_value: *struct_value,
            struct_size: *struct_size,
            value: duplicate_expr_list(value),
        },
        Expr::EndStructConst => Expr::EndStructConst,
        Expr::SetArray { assigning_property, array_inner_prop, elements } => Expr::SetArray {
            assigning_property: duplicate_expr_opt(assigning_property),
            array_inner_prop: *array_inner_prop,
            elements: duplicate_expr_list(elements),
        },
        Expr::EndArray => Expr::EndArray,
        Expr::PropertyConst { property } => Expr::PropertyConst {
            property: duplicate_pointer(property),
        },
        Expr::UnicodeStringConst { value } => Expr::UnicodeStringConst {
            value: value.clone(),
        },
        Expr::Int64Const { value } => Expr::Int64Const {
            value: *value,
        },
        Expr::UInt64Const { value } => Expr::UInt64Const {
            value: *value,
        },
        Expr::PrimitiveCast { conversion_type, target } => Expr::PrimitiveCast {
            conversion_type: *conversion_type,
            target: Box::new(duplicate_expr(&**target)),
        },
        Expr::SetSet { set_property, elements } => Expr::SetSet {
            set_property: Box::new(duplicate_expr(&**set_property)),
            elements: duplicate_expr_list(elements),
        },
        Expr::EndSet => Expr::EndSet,
        Expr::SetMap { map_property, elements } => Expr::SetMap {
            map_property: Box::new(duplicate_expr(&**map_property)),
            elements: duplicate_expr_list(elements),
        },
        Expr::EndMap => Expr::EndMap,
        Expr::SetConst { inner_property, elements } => Expr::SetConst {
            inner_property: duplicate_pointer(inner_property),
            elements: duplicate_expr_list(elements),
        },
        Expr::EndSetConst => Expr::EndSetConst,
        Expr::MapConst { key_property, value_property, elements } => Expr::MapConst {
            key_property: duplicate_pointer(key_property),
            value_property: duplicate_pointer(value_property),
            elements: duplicate_expr_list(elements),
        },
        Expr::EndMapConst => Expr::EndMapConst,
        Expr::StructMemberContext { struct_member_expression, struct_expression } => Expr::StructMemberContext {
            struct_member_expression: duplicate_pointer(struct_member_expression),
            struct_expression: Box::new(duplicate_expr(&**struct_expression)),
        },
        Expr::LetMulticastDelegate { variable_expression, assignment_expression } => Expr::LetMulticastDelegate {
            variable_expression: Box::new(duplicate_expr(&**variable_expression)),
            assignment_expression: Box::new(duplicate_expr(&**assignment_expression)),
        },
        Expr::LetDelegate { variable_expression, assignment_expression } => Expr::LetDelegate {
            variable_expression: Box::new(duplicate_expr(&**variable_expression)),
            assignment_expression: Box::new(duplicate_expr(&**assignment_expression)),
        },
        Expr::LocalVirtualFunction { virtual_function_name, parameters } => Expr::LocalVirtualFunction {
            virtual_function_name: virtual_function_name.clone(),
            parameters: duplicate_expr_list(parameters),
        },
        Expr::LocalFinalFunction { stack_node, parameters } => Expr::LocalFinalFunction {
            stack_node: *stack_node,
            parameters: duplicate_expr_list(parameters),
        },
        Expr::LocalOutVariable { variable } => Expr::LocalOutVariable {
            variable: duplicate_pointer(variable),
        },
        Expr::DeprecatedOp4A => Expr::DeprecatedOp4A,
        Expr::InstanceDelegate { function_name } => Expr::InstanceDelegate {
            function_name: function_name.clone(),
        },
        Expr::PushExecutionFlow { pushing_address } => Expr::PushExecutionFlow {
            pushing_address: *pushing_address,
        },
        Expr::PopExecutionFlow => Expr::PopExecutionFlow,
        Expr::ComputedJump { code_offset_expression } => Expr::ComputedJump {
            code_offset_expression: Box::new(duplicate_expr(&**code_offset_expression)),
        },
        Expr::PopExecutionFlowIfNot { boolean_expression } => Expr::PopExecutionFlowIfNot {
            boolean_expression: Box::new(duplicate_expr(&**boolean_expression)),
        },
        Expr::Breakpoint => Expr::Breakpoint,
        Expr::InterfaceContext { interface_value } => Expr::InterfaceContext {
            interface_value: Box::new(duplicate_expr(&**interface_value)),
        },
        Expr::ObjToInterfaceCast { class_ptr, target } => Expr::ObjToInterfaceCast {
            class_ptr: *class_ptr,
            target: Box::new(duplicate_expr(&**target)),
        },
        Expr::EndOfScript => Expr::EndOfScript,
        Expr::CrossInterfaceCast { class_ptr, target } => Expr::CrossInterfaceCast {
            class_ptr: *class_ptr,
            target: Box::new(duplicate_expr(&**target)),
        },
        Expr::InterfaceToObjCast { class_ptr, target } => Expr::InterfaceToObjCast {
            class_ptr: *class_ptr,
            target: Box::new(duplicate_expr(&**target)),
        },
        Expr::WireTracepoint => Expr::WireTracepoint,
        Expr::SkipOffsetConst { value } => Expr::SkipOffsetConst {
            value: *value,
        },
        Expr::AddMulticastDelegate { delegate, delegate_to_add } => Expr::AddMulticastDelegate {
            delegate: Box::new(duplicate_expr(&**delegate)),
            delegate_to_add: Box::new(duplicate_expr(&**delegate_to_add)),
        },
        Expr::ClearMulticastDelegate { delegate_to_clear } => Expr::ClearMulticastDelegate {
            delegate_to_clear: Box::new(duplicate_expr(&**delegate_to_clear)),
        },
        Expr::Tracepoint => Expr::Tracepoint,
        Expr::LetObj { variable_expression, assignment_expression } => Expr::LetObj {
            variable_expression: Box::new(duplicate_expr(&**variable_expression)),
            assignment_expression: Box::new(duplicate_expr(&**assignment_expression)),
        },
        Expr::LetWeakObjPtr { variable_expression, assignment_expression } => Expr::LetWeakObjPtr {
            variable_expression: Box::new(duplicate_expr(&**variable_expression)),
            assignment_expression: Box::new(duplicate_expr(&**assignment_expression)),
        },
        Expr::BindDelegate { function_name, delegate, object_term } => Expr::BindDelegate {
            function_name: function_name.clone(),
            delegate: Box::new(duplicate_expr(&**delegate)),
            object_term: Box::new(duplicate_expr(&**object_term)),
        },
        Expr::RemoveMulticastDelegate { delegate, delegate_to_add } => Expr::RemoveMulticastDelegate {
            delegate: Box::new(duplicate_expr(&**delegate)),
            delegate_to_add: Box::new(duplicate_expr(&**delegate_to_add)),
        },
        Expr::CallMulticastDelegate { stack_node, parameters, delegate } => Expr::CallMulticastDelegate {
            stack_node: *stack_node,
            parameters: duplicate_expr_list(parameters),
            delegate: Box::new(duplicate_expr(&**delegate)),
        },
        Expr::LetValueOnPersistentFrame { destination_property, assignment_expression } => Expr::LetValueOnPersistentFrame {
            destination_property: duplicate_pointer(destination_property),
            assignment_expression: Box::new(duplicate_expr(&**assignment_expression)),
        },
        Expr::ArrayConst { inner_property, elements } => Expr::ArrayConst {
            inner_property: duplicate_pointer(inner_property),
            elements: duplicate_expr_list(elements),
        },
        Expr::EndArrayConst => Expr::EndArrayConst,
        Expr::SoftObjectConst { value } => Expr::SoftObjectConst {
            value: Box::new(duplicate_expr(&**value)),
        },
        Expr::CallMath { stack_node, parameters } => Expr::CallMath {
            stack_node: *stack_node,
            parameters: duplicate_expr_list(parameters),
        },
        Expr::SwitchValue { end_goto_offset, index_term, default_term, cases } => Expr::SwitchValue {
            end_goto_offset: *end_goto_offset,
            index_term: Box::new(duplicate_expr(&**index_term)),
            default_term: Box::new(duplicate_expr(&**default_term)),
            cases: duplicate_switch_case_list(cases),
        },
        Expr::InstrumentationEvent { event_type, event_name } => Expr::InstrumentationEvent {
            event_type: *event_type,
            event_name: copy_opt_string(event_name),
        },
        Expr::ArrayGetByRef { array_variable, array_index } => Expr::ArrayGetByRef {
            array_variable: Box::new(duplicate_expr(&**array_variable)),
            array_index: Box::new(duplicate_expr(&**array_index)),
        },
        Expr::ClassSparseDataVariable { variable } => Expr::ClassSparseDataVariable {
            variable: duplicate_pointer(variable),
        },
        Expr::FieldPathConst { value } => Expr::FieldPathConst {
            value: Box::new(duplicate_expr(&**value)),
        },
    }
}

/// The references of a list of `Expr`, in order.
pub open spec fn expr_list_refs(s: Seq<Expr>) -> Seq<i32>
    decreases s,
{
    if s.len() == 0 {
        Seq::empty()
    } else {
        expr_list_refs(s.drop_last()) + expr_refs(s.last())
    }
}

/// Two lists of `Expr` differ at most in their references.
pub open spec fn same_expr_list_shape(a: Seq<Expr>, b: Seq<Expr>) -> bool
    decreases a,
{
    &&& a.len() == b.len()
    &&& a.len() > 0 ==> same_expr_list_shape(a.drop_last(), b.drop_last()) && same_expr_shape(
        a.last(),
        b.last(),
    )
}

/// Every list of `Expr` has its own shape.
pub proof fn lemma_expr_list_refl(s: Seq<Expr>)
    ensures
        same_expr_list_shape(s, s),
    decreases s,
{
    if s.len() > 0 {
        lemma_expr_list_refl(s.drop_last());
        lemma_expr_refl(s.last());
    }
}

/// List shapes that agree in turn agree.
pub proof fn lemma_expr_list_trans(a: Seq<Expr>, b: Seq<Expr>, c: Seq<Expr>)
    requires
        same_expr_list_shape(a, b),
        same_expr_list_shape(b, c),
    ensures
        same_expr_list_shape(a, c),
    decreases a,
{
    if a.len() > 0 {
        lemma_expr_list_trans(a.drop_last(), b.drop_last(), c.drop_last());
        lemma_expr_trans(a.last(), b.last(), c.last());
    }
}

/// Shows `func` the references of each element of `list`, in order.
pub fn on_kismet_list<V: IndexVisitor>(list: &mut Vec<Expr>, func: &mut V)
    ensures
        same_expr_list_shape(old(list)@, final(list)@),
        expr_list_refs(final(list)@) == walk_out::<V>(old(func).visit_state(), expr_list_refs(old(list)@)),
        final(func).visit_state() == walk_state::<V>(old(func).visit_state(), expr_list_refs(old(list)@)),
    decreases *old(list),
{
    let ghost old_list = *list;
    let ghost orig = list@;
    let ghost v0 = func.visit_state();
    let mut i: usize = 0;
    proof {
        lemma_walk_empty::<V>(v0);
        assert(orig.take(0) =~= Seq::<Expr>::empty());
    }
    while i < list.len()
        invariant
            i <= list@.len(),
            list@.len() == orig.len(),
            forall|j: int| i <= j < orig.len() ==> list@[j] == orig[j],
            same_expr_list_shape(orig.take(i as int), list@.take(i as int)),
            expr_list_refs(list@.take(i as int)) == walk_out::<V>(v0, expr_list_refs(orig.take(i as int))),
            func.visit_state() == walk_state::<V>(v0, expr_list_refs(orig.take(i as int))),
            old_list == *old(list),
            orig == old_list@,
        decreases orig.len() - i,
    {
        proof {
            assert(decreases_to!(old_list => old_list@));
            assert(decreases_to!(old_list@ => old_list@[i as int]));
        }
        let ghost prev = list@;
        on_kismet(&mut list[i], func);
        proof {
            assert(list@.take(i as int) =~= prev.take(i as int));
            assert(orig.take(i + 1).drop_last() =~= orig.take(i as int));
            assert(list@.take(i + 1).drop_last() =~= list@.take(i as int));
            assert(orig.take(i + 1).last() == orig[i as int]);
            assert(list@.take(i + 1).last() == list@[i as int]);
            assert(expr_list_refs(orig.take(i + 1)) == expr_list_refs(orig.take(i as int))
                + expr_refs(orig[i as int]));
            assert(expr_list_refs(list@.take(i + 1)) == expr_list_refs(list@.take(i as int))
                + expr_refs(list@[i as int]));
        }
        i = i + 1;
    }
    assert(orig.take(orig.len() as int) =~= orig);
    assert(list@.take(orig.len() as int) =~= list@);
}

/// A copy of a list of `Expr`.
pub fn duplicate_expr_list(list: &Vec<Expr>) -> (copy: Vec<Expr>)
    ensures
        same_expr_list_shape(list@, copy@),
        expr_list_refs(copy@) == expr_list_refs(list@),
    decreases *list,
{
    let mut copy: Vec<Expr> = Vec::new();
    let mut i: usize = 0;
    proof {
        assert(list@.take(0) =~= Seq::<Expr>::empty());
    }
    while i < list.len()
        invariant
            i <= list@.len(),
            copy@.len() == i,
            same_expr_list_shape(list@.take(i as int), copy@),
            expr_list_refs(copy@) == expr_list_refs(list@.take(i as int)),
        decreases list@.len() - i,
    {
        proof {
            assert(decreases_to!(*list => list@));
            assert(decreases_to!(list@ => list@[i as int]));
        }
        let ghost prev = copy@;
        let item = duplicate_expr(&list[i]);
        copy.push(item);
        proof {
            assert(copy@.drop_last() =~= prev);
            assert(list@.take(i + 1).drop_last() =~= list@.take(i as int));
            assert(list@.take(i + 1).last() == list@[i as int]);
        }
        i = i + 1;
    }
    assert(list@.take(list@.len() as int) =~= list@);
    copy
}

/// The references of an optional `Expr`.
pub open spec fn expr_opt_refs(o: Option<Box<Expr>>) -> Seq<i32>
    decreases o,
{
    match o {
        Some(x) => expr_refs(*x),
        None => Seq::empty(),
    }
}

/// Two optional `Expr` differ at most in their references.
pub open spec fn same_expr_opt_shape(a: Option<Box<Expr>>, b: Option<Box<Expr>>) -> bool
    decreases a,
{
    match (a, b) {
        (Some(x), Some(y)) => same_expr_shape(*x, *y),
        (None, None) => true,
        _ => false,
    }
}

/// Every optional `Expr` has its own shape.
pub proof fn lemma_expr_opt_refl(o: Option<Box<Expr>>)
    ensures
        same_expr_opt_shape(o, o),
    decreases o,
{
    if let Some(x) = o {
        lemma_expr_refl(*x);
    }
}

/// Optional shapes that agree in turn agree.
pub proof fn lemma_expr_opt_trans(a: Option<Box<Expr>>, b: Option<Box<Expr>>, c: Option<Box<Expr>>)
    requires
        same_expr_opt_shape(a, b),
        same_expr_opt_shape(b, c),
    ensures
        same_expr_opt_shape(a, c),
    decreases a,
{
    match (a, b, c) {
        (Some(x), Some(y), Some(z)) => lemma_expr_trans(*x, *y, *z),
        _ => {},
    }
}

/// Shows `func` the references of an optional `Expr`.
pub fn on_kismet_opt<V: IndexVisitor>(o: &mut Option<Box<Expr>>, func: &mut V)
    ensures
        same_expr_opt_shape(*old(o), *final(o)),
        expr_opt_refs(*final(o)) == walk_out::<V>(old(func).visit_state(), expr_opt_refs(*old(o))),
        final(func).visit_state() == walk_state::<V>(old(func).visit_state(), expr_opt_refs(*old(o))),
    decreases *old(o),
{
    proof {
        lemma_walk_empty::<V>(func.visit_state());
    }
    if let Some(inner) = o.as_mut() {
        on_kismet(&mut **inner, func);
    }
}

/// A copy of an optional `Expr`.
pub fn duplicate_expr_opt(o: &Option<Box<Expr>>) -> (copy: Option<Box<Expr>>)
    ensures
        same_expr_opt_shape(*o, copy),
        expr_opt_refs(copy) == expr_opt_refs(*o),
    decreases *o,
{
    match o {
        Some(inner) => Some(Box::new(duplicate_expr(&**inner))),
        None => None,
    }
}

/// The references of an optional list of `Expr`.
pub open spec fn expr_opt_list_refs(o: Option<Vec<Expr>>) -> Seq<i32> {
    match o {
        Some(v) => expr_list_refs(v@),
        None => Seq::empty(),
    }
}

/// Two optional lists of `Expr` differ at most in their references.
pub open spec fn same_expr_opt_list_shape(a: Option<Vec<Expr>>, b: Option<Vec<Expr>>) -> bool {
    match (a, b) {
        (Some(x), Some(y)) => same_expr_list_shape(x@, y@),
        (None, None) => true,
        _ => false,
    }
}

/// Every optional list of `Expr` has its own shape.
pub proof fn lemma_expr_opt_list_refl(o: Option<Vec<Expr>>)
    ensures
        same_expr_opt_list_shape(o, o),
{
    if let Some(v) = o {
        lemma_expr_list_refl(v@);
    }
}

/// Optional list shapes that agree in turn agree.
pub proof fn lemma_expr_opt_list_trans(a: Option<Vec<Expr>>, b: Option<Vec<Expr>>, c: Option<Vec<Expr>>)
    requires
        same_expr_opt_list_shape(a, b),
        same_expr_opt_list_shape(b, c),
    ensures
        same_expr_opt_list_shape(a, c),
{
    match (a, b, c) {
        (Some(x), Some(y), Some(z)) => lemma_expr_list_trans(x@, y@, z@),
        _ => {},
    }
}

/// Shows `func` the references of an optional list of `Expr`.
pub fn on_kismet_opt_list<V: IndexVisitor>(o: &mut Option<Vec<Expr>>, func: &mut V)
    ensures
        same_expr_opt_list_shape(*old(o), *final(o)),
        expr_opt_list_refs(*final(o)) == walk_out::<V>(old(func).visit_state(), expr_opt_list_refs(*old(o))),
        final(func).visit_state() == walk_state::<V>(old(func).visit_state(), expr_opt_list_refs(*old(o))),
{
    proof {
        lemma_walk_empty::<V>(func.visit_state());
    }
    if let Some(list) = o.as_mut() {
        on_kismet_list(list, func);
    }
}

/// A copy of an optional list of `Expr`.
pub fn duplicate_expr_opt_list(o: &Option<Vec<Expr>>) -> (copy: Option<Vec<Expr>>)
    ensures
        same_expr_opt_list_shape(*o, copy),
        expr_opt_list_refs(copy) == expr_opt_list_refs(*o),
{
    match o {
        Some(list) => Some(duplicate_expr_list(list)),
        None => None,
    }
}

/// The number of bytes that an expression takes in serialised bytecode, for
/// the expressions whose size is known (`expr_sized`).
pub open spec fn expr_size(object_version: i32, e: Expr) -> nat
    decreases e,
{
    1 + match e {
        Expr::LocalVariable { .. } => 8,
        Expr::InstanceVariable { .. } => 8,
        Expr::DefaultVariable { .. } => 8,
        Expr::Return { return_expression } => expr_size(object_version, *return_expression),
        Expr::Jump { .. } => 4,
        Expr::JumpIfNot { boolean_expression, .. } => 4 + expr_size(object_version, *boolean_expression),
        Expr::Nothing => 0,
        Expr::Let { variable, expression, .. } => 8 + expr_size(object_version, *variable) + expr_size(object_version, *expression),
        Expr::MetaCast { target_expression, .. } => 8 + expr_size(object_version, *target_expression),
        Expr::LetBool { variable_expression, assignment_expression } => expr_size(object_version, *variable_expression) + expr_size(object_version, *assignment_expression),
        Expr::SelfObject => 0,
        Expr::Context { object_expression, context_expression, .. } => expr_size(object_version, *object_expression) + 4 + 8 + expr_size(object_version, *context_expression),
        Expr::VirtualFunction { parameters, .. } => 12 + expr_list_size(object_version, parameters@) + 1,
        Expr::FinalFunction { parameters, .. } => 8 + expr_list_size(object_version, parameters@) + 1,
        Expr::IntConst { .. } => 4,
        Expr::FloatConst { .. } => 4,
        Expr::StringConst { value } => ((encode_utf8(value@).len() as usize as u32) + 1) as nat,
        Expr::ObjectConst { .. } => 8,
        Expr::NameConst { .. } => 12,
        Expr::RotationConst => if object_version >= large_world_coordinates_version() { 24 } else { 12 },
        Expr::VectorConst => if object_version >= large_world_coordinates_version() { 24 } else { 12 },
        Expr::ByteConst { .. } => 1,
        Expr::True => 0,
        Expr::False => 0,
        Expr::TextConst { text_literal_type, localized_source, localized_key, localized_namespace, invariant_literal_string, literal_string, string_table_id, string_table_key, .. } => 1 + match text_literal_type {
            TextLiteralType::Empty => 0,
            TextLiteralType::LocalizedText => expr_opt_size(object_version, localized_source) + expr_opt_size(object_version, localized_key) + expr_opt_size(object_version, localized_namespace),
            TextLiteralType::InvariantText => expr_opt_size(object_version, invariant_literal_string),
            TextLiteralType::LiteralString => expr_opt_size(object_version, literal_string),
            TextLiteralType::StringTableEntry => 8 + expr_opt_size(object_version, string_table_id) + expr_opt_size(object_version, string_table_key),
        },
        Expr::NoObject => 0,
        Expr::TransformConst => if object_version >= large_world_coordinates_version() { 80 } else { 40 },
        Expr::DynamicCast { target_expression, .. } => 8 + expr_size(object_version, *target_expression),
        Expr::StructConst { value, .. } => 8 + 4 + expr_list_size(object_version, value@) + 1,
        Expr::SetArray { assigning_property, elements, .. } => expr_opt_size(object_version, assigning_property) + expr_list_size(object_version, elements@) + 1,
        Expr::UnicodeStringConst { value } => (2 * ((encode_utf8(value@).len() as usize as u32) + 1)) as nat,
        Expr::Int64Const { .. } => 8,
        Expr::UInt64Const { .. } => 8,
        Expr::PrimitiveCast { conversion_type, target } => 1 + (if conversion_type == CastToken::ObjectToInterface { 8nat } else { 0nat }) + expr_size(object_version, *target),
        Expr::SetSet { set_property, elements } => expr_size(object_version, *set_property) + 4 + expr_list_size(object_version, elements@) + 1,
        Expr::SetMap { map_property, elements } => expr_size(object_version, *map_property) + 4 + expr_list_size(object_version, elements@) + 1,
        Expr::StructMemberContext { struct_expression, .. } => 8 + expr_size(object_version, *struct_expression),
        Expr::LocalVirtualFunction { parameters, .. } => 12 + expr_list_size(object_version, parameters@) + 1,
        Expr::LocalFinalFunction { parameters, .. } => 8 + expr_list_size(object_version, parameters@) + 1,
        Expr::LocalOutVariable { .. } => 8,
        Expr::PushExecutionFlow { .. } => 4,
        Expr::PopExecutionFlow => 0,
        Expr::ComputedJump { code_offset_expression } => expr_size(object_version, *code_offset_expression),
        Expr::PopExecutionFlowIfNot { boolean_expression } => expr_size(object_version, *boolean_expression),
        Expr::InterfaceContext { interface_value } => expr_size(object_version, *interface_value),
        Expr::ObjToInterfaceCast { target, .. } => 8 + expr_size(object_version, *target),
        Expr::EndOfScript => 0,
        Expr::InterfaceToObjCast { target, .. } => 8 + expr_size(object_version, *target),
        Expr::WireTracepoint => 0,
        Expr::SkipOffsetConst { .. } => 4,
        Expr::AddMulticastDelegate { delegate, delegate_to_add } => expr_size(object_version, *delegate) + expr_size(object_version, *delegate_to_add),
        Expr::ClearMulticastDelegate { delegate_to_clear } => expr_size(object_version, *delegate_to_clear),
        Expr::Tracepoint => 0,
        Expr::LetObj { variable_expression, assignment_expression } => expr_size(object_version, *variable_expression) + expr_size(object_version, *assignment_expression),
        Expr::LetWeakObjPtr { variable_expression, assignment_expression } => expr_size(object_version, *variable_expression) + expr_size(object_version, *assignment_expression),
        Expr::BindDelegate { delegate, object_term, .. } => 12 + expr_size(object_version, *delegate) + expr_size(object_version, *object_term),
        Expr::RemoveMulticastDelegate { delegate, delegate_to_add } => expr_size(object_version, *delegate) + expr_size(object_version, *delegate_to_add),
        Expr::CallMulticastDelegate { parameters, delegate, .. } => 8 + expr_size(object_version, *delegate) + expr_list_size(object_version, parameters@) + 1,
        Expr::LetValueOnPersistentFrame { assignment_expression, .. } => 8 + expr_size(object_version, *assignment_expression),
        Expr::ArrayConst { elements, .. } => 12 + expr_list_size(object_version, elements@) + 1,
        Expr::SoftObjectConst { value } => expr_size(object_version, *value),
        Expr::CallMath { parameters, .. } => 8 + expr_list_size(object_version, parameters@) + 1,
        Expr::SwitchValue { index_term, default_term, cases, .. } => 6 + expr_size(object_version, *index_term) + case_list_size(object_version, cases@) + expr_size(object_version, *default_term),
        Expr::ArrayGetByRef { array_variable, array_index } => expr_size(object_version, *array_variable) + expr_size(object_version, *array_index),
        _ => 0,
    }
}

/// Whether no vector, rotation or transform constant, the only expressions
/// whose size depends on the object version, lies within `e`.
pub open spec fn lwc_free(e: Expr) -> bool
    decreases e,
{
    match e {
        Expr::RotationConst => false,
        Expr::VectorConst => false,
        Expr::TransformConst => false,
        Expr::Return { return_expression } => lwc_free(*return_expression),
        Expr::JumpIfNot { boolean_expression, .. } => lwc_free(*boolean_expression),
        Expr::Let { variable, expression, .. } => lwc_free(*variable) && lwc_free(*expression),
        Expr::MetaCast { target_expression, .. } => lwc_free(*target_expression),
        Expr::LetBool { variable_expression, assignment_expression } => lwc_free(*variable_expression) && lwc_free(*assignment_expression),
        Expr::Context { object_expression, context_expression, .. } => lwc_free(*object_expression) && lwc_free(*context_expression),
        Expr::VirtualFunction { parameters, .. } => lwc_free_list(parameters@),
        Expr::FinalFunction { parameters, .. } => lwc_free_list(parameters@),
        Expr::TextConst { localized_source, localized_key, localized_namespace, invariant_literal_string, literal_string, string_table_id, string_table_key, .. } => lwc_free_opt(localized_source) && lwc_free_opt(localized_key) && lwc_free_opt(localized_namespace) && lwc_free_opt(invariant_literal_string) && lwc_free_opt(literal_string) && lwc_free_opt(string_table_id) && lwc_free_opt(string_table_key),
        Expr::DynamicCast { target_expression, .. } => lwc_free(*target_expression),
        Expr::StructConst { value, .. } => lwc_free_list(value@),
        Expr::SetArray { assigning_property, elements, .. } => lwc_free_opt(assigning_property) && lwc_free_list(elements@),
        Expr::PrimitiveCast { conversion_type, target } => lwc_free(*target),
        Expr::SetSet { set_property, elements } => lwc_free(*set_property) && lwc_free_list(elements@),
        Expr::SetMap { map_property, elements } => lwc_free(*map_property) && lwc_free_list(elements@),
        Expr::StructMemberContext { struct_expression, .. } => lwc_free(*struct_expression),
        Expr::LocalVirtualFunction { parameters, .. } => lwc_free_list(parameters@),
        Expr::LocalFinalFunction { parameters, .. } => lwc_free_list(parameters@),
        Expr::ComputedJump { code_offset_expression } => lwc_free(*code_offset_expression),
        Expr::PopExecutionFlowIfNot { boolean_expression } => lwc_free(*boolean_expression),
        Expr::InterfaceContext { interface_value } => lwc_free(*interface_value),
        Expr::ObjToInterfaceCast { target, .. } => lwc_free(*target),
        Expr::InterfaceToObjCast { target, .. } => lwc_free(*target),
        Expr::AddMulticastDelegate { delegate, delegate_to_add } => lwc_free(*delegate) && lwc_free(*delegate_to_add),
        Expr::ClearMulticastDelegate { delegate_to_clear } => lwc_free(*delegate_to_clear),
        Expr::LetObj { variable_expression, assignment_expression } => lwc_free(*variable_expression) && lwc_free(*assignment_expression),
        Expr::LetWeakObjPtr { variable_expression, assignment_expression } => lwc_free(*variable_expression) && lwc_free(*assignment_expression),
        Expr::BindDelegate { delegate, object_term, .. } => lwc_free(*delegate) && lwc_free(*object_term),
        Expr::RemoveMulticastDelegate { delegate, delegate_to_add } => lwc_free(*delegate) && lwc_free(*delegate_to_add),
        Expr::CallMulticastDelegate { parameters, delegate, .. } => lwc_free(*delegate) && lwc_free_list(parameters@),
        Expr::LetValueOnPersistentFrame { assignment_expression, .. } => lwc_free(*assignment_expression),
        Expr::ArrayConst { elements, .. } => lwc_free_list(elements@),
        Expr::SoftObjectConst { value } => lwc_free(*value),
        Expr::CallMath { parameters, .. } => lwc_free_list(parameters@),
        Expr::SwitchValue { index_term, default_term, cases, .. } => lwc_free(*index_term) && lwc_free_cases(cases@) && lwc_free(*default_term),
        Expr::ArrayGetByRef { array_variable, array_index } => lwc_free(*array_variable) && lwc_free(*array_index),
        _ => true,
    }
}

/// Whether an optional expression is free of such constants.
pub open spec fn lwc_free_opt(o: Option<Box<Expr>>) -> bool
    decreases o,
{
    match o {
        Some(e) => lwc_free(*e),
        None => true,
    }
}

/// Whether every expression of a list is free of such constants.
pub open spec fn lwc_free_list(s: Seq<Expr>) -> bool
    decreases s,
{
    s.len() > 0 ==> lwc_free_list(s.drop_last()) && lwc_free(s.last())
}

/// Whether every case of a switch is free of such constants.
pub open spec fn lwc_free_cases(s: Seq<SwitchCase>) -> bool
    decreases s,
{
    s.len() > 0 ==> lwc_free_cases(s.drop_last()) && lwc_free(s.last().case_index_value_term) && lwc_free(
        s.last().case_term,
    )
}

/// A later object version never makes an expression smaller, and leaves
/// the size of one free of vector, rotation and transform constants as it
/// is.
pub proof fn lemma_size_versions(v1: i32, v2: i32, e: Expr)
    ensures
        v1 <= v2 ==> expr_size(v1, e) <= expr_size(v2, e),
        lwc_free(e) ==> expr_size(v1, e) == expr_size(v2, e),
    decreases e,
{
    match e {
        Expr::Return { return_expression } => {
            lemma_size_versions(v1, v2, *return_expression);
        },
        Expr::JumpIfNot { boolean_expression, .. } => {
            lemma_size_versions(v1, v2, *boolean_expression);
        },
        Expr::Let { variable, expression, .. } => {
            lemma_size_versions(v1, v2, *variable);
            lemma_size_versions(v1, v2, *expression);
        },
        Expr::MetaCast { target_expression, .. } => {
            lemma_size_versions(v1, v2, *target_expression);
        },
        Expr::LetBool { variable_expression, assignment_expression } => {
            lemma_size_versions(v1, v2, *variable_expression);
            lemma_size_versions(v1, v2, *assignment_expression);
        },
        Expr::Context { object_expression, context_expression, .. } => {
            lemma_size_versions(v1, v2, *object_expression);
            lemma_size_versions(v1, v2, *context_expression);
        },
        Expr::VirtualFunction { parameters, .. } => {
            lemma_list_size_versions(v1, v2, parameters@);
        },
        Expr::FinalFunction { parameters, .. } => {
            lemma_list_size_versions(v1, v2, parameters@);
        },
        Expr::TextConst { localized_source, localized_key, localized_namespace, invariant_literal_string, literal_string, string_table_id, string_table_key, .. } => {
            lemma_opt_size_versions(v1, v2, localized_source);
            lemma_opt_size_versions(v1, v2, localized_key);
            lemma_opt_size_versions(v1, v2, localized_namespace);
            lemma_opt_size_versions(v1, v2, invariant_literal_string);
            lemma_opt_size_versions(v1, v2, literal_string);
            lemma_opt_size_versions(v1, v2, string_table_id);
            lemma_opt_size_versions(v1, v2, string_table_key);
        },
        Expr::DynamicCast { target_expression, .. } => {
            lemma_size_versions(v1, v2, *target_expression);
        },
        Expr::StructConst { value, .. } => {
            lemma_list_size_versions(v1, v2, value@);
        },
        Expr::SetArray { assigning_property, elements, .. } => {
            lemma_opt_size_versions(v1, v2, assigning_property);
            lemma_list_size_versions(v1, v2, elements@);
        },
        Expr::PrimitiveCast { conversion_type, target } => {
            lemma_size_versions(v1, v2, *target);
        },
        Expr::SetSet { set_property, elements } => {
            lemma_size_versions(v1, v2, *set_property);
            lemma_list_size_versions(v1, v2, elements@);
        },
        Expr::SetMap { map_property, elements } => {
            lemma_size_versions(v1, v2, *map_property);
            lemma_list_size_versions(v1, v2, elements@);
        },
        Expr::StructMemberContext { struct_expression, .. } => {
            lemma_size_versions(v1, v2, *struct_expression);
        },
        Expr::LocalVirtualFunction { parameters, .. } => {
            lemma_list_size_versions(v1, v2, parameters@);
        },
        Expr::LocalFinalFunction { parameters, .. } => {
            lemma_list_size_versions(v1, v2, parameters@);
        },
        Expr::ComputedJump { code_offset_expression } => {
            lemma_size_versions(v1, v2, *code_offset_expression);
        },
        Expr::PopExecutionFlowIfNot { boolean_expression } => {
            lemma_size_versions(v1, v2, *boolean_expression);
        },
        Expr::InterfaceContext { interface_value } => {
            lemma_size_versions(v1, v2, *interface_value);
        },
        Expr::ObjToInterfaceCast { target, .. } => {
            lemma_size_versions(v1, v2, *target);
        },
        Expr::InterfaceToObjCast { target, .. } => {
            lemma_size_versions(v1, v2, *target);
        },
        Expr::AddMulticastDelegate { delegate, delegate_to_add } => {
            lemma_size_versions(v1, v2, *delegate);
            lemma_size_versions(v1, v2, *delegate_to_add);
        },
        Expr::ClearMulticastDelegate { delegate_to_clear } => {
            lemma_size_versions(v1, v2, *delegate_to_clear);
        },
        Expr::LetObj { variable_expression, assignment_expression } => {
            lemma_size_versions(v1, v2, *variable_expression);
            lemma_size_versions(v1, v2, *assignment_expression);
        },
        Expr::LetWeakObjPtr { variable_expression, assignment_expression } => {
            lemma_size_versions(v1, v2, *variable_expression);
            lemma_size_versions(v1, v2, *assignment_expression);
        },
        Expr::BindDelegate { delegate, object_term, .. } => {
            lemma_size_versions(v1, v2, *delegate);
            lemma_size_versions(v1, v2, *object_term);
        },
        Expr::RemoveMulticastDelegate { delegate, delegate_to_add } => {
            lemma_size_versions(v1, v2, *delegate);
            lemma_size_versions(v1, v2, *delegate_to_add);
        },
        Expr::CallMulticastDelegate { parameters, delegate, .. } => {
            lemma_size_versions(v1, v2, *delegate);
            lemma_list_size_versions(v1, v2, parameters@);
        },
        Expr::LetValueOnPersistentFrame { assignment_expression, .. } => {
            lemma_size_versions(v1, v2, *assignment_expression);
        },
        Expr::ArrayConst { elements, .. } => {
            lemma_list_size_versions(v1, v2, elements@);
        },
        Expr::SoftObjectConst { value } => {
            lemma_size_versions(v1, v2, *value);
        },
        Expr::CallMath { parameters, .. } => {
            lemma_list_size_versions(v1, v2, parameters@);
        },
        Expr::SwitchValue { index_term, default_term, cases, .. } => {
            lemma_size_versions(v1, v2, *index_term);
            lemma_case_list_size_versions(v1, v2, cases@);
            lemma_size_versions(v1, v2, *default_term);
        },
        Expr::ArrayGetByRef { array_variable, array_index } => {
            lemma_size_versions(v1, v2, *array_variable);
            lemma_size_versions(v1, v2, *array_index);
        },
        _ => {},
    }
}

/// `lemma_size_versions` for an optional expression.
pub proof fn lemma_opt_size_versions(v1: i32, v2: i32, o: Option<Box<Expr>>)
    ensures
        v1 <= v2 ==> expr_opt_size(v1, o) <= expr_opt_size(v2, o),
        lwc_free_opt(o) ==> expr_opt_size(v1, o) == expr_opt_size(v2, o),
    decreases o,
{
    if let Some(e) = o {
        lemma_size_versions(v1, v2, *e);
    }
}

/// `lemma_size_versions` for a list of expressions.
pub proof fn lemma_list_size_versions(v1: i32, v2: i32, s: Seq<Expr>)
    ensures
        v1 <= v2 ==> expr_list_size(v1, s) <= expr_list_size(v2, s),
        lwc_free_list(s) ==> expr_list_size(v1, s) == expr_list_size(v2, s),
    decreases s,
{
    if s.len() > 0 {
        lemma_list_size_versions(v1, v2, s.drop_last());
        lemma_size_versions(v1, v2, s.last());
    }
}

/// `lemma_size_versions` for the cases of a switch.
pub proof fn lemma_case_list_size_versions(v1: i32, v2: i32, s: Seq<SwitchCase>)
    ensures
        v1 <= v2 ==> case_list_size(v1, s) <= case_list_size(v2, s),
        lwc_free_cases(s) ==> case_list_size(v1, s) == case_list_size(v2, s),
    decreases s,
{
    if s.len() > 0 {
        lemma_case_list_size_versions(v1, v2, s.drop_last());
        lemma_size_versions(v1, v2, s.last().case_index_value_term);
        lemma_size_versions(v1, v2, s.last().case_term);
    }
}

/// Whether `size` knows the size of an expression and of every expression
/// it measures within it.
pub open spec fn expr_sized(e: Expr) -> bool
    decreases e,
{
    match e {
        Expr::LocalVariable { .. } => true,
        Expr::InstanceVariable { .. } => true,
        Expr::DefaultVariable { .. } => true,
        Expr::Return { return_expression } => expr_sized(*return_expression),
        Expr::Jump { .. } => true,
        Expr::JumpIfNot { boolean_expression, .. } => expr_sized(*boolean_expression),
        Expr::Nothing => true,
        Expr::Let { variable, expression, .. } => expr_sized(*variable) && expr_sized(*expression),
        Expr::MetaCast { target_expression, .. } => expr_sized(*target_expression),
        Expr::LetBool { variable_expression, assignment_expression } => expr_sized(*variable_expression) && expr_sized(*assignment_expression),
        Expr::SelfObject => true,
        Expr::Context { object_expression, context_expression, .. } => expr_sized(*object_expression) && expr_sized(*context_expression),
        Expr::VirtualFunction { parameters, .. } => expr_list_sized(parameters@),
        Expr::FinalFunction { parameters, .. } => expr_list_sized(parameters@),
        Expr::IntConst { .. } => true,
        Expr::FloatConst { .. } => true,
        Expr::StringConst { .. } => true,
        Expr::ObjectConst { .. } => true,
        Expr::NameConst { .. } => true,
        Expr::RotationConst => true,
        Expr::VectorConst => true,
        Expr::ByteConst { .. } => true,
        Expr::True => true,
        Expr::False => true,
        Expr::TextConst { text_literal_type, localized_source, localized_key, localized_namespace, invariant_literal_string, literal_string, string_table_id, string_table_key, .. } => match text_literal_type {
            TextLiteralType::Empty => true,
            TextLiteralType::LocalizedText => expr_opt_sized(localized_source) && expr_opt_sized(localized_key) && expr_opt_sized(localized_namespace),
            TextLiteralType::InvariantText => expr_opt_sized(invariant_literal_string),
            TextLiteralType::LiteralString => expr_opt_sized(literal_string),
            TextLiteralType::StringTableEntry => expr_opt_sized(string_table_id) && expr_opt_sized(string_table_key),
        },
        Expr::NoObject => true,
        Expr::TransformConst => true,
        Expr::DynamicCast { target_expression, .. } => expr_sized(*target_expression),
        Expr::StructConst { value, .. } => expr_list_sized(value@),
        Expr::SetArray { assigning_property, elements, .. } => expr_opt_sized(assigning_property) && expr_list_sized(elements@),
        Expr::UnicodeStringConst { .. } => true,
        Expr::Int64Const { .. } => true,
        Expr::UInt64Const { .. } => true,
        Expr::PrimitiveCast { target, .. } => expr_sized(*target),
        Expr::SetSet { set_property, elements } => expr_sized(*set_property) && expr_list_sized(elements@),
        Expr::SetMap { map_property, elements } => expr_sized(*map_property) && expr_list_sized(elements@),
        Expr::StructMemberContext { struct_expression, .. } => expr_sized(*struct_expression),
        Expr::LocalVirtualFunction { parameters, .. } => expr_list_sized(parameters@),
        Expr::LocalFinalFunction { parameters, .. } => expr_list_sized(parameters@),
        Expr::LocalOutVariable { .. } => true,
        Expr::PushExecutionFlow { .. } => true,
        Expr::PopExecutionFlow => true,
        Expr::ComputedJump { code_offset_expression } => expr_sized(*code_offset_expression),
        Expr::PopExecutionFlowIfNot { boolean_expression } => expr_sized(*boolean_expression),
        Expr::InterfaceContext { interface_value } => expr_sized(*interface_value),
        Expr::ObjToInterfaceCast { target, .. } => expr_sized(*target),
        Expr::EndOfScript => true,
        Expr::InterfaceToObjCast { target, .. } => expr_sized(*target),
        Expr::WireTracepoint => true,
        Expr::SkipOffsetConst { .. } => true,
        Expr::AddMulticastDelegate { delegate, delegate_to_add } => expr_sized(*delegate) && expr_sized(*delegate_to_add),
        Expr::ClearMulticastDelegate { delegate_to_clear } => expr_sized(*delegate_to_clear),
        Expr::Tracepoint => true,
        Expr::LetObj { variable_expression, assignment_expression } => expr_sized(*variable_expression) && expr_sized(*assignment_expression),
        Expr::LetWeakObjPtr { variable_expression, assignment_expression } => expr_sized(*variable_expression) && expr_sized(*assignment_expression),
        Expr::BindDelegate { delegate, object_term, .. } => expr_sized(*delegate) && expr_sized(*object_term),
        Expr::RemoveMulticastDelegate { delegate, delegate_to_add } => expr_sized(*delegate) && expr_sized(*delegate_to_add),
        Expr::CallMulticastDelegate { parameters, delegate, .. } => expr_sized(*delegate) && expr_list_sized(parameters@),
        Expr::LetValueOnPersistentFrame { assignment_expression, .. } => expr_sized(*assignment_expression),
        Expr::ArrayConst { elements, .. } => expr_list_sized(elements@),
        Expr::SoftObjectConst { value } => expr_sized(*value),
        Expr::CallMath { parameters, .. } => expr_list_sized(parameters@),
        Expr::SwitchValue { index_term, default_term, cases, .. } => expr_sized(*index_term) && case_list_sized(cases@) && expr_sized(*default_term),
        Expr::ArrayGetByRef { array_variable, array_index } => expr_sized(*array_variable) && expr_sized(*array_index),
        _ => false,
    }
}

/// The number of bytes that `inst` takes in serialised bytecode.
pub fn size(object_version: i32, inst: &Expr) -> (n: u32)
    requires
        expr_sized(*inst),
        expr_size(object_version, *inst) <= u32::MAX,
    ensures
        n == expr_size(object_version, *inst),
    decreases *inst,
{
    1 + match inst {
        Expr::LocalVariable { .. } => {
            8
        },
        Expr::InstanceVariable { .. } => {
            8
        },
        Expr::DefaultVariable { .. } => {
            8
        },
        Expr::Return { return_expression } => {
            size(object_version, &**return_expression)
        },
        Expr::Jump { .. } => {
            4
        },
        Expr::JumpIfNot { boolean_expression, .. } => {
            4 + size(object_version, &**boolean_expression)
        },
        Expr::Nothing => {
            0
        },
        Expr::Let { variable, expression, .. } => {
            8 + size(object_version, &**variable) + size(object_version, &**expression)
        },
        Expr::MetaCast { target_expression, .. } => {
            8 + size(object_version, &**target_expression)
        },
        Expr::LetBool { variable_expression, assignment_expression } => {
            size(object_version, &**variable_expression) + size(object_version, &**assignment_expression)
        },
        Expr::SelfObject => {
            0
        },
        Expr::Context { object_expression, context_expression, .. } => {
            size(object_version, &**object_expression) + 4 + 8 + size(object_version, &**context_expression)
        },
        Expr::VirtualFunction { parameters, .. } => {
            12 + size_list(object_version, parameters) + 1
        },
        Expr::FinalFunction { parameters, .. } => {
            8 + size_list(object_version, parameters) + 1
        },
        Expr::IntConst { .. } => {
            4
        },
        Expr::FloatConst { .. } => {
            4
        },
        Expr::StringConst { value } => {
            {
                let s = value.as_str();
                proof {
                    assert(s.spec_bytes() == encode_utf8(value@));
                }
                (s.len() as u32) + 1
            }
        },
        Expr::ObjectConst { .. } => {
            8
        },
        Expr::NameConst { .. } => {
            12
        },
        Expr::RotationConst => {
            if object_version >= large_world_coordinates() { 24 } else { 12 }
        },
        Expr::VectorConst => {
            if object_version >= large_world_coordinates() { 24 } else { 12 }
        },
        Expr::ByteConst { .. } => {
            1
        },
        Expr::True => {
            0
        },
        Expr::False => {
            0
        },
        Expr::TextConst { text_literal_type, localized_source, localized_key, localized_namespace, invariant_literal_string, literal_string, string_table_id, string_table_key, .. } => {
            1 + match text_literal_type {
                TextLiteralType::Empty => 0,
                TextLiteralType::LocalizedText => size_opt(object_version, localized_source) + size_opt(object_version, localized_key) + size_opt(object_version, localized_namespace),
                TextLiteralType::InvariantText => size_opt(object_version, invariant_literal_string),
                TextLiteralType::LiteralString => size_opt(object_version, literal_string),
                TextLiteralType::StringTableEntry => 8 + size_opt(object_version, string_table_id) + size_opt(object_version, string_table_key),
            }
        },
        Expr::NoObject => {
            0
        },
        Expr::TransformConst => {
            if object_version >= large_world_coordinates() { 80 } else { 40 }
        },
        Expr::DynamicCast { target_expression, .. } => {
            8 + size(object_version, &**target_expression)
        },
        Expr::StructConst { value, .. } => {
            8 + 4 + size_list(object_version, value) + 1
        },
        Expr::SetArray { assigning_property, elements, .. } => {
            size_opt(object_version, assigning_property) + size_list(object_version, elements) + 1
        },
        Expr::UnicodeStringConst { value } => {
            {
                let s = value.as_str();
                proof {
                    assert(s.spec_bytes() == encode_utf8(value@));
                }
                2 * ((s.len() as u32) + 1)
            }
        },
        Expr::Int64Const { .. } => {
            8
        },
        Expr::UInt64Const { .. } => {
            8
        },
        Expr::PrimitiveCast { conversion_type, target } => {
            1 + match conversion_type {
                CastToken::ObjectToInterface => 8,
                _ => 0,
            } + size(object_version, &**target)
        },
        Expr::SetSet { set_property, elements } => {
            size(object_version, &**set_property) + 4 + size_list(object_version, elements) + 1
        },
        Expr::SetMap { map_property, elements } => {
            size(object_version, &**map_property) + 4 + size_list(object_version, elements) + 1
        },
        Expr::StructMemberContext { struct_expression, .. } => {
            8 + size(object_version, &**struct_expression)
        },
        Expr::LocalVirtualFunction { parameters, .. } => {
            12 + size_list(object_version, parameters) + 1
        },
        Expr::LocalFinalFunction { parameters, .. } => {
            8 + size_list(object_version, parameters) + 1
        },
        Expr::LocalOutVariable { .. } => {
            8
        },
        Expr::PushExecutionFlow { .. } => {
            4
        },
        Expr::PopExecutionFlow => {
            0
        },
        Expr::ComputedJump { code_offset_expression } => {
            size(object_version, &**code_offset_expression)
        },
        Expr::PopExecutionFlowIfNot { boolean_expression } => {
            size(object_version, &**boolean_expression)
        },
        Expr::InterfaceContext { interface_value } => {
            size(object_version, &**interface_value)
        },
        Expr::ObjToInterfaceCast { target, .. } => {
            8 + size(object_version, &**target)
        },
        Expr::EndOfScript => {
            0
        },
        Expr::InterfaceToObjCast { target, .. } => {
            8 + size(object_version, &**target)
        },
        Expr::WireTracepoint => {
            0
        },
        Expr::SkipOffsetConst { .. } => {
            4
        },
        Expr::AddMulticastDelegate { delegate, delegate_to_add } => {
            size(object_version, &**delegate) + size(object_version, &**delegate_to_add)
        },
        Expr::ClearMulticastDelegate { delegate_to_clear } => {
            size(object_version, &**delegate_to_clear)
        },
        Expr::Tracepoint => {
            0
        },
        Expr::LetObj { variable_expression, assignment_expression } => {
            size(object_version, &**variable_expression) + size(object_version, &**assignment_expression)
        },
        Expr::LetWeakObjPtr { variable_expression, assignment_expression } => {
            size(object_version, &**variable_expression) + size(object_version, &**assignment_expression)
        },
        Expr::BindDelegate { delegate, object_term, .. } => {
            12 + size(object_version, &**delegate) + size(object_version, &**object_term)
        },
        Expr::RemoveMulticastDelegate { delegate, delegate_to_add } => {
            size(object_version, &**delegate) + size(object_version, &**delegate_to_add)
        },
        Expr::CallMulticastDelegate { parameters, delegate, .. } => {
            8 + size(object_version, &**delegate) + size_list(object_version, parameters) + 1
        },
        Expr::LetValueOnPersistentFrame { assignment_expression, .. } => {
            8 + size(object_version, &**assignment_expression)
        },
        Expr::ArrayConst { elements, .. } => {
            12 + size_list(object_version, elements) + 1
        },
        Expr::SoftObjectConst { value } => {
            size(object_version, &**value)
        },
        Expr::CallMath { parameters, .. } => {
            8 + size_list(object_version, parameters) + 1
        },
        Expr::SwitchValue { index_term, default_term, cases, .. } => {
            6 + size(object_version, &**index_term) + size_cases(object_version, cases) + size(object_version, &**default_term)
        },
        Expr::ArrayGetByRef { array_variable, array_index } => {
            size(object_version, &**array_variable) + size(object_version, &**array_index)
        },
        _ => {
            proof {
                assert(false);
            }
            0
        },
    }
}

/// The size of a list's prefix is at most the size of the list.
proof fn lemma_list_size_prefix(object_version: i32, s: Seq<Expr>, i: int)
    requires
        0 <= i <= s.len(),
    ensures
        expr_list_size(object_version, s.take(i)) <= expr_list_size(object_version, s),
        expr_list_sized(s) ==> expr_list_sized(s.take(i)),
    decreases s.len() - i,
{
    if i < s.len() {
        lemma_list_size_prefix(object_version, s, i + 1);
        assert(s.take(i + 1).drop_last() =~= s.take(i));
    } else {
        assert(s.take(i) =~= s);
    }
}

/// The size of a prefix of switch cases is at most the size of all of them.
proof fn lemma_case_size_prefix(object_version: i32, s: Seq<SwitchCase>, i: int)
    requires
        0 <= i <= s.len(),
    ensures
        case_list_size(object_version, s.take(i)) <= case_list_size(object_version, s),
        case_list_sized(s) ==> case_list_sized(s.take(i)),
    decreases s.len() - i,
{
    if i < s.len() {
        lemma_case_size_prefix(object_version, s, i + 1);
        assert(s.take(i + 1).drop_last() =~= s.take(i));
    } else {
        assert(s.take(i) =~= s);
    }
}

fn size_opt(object_version: i32, e: &Option<Box<Expr>>) -> (n: u32)
    requires
        expr_opt_sized(*e),
        expr_opt_size(object_version, *e) <= u32::MAX,
    ensures
        n == expr_opt_size(object_version, *e),
    decreases *e,
{
    match e {
        Some(inner) => size(object_version, &**inner),
        None => 0,
    }
}

pub(crate) fn size_list(object_version: i32, list: &Vec<Expr>) -> (n: u32)
    requires
        expr_list_sized(list@),
        expr_list_size(object_version, list@) <= u32::MAX,
    ensures
        n == expr_list_size(object_version, list@),
    decreases *list,
{
    let mut total: u32 = 0;
    let mut i: usize = 0;
    proof {
        assert(list@.take(0) =~= Seq::<Expr>::empty());
    }
    while i < list.len()
        invariant
            i <= list@.len(),
            expr_list_sized(list@),
            expr_list_size(object_version, list@) <= u32::MAX,
            total == expr_list_size(object_version, list@.take(i as int)),
        decreases list@.len() - i,
    {
        proof {
            assert(decreases_to!(*list => list@));
            assert(decreases_to!(list@ => list@[i as int]));
            lemma_list_size_prefix(object_version, list@, i + 1);
            assert(list@.take(i + 1).drop_last() =~= list@.take(i as int));
            assert(list@.take(i + 1).last() == list@[i as int]);
        }
        total = total + size(object_version, &list[i]);
        i = i + 1;
    }
    assert(list@.take(list@.len() as int) =~= list@);
    total
}

fn size_cases(object_version: i32, cases: &Vec<SwitchCase>) -> (n: u32)
    requires
        case_list_sized(cases@),
        case_list_size(object_version, cases@) <= u32::MAX,
    ensures
        n == case_list_size(object_version, cases@),
    decreases *cases,
{
    let mut total: u32 = 0;
    let mut i: usize = 0;
    proof {
        assert(cases@.take(0) =~= Seq::<SwitchCase>::empty());
    }
    while i < cases.len()
        invariant
            i <= cases@.len(),
            case_list_sized(cases@),
            case_list_size(object_version, cases@) <= u32::MAX,
            total == case_list_size(object_version, cases@.take(i as int)),
        decreases cases@.len() - i,
    {
        proof {
            assert(decreases_to!(*cases => cases@));
            assert(decreases_to!(cases@ => cases@[i as int]));
            assert(decreases_to!(cases@[i as int] => cases@[i as int].case_index_value_term));
            assert(decreases_to!(cases@[i as int] => cases@[i as int].case_term));
            lemma_case_size_prefix(object_version, cases@, i + 1);
            assert(cases@.take(i + 1).drop_last() =~= cases@.take(i as int));
            assert(cases@.take(i + 1).last() == cases@[i as int]);
        }
        let case = &cases[i];
        total = total + size(object_version, &case.case_index_value_term) + 4 + size(
            object_version,
            &case.case_term,
        );
        i = i + 1;
    }
    assert(cases@.take(cases@.len() as int) =~= cases@);
    total
}


/// Whether `x1` is what `on_kismet` makes of `x0` with a visitor in the state
/// `s`: the same shape, with the references that the visitor hands back.
pub open spec fn kismet_walked<V: IndexVisitor>(s: V::State, x0: Expr, x1: Expr) -> bool {
    &&& same_expr_shape(x0, x1)
    &&& expr_refs(x1) == walk_out::<V>(s, expr_refs(x0))
}

/// Two calls of `on_kismet` in turn, the first with a visitor in the state
/// `s1` and the second with one in the state `s2`, leave the expression as
/// one call with both visitors at once (see `Both`) does: the references
/// visited, and their order, depend on the expression's shape alone.
pub proof fn lemma_on_kismet_compose<A: IndexVisitor, B: IndexVisitor>(
    x0: Expr,
    x1: Expr,
    x2: Expr,
    s1: A::State,
    s2: B::State,
)
    requires
        kismet_walked::<A>(s1, x0, x1),
        kismet_walked::<B>(s2, x1, x2),
    ensures
        kismet_walked::<Both<A, B>>((s1, s2), x0, x2),
{
    lemma_expr_trans(x0, x1, x2);
    lemma_walk_both::<A, B>(s1, s2, expr_refs(x0));
}

/// Whether `g` is the call `f` with the parameter `p` appended.
pub open spec fn with_parameter(f: Expr, p: Expr, g: Expr) -> bool {
    match (f, g) {
        (
            Expr::VirtualFunction { virtual_function_name: a, parameters: pa },
            Expr::VirtualFunction { virtual_function_name: b, parameters: pb },
        ) => a@ == b@ && pb@ == pa@.push(p),
        (
            Expr::LocalVirtualFunction { virtual_function_name: a, parameters: pa },
            Expr::LocalVirtualFunction { virtual_function_name: b, parameters: pb },
        ) => a@ == b@ && pb@ == pa@.push(p),
        (
            Expr::FinalFunction { stack_node: a, parameters: pa },
            Expr::FinalFunction { stack_node: b, parameters: pb },
        ) => a == b && pb@ == pa@.push(p),
        (
            Expr::LocalFinalFunction { stack_node: a, parameters: pa },
            Expr::LocalFinalFunction { stack_node: b, parameters: pb },
        ) => a == b && pb@ == pa@.push(p),
        (
            Expr::CallMath { stack_node: a, parameters: pa },
            Expr::CallMath { stack_node: b, parameters: pb },
        ) => a == b && pb@ == pa@.push(p),
        _ => false,
    }
}

/// A call's size is its header, 14 bytes for a virtual call (its token, its
/// name and the end of its parameters) and 10 for a final or math call (its
/// token, its function and the end of its parameters), plus the sizes of its
/// parameters; so appending a parameter adds that parameter's size.
pub proof fn lemma_size_with_parameter(object_version: i32, f: Expr, p: Expr, g: Expr)
    requires
        with_parameter(f, p, g),
    ensures
        expr_size(object_version, g) == expr_size(object_version, f) + expr_size(object_version, p),
        f is VirtualFunction || f is LocalVirtualFunction ==> expr_size(object_version, f) == 14
            + expr_list_size(object_version, parameters_of(f)),
        f is FinalFunction || f is LocalFinalFunction || f is CallMath ==> expr_size(object_version, f) == 10
            + expr_list_size(object_version, parameters_of(f)),
{
    let pa = parameters_of(f);
    let pg = parameters_of(g);
    assert(pg.drop_last() =~= pa);
    assert(pg.last() == p);
    assert(pg.len() > 0);
    assert(expr_list_size(object_version, pg) == expr_list_size(object_version, pg.drop_last()) + expr_size(
        object_version,
        pg.last(),
    ));
    assert(expr_list_size(object_version, pg) == expr_list_size(object_version, pa) + expr_size(object_version, p));
}

/// The parameters of a call; nothing for another expression.
pub open spec fn parameters_of(e: Expr) -> Seq<Expr> {
    match e {
        Expr::VirtualFunction { parameters, .. } => parameters@,
        Expr::LocalVirtualFunction { parameters, .. } => parameters@,
        Expr::FinalFunction { parameters, .. } => parameters@,
        Expr::LocalFinalFunction { parameters, .. } => parameters@,
        Expr::CallMath { parameters, .. } => parameters@,
        _ => Seq::empty(),
    }
}

/// The package references that a property pointer holds: its old index and
/// the owner of its field path.
pub open spec fn pointer_held(p: KismetPropertyPointer) -> Seq<i32> {
    let a = match p.old {
        Some(o) => seq![o.index],
        None => Seq::empty(),
    };
    let b = match p.new {
        Some(n) => seq![n.resolved_owner.index],
        None => Seq::empty(),
    };
    a + b
}

/// The index held by an optional index, if any.
pub open spec fn opt_index(o: Option<PackageIndex>) -> Seq<i32> {
    match o {
        Some(i) => seq![i.index],
        None => Seq::empty(),
    }
}

/// The expression held by an optional one, if any.
pub open spec fn opt_expr(o: Option<Box<Expr>>) -> Seq<Expr> {
    match o {
        Some(b) => seq![*b],
        None => Seq::empty(),
    }
}

/// The terms of the cases of a switch: each case's value and its result.
pub open spec fn case_terms(s: Seq<SwitchCase>) -> Seq<Expr>
    decreases s.len(),
{
    if s.len() == 0 {
        Seq::empty()
    } else {
        case_terms(s.drop_last()) + seq![s.last().case_index_value_term, s.last().case_term]
    }
}

/// The package references that an expression holds in its own fields (not
/// in the expressions within it): the class of a cast, the function of a
/// call, the value of an object constant, the struct of a struct constant,
/// the owners of its property pointers, and so on. A text constant, whose
/// parts the bytecode keeps apart from the object graph, holds none.
pub open spec fn expr_own_indices(e: Expr) -> Seq<i32> {
    match e {
        Expr::LocalVariable { variable } => pointer_held(variable),
        Expr::InstanceVariable { variable } => pointer_held(variable),
        Expr::DefaultVariable { variable } => pointer_held(variable),
        Expr::Let { value, .. } => pointer_held(value),
        Expr::ClassContext { r_value_pointer, .. } => pointer_held(r_value_pointer),
        Expr::MetaCast { class_ptr, .. } => seq![class_ptr.index],
        Expr::Context { r_value_pointer, .. } => pointer_held(r_value_pointer),
        Expr::ContextFailSilent { r_value_pointer, .. } => pointer_held(r_value_pointer),
        Expr::FinalFunction { stack_node, .. } => seq![stack_node.index],
        Expr::ObjectConst { value } => seq![value.index],
        Expr::DynamicCast { class_ptr, .. } => seq![class_ptr.index],
        Expr::StructConst { struct_value, .. } => seq![struct_value.index],
        Expr::SetArray { array_inner_prop, .. } => opt_index(array_inner_prop),
        Expr::PropertyConst { property } => pointer_held(property),
        Expr::SetConst { inner_property, .. } => pointer_held(inner_property),
        Expr::MapConst { key_property, value_property, .. } => pointer_held(key_property) + pointer_held(value_property),
        Expr::StructMemberContext { struct_member_expression, .. } => pointer_held(struct_member_expression),
        Expr::LocalFinalFunction { stack_node, .. } => seq![stack_node.index],
        Expr::LocalOutVariable { variable } => pointer_held(variable),
        Expr::ObjToInterfaceCast { class_ptr, .. } => seq![class_ptr.index],
        Expr::CrossInterfaceCast { class_ptr, .. } => seq![class_ptr.index],
        Expr::InterfaceToObjCast { class_ptr, .. } => seq![class_ptr.index],
        Expr::CallMulticastDelegate { stack_node, .. } => seq![stack_node.index],
        Expr::LetValueOnPersistentFrame { destination_property, .. } => pointer_held(destination_property),
        Expr::ArrayConst { inner_property, .. } => pointer_held(inner_property),
        Expr::CallMath { stack_node, .. } => seq![stack_node.index],
        Expr::ClassSparseDataVariable { variable } => pointer_held(variable),
        _ => Seq::empty(),
    }
}

/// The expressions within an expression: its operands, parameters, elements
/// and switch terms. The elements of a map constant, and the parts of a text
/// constant, are left out: the walk leaves them as they are.
pub open spec fn expr_parts(e: Expr) -> Seq<Expr> {
    match e {
        Expr::Return { return_expression } => seq![*return_expression],
        Expr::JumpIfNot { boolean_expression, .. } => seq![*boolean_expression],
        Expr::Assert { assert_expression, .. } => seq![*assert_expression],
        Expr::Let { variable, expression, .. } => seq![*variable, *expression],
        Expr::ClassContext { object_expression, context_expression, .. } => seq![*object_expression, *context_expression],
        Expr::MetaCast { target_expression, .. } => seq![*target_expression],
        Expr::LetBool { variable_expression, assignment_expression } => seq![*variable_expression, *assignment_expression],
        Expr::Skip { skip_expression, .. } => seq![*skip_expression],
        Expr::Context { object_expression, context_expression, .. } => seq![*object_expression, *context_expression],
        Expr::ContextFailSilent { object_expression, context_expression, .. } => seq![*object_expression, *context_expression],
        Expr::VirtualFunction { parameters, .. } => parameters@,
        Expr::FinalFunction { parameters, .. } => parameters@,
        Expr::DynamicCast { target_expression, .. } => seq![*target_expression],
        Expr::StructConst { value, .. } => value@,
        Expr::SetArray { assigning_property, elements, .. } => opt_expr(assigning_property) + elements@,
        Expr::PrimitiveCast { target, .. } => seq![*target],
        Expr::SetSet { set_property, elements } => seq![*set_property] + elements@,
        Expr::SetMap { map_property, elements } => seq![*map_property] + elements@,
        Expr::SetConst { elements, .. } => elements@,
        Expr::StructMemberContext { struct_expression, .. } => seq![*struct_expression],
        Expr::LetMulticastDelegate { variable_expression, assignment_expression } => seq![*variable_expression, *assignment_expression],
        Expr::LetDelegate { variable_expression, assignment_expression } => seq![*variable_expression, *assignment_expression],
        Expr::LocalVirtualFunction { parameters, .. } => parameters@,
        Expr::LocalFinalFunction { parameters, .. } => parameters@,
        Expr::ComputedJump { code_offset_expression } => seq![*code_offset_expression],
        Expr::PopExecutionFlowIfNot { boolean_expression } => seq![*boolean_expression],
        Expr::InterfaceContext { interface_value } => seq![*interface_value],
        Expr::ObjToInterfaceCast { target, .. } => seq![*target],
        Expr::CrossInterfaceCast { target, .. } => seq![*target],
        Expr::InterfaceToObjCast { target, .. } => seq![*target],
        Expr::AddMulticastDelegate { delegate, delegate_to_add } => seq![*delegate, *delegate_to_add],
        Expr::ClearMulticastDelegate { delegate_to_clear } => seq![*delegate_to_clear],
        Expr::LetObj { variable_expression, assignment_expression } => seq![*variable_expression, *assignment_expression],
        Expr::LetWeakObjPtr { variable_expression, assignment_expression } => seq![*variable_expression, *assignment_expression],
        Expr::BindDelegate { delegate, object_term, .. } => seq![*delegate, *object_term],
        Expr::RemoveMulticastDelegate { delegate, delegate_to_add } => seq![*delegate, *delegate_to_add],
        Expr::CallMulticastDelegate { parameters, delegate, .. } => parameters@ + seq![*delegate],
        Expr::LetValueOnPersistentFrame { assignment_expression, .. } => seq![*assignment_expression],
        Expr::ArrayConst { elements, .. } => elements@,
        Expr::SoftObjectConst { value } => seq![*value],
        Expr::CallMath { parameters, .. } => parameters@,
        Expr::SwitchValue { index_term, default_term, cases, .. } => seq![*index_term, *default_term] + case_terms(cases@),
        Expr::ArrayGetByRef { array_variable, array_index } => seq![*array_variable, *array_index],
        Expr::FieldPathConst { value } => seq![*value],
        _ => Seq::empty(),
    }
}

/// A reference held by an element of a list is among the list's references.
pub proof fn lemma_expr_list_covered(s: Seq<Expr>, p: Expr, i: i32)
    requires
        s.contains(p),
        expr_refs(p).contains(i),
    ensures
        expr_list_refs(s).contains(i),
    decreases s.len(),
{
    broadcast use lemma_add_contains;

    if s.last() != p {
        let k = choose|k: int| 0 <= k < s.len() && s[k] == p;
        assert(s.drop_last()[k] == p);
        lemma_expr_list_covered(s.drop_last(), p, i);
    }
}

/// A reference held by a term of a switch's cases is among the cases'
/// references.
pub proof fn lemma_case_terms_covered(s: Seq<SwitchCase>, p: Expr, i: i32)
    requires
        case_terms(s).contains(p),
        expr_refs(p).contains(i),
    ensures
        switch_case_list_refs(s).contains(i),
    decreases s.len(),
{
    broadcast use lemma_add_contains;

    if s.len() > 0 {
        let c = s.last();
        let terms = seq![c.case_index_value_term, c.case_term];
        assert(case_terms(s) == case_terms(s.drop_last()) + terms);
        assert(switch_case_list_refs(s) == switch_case_list_refs(s.drop_last()) + switch_case_refs(c));
        if p == c.case_index_value_term {
            assert(switch_case_refs(c).contains(i));
        } else if p == c.case_term {
            assert(switch_case_refs(c).contains(i));
        } else {
            assert(!terms.contains(p)) by {
                if terms.contains(p) {
                    let k = choose|k: int| 0 <= k < terms.len() && terms[k] == p;
                    assert(k == 0 || k == 1);
                }
            }
            lemma_case_terms_covered(s.drop_last(), p, i);
        }
    }
}

/// `on_kismet` shows its visitor every reference an expression holds: each
/// one of its own fields, and each one held by an expression within it.
/// A visitor that rewrites a reference therefore reaches all of them.
pub proof fn lemma_on_kismet_covers(e: Expr)
    ensures
        forall|i: i32| #[trigger] expr_own_indices(e).contains(i) ==> expr_refs(e).contains(i),
        forall|p: Expr, i: i32|
            #[trigger] expr_parts(e).contains(p) && #[trigger] expr_refs(p).contains(i) ==> expr_refs(e).contains(i),
{
    broadcast use lemma_add_contains;

    assert forall|p: Expr, i: i32| #[trigger] expr_parts(e).contains(p) && #[trigger] expr_refs(p).contains(i) implies expr_refs(
        e,
    ).contains(i) by {
        match e {
            Expr::Return { return_expression } => {
                assert(expr_parts(e) == seq![*return_expression]);
                assert(expr_refs(e) == expr_refs(*return_expression));
            },
            Expr::JumpIfNot { boolean_expression, .. } => {
                assert(expr_parts(e) == seq![*boolean_expression]);
                assert(expr_refs(e) == expr_refs(*boolean_expression));
            },
            Expr::Assert { assert_expression, .. } => {
                assert(expr_parts(e) == seq![*assert_expression]);
                assert(expr_refs(e) == expr_refs(*assert_expression));
            },
            Expr::Let { expression, value, variable } => {
                assert(expr_parts(e) == seq![*variable, *expression]);
                assert(expr_refs(e) == pointer_refs(value) + expr_refs(*variable) + expr_refs(*expression));
            },
            Expr::ClassContext { context_expression, object_expression, r_value_pointer, .. } => {
                assert(expr_parts(e) == seq![*object_expression, *context_expression]);
                assert(expr_refs(e) == expr_refs(*object_expression) + pointer_refs(r_value_pointer) + expr_refs(*context_expression));
            },
            Expr::MetaCast { class_ptr, target_expression } => {
                assert(expr_parts(e) == seq![*target_expression]);
                assert(expr_refs(e) == seq![class_ptr.index] + expr_refs(*target_expression));
            },
            Expr::LetBool { assignment_expression, variable_expression } => {
                assert(expr_parts(e) == seq![*variable_expression, *assignment_expression]);
                assert(expr_refs(e) == expr_refs(*variable_expression) + expr_refs(*assignment_expression));
            },
            Expr::Skip { skip_expression, .. } => {
                assert(expr_parts(e) == seq![*skip_expression]);
                assert(expr_refs(e) == expr_refs(*skip_expression));
            },
            Expr::Context { context_expression, object_expression, r_value_pointer, .. } => {
                assert(expr_parts(e) == seq![*object_expression, *context_expression]);
                assert(expr_refs(e) == expr_refs(*object_expression) + pointer_refs(r_value_pointer) + expr_refs(*context_expression));
            },
            Expr::ContextFailSilent { context_expression, object_expression, r_value_pointer, .. } => {
                assert(expr_parts(e) == seq![*object_expression, *context_expression]);
                assert(expr_refs(e) == expr_refs(*object_expression) + pointer_refs(r_value_pointer) + expr_refs(*context_expression));
            },
            Expr::VirtualFunction { parameters, .. } => {
                assert(expr_parts(e) == parameters@);
                assert(expr_refs(e) == expr_list_refs(parameters@));
                if parameters@.contains(p) {
                    lemma_expr_list_covered(parameters@, p, i);
                }
            },
            Expr::FinalFunction { parameters, stack_node } => {
                assert(expr_parts(e) == parameters@);
                assert(expr_refs(e) == seq![stack_node.index] + expr_list_refs(parameters@));
                if parameters@.contains(p) {
                    lemma_expr_list_covered(parameters@, p, i);
                }
            },
            Expr::DynamicCast { class_ptr, target_expression } => {
                assert(expr_parts(e) == seq![*target_expression]);
                assert(expr_refs(e) == seq![class_ptr.index] + expr_refs(*target_expression));
            },
            Expr::StructConst { struct_value, value, .. } => {
                assert(expr_parts(e) == value@);
                assert(expr_refs(e) == seq![struct_value.index] + expr_list_refs(value@));
                if value@.contains(p) {
                    lemma_expr_list_covered(value@, p, i);
                }
            },
            Expr::SetArray { array_inner_prop, assigning_property, elements } => {
                assert(expr_parts(e) == opt_expr(assigning_property) + elements@);
                assert(expr_refs(e) == expr_opt_refs(assigning_property) + index_opt_refs(array_inner_prop) + expr_list_refs(elements@));
                if elements@.contains(p) {
                    lemma_expr_list_covered(elements@, p, i);
                }
            },
            Expr::PrimitiveCast { target, .. } => {
                assert(expr_parts(e) == seq![*target]);
                assert(expr_refs(e) == expr_refs(*target));
            },
            Expr::SetSet { elements, set_property } => {
                assert(expr_parts(e) == seq![*set_property] + elements@);
                assert(expr_refs(e) == expr_refs(*set_property) + expr_list_refs(elements@));
                if elements@.contains(p) {
                    lemma_expr_list_covered(elements@, p, i);
                }
            },
            Expr::SetMap { elements, map_property } => {
                assert(expr_parts(e) == seq![*map_property] + elements@);
                assert(expr_refs(e) == expr_refs(*map_property) + expr_list_refs(elements@));
                if elements@.contains(p) {
                    lemma_expr_list_covered(elements@, p, i);
                }
            },
            Expr::SetConst { elements, inner_property } => {
                assert(expr_parts(e) == elements@);
                assert(expr_refs(e) == pointer_refs(inner_property) + expr_list_refs(elements@));
                if elements@.contains(p) {
                    lemma_expr_list_covered(elements@, p, i);
                }
            },
            Expr::StructMemberContext { struct_expression, struct_member_expression } => {
                assert(expr_parts(e) == seq![*struct_expression]);
                assert(expr_refs(e) == pointer_refs(struct_member_expression) + expr_refs(*struct_expression));
            },
            Expr::LetMulticastDelegate { assignment_expression, variable_expression } => {
                assert(expr_parts(e) == seq![*variable_expression, *assignment_expression]);
                assert(expr_refs(e) == expr_refs(*variable_expression) + expr_refs(*assignment_expression));
            },
            Expr::LetDelegate { assignment_expression, variable_expression } => {
                assert(expr_parts(e) == seq![*variable_expression, *assignment_expression]);
                assert(expr_refs(e) == expr_refs(*variable_expression) + expr_refs(*assignment_expression));
            },
            Expr::LocalVirtualFunction { parameters, .. } => {
                assert(expr_parts(e) == parameters@);
                assert(expr_refs(e) == expr_list_refs(parameters@));
                if parameters@.contains(p) {
                    lemma_expr_list_covered(parameters@, p, i);
                }
            },
            Expr::LocalFinalFunction { parameters, stack_node } => {
                assert(expr_parts(e) == parameters@);
                assert(expr_refs(e) == seq![stack_node.index] + expr_list_refs(parameters@));
                if parameters@.contains(p) {
                    lemma_expr_list_covered(parameters@, p, i);
                }
            },
            Expr::ComputedJump { code_offset_expression } => {
                assert(expr_parts(e) == seq![*code_offset_expression]);
                assert(expr_refs(e) == expr_refs(*code_offset_expression));
            },
            Expr::PopExecutionFlowIfNot { boolean_expression } => {
                assert(expr_parts(e) == seq![*boolean_expression]);
                assert(expr_refs(e) == expr_refs(*boolean_expression));
            },
            Expr::InterfaceContext { interface_value } => {
                assert(expr_parts(e) == seq![*interface_value]);
                assert(expr_refs(e) == expr_refs(*interface_value));
            },
            Expr::ObjToInterfaceCast { class_ptr, target } => {
                assert(expr_parts(e) == seq![*target]);
                assert(expr_refs(e) == seq![class_ptr.index] + expr_refs(*target));
            },
            Expr::CrossInterfaceCast { class_ptr, target } => {
                assert(expr_parts(e) == seq![*target]);
                assert(expr_refs(e) == seq![class_ptr.index] + expr_refs(*target));
            },
            Expr::InterfaceToObjCast { class_ptr, target } => {
                assert(expr_parts(e) == seq![*target]);
                assert(expr_refs(e) == seq![class_ptr.index] + expr_refs(*target));
            },
            Expr::AddMulticastDelegate { delegate, delegate_to_add } => {
                assert(expr_parts(e) == seq![*delegate, *delegate_to_add]);
                assert(expr_refs(e) == expr_refs(*delegate) + expr_refs(*delegate_to_add));
            },
            Expr::ClearMulticastDelegate { delegate_to_clear } => {
                assert(expr_parts(e) == seq![*delegate_to_clear]);
                assert(expr_refs(e) == expr_refs(*delegate_to_clear));
            },
            Expr::LetObj { assignment_expression, variable_expression } => {
                assert(expr_parts(e) == seq![*variable_expression, *assignment_expression]);
                assert(expr_refs(e) == expr_refs(*variable_expression) + expr_refs(*assignment_expression));
            },
            Expr::LetWeakObjPtr { assignment_expression, variable_expression } => {
                assert(expr_parts(e) == seq![*variable_expression, *assignment_expression]);
                assert(expr_refs(e) == expr_refs(*variable_expression) + expr_refs(*assignment_expression));
            },
            Expr::BindDelegate { delegate, object_term, .. } => {
                assert(expr_parts(e) == seq![*delegate, *object_term]);
                assert(expr_refs(e) == expr_refs(*delegate) + expr_refs(*object_term));
            },
            Expr::RemoveMulticastDelegate { delegate, delegate_to_add } => {
                assert(expr_parts(e) == seq![*delegate, *delegate_to_add]);
                assert(expr_refs(e) == expr_refs(*delegate) + expr_refs(*delegate_to_add));
            },
            Expr::CallMulticastDelegate { delegate, parameters, stack_node } => {
                assert(expr_parts(e) == parameters@ + seq![*delegate]);
                assert(expr_refs(e) == seq![stack_node.index] + expr_list_refs(parameters@) + expr_refs(*delegate));
                if parameters@.contains(p) {
                    lemma_expr_list_covered(parameters@, p, i);
                }
            },
            Expr::LetValueOnPersistentFrame { assignment_expression, destination_property } => {
                assert(expr_parts(e) == seq![*assignment_expression]);
                assert(expr_refs(e) == pointer_refs(destination_property) + expr_refs(*assignment_expression));
            },
            Expr::ArrayConst { elements, inner_property } => {
                assert(expr_parts(e) == elements@);
                assert(expr_refs(e) == pointer_refs(inner_property) + expr_list_refs(elements@));
                if elements@.contains(p) {
                    lemma_expr_list_covered(elements@, p, i);
                }
            },
            Expr::SoftObjectConst { value } => {
                assert(expr_parts(e) == seq![*value]);
                assert(expr_refs(e) == expr_refs(*value));
            },
            Expr::CallMath { parameters, stack_node } => {
                assert(expr_parts(e) == parameters@);
                assert(expr_refs(e) == seq![stack_node.index] + expr_list_refs(parameters@));
                if parameters@.contains(p) {
                    lemma_expr_list_covered(parameters@, p, i);
                }
            },
            Expr::SwitchValue { cases, default_term, index_term, .. } => {
                assert(expr_parts(e) == seq![*index_term, *default_term] + case_terms(cases@));
                assert(expr_refs(e) == expr_refs(*index_term) + expr_refs(*default_term) + switch_case_list_refs(cases@));
                if case_terms(cases@).contains(p) {
                    lemma_case_terms_covered(cases@, p, i);
                }
            },
            Expr::ArrayGetByRef { array_index, array_variable } => {
                assert(expr_parts(e) == seq![*array_variable, *array_index]);
                assert(expr_refs(e) == expr_refs(*array_variable) + expr_refs(*array_index));
            },
            Expr::FieldPathConst { value } => {
                assert(expr_parts(e) == seq![*value]);
                assert(expr_refs(e) == expr_refs(*value));
            },
            _ => {},
        }
    }
}

/// The byte sizes of the Kismet bytecode format, for every object version
/// `v`: one token byte, then each operand. A variable or an out parameter is
/// a property pointer (8 bytes); a jump, a pushed address or a skip offset a
/// 4-byte offset; an integer or float constant 4 bytes, an object constant an
/// 8-byte index, a name constant a 12-byte name whatever it spells, a byte
/// constant 1 byte, a 64-bit constant 8 bytes; the operand-less tokens take
/// just their byte; a vector or rotation takes 12 bytes of floats, 24 of
/// doubles from large world coordinates (object version 1004) on, a
/// transform 40 or 80; a cast adds its 8-byte class to its operand, an
/// assignment its 8-byte pointer to its two operands, a context its 4-byte
/// skip offset and 8-byte pointer to its object and its call, a conditional
/// jump its offset to its condition, a bind its 12-byte function name to its
/// two operands, a struct constant its 8-byte struct and 4-byte size and an
/// array constant its 8-byte pointer and 4-byte count to its elements and
/// their end token, a set or map its 4-byte count and end token, a switch
/// its 2-byte size and 4-byte end offset, and a primitive cast its 1-byte
/// kind (and an 8-byte interface class for an object-to-interface cast).
pub proof fn lemma_fixed_sizes(v: i32)
    ensures
        forall|x: KismetPropertyPointer| #[trigger] expr_size(v, Expr::LocalVariable { variable: x }) == 9,
        forall|x: KismetPropertyPointer| #[trigger] expr_size(v, Expr::InstanceVariable { variable: x }) == 9,
        forall|x: KismetPropertyPointer| #[trigger] expr_size(v, Expr::DefaultVariable { variable: x }) == 9,
        forall|x: KismetPropertyPointer| #[trigger] expr_size(v, Expr::LocalOutVariable { variable: x }) == 9,
        forall|x: u32| #[trigger] expr_size(v, Expr::Jump { code_offset: x }) == 5,
        forall|x: u32| #[trigger] expr_size(v, Expr::PushExecutionFlow { pushing_address: x }) == 5,
        forall|x: u32| #[trigger] expr_size(v, Expr::SkipOffsetConst { value: x }) == 5,
        forall|x: i32| #[trigger] expr_size(v, Expr::IntConst { value: x }) == 5,
        forall|x: u32| #[trigger] expr_size(v, Expr::FloatConst { bits: x }) == 5,
        forall|x: PackageIndex| #[trigger] expr_size(v, Expr::ObjectConst { value: x }) == 9,
        forall|x: String| #[trigger] expr_size(v, Expr::NameConst { value: x }) == 13,
        forall|x: u8| #[trigger] expr_size(v, Expr::ByteConst { value: x }) == 2,
        forall|x: i64| #[trigger] expr_size(v, Expr::Int64Const { value: x }) == 9,
        forall|x: u64| #[trigger] expr_size(v, Expr::UInt64Const { value: x }) == 9,
        expr_size(v, Expr::Nothing) == 1,
        expr_size(v, Expr::SelfObject) == 1,
        expr_size(v, Expr::True) == 1,
        expr_size(v, Expr::False) == 1,
        expr_size(v, Expr::NoObject) == 1,
        expr_size(v, Expr::PopExecutionFlow) == 1,
        expr_size(v, Expr::EndOfScript) == 1,
        expr_size(v, Expr::WireTracepoint) == 1,
        expr_size(v, Expr::Tracepoint) == 1,
        expr_size(v, Expr::VectorConst) == (if v >= 1004 { 25int } else { 13int }),
        expr_size(v, Expr::RotationConst) == (if v >= 1004 { 25int } else { 13int }),
        expr_size(v, Expr::TransformConst) == (if v >= 1004 { 81int } else { 41int }),
        forall|x: Box<Expr>| #[trigger] expr_size(v, Expr::Return { return_expression: x }) == 1 + expr_size(v, *x),
        forall|c: PackageIndex, x: Box<Expr>| #[trigger] expr_size(v, Expr::DynamicCast { class_ptr: c, target_expression: x }) == 9 + expr_size(v, *x),
        forall|c: PackageIndex, x: Box<Expr>| #[trigger] expr_size(v, Expr::MetaCast { class_ptr: c, target_expression: x }) == 9 + expr_size(v, *x),
        forall|c: PackageIndex, x: Box<Expr>| #[trigger] expr_size(v, Expr::ObjToInterfaceCast { class_ptr: c, target: x }) == 9 + expr_size(v, *x),
        forall|c: PackageIndex, x: Box<Expr>| #[trigger] expr_size(v, Expr::InterfaceToObjCast { class_ptr: c, target: x }) == 9 + expr_size(v, *x),
        forall|p: KismetPropertyPointer, a: Box<Expr>, b: Box<Expr>| #[trigger] expr_size(v, Expr::Let { value: p, variable: a, expression: b }) == 9 + expr_size(v, *a) + expr_size(v, *b),
        forall|a: Box<Expr>, b: Box<Expr>| #[trigger] expr_size(v, Expr::LetBool { variable_expression: a, assignment_expression: b }) == 1 + expr_size(v, *a) + expr_size(v, *b),
        forall|a: Box<Expr>, b: Box<Expr>| #[trigger] expr_size(v, Expr::LetObj { variable_expression: a, assignment_expression: b }) == 1 + expr_size(v, *a) + expr_size(v, *b),
        forall|a: Box<Expr>, o: u32, p: KismetPropertyPointer, b: Box<Expr>| #[trigger] expr_size(v, Expr::Context { object_expression: a, offset: o, r_value_pointer: p, context_expression: b }) == 13 + expr_size(v, *a) + expr_size(v, *b),
        forall|x: Box<Expr>| #[trigger] expr_size(v, Expr::InterfaceContext { interface_value: x }) == 1 + expr_size(v, *x),
        forall|o: u32, x: Box<Expr>| #[trigger] expr_size(v, Expr::JumpIfNot { code_offset: o, boolean_expression: x }) == 5 + expr_size(v, *x),
        forall|x: Box<Expr>| #[trigger] expr_size(v, Expr::PopExecutionFlowIfNot { boolean_expression: x }) == 1 + expr_size(v, *x),
        forall|x: Box<Expr>| #[trigger] expr_size(v, Expr::ComputedJump { code_offset_expression: x }) == 1 + expr_size(v, *x),
        forall|x: Box<Expr>| #[trigger] expr_size(v, Expr::SoftObjectConst { value: x }) == 1 + expr_size(v, *x),
        forall|x: Box<Expr>| #[trigger] expr_size(v, Expr::ClearMulticastDelegate { delegate_to_clear: x }) == 1 + expr_size(v, *x),
        forall|a: Box<Expr>, b: Box<Expr>| #[trigger] expr_size(v, Expr::AddMulticastDelegate { delegate: a, delegate_to_add: b }) == 1 + expr_size(v, *a) + expr_size(v, *b),
        forall|a: Box<Expr>, b: Box<Expr>| #[trigger] expr_size(v, Expr::RemoveMulticastDelegate { delegate: a, delegate_to_add: b }) == 1 + expr_size(v, *a) + expr_size(v, *b),
        forall|a: Box<Expr>, b: Box<Expr>| #[trigger] expr_size(v, Expr::LetWeakObjPtr { variable_expression: a, assignment_expression: b }) == 1 + expr_size(v, *a) + expr_size(v, *b),
        forall|a: Box<Expr>, b: Box<Expr>| #[trigger] expr_size(v, Expr::ArrayGetByRef { array_variable: a, array_index: b }) == 1 + expr_size(v, *a) + expr_size(v, *b),
        forall|n: String, a: Box<Expr>, b: Box<Expr>| #[trigger] expr_size(v, Expr::BindDelegate { function_name: n, delegate: a, object_term: b }) == 13 + expr_size(v, *a) + expr_size(v, *b),
        forall|p: KismetPropertyPointer, x: Box<Expr>| #[trigger] expr_size(v, Expr::StructMemberContext { struct_member_expression: p, struct_expression: x }) == 9 + expr_size(v, *x),
        forall|p: KismetPropertyPointer, x: Box<Expr>| #[trigger] expr_size(v, Expr::LetValueOnPersistentFrame { destination_property: p, assignment_expression: x }) == 9 + expr_size(v, *x),
        forall|c: CastToken, x: Box<Expr>| #[trigger] expr_size(v, Expr::PrimitiveCast { conversion_type: c, target: x }) == (if c == CastToken::ObjectToInterface { 10 + expr_size(v, *x) } else { 2 + expr_size(v, *x) }),
        forall|c: PackageIndex, n: i32, xs: Vec<Expr>| #[trigger] expr_size(v, Expr::StructConst { struct_value: c, struct_size: n, value: xs }) == 14 + expr_list_size(v, xs@),
        forall|p: KismetPropertyPointer, xs: Vec<Expr>| #[trigger] expr_size(v, Expr::ArrayConst { inner_property: p, elements: xs }) == 14 + expr_list_size(v, xs@),
        forall|x: Box<Expr>, xs: Vec<Expr>| #[trigger] expr_size(v, Expr::SetSet { set_property: x, elements: xs }) == 6 + expr_size(v, *x) + expr_list_size(v, xs@),
        forall|x: Box<Expr>, xs: Vec<Expr>| #[trigger] expr_size(v, Expr::SetMap { map_property: x, elements: xs }) == 6 + expr_size(v, *x) + expr_list_size(v, xs@),
        forall|o: Option<Box<Expr>>, c: Option<PackageIndex>, xs: Vec<Expr>| #[trigger] expr_size(v, Expr::SetArray { assigning_property: o, array_inner_prop: c, elements: xs }) == 2 + expr_opt_size(v, o) + expr_list_size(v, xs@),
        forall|s: PackageIndex, ps: Vec<Expr>, d: Box<Expr>| #[trigger] expr_size(v, Expr::CallMulticastDelegate { stack_node: s, parameters: ps, delegate: d }) == 10 + expr_size(v, *d) + expr_list_size(v, ps@),
        forall|o: u32, x: Box<Expr>, d: Box<Expr>, cs: Vec<SwitchCase>| #[trigger] expr_size(v, Expr::SwitchValue { end_goto_offset: o, index_term: x, default_term: d, cases: cs }) == 7 + expr_size(v, *x) + case_list_size(v, cs@) + expr_size(v, *d),
{
}

} // verus!
