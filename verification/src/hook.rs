//! Hooking a blueprint function: the bytecode that, in place of a function's
//! own, gathers the hook objects of a folder, calls each hook before the
//! original function, calls the original, and calls each hook after it.
use vstd::prelude::*;
use vstd::string::StringExecFns;
use vstd::utf8::encode_utf8;
use crate::export::{BaseExport, Export, ExportData, StructExport};
use crate::fprop::{FGenericProperty, FProperty, fprop_refs};
use crate::index::{PackageIndex, index_opt_refs};
use crate::strings::copy_opt_string;
use crate::kismet::{
    CastToken, Expr, FieldPath, KismetPropertyPointer, SwitchCase, expr_list_refs, expr_list_size,
    expr_opt_refs, expr_refs, pointer_refs,
    expr_list_sized, expr_opt_size, expr_opt_sized, expr_size, expr_sized, size, size_list,
};
use crate::transplant::{
    Asset, Import, ImportKey, first_match, import_at, key_of, keys, lemma_first_key, lemma_first_key_append,
    lemma_first_key_at,
};

verus! {

/// Whether every `Context` within `e` records, as its offset, the size of
/// its context expression.
pub open spec fn contexts_sized(object_version: i32, e: Expr) -> bool
    decreases e,
{
    match e {
        Expr::Return { return_expression } => contexts_sized(object_version, *return_expression),
        Expr::JumpIfNot { boolean_expression, .. } => contexts_sized(object_version, *boolean_expression),
        Expr::Assert { assert_expression, .. } => contexts_sized(object_version, *assert_expression),
        Expr::Let { variable, expression, .. } => contexts_sized(object_version, *variable) && contexts_sized(object_version, *expression),
        Expr::ClassContext { object_expression, context_expression, .. } => contexts_sized(object_version, *object_expression) && contexts_sized(object_version, *context_expression),
        Expr::MetaCast { target_expression, .. } => contexts_sized(object_version, *target_expression),
        Expr::LetBool { variable_expression, assignment_expression } => contexts_sized(object_version, *variable_expression) && contexts_sized(object_version, *assignment_expression),
        Expr::Skip { skip_expression, .. } => contexts_sized(object_version, *skip_expression),
        Expr::Context { object_expression, offset, context_expression, .. } => offset == expr_size(object_version, *context_expression) && contexts_sized(object_version, *object_expression) && contexts_sized(object_version, *context_expression),
        Expr::ContextFailSilent { object_expression, context_expression, .. } => contexts_sized(object_version, *object_expression) && contexts_sized(object_version, *context_expression),
        Expr::VirtualFunction { parameters, .. } => expr_list_contexts_sized(object_version, parameters@),
        Expr::FinalFunction { parameters, .. } => expr_list_contexts_sized(object_version, parameters@),
        Expr::TextConst { localized_source, localized_key, localized_namespace, invariant_literal_string, literal_string, string_table_id, string_table_key, .. } => expr_opt_contexts_sized(object_version, localized_source) && expr_opt_contexts_sized(object_version, localized_key) && expr_opt_contexts_sized(object_version, localized_namespace) && expr_opt_contexts_sized(object_version, invariant_literal_string) && expr_opt_contexts_sized(object_version, literal_string) && expr_opt_contexts_sized(object_version, string_table_id) && expr_opt_contexts_sized(object_version, string_table_key),
        Expr::DynamicCast { target_expression, .. } => contexts_sized(object_version, *target_expression),
        Expr::StructConst { value, .. } => expr_list_contexts_sized(object_version, value@),
        Expr::SetArray { assigning_property, elements, .. } => expr_opt_contexts_sized(object_version, assigning_property) && expr_list_contexts_sized(object_version, elements@),
        Expr::PrimitiveCast { target, .. } => contexts_sized(object_version, *target),
        Expr::SetSet { set_property, elements } => contexts_sized(object_version, *set_property) && expr_list_contexts_sized(object_version, elements@),
        Expr::SetMap { map_property, elements } => contexts_sized(object_version, *map_property) && expr_list_contexts_sized(object_version, elements@),
        Expr::SetConst { elements, .. } => expr_list_contexts_sized(object_version, elements@),
        Expr::MapConst { elements, .. } => expr_list_contexts_sized(object_version, elements@),
        Expr::StructMemberContext { struct_expression, .. } => contexts_sized(object_version, *struct_expression),
        Expr::LetMulticastDelegate { variable_expression, assignment_expression } => contexts_sized(object_version, *variable_expression) && contexts_sized(object_version, *assignment_expression),
        Expr::LetDelegate { variable_expression, assignment_expression } => contexts_sized(object_version, *variable_expression) && contexts_sized(object_version, *assignment_expression),
        Expr::LocalVirtualFunction { parameters, .. } => expr_list_contexts_sized(object_version, parameters@),
        Expr::LocalFinalFunction { parameters, .. } => expr_list_contexts_sized(object_version, parameters@),
        Expr::ComputedJump { code_offset_expression } => contexts_sized(object_version, *code_offset_expression),
        Expr::PopExecutionFlowIfNot { boolean_expression } => contexts_sized(object_version, *boolean_expression),
        Expr::InterfaceContext { interface_value } => contexts_sized(object_version, *interface_value),
        Expr::ObjToInterfaceCast { target, .. } => contexts_sized(object_version, *target),
        Expr::CrossInterfaceCast { target, .. } => contexts_sized(object_version, *target),
        Expr::InterfaceToObjCast { target, .. } => contexts_sized(object_version, *target),
        Expr::AddMulticastDelegate { delegate, delegate_to_add } => contexts_sized(object_version, *delegate) && contexts_sized(object_version, *delegate_to_add),
        Expr::ClearMulticastDelegate { delegate_to_clear } => contexts_sized(object_version, *delegate_to_clear),
        Expr::LetObj { variable_expression, assignment_expression } => contexts_sized(object_version, *variable_expression) && contexts_sized(object_version, *assignment_expression),
        Expr::LetWeakObjPtr { variable_expression, assignment_expression } => contexts_sized(object_version, *variable_expression) && contexts_sized(object_version, *assignment_expression),
        Expr::BindDelegate { delegate, object_term, .. } => contexts_sized(object_version, *delegate) && contexts_sized(object_version, *object_term),
        Expr::RemoveMulticastDelegate { delegate, delegate_to_add } => contexts_sized(object_version, *delegate) && contexts_sized(object_version, *delegate_to_add),
        Expr::CallMulticastDelegate { parameters, delegate, .. } => expr_list_contexts_sized(object_version, parameters@) && contexts_sized(object_version, *delegate),
        Expr::LetValueOnPersistentFrame { assignment_expression, .. } => contexts_sized(object_version, *assignment_expression),
        Expr::ArrayConst { elements, .. } => expr_list_contexts_sized(object_version, elements@),
        Expr::SoftObjectConst { value } => contexts_sized(object_version, *value),
        Expr::CallMath { parameters, .. } => expr_list_contexts_sized(object_version, parameters@),
        Expr::SwitchValue { index_term, default_term, cases, .. } => contexts_sized(object_version, *index_term) && contexts_sized(object_version, *default_term) && case_list_contexts_sized(object_version, cases@),
        Expr::ArrayGetByRef { array_variable, array_index } => contexts_sized(object_version, *array_variable) && contexts_sized(object_version, *array_index),
        Expr::FieldPathConst { value } => contexts_sized(object_version, *value),
        _ => true,
    }
}

/// Whether every `Context` within an optional expression records the size of
/// its context expression.
pub open spec fn expr_opt_contexts_sized(object_version: i32, o: Option<Box<Expr>>) -> bool
    decreases o,
{
    match o {
        Some(e) => contexts_sized(object_version, *e),
        None => true,
    }
}

/// Whether every `Context` within a list of expressions records the size of
/// its context expression.
pub open spec fn expr_list_contexts_sized(object_version: i32, s: Seq<Expr>) -> bool
    decreases s,
{
    s.len() > 0 ==> expr_list_contexts_sized(object_version, s.drop_last()) && contexts_sized(
        object_version,
        s.last(),
    )
}

/// Whether every `Context` within the cases of a switch records the size of
/// its context expression.
pub open spec fn case_list_contexts_sized(object_version: i32, s: Seq<SwitchCase>) -> bool
    decreases s,
{
    s.len() > 0 ==> case_list_contexts_sized(object_version, s.drop_last()) && contexts_sized(
        object_version,
        s.last().case_index_value_term,
    ) && contexts_sized(object_version, s.last().case_term)
}


/// `EObjectFlags::RF_PUBLIC` of unreal_asset, as bits; its source defines it as `0x0000_0001`.
#[verifier::external_body]
fn rf_public() -> (v: u32)
    ensures
        v == 0x0000_0001,
{
    unreal_asset::flags::EObjectFlags::RF_PUBLIC.bits()
}

/// `EObjectFlags::RF_LOAD_COMPLETED` of unreal_asset, as bits; its source defines it as `0x0020_0000`.
#[verifier::external_body]
fn rf_load_completed() -> (v: u32)
    ensures
        v == 0x0020_0000,
{
    unreal_asset::flags::EObjectFlags::RF_LOAD_COMPLETED.bits()
}

/// `EPropertyFlags::CPF_NONE` of unreal_asset, as bits; its source defines it as `0`.
#[verifier::external_body]
fn cpf_none() -> (v: u64)
    ensures
        v == 0,
{
    unreal_asset::flags::EPropertyFlags::CPF_NONE.bits()
}

/// `EPropertyFlags::CPF_EDIT` of unreal_asset, as bits; its source defines it as `0x0000_0000_0000_0001`.
#[verifier::external_body]
fn cpf_edit() -> (v: u64)
    ensures
        v == 0x0000_0000_0000_0001,
{
    unreal_asset::flags::EPropertyFlags::CPF_EDIT.bits()
}

/// `EPropertyFlags::CPF_CONST_PARM` of unreal_asset, as bits; its source defines it as `0x0000_0000_0000_0002`.
#[verifier::external_body]
fn cpf_const_parm() -> (v: u64)
    ensures
        v == 0x0000_0000_0000_0002,
{
    unreal_asset::flags::EPropertyFlags::CPF_CONST_PARM.bits()
}

/// `EPropertyFlags::CPF_BLUEPRINT_VISIBLE` of unreal_asset, as bits; its source defines it as `0x0000_0000_0000_0004`.
#[verifier::external_body]
fn cpf_blueprint_visible() -> (v: u64)
    ensures
        v == 0x0000_0000_0000_0004,
{
    unreal_asset::flags::EPropertyFlags::CPF_BLUEPRINT_VISIBLE.bits()
}

/// `EPropertyFlags::CPF_DISABLE_EDIT_ON_INSTANCE` of unreal_asset, as bits; its source defines it as `0x0000_0000_0001_0000`.
#[verifier::external_body]
fn cpf_disable_edit_on_instance() -> (v: u64)
    ensures
        v == 0x0000_0000_0001_0000,
{
    unreal_asset::flags::EPropertyFlags::CPF_DISABLE_EDIT_ON_INSTANCE.bits()
}

/// `EPropertyFlags::CPF_REFERENCE_PARM` of unreal_asset, as bits; its source defines it as `0x0000_0000_0800_0000`.
#[verifier::external_body]
fn cpf_reference_parm() -> (v: u64)
    ensures
        v == 0x0000_0000_0800_0000,
{
    unreal_asset::flags::EPropertyFlags::CPF_REFERENCE_PARM.bits()
}

/// `EPropertyFlags::CPF_U_OBJECT_WRAPPER` of unreal_asset, as bits; its source defines it as `0x0004_0000_0000_0000`.
#[verifier::external_body]
fn cpf_u_object_wrapper() -> (v: u64)
    ensures
        v == 0x0004_0000_0000_0000,
{
    unreal_asset::flags::EPropertyFlags::CPF_U_OBJECT_WRAPPER.bits()
}

/// `EArrayDim::TArray` of unreal_asset, which is `repr(i32)` and set to 1, as its number; its source defines it as `1`.
#[verifier::external_body]
fn array_dim_t_array() -> (v: i32)
    ensures
        v == 1,
{
    i32::from(unreal_asset::enums::EArrayDim::TArray)
}

/// `ELifetimeCondition::CondNone` of unreal_asset, which is `repr(u8)` and set to 0, as its number; its source defines it as `0`.
#[verifier::external_body]
fn cond_none() -> (v: u8)
    ensures
        v == 0,
{
    u8::from(unreal_asset::enums::ELifetimeCondition::CondNone)
}

/// Whether an expression has a known size, and every `Context` within it
/// records the size of its context expression.
pub open spec fn well_built(v: i32, e: Expr) -> bool {
    expr_sized(e) && contexts_sized(v, e)
}

/// Whether every expression of a list is well built.
pub open spec fn list_well_built(v: i32, s: Seq<Expr>) -> bool {
    expr_list_sized(s) && expr_list_contexts_sized(v, s)
}

/// Whether `p` points, by field path, at the property `name` of `owner`.
pub open spec fn field_is(p: KismetPropertyPointer, name: Seq<char>, owner: i32) -> bool {
    &&& p.old is None
    &&& p.new matches Some(f) && f.path@.len() == 1 && f.path@[0]@ == name && f.resolved_owner.index == owner
}

/// Whether `p` points at no property.
pub open spec fn field_none(p: KismetPropertyPointer) -> bool {
    &&& p.old is None
    &&& p.new matches Some(f) && f.path@.len() == 0 && f.resolved_owner.index == 0
}

/// Whether `e` is the local variable `name` of `owner`.
pub open spec fn local_is(e: Expr, name: Seq<char>, owner: i32) -> bool {
    e matches Expr::LocalVariable { variable } && field_is(variable, name, owner)
}

/// Whether `e` is the instance variable `name` of `owner`.
pub open spec fn instance_is(e: Expr, name: Seq<char>, owner: i32) -> bool {
    e matches Expr::InstanceVariable { variable } && field_is(variable, name, owner)
}

/// Whether the reference `r` names, among `imports`, an import with the key
/// `key`.
pub open spec fn names_import(imports: Seq<Import>, r: i32, key: ImportKey) -> bool {
    import_at(imports, r) matches Some(i) && key_of(i) == key
}

/// An import named stays named as imports are added.
pub broadcast proof fn lemma_names_import_more(a: Seq<Import>, b: Seq<Import>, r: i32, key: ImportKey)
    requires
        #[trigger] names_import(a, r, key),
        #[trigger] prefix_of(a, b),
    ensures
        names_import(b, r, key),
{
    assert(b[-(r as int) - 1] == b.take(a.len() as int)[-(r as int) - 1]);
}

/// The key of a function of `/Script/CoreUObject`'s class `Function` named
/// `name`.
pub open spec fn function_key(name: Seq<char>) -> ImportKey {
    ("/Script/CoreUObject"@, "Function"@, name)
}

/// Whether a reference that a hook of the function `this`, a member of the
/// class `class`, writes is one it may write: nothing, the function itself,
/// the class, or one of the first `imports` imports.
pub open spec fn allowed_ref(r: i32, this: int, class: int, imports: int) -> bool {
    r == 0 || r == this || r == class || (r < 0 && -(r as int) - 1 < imports)
}

/// Whether every reference of `s` is one a hook may write.
pub open spec fn refs_allowed(s: Seq<i32>, this: int, class: int, imports: int) -> bool {
    forall|i: int| 0 <= i < s.len() ==> allowed_ref(#[trigger] s[i], this, class, imports)
}

/// References allowed in turn are allowed together.
pub broadcast proof fn lemma_allowed_append(a: Seq<i32>, b: Seq<i32>, this: int, class: int, imports: int)
    ensures
        #[trigger] refs_allowed(a + b, this, class, imports) == (refs_allowed(a, this, class, imports)
            && refs_allowed(b, this, class, imports)),
{
    if refs_allowed(a + b, this, class, imports) {
        assert forall|i: int| 0 <= i < a.len() implies allowed_ref(#[trigger] a[i], this, class, imports) by {
            assert((a + b)[i] == a[i]);
        }
        assert forall|i: int| 0 <= i < b.len() implies allowed_ref(#[trigger] b[i], this, class, imports) by {
            assert((a + b)[a.len() + i] == b[i]);
        }
    }
}

/// One more reference is allowed where it and the others are.
pub broadcast proof fn lemma_allowed_push(s: Seq<i32>, r: i32, this: int, class: int, imports: int)
    ensures
        #[trigger] refs_allowed(s.push(r), this, class, imports) == (refs_allowed(s, this, class, imports)
            && allowed_ref(r, this, class, imports)),
{
    if refs_allowed(s.push(r), this, class, imports) {
        assert forall|i: int| 0 <= i < s.len() implies allowed_ref(#[trigger] s[i], this, class, imports) by {
            assert(s.push(r)[i] == s[i]);
        }
        assert(s.push(r)[s.len() as int] == r);
    }
}

/// Whether `s` refers to nothing a hook may not write wherever `refs` does
/// not.
pub open spec fn refers_within(s: Seq<i32>, refs: Seq<i32>) -> bool {
    &&& forall|this: int, class: int, imports: int|
        refs_allowed(refs, this, class, imports) ==> #[trigger] refs_allowed(s, this, class, imports)
    &&& forall|deps: Seq<PackageIndex>, this: int|
        refs_in_deps(refs, deps, this) ==> #[trigger] refs_in_deps(s, deps, this)
}

/// Whether every reference of `s` to an import, but `this`, is among `deps`.
pub open spec fn refs_in_deps(s: Seq<i32>, deps: Seq<PackageIndex>, this: int) -> bool {
    forall|i: int| 0 <= i < s.len() && #[trigger] s[i] < 0 && s[i] != this ==> deps_hold(deps, s[i])
}

/// References among `deps` in turn are among them together.
pub broadcast proof fn lemma_deps_append(a: Seq<i32>, b: Seq<i32>, deps: Seq<PackageIndex>, this: int)
    ensures
        #[trigger] refs_in_deps(a + b, deps, this) == (refs_in_deps(a, deps, this) && refs_in_deps(b, deps, this)),
{
    if refs_in_deps(a + b, deps, this) {
        assert forall|i: int| 0 <= i < a.len() && #[trigger] a[i] < 0 && a[i] != this implies deps_hold(deps, a[i]) by {
            assert((a + b)[i] == a[i]);
        }
        assert forall|i: int| 0 <= i < b.len() && #[trigger] b[i] < 0 && b[i] != this implies deps_hold(deps, b[i]) by {
            assert((a + b)[a.len() + i] == b[i]);
        }
    }
    if refs_in_deps(a, deps, this) && refs_in_deps(b, deps, this) {
        assert forall|i: int| 0 <= i < (a + b).len() && #[trigger] (a + b)[i] < 0 && (a + b)[i] != this implies deps_hold(
            deps,
            (a + b)[i],
        ) by {
            if i < a.len() {
                assert((a + b)[i] == a[i]);
            } else {
                assert((a + b)[i] == b[i - a.len()]);
            }
        }
    }
}

/// One more reference is among `deps` where it and the others are.
pub broadcast proof fn lemma_deps_push(s: Seq<i32>, r: i32, deps: Seq<PackageIndex>, this: int)
    ensures
        #[trigger] refs_in_deps(s.push(r), deps, this) == (refs_in_deps(s, deps, this) && (r < 0 && r != this
            ==> deps_hold(deps, r))),
{
    if refs_in_deps(s.push(r), deps, this) {
        assert forall|i: int| 0 <= i < s.len() && #[trigger] s[i] < 0 && s[i] != this implies deps_hold(deps, s[i]) by {
            assert(s.push(r)[i] == s[i]);
        }
        assert(s.push(r)[s.len() as int] == r);
    }
    if refs_in_deps(s, deps, this) && (r < 0 && r != this ==> deps_hold(deps, r)) {
        assert forall|i: int| 0 <= i < s.push(r).len() && #[trigger] s.push(r)[i] < 0 && s.push(r)[i] != this implies deps_hold(
            deps,
            s.push(r)[i],
        ) by {
            if i < s.len() {
                assert(s.push(r)[i] == s[i]);
            }
        }
    }
}

/// No reference is among any dependencies.
pub broadcast proof fn lemma_deps_none(deps: Seq<PackageIndex>, this: int)
    ensures
        #[trigger] refs_in_deps(Seq::<i32>::empty(), deps, this),
{
}

/// A dependency stays one as dependencies are added.
pub broadcast proof fn lemma_deps_hold_more(a: Seq<PackageIndex>, b: Seq<PackageIndex>, r: i32)
    requires
        #[trigger] deps_hold(a, r),
        #[trigger] prefix_of(a, b),
    ensures
        deps_hold(b, r),
{
    let j = choose|j: int| 0 <= j < a.len() && (#[trigger] a[j]).index == r;
    assert(b[j] == b.take(a.len() as int)[j]);
}

/// References among dependencies stay so as dependencies are added.
pub proof fn lemma_deps_more(s: Seq<i32>, a: Seq<PackageIndex>, b: Seq<PackageIndex>, this: int)
    requires
        refs_in_deps(s, a, this),
        prefix_of(a, b),
    ensures
        refs_in_deps(s, b, this),
{
    assert forall|i: int| 0 <= i < s.len() && #[trigger] s[i] < 0 && s[i] != this implies deps_hold(b, s[i]) by {
        lemma_deps_hold_more(a, b, s[i]);
    }
}

/// No reference is always allowed.
pub broadcast proof fn lemma_allowed_none(this: int, class: int, imports: int)
    ensures
        #[trigger] refs_allowed(Seq::<i32>::empty(), this, class, imports),
{
}

/// How allowed references combine.
pub broadcast group group_allowed {
    lemma_allowed_append,
    lemma_allowed_push,
    lemma_allowed_none,
    lemma_deps_append,
    lemma_deps_push,
    lemma_deps_none,
}

/// More imports allow more references.
pub proof fn lemma_allowed_more(s: Seq<i32>, this: int, class: int, imports: int, more: int)
    requires
        refs_allowed(s, this, class, imports),
        imports <= more,
    ensures
        refs_allowed(s, this, class, more),
{
    assert forall|i: int| 0 <= i < s.len() implies allowed_ref(#[trigger] s[i], this, class, more) by {
        assert(allowed_ref(s[i], this, class, imports));
    }
}

/// A list with one more expression at its end.
proof fn lemma_list_push(v: i32, s: Seq<Expr>, e: Expr)
    ensures
        expr_list_size(v, s.push(e)) == expr_list_size(v, s) + expr_size(v, e),
        expr_list_refs(s.push(e)) == expr_list_refs(s) + expr_refs(e),
        list_well_built(v, s.push(e)) == (list_well_built(v, s) && well_built(v, e)),
{
    assert(s.push(e).drop_last() =~= s);
}

/// A list of no expression.
proof fn lemma_list_empty(v: i32)
    ensures
        expr_list_size(v, Seq::<Expr>::empty()) == 0,
        expr_list_refs(Seq::<Expr>::empty()) == Seq::<i32>::empty(),
        list_well_built(v, Seq::<Expr>::empty()),
{
}

/// A pointer to the property `name` of `owner`, by field path.
fn field_pointer(name: &String, owner: PackageIndex) -> (p: KismetPropertyPointer)
    ensures
        p.old is None,
        p.new matches Some(f) && f.path@.len() == 1 && f.path@[0]@ == name@ && f.resolved_owner == owner,
        pointer_refs(p) == seq![owner.index],
{
    let mut path = Vec::new();
    path.push(name.clone());
    KismetPropertyPointer { old: None, new: Some(FieldPath { path, resolved_owner: owner }) }
}

/// A pointer to no property: an empty field path resolved nowhere.
fn null_pointer() -> (p: KismetPropertyPointer)
    ensures
        p.old is None,
        p.new matches Some(f) && f.path@.len() == 0 && f.resolved_owner.index == 0,
        pointer_refs(p) == seq![0i32],
{
    KismetPropertyPointer {
        old: None,
        new: Some(FieldPath { path: Vec::new(), resolved_owner: PackageIndex::new(0) }),
    }
}

/// The local variable `name` of `owner`.
fn local_var(name: &String, owner: PackageIndex, Ghost(v): Ghost<i32>) -> (e: Expr)
    ensures
        local_is(e, name@, owner.index),
        expr_size(v, e) == 9,
        well_built(v, e),
        expr_refs(e) == seq![owner.index],
{
    Expr::LocalVariable { variable: field_pointer(name, owner) }
}

/// The instance variable `name` of `owner`.
fn instance_var(name: &String, owner: PackageIndex, Ghost(v): Ghost<i32>) -> (e: Expr)
    ensures
        instance_is(e, name@, owner.index),
        expr_size(v, e) == 9,
        well_built(v, e),
        expr_refs(e) == seq![owner.index],
{
    Expr::InstanceVariable { variable: field_pointer(name, owner) }
}

/// A call of the static function `stack_node` with `parameters`.
fn call_math(stack_node: PackageIndex, parameters: Vec<Expr>, Ghost(v): Ghost<i32>) -> (e: Expr)
    requires
        list_well_built(v, parameters@),
    ensures
        e matches Expr::CallMath { stack_node: n, parameters: ps } && n == stack_node && ps@ == parameters@,
        expr_size(v, e) == 10 + expr_list_size(v, parameters@),
        well_built(v, e),
        expr_refs(e) == seq![stack_node.index] + expr_list_refs(parameters@),
{
    Expr::CallMath { stack_node, parameters }
}

/// A call of the final function `stack_node` with `parameters`.
fn final_function(stack_node: PackageIndex, parameters: Vec<Expr>, Ghost(v): Ghost<i32>) -> (e: Expr)
    requires
        list_well_built(v, parameters@),
    ensures
        e matches Expr::FinalFunction { stack_node: n, parameters: ps } && n == stack_node && ps@ == parameters@,
        expr_size(v, e) == 10 + expr_list_size(v, parameters@),
        well_built(v, e),
        expr_refs(e) == seq![stack_node.index] + expr_list_refs(parameters@),
{
    Expr::FinalFunction { stack_node, parameters }
}

/// A call of the virtual function `name` with `parameters`.
fn virtual_function(name: String, parameters: Vec<Expr>, Ghost(v): Ghost<i32>) -> (e: Expr)
    requires
        list_well_built(v, parameters@),
    ensures
        e matches Expr::VirtualFunction { virtual_function_name: f, parameters: ps } && f@ == name@ && ps@
            == parameters@,
        expr_size(v, e) == 14 + expr_list_size(v, parameters@),
        well_built(v, e),
        expr_refs(e) == expr_list_refs(parameters@),
{
    Expr::VirtualFunction { virtual_function_name: name, parameters }
}

/// A call of the function `name` of the object itself, found by name, with
/// `parameters`.
fn local_virtual_function(name: String, parameters: Vec<Expr>, Ghost(v): Ghost<i32>) -> (e: Expr)
    requires
        list_well_built(v, parameters@),
    ensures
        e matches Expr::LocalVirtualFunction { virtual_function_name, parameters: ps } && virtual_function_name@
            == name@ && ps@ == parameters@,
        expr_size(v, e) == 14 + expr_list_size(v, parameters@),
        well_built(v, e),
        expr_refs(e) == expr_list_refs(parameters@),
{
    Expr::LocalVirtualFunction { virtual_function_name: name, parameters }
}

/// `value := expression`, writing through `variable`.
fn let_expr(value: KismetPropertyPointer, variable: Expr, expression: Expr, Ghost(v): Ghost<i32>) -> (e: Expr)
    requires
        well_built(v, variable),
        well_built(v, expression),
    ensures
        e == (Expr::Let { value, variable: Box::new(variable), expression: Box::new(expression) }),
        expr_size(v, e) == 9 + expr_size(v, variable) + expr_size(v, expression),
        well_built(v, e),
        expr_refs(e) == pointer_refs(value) + expr_refs(variable) + expr_refs(expression),
{
    Expr::Let { value, variable: Box::new(variable), expression: Box::new(expression) }
}

/// A boolean assignment.
fn let_bool(variable: Expr, assignment: Expr, Ghost(v): Ghost<i32>) -> (e: Expr)
    requires
        well_built(v, variable),
        well_built(v, assignment),
    ensures
        e == (Expr::LetBool { variable_expression: Box::new(variable), assignment_expression: Box::new(assignment) }),
        expr_size(v, e) == 1 + expr_size(v, variable) + expr_size(v, assignment),
        well_built(v, e),
        expr_refs(e) == expr_refs(variable) + expr_refs(assignment),
{
    Expr::LetBool { variable_expression: Box::new(variable), assignment_expression: Box::new(assignment) }
}

/// An object assignment.
fn let_obj(variable: Expr, assignment: Expr, Ghost(v): Ghost<i32>) -> (e: Expr)
    requires
        well_built(v, variable),
        well_built(v, assignment),
    ensures
        e == (Expr::LetObj { variable_expression: Box::new(variable), assignment_expression: Box::new(assignment) }),
        expr_size(v, e) == 1 + expr_size(v, variable) + expr_size(v, assignment),
        well_built(v, e),
        expr_refs(e) == expr_refs(variable) + expr_refs(assignment),
{
    Expr::LetObj { variable_expression: Box::new(variable), assignment_expression: Box::new(assignment) }
}

/// `context` evaluated on the object that `object` gives, which skips
/// `offset` bytes where there is no object.
fn context(object: Expr, offset: u32, r_value_pointer: KismetPropertyPointer, inner: Expr, Ghost(v): Ghost<i32>) -> (e: Expr)
    requires
        well_built(v, object),
        well_built(v, inner),
        offset == expr_size(v, inner),
    ensures
        e == (Expr::Context {
            object_expression: Box::new(object),
            offset,
            r_value_pointer,
            context_expression: Box::new(inner),
        }),
        expr_size(v, e) == 13 + expr_size(v, object) + expr_size(v, inner),
        well_built(v, e),
        expr_refs(e) == expr_refs(object) + pointer_refs(r_value_pointer) + expr_refs(inner),
{
    Expr::Context {
        object_expression: Box::new(object),
        offset,
        r_value_pointer,
        context_expression: Box::new(inner),
    }
}

/// The object behind an interface value.
fn interface_context(value: Expr, Ghost(v): Ghost<i32>) -> (e: Expr)
    requires
        well_built(v, value),
    ensures
        e == (Expr::InterfaceContext { interface_value: Box::new(value) }),
        expr_size(v, e) == 1 + expr_size(v, value),
        well_built(v, e),
        expr_refs(e) == expr_refs(value),
{
    Expr::InterfaceContext { interface_value: Box::new(value) }
}

/// An object cast to the interface `class_ptr`.
fn obj_to_interface_cast(class_ptr: PackageIndex, target: Expr, Ghost(v): Ghost<i32>) -> (e: Expr)
    requires
        well_built(v, target),
    ensures
        e == (Expr::ObjToInterfaceCast { class_ptr, target: Box::new(target) }),
        expr_size(v, e) == 9 + expr_size(v, target),
        well_built(v, e),
        expr_refs(e) == seq![class_ptr.index] + expr_refs(target),
{
    Expr::ObjToInterfaceCast { class_ptr, target: Box::new(target) }
}

/// An interface value cast to a boolean.
fn interface_to_bool(target: Expr, Ghost(v): Ghost<i32>) -> (e: Expr)
    requires
        well_built(v, target),
    ensures
        e == (Expr::PrimitiveCast { conversion_type: CastToken::InterfaceToBool2, target: Box::new(target) }),
        expr_size(v, e) == 2 + expr_size(v, target),
        well_built(v, e),
        expr_refs(e) == expr_refs(target),
{
    Expr::PrimitiveCast { conversion_type: CastToken::InterfaceToBool2, target: Box::new(target) }
}

/// An array assignment.
fn set_array(assigning: Expr, elements: Vec<Expr>, Ghost(v): Ghost<i32>) -> (e: Expr)
    requires
        well_built(v, assigning),
        list_well_built(v, elements@),
    ensures
        e matches Expr::SetArray { assigning_property: Some(a), elements: es, .. } && *a == assigning && es@
            == elements@,
        expr_size(v, e) == 2 + expr_size(v, assigning) + expr_list_size(v, elements@),
        well_built(v, e),
        expr_refs(e) == expr_refs(assigning) + expr_list_refs(elements@),
{
    let ghost a = assigning;
    let property = Some(Box::new(assigning));
    proof {
        assert(expr_opt_size(v, property) == expr_size(v, a));
        assert(expr_opt_sized(property) == expr_sized(a));
        assert(expr_opt_contexts_sized(v, property) == contexts_sized(v, a));
        assert(expr_opt_refs(property) == expr_refs(a));
        assert(index_opt_refs(None) =~= Seq::<i32>::empty());
    }
    Expr::SetArray { assigning_property: property, array_inner_prop: None, elements }
}

/// A constant integer.
fn int_const(value: i32, Ghost(v): Ghost<i32>) -> (e: Expr)
    ensures
        e == (Expr::IntConst { value }),
        expr_size(v, e) == 5,
        well_built(v, e),
        expr_refs(e) == Seq::<i32>::empty(),
{
    Expr::IntConst { value }
}

/// A constant object.
fn object_const(value: PackageIndex, Ghost(v): Ghost<i32>) -> (e: Expr)
    ensures
        e == (Expr::ObjectConst { value }),
        expr_size(v, e) == 9,
        well_built(v, e),
        expr_refs(e) == seq![value.index],
{
    Expr::ObjectConst { value }
}

/// A constant string.
fn string_const(value: String, Ghost(v): Ghost<i32>) -> (e: Expr)
    requires
        encode_utf8(value@).len() < u32::MAX,
    ensures
        e matches Expr::StringConst { value: t } && t@ == value@,
        expr_size(v, e) == encode_utf8(value@).len() + 2,
        well_built(v, e),
        expr_refs(e) == Seq::<i32>::empty(),
{
    Expr::StringConst { value }
}

/// `true`, `false` and the object itself.
fn true_const(Ghost(v): Ghost<i32>) -> (e: Expr)
    ensures
        e == Expr::True,
        expr_size(v, e) == 1,
        well_built(v, e),
        expr_refs(e) == Seq::<i32>::empty(),
{
    Expr::True
}

/// `false`.
fn false_const(Ghost(v): Ghost<i32>) -> (e: Expr)
    ensures
        e == Expr::False,
        expr_size(v, e) == 1,
        well_built(v, e),
        expr_refs(e) == Seq::<i32>::empty(),
{
    Expr::False
}

/// The object itself.
fn self_object(Ghost(v): Ghost<i32>) -> (e: Expr)
    ensures
        e == Expr::SelfObject,
        expr_size(v, e) == 1,
        well_built(v, e),
        expr_refs(e) == Seq::<i32>::empty(),
{
    Expr::SelfObject
}

/// A jump to `code_offset` unless `condition` holds.
fn jump_if_not(code_offset: u32, condition: Expr, Ghost(v): Ghost<i32>) -> (e: Expr)
    requires
        well_built(v, condition),
    ensures
        e == (Expr::JumpIfNot { code_offset, boolean_expression: Box::new(condition) }),
        e matches Expr::JumpIfNot { code_offset: c, .. } && c == code_offset,
        expr_size(v, e) == 5 + expr_size(v, condition),
        well_built(v, e),
        expr_refs(e) == expr_refs(condition),
{
    Expr::JumpIfNot { code_offset, boolean_expression: Box::new(condition) }
}

/// A jump to `code_offset`.
fn jump(code_offset: u32, Ghost(v): Ghost<i32>) -> (e: Expr)
    ensures
        e matches Expr::Jump { code_offset: c } && c == code_offset,
        expr_size(v, e) == 5,
        well_built(v, e),
        expr_refs(e) == Seq::<i32>::empty(),
{
    Expr::Jump { code_offset }
}

/// Pushes `address` on the execution flow stack.
fn push_execution_flow(address: u32, Ghost(v): Ghost<i32>) -> (e: Expr)
    ensures
        e matches Expr::PushExecutionFlow { pushing_address } && pushing_address == address,
        expr_size(v, e) == 5,
        well_built(v, e),
        expr_refs(e) == Seq::<i32>::empty(),
{
    Expr::PushExecutionFlow { pushing_address: address }
}

/// Continues at the address on top of the execution flow stack.
fn pop_execution_flow(Ghost(v): Ghost<i32>) -> (e: Expr)
    ensures
        e is PopExecutionFlow,
        expr_size(v, e) == 1,
        well_built(v, e),
        expr_refs(e) == Seq::<i32>::empty(),
{
    Expr::PopExecutionFlow
}

/// Continues at the address on top of the execution flow stack unless
/// `condition` holds.
fn pop_execution_flow_if_not(condition: Expr, Ghost(v): Ghost<i32>) -> (e: Expr)
    requires
        well_built(v, condition),
    ensures
        e == (Expr::PopExecutionFlowIfNot { boolean_expression: Box::new(condition) }),
        expr_size(v, e) == 1 + expr_size(v, condition),
        well_built(v, e),
        expr_refs(e) == expr_refs(condition),
{
    Expr::PopExecutionFlowIfNot { boolean_expression: Box::new(condition) }
}

/// Where instruction `k` of `s` starts, in bytes.
pub open spec fn byte_offset(v: i32, s: Seq<Expr>, k: int) -> nat {
    expr_list_size(v, s.take(k))
}

/// Whether `s` holds, from instruction `head`, a loop over a body of `body`
/// instructions: the reset of the counter just before it, the condition at
/// `head`, a jump past the loop where the condition fails, the push of the
/// address of the increment, the body, the pop that continues there, the
/// increment, the update of the counter, and a jump back to the condition.
pub open spec fn loop_at(v: i32, s: Seq<Expr>, head: int, body: int) -> bool {
    &&& 0 < head
    &&& 0 <= body
    &&& head + body + 7 <= s.len()
    &&& s[head - 1] is Let
    &&& s[head] is LetBool
    &&& s[head + 1] matches Expr::JumpIfNot { code_offset, .. } && code_offset == byte_offset(
        v,
        s,
        head + body + 7,
    )
    &&& s[head + 2] matches Expr::PushExecutionFlow { pushing_address } && pushing_address
        == byte_offset(v, s, head + body + 4)
    &&& s[head + body + 3] is PopExecutionFlow
    &&& s[head + body + 4] is Let
    &&& s[head + body + 5] is Let
    &&& s[head + body + 6] matches Expr::Jump { code_offset } && code_offset == byte_offset(v, s, head)
}

/// Sizes and soundness add up over a concatenation.
proof fn lemma_list_append(v: i32, a: Seq<Expr>, b: Seq<Expr>)
    ensures
        expr_list_size(v, a + b) == expr_list_size(v, a) + expr_list_size(v, b),
        expr_list_refs(a + b) == expr_list_refs(a) + expr_list_refs(b),
        list_well_built(v, a + b) == (list_well_built(v, a) && list_well_built(v, b)),
    decreases b.len(),
{
    if b.len() == 0 {
        assert(a + b =~= a);
        assert(expr_list_refs(a) + expr_list_refs(b) =~= expr_list_refs(a));
    } else {
        lemma_list_append(v, a, b.drop_last());
        assert((a + b).drop_last() =~= a + b.drop_last());
        assert((a + b).last() == b.last());
        assert(expr_list_refs(a + b) =~= expr_list_refs(a) + expr_list_refs(b));
    }
}

/// Instructions added after the first `k` leave where the first `k` start.
proof fn lemma_offset_stable(v: i32, s: Seq<Expr>, t: Seq<Expr>, k: int)
    requires
        0 <= k <= s.len(),
    ensures
        byte_offset(v, s + t, k) == byte_offset(v, s, k),
{
    assert((s + t).take(k) =~= s.take(k));
}

/// A loop stays where it is when instructions are added after it.
proof fn lemma_loop_stable(v: i32, s: Seq<Expr>, t: Seq<Expr>, head: int, body: int)
    requires
        loop_at(v, s, head, body),
    ensures
        loop_at(v, s + t, head, body),
{
    lemma_offset_stable(v, s, t, head);
    lemma_offset_stable(v, s, t, head + body + 4);
    lemma_offset_stable(v, s, t, head + body + 7);
    assert forall|i: int| 0 <= i < s.len() implies (s + t)[i] == s[i] by {}
}

/// The instructions written so far: their byte count is `offset`, each is
/// well built, and `offset` leaves room for `room` more bytes.
pub open spec fn written(v: i32, stack: Seq<Expr>, offset: u32, room: nat) -> bool {
    &&& offset == expr_list_size(v, stack)
    &&& list_well_built(v, stack)
    &&& offset + room <= u32::MAX
}

/// Appends `inst`, counting its bytes.
fn push_inst(stack: &mut Vec<Expr>, offset: &mut u32, inst: Expr, v: i32)
    requires
        *old(offset) == expr_list_size(v, old(stack)@),
        list_well_built(v, old(stack)@),
        well_built(v, inst),
        *old(offset) + expr_size(v, inst) <= u32::MAX,
    ensures
        final(stack)@ == old(stack)@.push(inst),
        *final(offset) == *old(offset) + expr_size(v, inst),
        *final(offset) == expr_list_size(v, final(stack)@),
        list_well_built(v, final(stack)@),
        expr_list_refs(final(stack)@) == expr_list_refs(old(stack)@) + expr_refs(inst),
{
    let n = size(v, &inst);
    *offset = *offset + n;
    let ghost before = stack@;
    stack.push(inst);
    proof {
        lemma_list_push(v, before, inst);
    }
}

/// Appends a loop over `body`: `reset` sets the counter to zero, `condition`
/// compares it with the length, `is_less` reads the comparison, and
/// `increment` and `update` move the counter on.
#[verifier::rlimit(40)]
fn push_loop(
    stack: &mut Vec<Expr>,
    offset: &mut u32,
    v: i32,
    reset: Expr,
    condition: Expr,
    is_less: Expr,
    body: Vec<Expr>,
    increment: Expr,
    update: Expr,
)
    requires
        *old(offset) == expr_list_size(v, old(stack)@),
        list_well_built(v, old(stack)@),
        reset is Let,
        condition is LetBool,
        is_less is LocalVariable,
        increment is Let,
        update is Let,
        well_built(v, reset),
        well_built(v, condition),
        well_built(v, is_less),
        list_well_built(v, body@),
        well_built(v, increment),
        well_built(v, update),
        *old(offset) + expr_size(v, reset) + expr_size(v, condition) + expr_size(v, is_less) + 10
            + expr_list_size(v, body@) + 1 + expr_size(v, increment) + expr_size(v, update) + 5
            <= u32::MAX,
    ensures
        final(stack)@.len() == old(stack)@.len() + 8 + body@.len(),
        final(stack)@.take(old(stack)@.len() as int) == old(stack)@,
        final(stack)@[old(stack)@.len() as int] == reset,
        final(stack)@[old(stack)@.len() + 1int] == condition,
        final(stack)@[old(stack)@.len() + 2int] matches Expr::JumpIfNot { boolean_expression, .. }
            && *boolean_expression == is_less,
        final(stack)@.subrange(old(stack)@.len() + 4int, old(stack)@.len() + 4int + body@.len()) == body@,
        final(stack)@[old(stack)@.len() + 5int + body@.len()] == increment,
        final(stack)@[old(stack)@.len() + 6int + body@.len()] == update,
        *final(offset) == expr_list_size(v, final(stack)@),
        list_well_built(v, final(stack)@),
        loop_at(v, final(stack)@, (old(stack)@.len() + 1) as int, body@.len() as int),
        *final(offset) == *old(offset) + expr_size(v, reset) + expr_size(v, condition) + expr_size(v, is_less)
            + 10 + expr_list_size(v, body@) + 1 + expr_size(v, increment) + expr_size(v, update) + 5,
        expr_list_refs(final(stack)@) == expr_list_refs(old(stack)@) + expr_refs(reset) + expr_refs(condition)
            + expr_refs(is_less) + expr_list_refs(body@) + expr_refs(increment) + expr_refs(update),
{
    let ghost s0 = stack@;
    let ghost b = body@;
    let ghost parts = (reset, condition, is_less, increment, update);
    push_inst(stack, offset, reset, v);
    let start = *offset;
    push_inst(stack, offset, condition, v);
    let back = jump(start, Ghost(v));
    let body_size = size_list(v, &body);
    let inst_end = *offset + 1 + 4 + 1 + 8 + 1 + 4 + body_size + 1;
    let exit = inst_end + size(v, &increment) + size(v, &update) + size(v, &back);
    push_inst(stack, offset, jump_if_not(exit, is_less, Ghost(v)), v);
    push_inst(stack, offset, push_execution_flow(inst_end, Ghost(v)), v);
    let ghost s1 = stack@;
    let mut body = body;
    stack.append(&mut body);
    *offset = *offset + body_size;
    proof {
        lemma_list_append(v, s1, b);
    }
    push_inst(stack, offset, pop_execution_flow(Ghost(v)), v);
    push_inst(stack, offset, increment, v);
    push_inst(stack, offset, update, v);
    push_inst(stack, offset, back, v);
    proof {
        let s = stack@;
        let h = s0.len() + 1int;
        let n = b.len() as int;
        assert(s.take(h) =~= s0.push(s[s0.len() as int]));
        lemma_list_push(v, s0, s[s0.len() as int]);
        assert(s.take(h + n + 4) =~= (s1 + b).push(s[h + n + 3]));
        lemma_list_push(v, s1 + b, s[h + n + 3]);
        assert(s.take(h + n + 7) =~= s);
        assert(s.take(s0.len() as int) =~= s0);
        assert(s.subrange(s0.len() + 4int, s0.len() + 4int + n) =~= b);
        assert(expr_list_refs(s) =~= expr_list_refs(s0) + expr_refs(parts.0) + expr_refs(parts.1) + expr_refs(
            parts.2,
        ) + expr_list_refs(b) + expr_refs(parts.3) + expr_refs(parts.4));
    }
}

/// Whether `b` starts with `a`.
pub open spec fn prefix_of<A>(a: Seq<A>, b: Seq<A>) -> bool {
    a.len() <= b.len() && b.take(a.len() as int) == a
}

/// A prefix of a prefix is a prefix.
pub broadcast proof fn lemma_prefix_trans<A>(a: Seq<A>, b: Seq<A>, c: Seq<A>)
    requires
        #[trigger] prefix_of(a, b),
        #[trigger] prefix_of(b, c),
    ensures
        prefix_of(a, c),
{
    assert(c.take(a.len() as int) =~= c.take(b.len() as int).take(a.len() as int));
}

/// Whether the imports `after` are `before` followed by imports whose keys
/// occur nowhere before them.
pub open spec fn imports_grow(before: Seq<Import>, after: Seq<Import>) -> bool {
    &&& prefix_of(before, after)
    &&& forall|k: int|
        before.len() <= k < after.len() ==> !keys(after.take(k)).contains(key_of(#[trigger] after[k]))
}

/// Growth of imports composes.
pub broadcast proof fn lemma_imports_grow_trans(a: Seq<Import>, b: Seq<Import>, c: Seq<Import>)
    requires
        #[trigger] imports_grow(a, b),
        #[trigger] imports_grow(b, c),
    ensures
        imports_grow(a, c),
{
    broadcast use lemma_prefix_trans;

    assert forall|k: int| a.len() <= k < c.len() implies !keys(c.take(k)).contains(
        key_of(#[trigger] c[k]),
    ) by {
        if k < b.len() {
            assert(c.take(b.len() as int) == b);
            assert(c[k] == b[k]);
            assert(c.take(k) =~= b.take(k));
        }
    }
}

/// Whether the dependencies `after` are `before` followed by distinct
/// references that `before` lacks.
pub open spec fn deps_grow(before: Seq<PackageIndex>, after: Seq<PackageIndex>) -> bool {
    &&& prefix_of(before, after)
    &&& forall|k: int| before.len() <= k < after.len() ==> !after.take(k).contains(#[trigger] after[k])
}

/// Growth of dependencies composes.
pub broadcast proof fn lemma_deps_grow_trans(a: Seq<PackageIndex>, b: Seq<PackageIndex>, c: Seq<PackageIndex>)
    requires
        #[trigger] deps_grow(a, b),
        #[trigger] deps_grow(b, c),
    ensures
        deps_grow(a, c),
{
    broadcast use lemma_prefix_trans;

    assert forall|k: int| a.len() <= k < c.len() implies !c.take(k).contains(#[trigger] c[k]) by {
        if k < b.len() {
            assert(c.take(b.len() as int) == b);
            assert(c[k] == b[k]);
            assert(c.take(k) =~= b.take(k));
        }
    }
}

/// Whether every dependency from position `from` on is a reference to one of
/// `imports`.
pub open spec fn deps_name_imports(deps: Seq<PackageIndex>, from: int, imports: Seq<Import>) -> bool {
    forall|k: int|
        0 <= k && from <= k < deps.len() ==> import_ref_in(#[trigger] deps[k].index, imports)
}

/// Whether `index` refers to one of `imports`.
pub open spec fn import_ref_in(index: i32, imports: Seq<Import>) -> bool {
    index < 0 && -(index as int) - 1 < imports.len()
}

/// The reference to the first import of `blueprint` with the key of `import`,
/// adding `import` where there is none; the reference is recorded among
/// `deps` unless it is there already.
fn use_import(blueprint: &mut Asset, deps: &mut Vec<PackageIndex>, import: Import) -> (r: PackageIndex)
    requires
        old(blueprint).imports@.len() < i32::MAX,
    ensures
        final(blueprint).name_map == old(blueprint).name_map,
        final(blueprint).exports == old(blueprint).exports,
        final(blueprint).object_version_ue5 == old(blueprint).object_version_ue5,
        final(blueprint).imports@ == (if first_match(old(blueprint).imports@, key_of(import)) is Some {
            old(blueprint).imports@
        } else {
            old(blueprint).imports@.push(import)
        }),
        imports_grow(old(blueprint).imports@, final(blueprint).imports@),
        first_match(final(blueprint).imports@, key_of(import)) == Some(-r.index - 1),
        import_ref_in(r.index, final(blueprint).imports@),
        final(deps)@ == (if old(deps)@.contains(r) {
            old(deps)@
        } else {
            old(deps)@.push(r)
        }),
        deps_grow(old(deps)@, final(deps)@),
{
    let ghost before = blueprint.imports@;
    let ghost k = key_of(import);
    let found = blueprint.find_import_no_index(
        import.class_package.as_str(),
        import.class_name.as_str(),
        import.object_name.as_str(),
    );
    let r = match found {
        Some(x) => {
            proof {
                lemma_first_key(keys(before), k);
                assert(before.take(before.len() as int) =~= before);
            }
            PackageIndex::new(x)
        },
        None => {
            let len = blueprint.imports.len();
            let ghost copy = import;
            blueprint.imports.push(import);
            proof {
                let after = blueprint.imports@;
                assert(keys(after) =~= keys(before).push(k));
                lemma_first_key(keys(before), k);
                lemma_first_key_append(keys(before), seq![k], k);
                assert(keys(before) + seq![k] =~= keys(after));
                lemma_first_key_at(seq![k], k, 0);
                assert(after.take(before.len() as int) =~= before);
                assert(after[before.len() as int] == copy);
            }
            PackageIndex::new(-(len as i32 + 1))
        },
    };
    let ghost deps0 = deps@;
    let mut i: usize = 0;
    let mut present = false;
    while i < deps.len()
        invariant
            i <= deps@.len(),
            deps@ == deps0,
            present ==> deps0.contains(r),
            !present ==> forall|j: int| 0 <= j < i ==> deps0[j] != r,
        decreases deps@.len() - i,
    {
        if deps[i].index == r.index {
            present = true;
            proof {
                assert(deps0[i as int] == r);
            }
        }
        i = i + 1;
    }
    if !present {
        deps.push(r);
        proof {
            assert(deps@.take(deps0.len() as int) =~= deps0);
            assert(!deps0.contains(r));
        }
    } else {
        proof {
            assert(deps@.take(deps0.len() as int) =~= deps0);
        }
    }
    r
}

/// An import of the object `object_name` of class `class_name` from
/// `class_package`, within `outer`.
fn make_import(class_package: &String, class_name: &String, outer: PackageIndex, object_name: String) -> (i: Import)
    ensures
        i.class_package@ == class_package@,
        i.class_name@ == class_name@,
        i.outer_index == outer,
        i.object_name@ == object_name@,
        !i.optional,
{
    Import {
        class_package: class_package.clone(),
        class_name: class_name.clone(),
        outer_index: outer,
        object_name,
        optional: false,
    }
}

/// Adds `name` to the name map of `blueprint`, as `Asset::add_fname` does,
/// keeping every name it had.
pub(crate) fn add_name(blueprint: &mut Asset, name: &str) -> (r: String)
    ensures
        r@ == name@,
        final(blueprint).imports == old(blueprint).imports,
        final(blueprint).exports == old(blueprint).exports,
        final(blueprint).object_version_ue5 == old(blueprint).object_version_ue5,
        prefix_of(old(blueprint).name_map@, final(blueprint).name_map@),
{
    let r = blueprint.add_fname(name);
    proof {
        if blueprint.name_map@ == old(blueprint).name_map@ {
            assert(blueprint.name_map@.take(blueprint.name_map@.len() as int) =~= blueprint.name_map@);
        } else {
            assert(blueprint.name_map@.take(old(blueprint).name_map@.len() as int) =~= blueprint.name_map@.drop_last());
        }
    }
    r
}

/// The common fields of a property declared by the hook: public, a generic
/// array dimension, no replication.
fn hook_generic(name: &String, flags: u32, element_size: i32, property_flags: u64, none: &String, serialized_type: Option<String>) -> (g: FGenericProperty)
    ensures
        g.name@ == name@,
        g.flags == flags,
        g.element_size == element_size,
        g.property_flags == property_flags,
        g.array_dim == 1,
        g.rep_index == 0,
        g.rep_notify_func@ == none@,
        g.blueprint_replication_condition == 0,
        g.serialized_type == serialized_type,
{
    FGenericProperty {
        name: name.clone(),
        flags,
        array_dim: array_dim_t_array(),
        element_size,
        property_flags,
        rep_index: 0,
        rep_notify_func: none.clone(),
        blueprint_replication_condition: cond_none(),
        serialized_type,
    }
}

/// The name a property declaration declares.
pub open spec fn fprop_name(p: FProperty) -> Seq<char> {
    match p {
        FProperty::FGenericProperty { generic_property } => generic_property.name@,
        FProperty::FEnumProperty { generic_property, .. } => generic_property.name@,
        FProperty::FArrayProperty { generic_property, .. } => generic_property.name@,
        FProperty::FSetProperty { generic_property, .. } => generic_property.name@,
        FProperty::FObjectProperty { generic_property, .. } => generic_property.name@,
        FProperty::FSoftObjectProperty { generic_property, .. } => generic_property.name@,
        FProperty::FClassProperty { generic_property, .. } => generic_property.name@,
        FProperty::FSoftClassProperty { generic_property, .. } => generic_property.name@,
        FProperty::FDelegateProperty { generic_property, .. } => generic_property.name@,
        FProperty::FMulticastDelegateProperty { generic_property, .. } => generic_property.name@,
        FProperty::FMulticastInlineDelegateProperty { generic_property, .. } => generic_property.name@,
        FProperty::FInterfaceProperty { generic_property, .. } => generic_property.name@,
        FProperty::FMapProperty { generic_property, .. } => generic_property.name@,
        FProperty::FBoolProperty { generic_property, .. } => generic_property.name@,
        FProperty::FByteProperty { generic_property, .. } => generic_property.name@,
        FProperty::FStructProperty { generic_property, .. } => generic_property.name@,
        FProperty::FNumericProperty { generic_property } => generic_property.name@,
    }
}

/// A boolean property declaration of one byte.
fn bool_property(g: FGenericProperty) -> (p: FProperty)
    ensures
        p is FBoolProperty,
        fprop_name(p) == g.name@,
{
    FProperty::FBoolProperty {
        generic_property: g,
        field_size: 1,
        byte_offset: 0,
        byte_mask: 1,
        field_mask: 255,
        native_bool: true,
        value: true,
    }
}

/// The bytecode, dependencies and local variables that hooking writes, for
/// the function whose export reference is `this`, a member of the class
/// whose export reference is `class`.
pub struct Script {
    pub stack: Vec<Expr>,
    pub offset: u32,
    pub deps: Vec<PackageIndex>,
    pub locals: Vec<FProperty>,
    pub this: Ghost<int>,
    pub class: Ghost<int>,
    pub base: Ghost<int>,
    pub path: Ghost<Seq<char>>,
    pub used: Ghost<Set<ImportKey>>,
}

/// Whether `deps` holds the reference `r`.
pub open spec fn deps_hold(deps: Seq<PackageIndex>, r: i32) -> bool {
    exists|j: int| 0 <= j < deps.len() && (#[trigger] deps[j]).index == r
}

/// Whether every reference of `s` names one of `imports`.
pub open spec fn refs_are_imports(s: Seq<i32>, imports: Seq<Import>) -> bool {
    forall|i: int| 0 <= i < s.len() ==> import_ref_in(#[trigger] s[i], imports)
}

/// Whether each import of `imports` from position `base` on has an outer
/// object that is nothing or one of `imports` among `deps`, and is among
/// `deps` itself.
pub open spec fn added_imports_used(imports: Seq<Import>, base: int, deps: Seq<PackageIndex>) -> bool {
    forall|k: int|
        base <= k < imports.len() ==> {
            &&& (#[trigger] imports[k]).outer_index.index == 0 || (import_ref_in(
                imports[k].outer_index.index,
                imports,
            ) && deps_hold(deps, imports[k].outer_index.index))
            &&& deps_hold(deps, -(k + 1) as i32)
        }
}

/// The key of the package `name`.
pub open spec fn package_key(name: Seq<char>) -> ImportKey {
    ("/Script/CoreUObject"@, "Package"@, name)
}

/// The key of the class `name` of `/Script/CoreUObject`.
pub open spec fn class_key(name: Seq<char>) -> ImportKey {
    ("/Script/CoreUObject"@, "Class"@, name)
}

/// The key of the class import within which the hook places the integer
/// math functions `Less_IntInt` and `Add_IntInt`; the hook names that class
/// `Less_IntInt`, after the first of them.
pub open spec fn math_lib_key() -> ImportKey {
    class_key("Less_IntInt"@)
}

/// The key of the engine's array library class.
pub open spec fn array_lib_class_key() -> ImportKey {
    class_key("KismetArrayLibrary"@)
}

/// The key of the asset registry's structure `AssetData`.
pub open spec fn asset_data_key() -> ImportKey {
    ("/Script/CoreUObject"@, "ScriptStruct"@, "AssetData"@)
}

/// Whether the reference `outer` is to the first of `imports` with the key
/// `parent`.
pub open spec fn refers_first(imports: Seq<Import>, outer: i32, parent: ImportKey) -> bool {
    first_match(imports, parent) == Some(-(outer as int) - 1)
}

/// Whether an import with the key `key` and the outer object `outer` sits
/// where hooking with the hook package `hook_path` places it, `imports`
/// being the blueprint's imports: a package at the top, with no outer; the
/// registry helpers in `/Script/AssetRegistry`; their functions
/// `GetAssetRegistry` and `GetAsset` in them; `Object` and `AssetData` in
/// `/Script/CoreUObject`; the math and array library classes and the array
/// library's default object in `/Script/Engine`; the math functions in the
/// math library class; the array functions in the array library class; and
/// a blueprint class of `/Script/Engine` in the hook package. An outer is
/// the first import with its key.
pub open spec fn placed_within(imports: Seq<Import>, key: ImportKey, outer: i32, hook_path: Seq<char>) -> bool {
    ||| key.0 == "/Script/CoreUObject"@ && key.1 == "Package"@ && outer == 0
    ||| key == class_key("AssetRegistryHelpers"@) && refers_first(imports, outer, package_key("/Script/AssetRegistry"@))
    ||| (key == function_key("GetAssetRegistry"@) || key == function_key("GetAsset"@)) && refers_first(
        imports,
        outer,
        class_key("AssetRegistryHelpers"@),
    )
    ||| (key == class_key("Object"@) || key == asset_data_key()) && refers_first(
        imports,
        outer,
        package_key("/Script/CoreUObject"@),
    )
    ||| (key == math_lib_key() || key == array_lib_class_key() || key == array_lib_key()) && refers_first(
        imports,
        outer,
        package_key("/Script/Engine"@),
    )
    ||| (key == function_key("Less_IntInt"@) || key == function_key("Add_IntInt"@)) && refers_first(
        imports,
        outer,
        math_lib_key(),
    )
    ||| (key == function_key("Array_Length"@) || key == function_key("Array_Get"@) || key == function_key(
        "Array_Add"@,
    )) && refers_first(imports, outer, array_lib_class_key())
    ||| key.0 == "/Script/Engine"@ && key.1 == "BlueprintGeneratedClass"@ && refers_first(
        imports,
        outer,
        package_key(hook_path),
    )
}

/// Whether each of `imports` from position `base` on sits where hooking
/// with the hook package `hook_path` places it (see `placed_within`).
#[verifier::opaque]
pub open spec fn imports_placed(imports: Seq<Import>, base: int, hook_path: Seq<char>) -> bool {
    forall|k: int|
        base <= k < imports.len() ==> placed_within(
            imports,
            key_of(#[trigger] imports[k]),
            imports[k].outer_index.index,
            hook_path,
        )
}

/// The keys of the imports that hooking with the hook class `hook_name` of
/// the package `hook_path` looks up or adds.
pub open spec fn hook_keys(hook_path: Seq<char>, hook_name: Seq<char>) -> Set<ImportKey> {
    set![
        package_key(hook_path),
        hook_class_key(hook_name),
        package_key("/Script/AssetRegistry"@),
        class_key("AssetRegistryHelpers"@),
        function_key("GetAssetRegistry"@),
        package_key("/Script/CoreUObject"@),
        asset_data_key(),
        package_key("/Script/Engine"@),
        math_lib_key(),
        array_lib_key(),
        array_lib_class_key(),
        function_key("Array_Length"@),
        class_key("Object"@),
        function_key("Array_Add"@),
        function_key("Less_IntInt"@),
        function_key("Add_IntInt"@),
        function_key("Array_Get"@),
        function_key("GetAsset"@),
    ]
}

/// Whether `imports` hold an import with the key `key`, and the first such
/// is among `deps`.
pub open spec fn key_used(imports: Seq<Import>, deps: Seq<PackageIndex>, key: ImportKey) -> bool {
    first_match(imports, key) matches Some(j) && deps_hold(deps, (-(j + 1)) as i32)
}

/// Whether each key of `used` is used (see `key_used`).
#[verifier::opaque]
pub open spec fn keys_used(imports: Seq<Import>, deps: Seq<PackageIndex>, used: Set<ImportKey>) -> bool {
    forall|key: ImportKey| #[trigger] used.contains(key) ==> key_used(imports, deps, key)
}

/// The first import with a key stays the first as imports are added.
pub proof fn lemma_first_match_more(a: Seq<Import>, b: Seq<Import>, key: ImportKey)
    requires
        prefix_of(a, b),
        first_match(a, key) is Some,
    ensures
        first_match(b, key) == first_match(a, key),
{
    let t = b.subrange(a.len() as int, b.len() as int);
    assert(b =~= a + t);
    assert(keys(b) =~= keys(a) + keys(t));
    lemma_first_key_append(keys(a), keys(t), key);
}

/// What `placed_within` says stays true as imports are added.
pub proof fn lemma_placed_more(a: Seq<Import>, b: Seq<Import>, key: ImportKey, outer: i32, hook_path: Seq<char>)
    requires
        placed_within(a, key, outer, hook_path),
        prefix_of(a, b),
    ensures
        placed_within(b, key, outer, hook_path),
{
    let parents = seq![
        package_key("/Script/AssetRegistry"@),
        class_key("AssetRegistryHelpers"@),
        package_key("/Script/CoreUObject"@),
        package_key("/Script/Engine"@),
        math_lib_key(),
        array_lib_class_key(),
        package_key(hook_path),
    ];
    assert forall|i: int| 0 <= i < parents.len() && first_match(a, #[trigger] parents[i]) is Some implies first_match(
        b,
        parents[i],
    ) == first_match(a, parents[i]) by {
        lemma_first_match_more(a, b, parents[i]);
    }
    assert(parents[0] == package_key("/Script/AssetRegistry"@));
    assert(parents[1] == class_key("AssetRegistryHelpers"@));
    assert(parents[2] == package_key("/Script/CoreUObject"@));
    assert(parents[3] == package_key("/Script/Engine"@));
    assert(parents[4] == math_lib_key());
    assert(parents[5] == array_lib_class_key());
    assert(parents[6] == package_key(hook_path));
}

/// What `key_used` says stays true as imports and dependencies are added.
pub proof fn lemma_key_used_more(a: Seq<Import>, b: Seq<Import>, d: Seq<PackageIndex>, e: Seq<PackageIndex>, key: ImportKey)
    requires
        key_used(a, d, key),
        prefix_of(a, b),
        prefix_of(d, e),
    ensures
        key_used(b, e, key),
{
    lemma_first_match_more(a, b, key);
    let j = first_match(a, key).unwrap();
    lemma_deps_hold_more(d, e, (-(j + 1)) as i32);
}

/// No import from the end on is misplaced.
pub proof fn lemma_imports_placed_none(a: Seq<Import>, hook_path: Seq<char>)
    ensures
        imports_placed(a, a.len() as int, hook_path),
{
    reveal(imports_placed);
}

/// Imports placed from `base` to the end of `a`, followed by imports placed
/// from there on, are placed from `base` on.
pub proof fn lemma_imports_placed_chain(a: Seq<Import>, b: Seq<Import>, base: int, hook_path: Seq<char>)
    requires
        0 <= base,
        imports_placed(a, base, hook_path),
        imports_placed(b, a.len() as int, hook_path),
        prefix_of(a, b),
    ensures
        imports_placed(b, base, hook_path),
{
    reveal(imports_placed);
    assert forall|k: int| base <= k < b.len() implies placed_within(
        b,
        key_of(#[trigger] b[k]),
        b[k].outer_index.index,
        hook_path,
    ) by {
        if k < a.len() {
            assert(b[k] == b.take(a.len() as int)[k]);
            lemma_placed_more(a, b, key_of(a[k]), a[k].outer_index.index, hook_path);
        }
    }
}

/// Keys used stay used as imports are added.
pub proof fn lemma_keys_used_more(a: Seq<Import>, b: Seq<Import>, d: Seq<PackageIndex>, used: Set<ImportKey>)
    requires
        keys_used(a, d, used),
        prefix_of(a, b),
    ensures
        keys_used(b, d, used),
{
    reveal(keys_used);
    lemma_prefix_refl(d);
    assert forall|key: ImportKey| #[trigger] used.contains(key) implies key_used(b, d, key) by {
        lemma_key_used_more(a, b, d, d, key);
    }
}

/// Whether every reference of the local variables `locals` names one of
/// `imports`.
pub open spec fn locals_refer_to_imports(locals: Seq<FProperty>, imports: Seq<Import>) -> bool {
    forall|j: int| 0 <= j < locals.len() ==> refs_are_imports(fprop_refs(#[trigger] locals[j]), imports)
}

/// Whether `s` counts the bytes of its instructions, each well built and
/// referring to nothing but the function, its class and `imports`, and its
/// dependencies from position `from` on refer to `imports`.
pub open spec fn script_ok(v: i32, s: Script, imports: Seq<Import>, from: int) -> bool {
    &&& s.offset == expr_list_size(v, s.stack@)
    &&& list_well_built(v, s.stack@)
    &&& refs_allowed(expr_list_refs(s.stack@), s.this@, s.class@, imports.len() as int)
    &&& refs_in_deps(expr_list_refs(s.stack@), s.deps@, s.this@)
    &&& deps_name_imports(s.deps@, from, imports)
    &&& 0 <= s.base@ <= imports.len()
    &&& added_imports_used(imports, s.base@, s.deps@)
    &&& imports_placed(imports, s.base@, s.path@)
    &&& keys_used(imports, s.deps@, s.used@)
    &&& locals_refer_to_imports(s.locals@, imports)
}

/// What a step of hooking keeps: the instructions, dependencies and local
/// variables written stay, and the asset's imports and names only grow.
pub open spec fn stage_keeps(s0: Script, s1: Script, a0: Asset, a1: Asset) -> bool {
    &&& prefix_of(s0.stack@, s1.stack@)
    &&& deps_grow(s0.deps@, s1.deps@)
    &&& prefix_of(s0.locals@, s1.locals@)
    &&& s1.this == s0.this
    &&& s1.class == s0.class
    &&& s1.base == s0.base
    &&& s1.path == s0.path
    &&& s0.used@.subset_of(s1.used@)
    &&& imports_grow(a0.imports@, a1.imports@)
    &&& prefix_of(a0.name_map@, a1.name_map@)
    &&& a1.exports == a0.exports
    &&& a1.object_version_ue5 == a0.object_version_ue5
}

/// Every sequence starts with itself.
proof fn lemma_prefix_refl<A>(a: Seq<A>)
    ensures
        prefix_of(a, a),
{
    assert(a.take(a.len() as int) =~= a);
}

/// A step that keeps everything keeps what a step keeps.
proof fn lemma_stage_refl(s: Script, a: Asset)
    ensures
        stage_keeps(s, s, a, a),
{
    lemma_prefix_refl(s.stack@);
    lemma_prefix_refl(s.deps@);
    lemma_prefix_refl(s.locals@);
    lemma_prefix_refl(a.imports@);
    lemma_prefix_refl(a.name_map@);
}

/// References to imports stay references to imports as imports are added.
proof fn lemma_deps_name_more(deps: Seq<PackageIndex>, from: int, a: Seq<Import>, b: Seq<Import>)
    requires
        deps_name_imports(deps, from, a),
        a.len() <= b.len(),
    ensures
        deps_name_imports(deps, from, b),
{
}

/// Appends an instruction to the script.
fn emit(sc: &mut Script, inst: Expr, v: i32, Ghost(imports): Ghost<Seq<Import>>, Ghost(from): Ghost<int>)
    requires
        script_ok(v, *old(sc), imports, from),
        well_built(v, inst),
        refs_allowed(expr_refs(inst), old(sc).this@, old(sc).class@, imports.len() as int),
        refs_in_deps(expr_refs(inst), old(sc).deps@, old(sc).this@),
        old(sc).offset + expr_size(v, inst) <= u32::MAX,
    ensures
        script_ok(v, *final(sc), imports, from),
        final(sc).stack@ == old(sc).stack@.push(inst),
        final(sc).offset == old(sc).offset + expr_size(v, inst),
        prefix_of(old(sc).stack@, final(sc).stack@),
        final(sc).deps == old(sc).deps,
        final(sc).locals == old(sc).locals,
        final(sc).this == old(sc).this,
        final(sc).class == old(sc).class,
        final(sc).base == old(sc).base,
        final(sc).path == old(sc).path,
        final(sc).used == old(sc).used,
{
    broadcast use group_allowed;

    push_inst(&mut sc.stack, &mut sc.offset, inst, v);
    proof {
        assert(sc.stack@.take(old(sc).stack@.len() as int) =~= old(sc).stack@);
    }
}

/// Declares a local variable of the hooked function.
fn declare(sc: &mut Script, prop: FProperty, Ghost(v): Ghost<i32>, Ghost(imports): Ghost<Seq<Import>>, Ghost(from): Ghost<int>)
    requires
        script_ok(v, *old(sc), imports, from),
        refs_are_imports(fprop_refs(prop), imports),
    ensures
        script_ok(v, *final(sc), imports, from),
        final(sc).base == old(sc).base,
        final(sc).locals@ == old(sc).locals@.push(prop),
        prefix_of(old(sc).locals@, final(sc).locals@),
        final(sc).stack == old(sc).stack,
        final(sc).offset == old(sc).offset,
        final(sc).deps == old(sc).deps,
        final(sc).this == old(sc).this,
        final(sc).class == old(sc).class,
        final(sc).path == old(sc).path,
        final(sc).used == old(sc).used,
{
    let ghost copy = prop;
    sc.locals.push(prop);
    proof {
        assert(sc.locals@.take(old(sc).locals@.len() as int) =~= old(sc).locals@);
        assert forall|j: int| 0 <= j < sc.locals@.len() implies refs_are_imports(
            fprop_refs(#[trigger] sc.locals@[j]),
            imports,
        ) by {
            if j < old(sc).locals@.len() {
                assert(sc.locals@[j] == old(sc).locals@[j]);
            } else {
                assert(sc.locals@[j] == copy);
            }
        }
    }
}

/// Uses an import in the hooked function (see `use_import`).
fn import_into(sc: &mut Script, blueprint: &mut Asset, import: Import, Ghost(v): Ghost<i32>, Ghost(from): Ghost<int>) -> (r: PackageIndex)
    requires
        script_ok(v, *old(sc), old(blueprint).imports@, from),
        old(blueprint).imports@.len() < i32::MAX,
        import.outer_index.index == 0 || (import_ref_in(import.outer_index.index, old(blueprint).imports@)
            && deps_hold(old(sc).deps@, import.outer_index.index)),
        placed_within(old(blueprint).imports@, key_of(import), import.outer_index.index, old(sc).path@),
    ensures
        final(sc).base == old(sc).base,
        final(sc).path == old(sc).path,
        final(sc).used@ == old(sc).used@.insert(key_of(import)),
        script_ok(v, *final(sc), final(blueprint).imports@, from),
        final(sc).stack == old(sc).stack,
        final(sc).offset == old(sc).offset,
        final(sc).locals == old(sc).locals,
        final(sc).this == old(sc).this,
        final(sc).class == old(sc).class,
        deps_grow(old(sc).deps@, final(sc).deps@),
        imports_grow(old(blueprint).imports@, final(blueprint).imports@),
        final(blueprint).name_map == old(blueprint).name_map,
        final(blueprint).exports == old(blueprint).exports,
        final(blueprint).object_version_ue5 == old(blueprint).object_version_ue5,
        final(blueprint).imports@.len() <= old(blueprint).imports@.len() + 1,
        import_ref_in(r.index, final(blueprint).imports@),
        first_match(final(blueprint).imports@, key_of(import)) == Some(-r.index - 1),
        names_import(final(blueprint).imports@, r.index, key_of(import)),
        deps_hold(final(sc).deps@, r.index),
{
    let ghost s0 = *sc;
    let ghost a0 = *blueprint;
    let r = use_import(blueprint, &mut sc.deps, import);
    proof {
        sc.used@ = s0.used@.insert(key_of(import));
    }
    proof {
        reveal(imports_placed);
        reveal(keys_used);
        assert(prefix_of(a0.imports@, blueprint.imports@));
        assert(prefix_of(s0.deps@, sc.deps@));
        assert forall|k: int| s0.base@ <= k < blueprint.imports@.len() implies placed_within(
            blueprint.imports@,
            key_of(#[trigger] blueprint.imports@[k]),
            blueprint.imports@[k].outer_index.index,
            sc.path@,
        ) by {
            if k < a0.imports@.len() {
                assert(blueprint.imports@[k] == blueprint.imports@.take(a0.imports@.len() as int)[k]);
                lemma_placed_more(a0.imports@, blueprint.imports@, key_of(a0.imports@[k]), a0.imports@[k].outer_index.index, sc.path@);
            } else {
                if first_match(a0.imports@, key_of(import)) is Some {
                    assert(blueprint.imports@ == a0.imports@);
                } else {
                    assert(blueprint.imports@ == a0.imports@.push(import));
                }
                assert(blueprint.imports@[k] == import);
                lemma_placed_more(a0.imports@, blueprint.imports@, key_of(import), import.outer_index.index, sc.path@);
            }
        }
        assert forall|key: ImportKey| #[trigger] sc.used@.contains(key) implies key_used(blueprint.imports@, sc.deps@, key) by {
            if key != key_of(import) {
                lemma_key_used_more(a0.imports@, blueprint.imports@, s0.deps@, sc.deps@, key);
            } else {
                if !s0.deps@.contains(r) {
                    assert(sc.deps@[s0.deps@.len() as int] == r);
                }
                assert(sc.deps@.contains(r));
                let jr = choose|j: int| 0 <= j < sc.deps@.len() && sc.deps@[j] == r;
                assert(sc.deps@[jr].index == r.index);
                assert(deps_hold(sc.deps@, r.index));
            }
        }
    }
    proof {
        lemma_prefix_refl(s0.stack@);
        lemma_prefix_refl(s0.locals@);
        lemma_prefix_refl(a0.name_map@);
        lemma_deps_name_more(s0.deps@, from, a0.imports@, blueprint.imports@);
        lemma_first_key(keys(blueprint.imports@), key_of(import));
        assert(keys(blueprint.imports@)[-r.index - 1] == key_of(blueprint.imports@[-r.index - 1]));
        assert(prefix_of(s0.deps@, sc.deps@));
        lemma_deps_more(expr_list_refs(s0.stack@), s0.deps@, sc.deps@, s0.this@);
        if !s0.deps@.contains(r) {
            assert(sc.deps@[s0.deps@.len() as int] == r);
        }
        assert(sc.deps@.contains(r));
        let jr = choose|j: int| 0 <= j < sc.deps@.len() && sc.deps@[j] == r;
        assert(sc.deps@[jr].index == r.index);
        assert forall|k: int| s0.base@ <= k < blueprint.imports@.len() implies {
            &&& (#[trigger] blueprint.imports@[k]).outer_index.index == 0 || (import_ref_in(
                blueprint.imports@[k].outer_index.index,
                blueprint.imports@,
            ) && deps_hold(sc.deps@, blueprint.imports@[k].outer_index.index))
            &&& deps_hold(sc.deps@, -(k + 1) as i32)
        } by {
            if blueprint.imports@[k].outer_index.index != 0 {
                if k < a0.imports@.len() {
                    assert(blueprint.imports@[k] == blueprint.imports@.take(a0.imports@.len() as int)[k]);
                    assert(deps_hold(s0.deps@, a0.imports@[k].outer_index.index));
                    lemma_deps_hold_more(s0.deps@, sc.deps@, a0.imports@[k].outer_index.index);
                } else {
                    if first_match(a0.imports@, key_of(import)) is Some {
                        assert(blueprint.imports@ == a0.imports@);
                    } else {
                        assert(blueprint.imports@ == a0.imports@.push(import));
                    }
                    lemma_deps_hold_more(s0.deps@, sc.deps@, import.outer_index.index);
                }
            }
            if k < a0.imports@.len() {
                if first_match(a0.imports@, key_of(import)) is Some {
                    assert(blueprint.imports@ == a0.imports@);
                } else {
                    assert(blueprint.imports@ == a0.imports@.push(import));
                    assert(a0.imports@.push(import)[k] == a0.imports@[k]);
                }
                assert(blueprint.imports@[k] == a0.imports@[k]);
                let j = choose|j: int| 0 <= j < s0.deps@.len() && (#[trigger] s0.deps@[j]).index == -(k + 1) as i32;
                assert(sc.deps@.take(s0.deps@.len() as int) == s0.deps@);
                assert(sc.deps@[j] == sc.deps@.take(s0.deps@.len() as int)[j]);
            } else {
                if first_match(a0.imports@, key_of(import)) is Some {
                    assert(blueprint.imports@ == a0.imports@);
                } else {
                    assert(blueprint.imports@ == a0.imports@.push(import));
                }
                assert(blueprint.imports@[k] == import);
                lemma_first_key(keys(a0.imports@), key_of(import));
                assert(keys(blueprint.imports@)[k] == key_of(import));
                assert forall|m: int| 0 <= m < k implies keys(blueprint.imports@)[m] != key_of(import) by {
                    assert(keys(blueprint.imports@)[m] == keys(a0.imports@)[m]);
                }
                lemma_first_key_at(keys(blueprint.imports@), key_of(import), k);
                assert(r.index == -(k + 1));
                if !s0.deps@.contains(r) {
                    assert(sc.deps@[s0.deps@.len() as int] == r);
                }
                assert(sc.deps@.contains(r));
                let j = choose|j: int| 0 <= j < sc.deps@.len() && sc.deps@[j] == r;
                assert(sc.deps@[j].index == r.index);
            }
        }
        assert forall|j: int| 0 <= j < sc.locals@.len() implies refs_are_imports(
            fprop_refs(#[trigger] sc.locals@[j]),
            blueprint.imports@,
        ) by {
            assert(refs_are_imports(fprop_refs(s0.locals@[j]), a0.imports@));
            assert forall|i: int| 0 <= i < fprop_refs(sc.locals@[j]).len() implies import_ref_in(
                #[trigger] fprop_refs(sc.locals@[j])[i],
                blueprint.imports@,
            ) by {
                assert(import_ref_in(fprop_refs(s0.locals@[j])[i], a0.imports@));
            }
        }
        lemma_allowed_more(expr_list_refs(s0.stack@), s0.this@, s0.class@, a0.imports@.len() as int, blueprint.imports@.len() as int);
        assert forall|k: int| 0 <= k && from <= k < sc.deps@.len() implies import_ref_in(
            #[trigger] sc.deps@[k].index,
            blueprint.imports@,
        ) by {
            if k < s0.deps@.len() {
                assert(sc.deps@[k] == s0.deps@[k]);
            }
        }
    }
    r
}

/// Adds a name to the asset (see `add_name`), keeping the script.
fn name_into(sc: &Script, blueprint: &mut Asset, name: &str) -> (r: String)
    ensures
        r@ == name@,
        prefix_of(old(blueprint).name_map@, final(blueprint).name_map@),
        final(blueprint).imports == old(blueprint).imports,
        final(blueprint).exports == old(blueprint).exports,
        final(blueprint).object_version_ue5 == old(blueprint).object_version_ue5,
{
    add_name(blueprint, name)
}

/// The assignment of the asset registry to the local variable `registry`,
/// through the static function `get_registry`.
fn get_registry_call(registry: &String, this: PackageIndex, get_registry: PackageIndex, Ghost(v): Ghost<i32>) -> (e: Expr)
    ensures
        assigns_local(e, registry@, this.index, true),
        (assigned(e) is CallMath),
        call_target(assigned(e)) == Some(get_registry.index),
        call_parameters(assigned(e)).len() == 0,
        e is Let,
        expr_size(v, e) == 28,
        well_built(v, e),
        refers_within(expr_refs(e), seq![this.index, get_registry.index]),
{
    broadcast use group_allowed;

    proof {
        lemma_list_empty(v);
    }
    let call = call_math(get_registry, Vec::new(), Ghost(v));
    let e = let_expr(field_pointer(registry, this), local_var(registry, this, Ghost(v)), call, Ghost(v));
    proof {
        assert forall|t: int, c: int, n: int| refs_allowed(seq![this.index, get_registry.index], t, c, n) implies #[trigger] refs_allowed(
            expr_refs(e),
            t,
            c,
            n,
        ) by {}
        assert forall|d: Seq<PackageIndex>, x: int| refs_in_deps(seq![this.index, get_registry.index], d, x) implies #[trigger] refs_in_deps(
            expr_refs(e),
            d,
            x,
        ) by {}
    }
    e
}

/// Writes the part of the hook that makes the asset registry scan the hook
/// folder, and declares the array that the scan's results go into: five
/// instructions and three local variables. Returns the names `Class` and
/// `Function`, the references to the registry helpers and to the
/// `/Script/CoreUObject` package, and the name of the results array.
fn registry_stage(
    sc: &mut Script,
    blueprint: &mut Asset,
    v: i32,
    this: PackageIndex,
    coreuobject: &String,
    package: &String,
    none: &String,
    hook_folder: &str,
    Ghost(from): Ghost<int>,
) -> (r: (String, String, PackageIndex, PackageIndex, String))
    requires
        script_ok(v, *old(sc), old(blueprint).imports@, from),
        old(sc).this@ == this.index,
        coreuobject@ == "/Script/CoreUObject"@,
        package@ == "Package"@,
        old(sc).stack@.len() == 0,
        old(sc).offset == 0,
        old(blueprint).imports@.len() + 64 < i32::MAX,
        encode_utf8(hook_folder@).len() + 2000 <= u32::MAX,
    ensures
        deps_hold(final(sc).deps@, r.2.index),
        deps_hold(final(sc).deps@, r.3.index),
        script_ok(v, *final(sc), final(blueprint).imports@, from),
        stage_keeps(*old(sc), *final(sc), *old(blueprint), *final(blueprint)),
        final(blueprint).imports@.len() <= old(blueprint).imports@.len() + 6,
        final(sc).stack@.len() == 5,
        folder_set(final(sc).stack@[1]) == Some(hook_folder@),
        registry_part(final(sc).stack@, this.index, final(blueprint).imports@, hook_folder@),
        final(sc).offset == encode_utf8(hook_folder@).len() + 128,
        final(sc).locals@.len() == old(sc).locals@.len() + 3,
        fprop_name(final(sc).locals@[old(sc).locals@.len() as int]) == "CallFunc_GetAssetRegistry_ReturnValue"@,
        fprop_name(final(sc).locals@[old(sc).locals@.len() + 1int]) == "K2Node_MakeArray_Array"@,
        fprop_name(final(sc).locals@[old(sc).locals@.len() + 2int]) == "CallFunc_GetAssetsByPath_OutAssetData"@,
        r.0@ == "Class"@,
        r.1@ == "Function"@,
        import_ref_in(r.2.index, final(blueprint).imports@),
        import_ref_in(r.3.index, final(blueprint).imports@),
        r.4@ == "CallFunc_GetAssetsByPath_OutAssetData"@,
        refers_first(final(blueprint).imports@, r.2.index, class_key("AssetRegistryHelpers"@)),
        refers_first(final(blueprint).imports@, r.3.index, package_key("/Script/CoreUObject"@)),
        final(sc).used@.contains(package_key("/Script/AssetRegistry"@)),
        final(sc).used@.contains(class_key("AssetRegistryHelpers"@)),
        final(sc).used@.contains(function_key("GetAssetRegistry"@)),
        final(sc).used@.contains(package_key("/Script/CoreUObject"@)),
        final(sc).used@.contains(asset_data_key()),
{
    broadcast use lemma_prefix_trans, lemma_imports_grow_trans, lemma_deps_grow_trans, group_allowed,
        lemma_names_import_more, lemma_deps_hold_more;

    proof {
        reveal_with_fuel(fprop_refs, 3);
    }
    let ghost s0 = *sc;
    let ghost a0 = *blueprint;
    proof {
        lemma_stage_refl(s0, a0);
    }
    let class_name = name_into(sc, blueprint, "Class");
    let n = name_into(sc, blueprint, "/Script/AssetRegistry");
    let script_registry = import_into(sc, blueprint, make_import(coreuobject, package, PackageIndex::new(0), n), Ghost(v), Ghost(from));
    let n = name_into(sc, blueprint, "AssetRegistryHelpers");
    let registry_helpers = import_into(sc, blueprint, make_import(coreuobject, &class_name, script_registry, n), Ghost(v), Ghost(from));
    let ghost imports_helpers = blueprint.imports@;
    let registry_name = name_into(sc, blueprint, "CallFunc_GetAssetRegistry_ReturnValue");
    declare(sc, FProperty::FInterfaceProperty {
        generic_property: hook_generic(&registry_name, rf_public(), 16, cpf_u_object_wrapper(), none, None),
        interface_class: script_registry,
    }, Ghost(v), Ghost(blueprint.imports@), Ghost(from));
    let function_name = name_into(sc, blueprint, "Function");
    let n = name_into(sc, blueprint, "GetAssetRegistry");
    let get_registry = import_into(sc, blueprint, make_import(coreuobject, &function_name, registry_helpers, n), Ghost(v), Ghost(from));
    let ghost imports_registry = blueprint.imports@;
    let first_call = get_registry_call(&registry_name, this, get_registry, Ghost(v));
    let ghost first_call_copy = first_call;
    emit(sc, first_call, v, Ghost(blueprint.imports@), Ghost(from));
    let folder_array = name_into(sc, blueprint, "K2Node_MakeArray_Array");
    let str_property = name_into(sc, blueprint, "StrProperty");
    declare(sc, FProperty::FArrayProperty {
        generic_property: hook_generic(&folder_array, rf_public(), 16, cpf_const_parm() | cpf_reference_parm(), none, None),
        inner: Box::new(FProperty::FGenericProperty {
            generic_property: hook_generic(&folder_array, rf_public(), 16, cpf_none(), none, Some(str_property)),
        }),
    }, Ghost(v), Ghost(blueprint.imports@), Ghost(from));
    let mut folder = Vec::new();
    proof {
        lemma_list_empty(v);
    }
    let folder_string = string_const(hook_folder.to_owned(), Ghost(v));
    proof {
        lemma_list_push(v, folder@, folder_string);
    }
    folder.push(folder_string);
    let set_folder = set_array(local_var(&folder_array, this, Ghost(v)), folder, Ghost(v));
    let ghost set_folder_copy = set_folder;
    emit(sc, set_folder, v, Ghost(blueprint.imports@), Ghost(from));
    let ghost after_folder = sc.stack@;
    let mut parameters = Vec::new();
    let p0 = local_var(&folder_array, this, Ghost(v));
    let p1 = true_const(Ghost(v));
    let p2 = false_const(Ghost(v));
    proof {
        lemma_list_push(v, parameters@, p0);
        lemma_list_push(v, parameters@.push(p0), p1);
        lemma_list_push(v, parameters@.push(p0).push(p1), p2);
    }
    parameters.push(p0);
    parameters.push(p1);
    parameters.push(p2);
    let scan_name = name_into(sc, blueprint, "ScanPathsSynchronous");
    let scan = virtual_function(scan_name, parameters, Ghost(v));
    let scan_call = context(interface_context(local_var(&registry_name, this, Ghost(v)), Ghost(v)), 25, null_pointer(), scan, Ghost(v));
    let ghost scan_copy = scan_call;
    emit(sc, scan_call, v, Ghost(blueprint.imports@), Ghost(from));
    let second_call = get_registry_call(&registry_name, this, get_registry, Ghost(v));
    let ghost second_call_copy = second_call;
    emit(sc, second_call, v, Ghost(blueprint.imports@), Ghost(from));
    let coreuobject_ref = import_into(sc, blueprint, make_import(coreuobject, package, PackageIndex::new(0), coreuobject.clone()), Ghost(v), Ghost(from));
    let ghost imports_core = blueprint.imports@;
    let script_struct = name_into(sc, blueprint, "ScriptStruct");
    let n = name_into(sc, blueprint, "AssetData");
    let asset_data = import_into(sc, blueprint, make_import(coreuobject, &script_struct, coreuobject_ref, n), Ghost(v), Ghost(from));
    let assets_name = name_into(sc, blueprint, "CallFunc_GetAssetsByPath_OutAssetData");
    declare(sc, FProperty::FArrayProperty {
        generic_property: hook_generic(&assets_name, rf_public(), 16, cpf_reference_parm(), none, None),
        inner: Box::new(FProperty::FStructProperty {
            generic_property: hook_generic(&assets_name, rf_public(), 152, cpf_none(), none, None),
            struct_value: asset_data,
        }),
    }, Ghost(v), Ghost(blueprint.imports@), Ghost(from));
    proof {
        lemma_list_empty(v);
    }
    let assets_array = set_array(local_var(&assets_name, this, Ghost(v)), Vec::new(), Ghost(v));
    let ghost assets_copy = assets_array;
    emit(sc, assets_array, v, Ghost(blueprint.imports@), Ghost(from));
    proof {
        assert(folder_set(set_folder_copy) == Some(hook_folder@));
        assert(after_folder[1] == set_folder_copy);
        assert(sc.stack@[1] == after_folder[1]);
        assert(sc.stack@[0] == first_call_copy);
        assert(sc.stack@[2] == scan_copy);
        assert(sc.stack@[3] == second_call_copy);
        assert(sc.stack@[4] == assets_copy);
        assert(prefix_of(imports_registry, blueprint.imports@));
        assert(names_import(imports_registry, get_registry.index, function_key("GetAssetRegistry"@)));
        assert(is_registry_call(sc.stack@[0], this.index, blueprint.imports@));
        assert(is_folder_array(sc.stack@[1], this.index, hook_folder@));
        assert(is_scan(sc.stack@[2], this.index));
        assert(is_registry_call(sc.stack@[3], this.index, blueprint.imports@));
        assert(is_assets_array(sc.stack@[4], this.index));
        lemma_first_match_more(imports_helpers, blueprint.imports@, class_key("AssetRegistryHelpers"@));
        lemma_first_match_more(imports_core, blueprint.imports@, package_key("/Script/CoreUObject"@));
    }
    (class_name, function_name, registry_helpers, coreuobject_ref, assets_name)
}

/// The names and references that the loops of the hook use.
pub struct LoopParts {
    pub counter: String,
    pub is_less: String,
    pub len: String,
    pub incremented: String,
    pub item: String,
    pub asset: String,
    pub cast: String,
    pub cast_success: String,
    pub array_added: String,
    pub get_asset: String,
    pub math_lib: PackageIndex,
    pub default_array_lib: PackageIndex,
    pub array_lib: PackageIndex,
    pub array_add: PackageIndex,
}

/// The assignment to the local variable `len` of the length of `array`,
/// through the final function `array_length` of the default object
/// `default_array_lib`.
fn array_length_call(len: &String, this: PackageIndex, default_array_lib: PackageIndex, array_length: PackageIndex, array: Expr, Ghost(v): Ghost<i32>) -> (e: Expr)
    requires
        expr_size(v, array) == 9,
        well_built(v, array),
    ensures
        assigns_local(e, len@, this.index, true),
        assigned(e) matches Expr::Context { r_value_pointer, .. } && field_is(r_value_pointer, len@, this.index),
        context_refs(assigned(e)) == (Some(default_array_lib.index), Some(array_length.index)),
        call_parameters(context_inner(assigned(e))) == seq![array],
        e is Let,
        expr_size(v, e) == 59,
        well_built(v, e),
        refers_within(expr_refs(e), seq![this.index, default_array_lib.index, array_length.index] + expr_refs(array)),
{
    broadcast use group_allowed;

    let mut parameters = Vec::new();
    proof {
        lemma_list_empty(v);
        lemma_list_push(v, parameters@, array);
    }
    parameters.push(array);
    let call = final_function(array_length, parameters, Ghost(v));
    let inner = context(object_const(default_array_lib, Ghost(v)), 19, field_pointer(len, this), call, Ghost(v));
    let e = let_expr(field_pointer(len, this), local_var(len, this, Ghost(v)), inner, Ghost(v));
    proof {
        assert forall|t: int, c: int, n: int| refs_allowed(seq![this.index, default_array_lib.index, array_length.index] + expr_refs(array), t, c, n) implies #[trigger] refs_allowed(
            expr_refs(e),
            t,
            c,
            n,
        ) by {}
        assert forall|d: Seq<PackageIndex>, x: int| refs_in_deps(seq![this.index, default_array_lib.index, array_length.index] + expr_refs(array), d, x) implies #[trigger] refs_in_deps(
            expr_refs(e),
            d,
            x,
        ) by {}
    }
    e
}

/// Declares the counter, comparison, length and increment variables of the
/// loops and the variables that the gathering loop fills, imports the array
/// and math libraries, and writes the two assignments of array lengths that
/// precede the gathering loop.
#[verifier::rlimit(40)]
fn loop_setup(
    sc: &mut Script,
    blueprint: &mut Asset,
    v: i32,
    this: PackageIndex,
    class: PackageIndex,
    hook_interface: PackageIndex,
    coreuobject_ref: PackageIndex,
    coreuobject: &String,
    package: &String,
    engine: &String,
    class_name: &String,
    function_name: &String,
    hooks_name: &String,
    assets_name: &String,
    none: &String,
    hook_name: &str,
    Ghost(from): Ghost<int>,
) -> (parts: LoopParts)
    requires
        deps_hold(old(sc).deps@, coreuobject_ref.index),
        class.index > 0,
        import_ref_in(hook_interface.index, old(blueprint).imports@),
        import_ref_in(coreuobject_ref.index, old(blueprint).imports@),
        refers_first(old(blueprint).imports@, coreuobject_ref.index, package_key("/Script/CoreUObject"@)),
        coreuobject@ == "/Script/CoreUObject"@,
        package@ == "Package"@,
        class_name@ == "Class"@,
        engine@ == "/Script/Engine"@,
        function_name@ == "Function"@,
        hooks_name@ == "hooks"@,
        assets_name@ == "CallFunc_GetAssetsByPath_OutAssetData"@,
        script_ok(v, *old(sc), old(blueprint).imports@, from),
        old(sc).this@ == this.index,
        old(sc).class@ == class.index,
        old(sc).stack@.len() == 5,
        old(sc).offset + 2000 <= u32::MAX,
        old(blueprint).imports@.len() + 58 < i32::MAX,
    ensures
        deps_hold(final(sc).deps@, parts.math_lib.index),
        deps_hold(final(sc).deps@, parts.array_lib.index),
        deps_hold(final(sc).deps@, parts.default_array_lib.index),
        deps_hold(final(sc).deps@, parts.array_add.index),
        import_ref_in(parts.math_lib.index, final(blueprint).imports@),
        import_ref_in(parts.array_lib.index, final(blueprint).imports@),
        is_length(final(sc).stack@[5], this.index, final(blueprint).imports@, "hooks"@, class.index),
        is_length(final(sc).stack@[6], this.index, final(blueprint).imports@, "CallFunc_GetAssetsByPath_OutAssetData"@, this.index),
        names_import(final(blueprint).imports@, parts.default_array_lib.index, array_lib_key()),
        names_import(final(blueprint).imports@, parts.array_add.index, function_key("Array_Add"@)),
        parts.counter@ == "counter"@,
        parts.is_less@ == "CallFunc_Less_IntInt_ReturnValue"@,
        parts.len@ == "CallFunc_Array_Length_ReturnValue"@,
        parts.incremented@ == "CallFunc_Add_IntInt_ReturnValue"@,
        parts.item@ == "CallFunc_Array_Get_Item"@,
        parts.asset@ == "CallFunc_GetAsset_ReturnValue"@,
        parts.cast@ == "K2Node_DynamicCast_As"@ + hook_name@,
        parts.cast_success@ == "K2Node_DynamicCast_bSuccess"@,
        parts.array_added@ == "CallFunc_Array_Add_ReturnValue"@,
        parts.get_asset@ == "GetAsset"@,
        script_ok(v, *final(sc), final(blueprint).imports@, from),
        stage_keeps(*old(sc), *final(sc), *old(blueprint), *final(blueprint)),
        final(blueprint).imports@.len() <= old(blueprint).imports@.len() + 8,
        final(sc).stack@.len() == 7,
        final(sc).offset == old(sc).offset + 118,
        final(sc).locals@.len() == old(sc).locals@.len() + 9,
        fprop_name(final(sc).locals@[old(sc).locals@.len() as int]) == "counter"@,
        fprop_name(final(sc).locals@[old(sc).locals@.len() + 1int]) == "CallFunc_Less_IntInt_ReturnValue"@,
        fprop_name(final(sc).locals@[old(sc).locals@.len() + 2int]) == "CallFunc_Array_Length_ReturnValue"@,
        fprop_name(final(sc).locals@[old(sc).locals@.len() + 3int]) == "CallFunc_Add_IntInt_ReturnValue"@,
        fprop_name(final(sc).locals@[old(sc).locals@.len() + 4int]) == "CallFunc_Array_Get_Item"@,
        fprop_name(final(sc).locals@[old(sc).locals@.len() + 5int]) == "CallFunc_GetAsset_ReturnValue"@,
        fprop_name(final(sc).locals@[old(sc).locals@.len() + 6int]) == "K2Node_DynamicCast_As"@ + hook_name@,
        fprop_name(final(sc).locals@[old(sc).locals@.len() + 7int]) == "K2Node_DynamicCast_bSuccess"@,
        fprop_name(final(sc).locals@[old(sc).locals@.len() + 8int]) == "CallFunc_Array_Add_ReturnValue"@,
        import_ref_in(parts.default_array_lib.index, final(blueprint).imports@),
        import_ref_in(parts.array_add.index, final(blueprint).imports@),
        refers_first(final(blueprint).imports@, parts.math_lib.index, math_lib_key()),
        refers_first(final(blueprint).imports@, parts.array_lib.index, array_lib_class_key()),
        final(sc).used@.contains(package_key("/Script/Engine"@)),
        final(sc).used@.contains(math_lib_key()),
        final(sc).used@.contains(array_lib_key()),
        final(sc).used@.contains(array_lib_class_key()),
        final(sc).used@.contains(function_key("Array_Length"@)),
        final(sc).used@.contains(class_key("Object"@)),
        final(sc).used@.contains(function_key("Array_Add"@)),
{
    broadcast use lemma_prefix_trans, lemma_imports_grow_trans, lemma_deps_grow_trans, group_allowed,
        lemma_names_import_more, lemma_deps_hold_more;

    proof {
        reveal_with_fuel(fprop_refs, 3);
    }
    let ghost s0 = *sc;
    let ghost a0 = *blueprint;
    proof {
        lemma_stage_refl(s0, a0);
    }
    let int_property = name_into(sc, blueprint, "IntProperty");
    let int_type = Some(int_property);
    let counter = name_into(sc, blueprint, "counter");
    declare(sc, FProperty::FGenericProperty {
        generic_property: hook_generic(&counter, rf_public(), 4, cpf_none(), none, copy_opt_string(&int_type)),
    }, Ghost(v), Ghost(blueprint.imports@), Ghost(from));
    let is_less = name_into(sc, blueprint, "CallFunc_Less_IntInt_ReturnValue");
    declare(sc, bool_property(hook_generic(&is_less, rf_public(), 1, cpf_none(), none, None)), Ghost(v), Ghost(blueprint.imports@), Ghost(from));
    let len = name_into(sc, blueprint, "CallFunc_Array_Length_ReturnValue");
    declare(sc, FProperty::FGenericProperty {
        generic_property: hook_generic(&len, rf_public(), 4, cpf_none(), none, copy_opt_string(&int_type)),
    }, Ghost(v), Ghost(blueprint.imports@), Ghost(from));
    let script_engine = import_into(sc, blueprint, make_import(coreuobject, package, PackageIndex::new(0), engine.clone()), Ghost(v), Ghost(from));
    let ghost imports_engine = blueprint.imports@;
    let n = name_into(sc, blueprint, "Less_IntInt");
    let math_lib = import_into(sc, blueprint, make_import(coreuobject, class_name, script_engine, n), Ghost(v), Ghost(from));
    let ghost imports_math = blueprint.imports@;
    let array_lib_name = name_into(sc, blueprint, "KismetArrayLibrary");
    let n = name_into(sc, blueprint, "Default__KismetArrayLibrary");
    proof {
        lemma_first_match_more(imports_engine, blueprint.imports@, package_key("/Script/Engine"@));
    }
    let default_array_lib = import_into(sc, blueprint, make_import(engine, &array_lib_name, script_engine, n), Ghost(v), Ghost(from));
    let ghost deps_lib = sc.deps@;
    proof {
        lemma_first_match_more(imports_engine, blueprint.imports@, package_key("/Script/Engine"@));
    }
    let array_lib = import_into(sc, blueprint, make_import(coreuobject, class_name, script_engine, array_lib_name.clone()), Ghost(v), Ghost(from));
    let ghost imports_array = blueprint.imports@;
    let n = name_into(sc, blueprint, "Array_Length");
    let array_length = import_into(sc, blueprint, make_import(coreuobject, function_name, array_lib, n), Ghost(v), Ghost(from));
    let ghost imports_first = blueprint.imports@;
    let first_length = array_length_call(&len, this, default_array_lib, array_length, instance_var(hooks_name, class, Ghost(v)), Ghost(v));
    proof {
        assert(prefix_of(deps_lib, sc.deps@));
        lemma_deps_hold_more(deps_lib, sc.deps@, default_array_lib.index);
    }
    let ghost first_copy = first_length;
    emit(sc, first_length, v, Ghost(blueprint.imports@), Ghost(from));
    let incremented = name_into(sc, blueprint, "CallFunc_Add_IntInt_ReturnValue");
    declare(sc, FProperty::FGenericProperty {
        generic_property: hook_generic(&incremented, rf_public(), 4, cpf_none(), none, copy_opt_string(&int_type)),
    }, Ghost(v), Ghost(blueprint.imports@), Ghost(from));
    let n = name_into(sc, blueprint, "Array_Length");
    proof {
        lemma_first_match_more(imports_array, blueprint.imports@, array_lib_class_key());
    }
    let array_length = import_into(sc, blueprint, make_import(coreuobject, function_name, array_lib, n), Ghost(v), Ghost(from));
    let ghost imports_second = blueprint.imports@;
    let second_length = array_length_call(&len, this, default_array_lib, array_length, instance_var(assets_name, this, Ghost(v)), Ghost(v));
    proof {
        assert(prefix_of(deps_lib, sc.deps@));
        lemma_deps_hold_more(deps_lib, sc.deps@, default_array_lib.index);
    }
    let ghost second_copy = second_length;
    emit(sc, second_length, v, Ghost(blueprint.imports@), Ghost(from));
    let ghost after_lengths = sc.stack@;
    let item = name_into(sc, blueprint, "CallFunc_Array_Get_Item");
    declare(sc, FProperty::FInterfaceProperty {
        generic_property: hook_generic(&item, rf_public(), 16, cpf_none(), none, None),
        interface_class: hook_interface,
    }, Ghost(v), Ghost(blueprint.imports@), Ghost(from));
    let get_asset = name_into(sc, blueprint, "GetAsset");
    let n = name_into(sc, blueprint, "Object");
    proof {
        lemma_first_match_more(a0.imports@, blueprint.imports@, package_key("/Script/CoreUObject"@));
    }
    let object = import_into(sc, blueprint, make_import(coreuobject, class_name, coreuobject_ref, n), Ghost(v), Ghost(from));
    let asset = name_into(sc, blueprint, "CallFunc_GetAsset_ReturnValue");
    declare(sc, FProperty::FObjectProperty {
        generic_property: hook_generic(&asset, rf_public(), 8, cpf_none(), none, None),
        property_class: object,
    }, Ghost(v), Ghost(blueprint.imports@), Ghost(from));
    let cast_text = "K2Node_DynamicCast_As".to_owned().concat(hook_name);
    let cast = name_into(sc, blueprint, cast_text.as_str());
    declare(sc, FProperty::FInterfaceProperty {
        generic_property: hook_generic(&cast, rf_public(), 16, cpf_none(), none, None),
        interface_class: hook_interface,
    }, Ghost(v), Ghost(blueprint.imports@), Ghost(from));
    let cast_success = name_into(sc, blueprint, "K2Node_DynamicCast_bSuccess");
    declare(sc, bool_property(hook_generic(&cast_success, rf_public(), 1, cpf_none(), none, None)), Ghost(v), Ghost(blueprint.imports@), Ghost(from));
    let array_added = name_into(sc, blueprint, "CallFunc_Array_Add_ReturnValue");
    declare(sc, FProperty::FGenericProperty {
        generic_property: hook_generic(&array_added, rf_public(), 4, cpf_none(), none, copy_opt_string(&int_type)),
    }, Ghost(v), Ghost(blueprint.imports@), Ghost(from));
    let n = name_into(sc, blueprint, "Array_Add");
    proof {
        lemma_first_match_more(imports_array, blueprint.imports@, array_lib_class_key());
    }
    let array_add = import_into(sc, blueprint, make_import(coreuobject, function_name, array_lib, n), Ghost(v), Ghost(from));
    proof {
        lemma_first_match_more(imports_array, blueprint.imports@, array_lib_class_key());
        lemma_first_match_more(imports_math, blueprint.imports@, math_lib_key());
        assert(after_lengths[5] == first_copy);
        assert(after_lengths[6] == second_copy);
        assert(sc.stack@ == after_lengths);
        assert(prefix_of(imports_first, blueprint.imports@));
        assert(prefix_of(imports_second, blueprint.imports@));
        assert(names_import(imports_first, default_array_lib.index, array_lib_key()));
        assert(is_length(sc.stack@[5], this.index, blueprint.imports@, "hooks"@, class.index));
        assert(is_length(
            sc.stack@[6],
            this.index,
            blueprint.imports@,
            "CallFunc_GetAssetsByPath_OutAssetData"@,
            this.index,
        ));
    }
    LoopParts {
        counter,
        is_less,
        len,
        incremented,
        item,
        asset,
        cast,
        cast_success,
        array_added,
        get_asset,
        math_lib,
        default_array_lib,
        array_lib,
        array_add,
    }
}

/// A loop stays where it is in any sequence that starts with its own.
proof fn lemma_loop_prefix(v: i32, s: Seq<Expr>, u: Seq<Expr>, head: int, body: int)
    requires
        loop_at(v, s, head, body),
        prefix_of(s, u),
    ensures
        loop_at(v, u, head, body),
{
    let t = u.subrange(s.len() as int, u.len() as int);
    assert(u =~= s + t);
    lemma_loop_stable(v, s, t, head, body);
}

/// `counter := 0`.
fn loop_reset(counter: &String, this: PackageIndex, Ghost(v): Ghost<i32>) -> (e: Expr)
    ensures
        assigns_local(e, counter@, this.index, true),
        assigned(e) == (Expr::IntConst { value: 0 }),
        e is Let,
        expr_size(v, e) == 23,
        well_built(v, e),
        refers_within(expr_refs(e), seq![this.index]),
{
    broadcast use group_allowed;

    let e = let_expr(field_pointer(counter, this), local_var(counter, this, Ghost(v)), int_const(0, Ghost(v)), Ghost(v));
    proof {
        assert forall|t: int, c: int, n: int| refs_allowed(seq![this.index], t, c, n) implies #[trigger] refs_allowed(
            expr_refs(e),
            t,
            c,
            n,
        ) by {}
        assert forall|d: Seq<PackageIndex>, x: int| refs_in_deps(seq![this.index], d, x) implies #[trigger] refs_in_deps(
            expr_refs(e),
            d,
            x,
        ) by {}
    }
    e
}

/// `is_less := less(counter, len)`.
fn loop_condition(is_less: &String, counter: &String, len: &String, this: PackageIndex, less: PackageIndex, Ghost(v): Ghost<i32>) -> (e: Expr)
    ensures
        e matches Expr::LetBool { variable_expression, .. } && local_is(*variable_expression, is_less@, this.index),
        (assigned(e) is CallMath),
        call_target(assigned(e)) == Some(less.index),
        call_parameters(assigned(e)).len() == 2,
        local_is(call_parameters(assigned(e))[0], counter@, this.index),
        local_is(call_parameters(assigned(e))[1], len@, this.index),
        e is LetBool,
        expr_size(v, e) == 38,
        well_built(v, e),
        refers_within(expr_refs(e), seq![this.index, less.index]),
{
    broadcast use group_allowed;

    let mut parameters = Vec::new();
    let a = local_var(counter, this, Ghost(v));
    let b = local_var(len, this, Ghost(v));
    proof {
        lemma_list_empty(v);
        lemma_list_push(v, parameters@, a);
        lemma_list_push(v, parameters@.push(a), b);
    }
    parameters.push(a);
    parameters.push(b);
    let e = let_bool(local_var(is_less, this, Ghost(v)), call_math(less, parameters, Ghost(v)), Ghost(v));
    proof {
        assert forall|t: int, c: int, n: int| refs_allowed(seq![this.index, less.index], t, c, n) implies #[trigger] refs_allowed(
            expr_refs(e),
            t,
            c,
            n,
        ) by {}
        assert forall|d: Seq<PackageIndex>, x: int| refs_in_deps(seq![this.index, less.index], d, x) implies #[trigger] refs_in_deps(
            expr_refs(e),
            d,
            x,
        ) by {}
    }
    e
}

/// `incremented := add(counter, 1)`.
fn loop_increment(incremented: &String, counter: &String, this: PackageIndex, add: PackageIndex, Ghost(v): Ghost<i32>) -> (e: Expr)
    ensures
        assigns_local(e, incremented@, this.index, true),
        (assigned(e) is CallMath),
        call_target(assigned(e)) == Some(add.index),
        call_parameters(assigned(e)).len() == 2,
        local_is(call_parameters(assigned(e))[0], counter@, this.index),
        call_parameters(assigned(e))[1] == (Expr::IntConst { value: 1 }),
        e is Let,
        expr_size(v, e) == 42,
        well_built(v, e),
        refers_within(expr_refs(e), seq![this.index, add.index]),
{
    broadcast use group_allowed;

    let mut parameters = Vec::new();
    let a = local_var(counter, this, Ghost(v));
    let b = int_const(1, Ghost(v));
    proof {
        lemma_list_empty(v);
        lemma_list_push(v, parameters@, a);
        lemma_list_push(v, parameters@.push(a), b);
    }
    parameters.push(a);
    parameters.push(b);
    let e = let_expr(field_pointer(incremented, this), local_var(incremented, this, Ghost(v)), call_math(add, parameters, Ghost(v)), Ghost(v));
    proof {
        assert forall|t: int, c: int, n: int| refs_allowed(seq![this.index, add.index], t, c, n) implies #[trigger] refs_allowed(
            expr_refs(e),
            t,
            c,
            n,
        ) by {}
        assert forall|d: Seq<PackageIndex>, x: int| refs_in_deps(seq![this.index, add.index], d, x) implies #[trigger] refs_in_deps(
            expr_refs(e),
            d,
            x,
        ) by {}
    }
    e
}

/// `counter := incremented`.
fn loop_update(counter: &String, incremented: &String, this: PackageIndex, Ghost(v): Ghost<i32>) -> (e: Expr)
    ensures
        assigns_local(e, counter@, this.index, true),
        local_is(assigned(e), incremented@, this.index),
        e is Let,
        expr_size(v, e) == 27,
        well_built(v, e),
        refers_within(expr_refs(e), seq![this.index]),
{
    broadcast use group_allowed;

    let e = let_expr(field_pointer(counter, this), local_var(counter, this, Ghost(v)), local_var(incremented, this, Ghost(v)), Ghost(v));
    proof {
        assert forall|t: int, c: int, n: int| refs_allowed(seq![this.index], t, c, n) implies #[trigger] refs_allowed(
            expr_refs(e),
            t,
            c,
            n,
        ) by {}
        assert forall|d: Seq<PackageIndex>, x: int| refs_in_deps(seq![this.index], d, x) implies #[trigger] refs_in_deps(
            expr_refs(e),
            d,
            x,
        ) by {}
    }
    e
}

/// Item `counter` of `array` into `item`, through the final function
/// `array_get` of the default object `default_array_lib`.
fn array_get_call(array: Expr, counter: &String, item: &String, this: PackageIndex, default_array_lib: PackageIndex, array_get: PackageIndex, Ghost(v): Ghost<i32>) -> (e: Expr)
    requires
        expr_size(v, array) == 9,
        well_built(v, array),
    ensures
        e matches Expr::Context { r_value_pointer, .. } && field_none(r_value_pointer),
        context_refs(e) == (Some(default_array_lib.index), Some(array_get.index)),
        call_parameters(context_inner(e)).len() == 3,
        call_parameters(context_inner(e))[0] == array,
        local_is(call_parameters(context_inner(e))[1], counter@, this.index),
        local_is(call_parameters(context_inner(e))[2], item@, this.index),
        expr_size(v, e) == 59,
        well_built(v, e),
        refers_within(expr_refs(e), seq![this.index, default_array_lib.index, array_get.index] + expr_refs(array)),
{
    broadcast use group_allowed;

    let mut parameters = Vec::new();
    let b = local_var(counter, this, Ghost(v));
    let c = local_var(item, this, Ghost(v));
    proof {
        lemma_list_empty(v);
        lemma_list_push(v, parameters@, array);
        lemma_list_push(v, parameters@.push(array), b);
        lemma_list_push(v, parameters@.push(array).push(b), c);
    }
    parameters.push(array);
    parameters.push(b);
    parameters.push(c);
    let e = context(object_const(default_array_lib, Ghost(v)), 37, null_pointer(), final_function(array_get, parameters, Ghost(v)), Ghost(v));
    proof {
        assert forall|t: int, c: int, n: int| refs_allowed(seq![this.index, default_array_lib.index, array_get.index] + expr_refs(array), t, c, n) implies #[trigger] refs_allowed(
            expr_refs(e),
            t,
            c,
            n,
        ) by {}
        assert forall|d: Seq<PackageIndex>, x: int| refs_in_deps(seq![this.index, default_array_lib.index, array_get.index] + expr_refs(array), d, x) implies #[trigger] refs_in_deps(
            expr_refs(e),
            d,
            x,
        ) by {}
    }
    e
}

/// Writes the loop that goes over the assets the registry found in the hook
/// folder and adds each that is a hook object to the class's `hooks` array.
#[verifier::rlimit(80)]
fn gather_loop(
    sc: &mut Script,
    blueprint: &mut Asset,
    v: i32,
    this: PackageIndex,
    class: PackageIndex,
    hook_interface: PackageIndex,
    registry_helpers: PackageIndex,
    coreuobject: &String,
    function_name: &String,
    hooks_name: &String,
    assets_name: &String,
    parts: &LoopParts,
    Ghost(from): Ghost<int>,
    Ghost(hook_name): Ghost<Seq<char>>,
)
    requires
        deps_hold(old(sc).deps@, parts.math_lib.index),
        deps_hold(old(sc).deps@, parts.array_lib.index),
        deps_hold(old(sc).deps@, registry_helpers.index),
        class.index > 0,
        deps_hold(old(sc).deps@, parts.default_array_lib.index),
        deps_hold(old(sc).deps@, parts.array_add.index),
        deps_hold(old(sc).deps@, hook_interface.index),
        import_ref_in(parts.math_lib.index, old(blueprint).imports@),
        import_ref_in(parts.array_lib.index, old(blueprint).imports@),
        import_ref_in(registry_helpers.index, old(blueprint).imports@),
        script_ok(v, *old(sc), old(blueprint).imports@, from),
        refers_first(old(blueprint).imports@, registry_helpers.index, class_key("AssetRegistryHelpers"@)),
        refers_first(old(blueprint).imports@, parts.math_lib.index, math_lib_key()),
        refers_first(old(blueprint).imports@, parts.array_lib.index, array_lib_class_key()),
        old(sc).this@ == this.index,
        old(sc).class@ == class.index,
        coreuobject@ == "/Script/CoreUObject"@,
        function_name@ == "Function"@,
        hooks_name@ == "hooks"@,
        assets_name@ == "CallFunc_GetAssetsByPath_OutAssetData"@,
        parts.counter@ == "counter"@,
        parts.is_less@ == "CallFunc_Less_IntInt_ReturnValue"@,
        parts.len@ == "CallFunc_Array_Length_ReturnValue"@,
        parts.incremented@ == "CallFunc_Add_IntInt_ReturnValue"@,
        parts.item@ == "CallFunc_Array_Get_Item"@,
        parts.asset@ == "CallFunc_GetAsset_ReturnValue"@,
        parts.cast@ == "K2Node_DynamicCast_As"@ + hook_name,
        parts.cast_success@ == "K2Node_DynamicCast_bSuccess"@,
        parts.array_added@ == "CallFunc_Array_Add_ReturnValue"@,
        parts.get_asset@ == "GetAsset"@,
        names_import(old(blueprint).imports@, hook_interface.index, hook_class_key(hook_name)),
        names_import(old(blueprint).imports@, parts.default_array_lib.index, array_lib_key()),
        names_import(old(blueprint).imports@, parts.array_add.index, function_key("Array_Add"@)),
        import_ref_in(hook_interface.index, old(blueprint).imports@),
        import_ref_in(parts.default_array_lib.index, old(blueprint).imports@),
        import_ref_in(parts.array_add.index, old(blueprint).imports@),
        old(sc).stack@.len() == 7,
        old(sc).offset + 1000 <= u32::MAX,
        old(blueprint).imports@.len() + 50 < i32::MAX,
    ensures
        script_ok(v, *final(sc), final(blueprint).imports@, from),
        stage_keeps(*old(sc), *final(sc), *old(blueprint), *final(blueprint)),
        final(blueprint).imports@.len() <= old(blueprint).imports@.len() + 4,
        final(sc).stack@.len() == 21,
        cast_interface(final(sc).stack@[13]) == Some(hook_interface.index),
        gather_loop_part(final(sc).stack@, this.index, class.index, final(blueprint).imports@, hook_name),
        final(sc).offset == old(sc).offset + 386,
        final(sc).locals == old(sc).locals,
        loop_at(v, final(sc).stack@, 8, 6),
        final(sc).used@.contains(function_key("Less_IntInt"@)),
        final(sc).used@.contains(function_key("Add_IntInt"@)),
        final(sc).used@.contains(function_key("Array_Get"@)),
        final(sc).used@.contains(function_key("GetAsset"@)),
{
    broadcast use lemma_prefix_trans, lemma_imports_grow_trans, lemma_deps_grow_trans, group_allowed,
        lemma_names_import_more, lemma_deps_hold_more;

    let ghost s0 = *sc;
    let ghost a0 = *blueprint;
    proof {
        lemma_stage_refl(s0, a0);
    }
    let reset = loop_reset(&parts.counter, this, Ghost(v));
    let n = name_into(sc, blueprint, "Less_IntInt");
    let less = import_into(sc, blueprint, make_import(coreuobject, function_name, parts.math_lib, n), Ghost(v), Ghost(from));
    let ghost deps_less = sc.deps@;
    let ghost imports_less = blueprint.imports@;
    let condition = loop_condition(&parts.is_less, &parts.counter, &parts.len, this, less, Ghost(v));
    let n = name_into(sc, blueprint, "Add_IntInt");
    proof {
        lemma_first_match_more(a0.imports@, blueprint.imports@, math_lib_key());
    }
    let add = import_into(sc, blueprint, make_import(coreuobject, function_name, parts.math_lib, n), Ghost(v), Ghost(from));
    let ghost deps_add = sc.deps@;
    let ghost imports_add = blueprint.imports@;
    let increment = loop_increment(&parts.incremented, &parts.counter, this, add, Ghost(v));
    let update = loop_update(&parts.counter, &parts.incremented, this, Ghost(v));
    let n = name_into(sc, blueprint, "Array_Get");
    proof {
        lemma_first_match_more(a0.imports@, blueprint.imports@, array_lib_class_key());
    }
    let array_get = import_into(sc, blueprint, make_import(coreuobject, function_name, parts.array_lib, n), Ghost(v), Ghost(from));
    let ghost deps_get = sc.deps@;
    let ghost imports_get = blueprint.imports@;
    let get = array_get_call(local_var(assets_name, this, Ghost(v)), &parts.counter, &parts.item, this, parts.default_array_lib, array_get, Ghost(v));
    proof {
        lemma_first_match_more(a0.imports@, blueprint.imports@, class_key("AssetRegistryHelpers"@));
    }
    let get_asset = import_into(sc, blueprint, make_import(coreuobject, function_name, registry_helpers, parts.get_asset.clone()), Ghost(v), Ghost(from));
    let mut item_parameters = Vec::new();
    let item_var = local_var(&parts.item, this, Ghost(v));
    proof {
        lemma_list_empty(v);
        lemma_list_push(v, item_parameters@, item_var);
    }
    item_parameters.push(item_var);
    let load = let_obj(local_var(&parts.asset, this, Ghost(v)), call_math(get_asset, item_parameters, Ghost(v)), Ghost(v));
    let cast = let_expr(null_pointer(), local_var(&parts.cast, this, Ghost(v)), obj_to_interface_cast(hook_interface, local_var(&parts.asset, this, Ghost(v)), Ghost(v)), Ghost(v));
    let ghost cast_copy = cast;
    let check = let_expr(null_pointer(), local_var(&parts.cast_success, this, Ghost(v)), interface_to_bool(local_var(&parts.cast, this, Ghost(v)), Ghost(v)), Ghost(v));
    let skip = pop_execution_flow_if_not(local_var(&parts.cast_success, this, Ghost(v)), Ghost(v));
    let mut add_parameters = Vec::new();
    let hooks_var = instance_var(hooks_name, class, Ghost(v));
    let cast_var = local_var(&parts.cast, this, Ghost(v));
    proof {
        lemma_list_empty(v);
        lemma_list_push(v, add_parameters@, hooks_var);
        lemma_list_push(v, add_parameters@.push(hooks_var), cast_var);
    }
    add_parameters.push(hooks_var);
    add_parameters.push(cast_var);
    let add_call = context(object_const(parts.default_array_lib, Ghost(v)), 28, field_pointer(&parts.array_added, this), final_function(parts.array_add, add_parameters, Ghost(v)), Ghost(v));
    let keep = let_expr(field_pointer(&parts.array_added, this), local_var(&parts.array_added, this, Ghost(v)), add_call, Ghost(v));
    let mut body = Vec::new();
    proof {
        lemma_list_empty(v);
        lemma_list_push(v, body@, get);
        lemma_list_push(v, body@.push(get), load);
        lemma_list_push(v, body@.push(get).push(load), cast);
        lemma_list_push(v, body@.push(get).push(load).push(cast), check);
        lemma_list_push(v, body@.push(get).push(load).push(cast).push(check), skip);
        lemma_list_push(v, body@.push(get).push(load).push(cast).push(check).push(skip), keep);
    }
    body.push(get);
    body.push(load);
    body.push(cast);
    body.push(check);
    body.push(skip);
    body.push(keep);
    let ghost st = sc.stack@;
    let ghost b = body@;
    let is_less = local_var(&parts.is_less, this, Ghost(v));
    let ghost (t, c, m) = (sc.this@, sc.class@, blueprint.imports@.len() as int);
    proof {
        assert(refs_allowed(expr_list_refs(body@), t, c, m)) by {
            assert(refs_allowed(expr_refs(get), t, c, m));
            assert(refs_allowed(expr_refs(load), t, c, m));
            assert(refs_allowed(expr_refs(cast), t, c, m));
            assert(refs_allowed(expr_refs(check), t, c, m));
            assert(refs_allowed(expr_refs(skip), t, c, m));
            assert(refs_allowed(expr_refs(keep), t, c, m));
        }
        assert(refs_allowed(expr_refs(reset), t, c, m));
        assert(refs_allowed(expr_refs(condition), t, c, m));
        assert(refs_allowed(expr_refs(is_less), t, c, m));
        assert(refs_allowed(expr_refs(increment), t, c, m));
        assert(refs_allowed(expr_refs(update), t, c, m));
        let d = sc.deps@;
        assert(prefix_of(old(sc).deps@, d));
        assert(prefix_of(deps_less, d));
        assert(prefix_of(deps_add, d));
        assert(prefix_of(deps_get, d));
        lemma_deps_hold_more(old(sc).deps@, d, parts.default_array_lib.index);
        lemma_deps_hold_more(old(sc).deps@, d, parts.array_add.index);
        lemma_deps_hold_more(old(sc).deps@, d, hook_interface.index);
        lemma_deps_hold_more(deps_less, d, less.index);
        lemma_deps_hold_more(deps_add, d, add.index);
        lemma_deps_hold_more(deps_get, d, array_get.index);
        assert(refs_in_deps(expr_list_refs(body@), d, t)) by {
            assert(refs_in_deps(expr_refs(get), d, t));
            assert(refs_in_deps(expr_refs(load), d, t));
            assert(refs_in_deps(expr_refs(cast), d, t));
            assert(refs_in_deps(expr_refs(check), d, t));
            assert(refs_in_deps(expr_refs(skip), d, t));
            assert(refs_in_deps(expr_refs(keep), d, t));
        }
        assert(refs_in_deps(expr_refs(reset), d, t));
        assert(refs_in_deps(expr_refs(condition), d, t));
        assert(refs_in_deps(expr_refs(is_less), d, t));
        assert(refs_in_deps(expr_refs(increment), d, t));
        assert(refs_in_deps(expr_refs(update), d, t));
    }
    let ghost parts_copy = (reset, condition, is_less, increment, update);
    push_loop(&mut sc.stack, &mut sc.offset, v, reset, condition, is_less, body, increment, update);
    proof {
        let fs = sc.stack@;
        let fi = blueprint.imports@;
        assert(fs.take(st.len() as int) == st);
        assert(fs[13] == fs.subrange(11, 17)[2]);
        assert(b[2] == cast_copy);
        assert(prefix_of(imports_less, fi));
        assert(prefix_of(imports_add, fi));
        assert(prefix_of(imports_get, fi));
        assert(prefix_of(old(blueprint).imports@, fi));
        assert(names_import(fi, parts.default_array_lib.index, array_lib_key()));
        assert(names_import(fi, parts.array_add.index, function_key("Array_Add"@)));
        assert(names_import(fi, hook_interface.index, hook_class_key(hook_name)));
        assert(fs[7] == parts_copy.0);
        assert(fs[8] == parts_copy.1);
        assert(is_reset(fs[7], this.index));
        assert(is_condition(fs[8], this.index, fi));
        assert(is_exit_test(fs[9], this.index));
        assert forall|k: int| 0 <= k < 6 implies fs[11 + k] == #[trigger] b[k] by {
            assert(fs[11 + k] == fs.subrange(11, 17)[k]);
        }
        assert(fs[11] == b[0] && b[0] == get);
        assert(fs[12] == b[1] && b[1] == load);
        assert(fs[14] == b[3] && b[3] == check);
        assert(fs[15] == b[4] && b[4] == skip);
        assert(fs[16] == b[5] && b[5] == keep);
        assert(names_import(imports_get, array_get.index, function_key("Array_Get"@)));
        assert(names_import(fi, array_get.index, function_key("Array_Get"@)));
        assert(names_import(fi, get_asset.index, function_key("GetAsset"@)));
        assert(is_array_get(fs[11], this.index, fi, "CallFunc_GetAssetsByPath_OutAssetData"@, this.index));
        assert(is_load(fs[12], this.index, fi));
        assert(is_cast(fs[13], this.index, fi, hook_name));
        assert(is_check(fs[14], this.index, hook_name));
        assert(is_skip(fs[15], this.index));
        assert(is_keep(fs[16], this.index, class.index, fi, hook_name));
        assert(fs[18] == parts_copy.3);
        assert(fs[19] == parts_copy.4);
        assert(is_increment(fs[18], this.index, fi));
        assert(is_update(fs[19], this.index));
    }
}

/// Whether `e` calls, on the hook at hand, its function `name` with the
/// hooked object as the only argument.
pub open spec fn calls_on_hook(e: Expr, name: Seq<char>) -> bool {
    match e {
        Expr::Context { context_expression, .. } => match *context_expression {
            Expr::LocalVirtualFunction { virtual_function_name, parameters } => virtual_function_name@
                == name && parameters@ == seq![Expr::SelfObject],
            _ => false,
        },
        _ => false,
    }
}

/// Whether `e` calls the object's own function `name`, with no argument.
pub open spec fn calls_own(e: Expr, name: Seq<char>) -> bool {
    match e {
        Expr::LocalVirtualFunction { virtual_function_name, parameters } => virtual_function_name@ == name
            && parameters@.len() == 0,
        _ => false,
    }
}

/// Writes a loop that calls `name` on each hook.
#[verifier::rlimit(80)]
fn call_loop(
    sc: &mut Script,
    blueprint: &mut Asset,
    v: i32,
    this: PackageIndex,
    class: PackageIndex,
    coreuobject: &String,
    function_name: &String,
    hooks_name: &String,
    parts: &LoopParts,
    name: String,
    Ghost(from): Ghost<int>,
)
    requires
        deps_hold(old(sc).deps@, parts.math_lib.index),
        deps_hold(old(sc).deps@, parts.array_lib.index),
        class.index > 0,
        deps_hold(old(sc).deps@, parts.default_array_lib.index),
        import_ref_in(parts.math_lib.index, old(blueprint).imports@),
        import_ref_in(parts.array_lib.index, old(blueprint).imports@),
        script_ok(v, *old(sc), old(blueprint).imports@, from),
        old(sc).this@ == this.index,
        old(sc).class@ == class.index,
        import_ref_in(parts.default_array_lib.index, old(blueprint).imports@),
        refers_first(old(blueprint).imports@, parts.math_lib.index, math_lib_key()),
        refers_first(old(blueprint).imports@, parts.array_lib.index, array_lib_class_key()),
        coreuobject@ == "/Script/CoreUObject"@,
        function_name@ == "Function"@,
        hooks_name@ == "hooks"@,
        parts.counter@ == "counter"@,
        parts.is_less@ == "CallFunc_Less_IntInt_ReturnValue"@,
        parts.len@ == "CallFunc_Array_Length_ReturnValue"@,
        parts.incremented@ == "CallFunc_Add_IntInt_ReturnValue"@,
        parts.item@ == "CallFunc_Array_Get_Item"@,
        names_import(old(blueprint).imports@, parts.default_array_lib.index, array_lib_key()),
        old(sc).offset + 1000 <= u32::MAX,
        old(blueprint).imports@.len() + 50 < i32::MAX,
    ensures
        script_ok(v, *final(sc), final(blueprint).imports@, from),
        stage_keeps(*old(sc), *final(sc), *old(blueprint), *final(blueprint)),
        final(blueprint).imports@.len() <= old(blueprint).imports@.len() + 3,
        final(sc).stack@.len() == old(sc).stack@.len() + 10,
        final(sc).offset == old(sc).offset + 252,
        final(sc).locals == old(sc).locals,
        loop_at(v, final(sc).stack@, old(sc).stack@.len() + 1int, 2),
        calls_on_hook(final(sc).stack@[old(sc).stack@.len() + 5int], name@),
        hook_call_loop(
            final(sc).stack@,
            old(sc).stack@.len() as int,
            this.index,
            class.index,
            final(blueprint).imports@,
            name@,
        ),
{
    broadcast use lemma_prefix_trans, lemma_imports_grow_trans, lemma_deps_grow_trans, group_allowed,
        lemma_names_import_more, lemma_deps_hold_more;

    let ghost s0 = *sc;
    let ghost a0 = *blueprint;
    let ghost name_view = name@;
    proof {
        lemma_stage_refl(s0, a0);
    }
    let reset = loop_reset(&parts.counter, this, Ghost(v));
    let n = name_into(sc, blueprint, "Less_IntInt");
    let less = import_into(sc, blueprint, make_import(coreuobject, function_name, parts.math_lib, n), Ghost(v), Ghost(from));
    let ghost deps_less = sc.deps@;
    let ghost imports_less = blueprint.imports@;
    let condition = loop_condition(&parts.is_less, &parts.counter, &parts.len, this, less, Ghost(v));
    let n = name_into(sc, blueprint, "Add_IntInt");
    proof {
        lemma_first_match_more(a0.imports@, blueprint.imports@, math_lib_key());
    }
    let add = import_into(sc, blueprint, make_import(coreuobject, function_name, parts.math_lib, n), Ghost(v), Ghost(from));
    let ghost deps_add = sc.deps@;
    let ghost imports_add = blueprint.imports@;
    let increment = loop_increment(&parts.incremented, &parts.counter, this, add, Ghost(v));
    let update = loop_update(&parts.counter, &parts.incremented, this, Ghost(v));
    let n = name_into(sc, blueprint, "Array_Get");
    proof {
        lemma_first_match_more(a0.imports@, blueprint.imports@, array_lib_class_key());
    }
    let array_get = import_into(sc, blueprint, make_import(coreuobject, function_name, parts.array_lib, n), Ghost(v), Ghost(from));
    let ghost deps_get = sc.deps@;
    let get = array_get_call(local_var(hooks_name, class, Ghost(v)), &parts.counter, &parts.item, this, parts.default_array_lib, array_get, Ghost(v));
    let ghost get_copy = get;
    let mut parameters = Vec::new();
    let me = self_object(Ghost(v));
    proof {
        lemma_list_empty(v);
        lemma_list_push(v, parameters@, me);
        assert(parameters@.push(me) =~= seq![Expr::SelfObject]);
    }
    parameters.push(me);
    let call = context(interface_context(local_var(&parts.item, this, Ghost(v)), Ghost(v)), 15, null_pointer(), local_virtual_function(name, parameters, Ghost(v)), Ghost(v));
    let ghost call_copy = call;
    let mut body = Vec::new();
    proof {
        lemma_list_empty(v);
        lemma_list_push(v, body@, get);
        lemma_list_push(v, body@.push(get), call);
    }
    body.push(get);
    body.push(call);
    let ghost st = sc.stack@;
    let ghost b = body@;
    let ghost parts_copy = (reset, condition, increment, update);
    let is_less = local_var(&parts.is_less, this, Ghost(v));
    proof {
        let d = sc.deps@;
        let t = sc.this@;
        assert(prefix_of(old(sc).deps@, d));
        assert(prefix_of(deps_less, d));
        assert(prefix_of(deps_add, d));
        lemma_prefix_refl(d);
        lemma_deps_hold_more(old(sc).deps@, d, parts.default_array_lib.index);
        lemma_deps_hold_more(deps_less, d, less.index);
        lemma_deps_hold_more(deps_add, d, add.index);
        assert(deps_get == d);
        assert(refs_in_deps(expr_list_refs(body@), d, t)) by {
            assert(refs_in_deps(expr_refs(get_copy), d, t));
            assert(refs_in_deps(expr_refs(call_copy), d, t));
        }
        assert(refs_in_deps(expr_refs(reset), d, t));
        assert(refs_in_deps(expr_refs(condition), d, t));
        assert(refs_in_deps(expr_refs(is_less), d, t));
        assert(refs_in_deps(expr_refs(increment), d, t));
        assert(refs_in_deps(expr_refs(update), d, t));
    }
    push_loop(&mut sc.stack, &mut sc.offset, v, reset, condition, is_less, body, increment, update);
    proof {
        let fs = sc.stack@;
        let fi = blueprint.imports@;
        let at = st.len() as int;
        assert(fs.take(at) == st);
        assert(fs[at + 5] == fs.subrange(at + 4, at + 6)[1]);
        assert(fs[at + 4] == fs.subrange(at + 4, at + 6)[0]);
        assert(b[1] == call_copy);
        assert(b[0] == get_copy);
        assert(prefix_of(imports_less, fi));
        assert(prefix_of(imports_add, fi));
        assert(prefix_of(old(blueprint).imports@, fi));
        assert(names_import(fi, parts.default_array_lib.index, array_lib_key()));
        assert(is_reset(fs[at], this.index));
        assert(is_condition(fs[at + 1], this.index, fi));
        assert(is_exit_test(fs[at + 2], this.index));
        assert(is_array_get(fs[at + 4], this.index, fi, "hooks"@, class.index));
        assert(is_hook_call(fs[at + 5], this.index, name@));
        assert(fs[at + 7] == parts_copy.2);
        assert(fs[at + 8] == parts_copy.3);
        assert(is_increment(fs[at + 7], this.index, fi));
        assert(is_update(fs[at + 8], this.index));
    }
}

/// Why hooking failed.
#[derive(Clone, Copy, Debug, PartialEq, Eq, Structural)]
pub enum HookError {
    /// The blueprint has no class export.
    ClassNotFound,
}

/// The position of the first class export of `exports`.
pub open spec fn first_class(exports: Seq<Export>) -> Option<int> {
    exports.map_values(|e: Export| e.data is ClassExport).index_of_first(true)
}

/// The position of the first class export of `exports`.
pub fn find_class(exports: &Vec<Export>) -> (r: Option<usize>)
    ensures
        r matches Some(i) ==> i < exports@.len() && first_class(exports@) == Some(i as int)
            && exports@[i as int].data is ClassExport,
        r is None ==> first_class(exports@) is None,
{
    let ghost flags = exports@.map_values(|e: Export| e.data is ClassExport);
    let mut i: usize = 0;
    while i < exports.len()
        invariant
            i <= exports@.len(),
            flags == exports@.map_values(|e: Export| e.data is ClassExport),
            forall|j: int| 0 <= j < i ==> !flags[j],
        decreases exports@.len() - i,
    {
        let is_class = match &exports[i].data {
            ExportData::ClassExport { .. } => true,
            _ => false,
        };
        if is_class {
            proof {
                flags.index_of_first_ensures(true);
                assert(flags[i as int]);
                assert(flags.contains(true));
                let p = flags.index_of_first(true).unwrap();
                if p < i {
                    assert(!flags[p]);
                }
                if p > i {
                    assert(flags[i as int] != true);
                }
            }
            return Some(i);
        }
        i = i + 1;
    }
    proof {
        flags.index_of_first_ensures(true);
        if flags.contains(true) {
            let j = choose|j: int| 0 <= j < flags.len() && flags[j] == true;
            assert(!flags[j]);
        }
    }
    None
}

/// Whether the class export `e1` is `e0` with one more property declared,
/// named `name`.
pub open spec fn gains_property(e0: Export, e1: Export, name: Seq<char>) -> bool {
    &&& e1.base_export == e0.base_export
    &&& match (e0.data, e1.data) {
        (
            ExportData::ClassExport {
                func_map: m0,
                class_within: w0,
                interfaces: i0,
                class_generated_by: g0,
                class_default_object: d0,
                struct_export: s0,
            },
            ExportData::ClassExport {
                func_map: m1,
                class_within: w1,
                interfaces: i1,
                class_generated_by: g1,
                class_default_object: d1,
                struct_export: s1,
            },
        ) => {
            &&& m1 == m0
            &&& w1 == w0
            &&& i1 == i0
            &&& g1 == g0
            &&& d1 == d0
            &&& s1.field == s0.field
            &&& s1.super_struct == s0.super_struct
            &&& s1.children == s0.children
            &&& s1.script_bytecode == s0.script_bytecode
            &&& s1.normal_export == s0.normal_export
            &&& s1.loaded_properties@.len() == s0.loaded_properties@.len() + 1
            &&& s1.loaded_properties@.drop_last() == s0.loaded_properties@
            &&& fprop_name(s1.loaded_properties@.last()) == name
        },
        _ => false,
    }
}

/// An export with nothing in it: a base export whose references are all 0,
/// with an empty name and no dependencies.
pub(crate) fn empty_export() -> (e: Export)
    ensures
        e.data is BaseExport,
        e.base_export.class_index.index == 0,
        e.base_export.super_index.index == 0,
        e.base_export.template_index.index == 0,
        e.base_export.outer_index.index == 0,
        e.base_export.object_name@ == Seq::<char>::empty(),
        e.base_export.serialization_before_serialization_dependencies@.len() == 0,
        e.base_export.create_before_serialization_dependencies@.len() == 0,
        e.base_export.serialization_before_create_dependencies@.len() == 0,
        e.base_export.create_before_create_dependencies@.len() == 0,
{
    Export {
        base_export: BaseExport {
            class_index: PackageIndex::new(0),
            super_index: PackageIndex::new(0),
            template_index: PackageIndex::new(0),
            outer_index: PackageIndex::new(0),
            object_name: String::new(),
            serialization_before_serialization_dependencies: Vec::new(),
            create_before_serialization_dependencies: Vec::new(),
            serialization_before_create_dependencies: Vec::new(),
            create_before_create_dependencies: Vec::new(),
        },
        data: ExportData::BaseExport,
    }
}

/// Whether `g` declares a public, replicated-never, single property `name`
/// with the given flags and element size.
pub open spec fn hook_generic_is(g: FGenericProperty, name: Seq<char>, flags: u32, element_size: i32, property_flags: u64) -> bool {
    &&& g.name@ == name
    &&& g.flags == flags
    &&& g.array_dim == 1
    &&& g.element_size == element_size
    &&& g.property_flags == property_flags
    &&& g.rep_index == 0
    &&& g.rep_notify_func@ == "None"@
    &&& g.blueprint_replication_condition == 0
    &&& g.serialized_type is None
}

/// Whether `p` declares the array `name` of hook objects: public and loaded
/// (`RF_PUBLIC | RF_LOAD_COMPLETED`), editable, visible to blueprints and not
/// editable on instances, of elements of 16 bytes, each of the interface
/// `interface`.
pub open spec fn is_hooks_property(p: FProperty, name: Seq<char>, interface: i32) -> bool {
    match p {
        FProperty::FArrayProperty { generic_property, inner } => {
            &&& hook_generic_is(generic_property, name, 0x0020_0001, 16, 0x0001_0005)
            &&& match *inner {
                FProperty::FInterfaceProperty { generic_property: g, interface_class } => {
                    &&& hook_generic_is(g, name, 0x0000_0001, 16, 0)
                    &&& interface_class.index == interface
                },
                _ => false,
            }
        },
        _ => false,
    }
}

/// The last property a class export declares.
pub open spec fn last_class_property(e: Export) -> Option<FProperty> {
    match e.data {
        ExportData::ClassExport { struct_export, .. } => if struct_export.loaded_properties@.len() > 0 {
            Some(struct_export.loaded_properties@.last())
        } else {
            None
        },
        _ => None,
    }
}

/// The interface that the elements of an array of interfaces implement.
pub open spec fn property_interface(p: FProperty) -> i32 {
    match p {
        FProperty::FArrayProperty { inner, .. } => match *inner {
            FProperty::FInterfaceProperty { interface_class, .. } => interface_class.index,
            _ => 0,
        },
        _ => 0,
    }
}

/// Whether the class export `e1` is `e0` with the array `hooks` of the hook
/// class `hook_name`, which `imports` name, declared last.
pub open spec fn hooks_declared(e0: Export, e1: Export, imports: Seq<Import>, hook_name: Seq<char>) -> bool {
    &&& gains_property(e0, e1, "hooks"@)
    &&& last_class_property(e1) matches Some(p) && is_hooks_property(p, "hooks"@, property_interface(p))
        && names_import(imports, property_interface(p), hook_class_key(hook_name))
}

/// Declares, in the class export at `pos`, the array of hook objects
/// `hooks_name`, of the interface `hook_interface`.
fn add_hooks_property(exports: &mut Vec<Export>, pos: usize, hooks_name: &String, none: &String, hook_interface: PackageIndex)
    requires
        pos < old(exports)@.len(),
        old(exports)@[pos as int].data is ClassExport,
        none@ == "None"@,
    ensures
        last_class_property(final(exports)@[pos as int]) matches Some(p) && is_hooks_property(
            p,
            hooks_name@,
            hook_interface.index,
        ),
        final(exports)@.len() == old(exports)@.len(),
        forall|k: int| 0 <= k < old(exports)@.len() && k != pos ==> final(exports)@[k] == old(exports)@[k],
        gains_property(old(exports)@[pos as int], final(exports)@[pos as int], hooks_name@),
{
    let mut taken = empty_export();
    std::mem::swap(&mut taken, &mut exports[pos]);
    let Export { base_export, data } = taken;
    let public = rf_public();
    let loaded = rf_load_completed();
    let flags = public | loaded;
    assert(flags == 0x0020_0001) by (bit_vector)
        requires
            public == 0x0000_0001,
            loaded == 0x0020_0000,
            flags == public | loaded,
    ;
    let edit = cpf_edit();
    let visible = cpf_blueprint_visible();
    let disabled = cpf_disable_edit_on_instance();
    let property_flags = edit | visible | disabled;
    assert(property_flags == 0x0001_0005) by (bit_vector)
        requires
            edit == 0x0000_0000_0000_0001,
            visible == 0x0000_0000_0000_0004,
            disabled == 0x0000_0000_0001_0000,
            property_flags == edit | visible | disabled,
    ;
    let hooks = FProperty::FArrayProperty {
        generic_property: hook_generic(hooks_name, flags, 16, property_flags, none, None),
        inner: Box::new(FProperty::FInterfaceProperty {
            generic_property: hook_generic(hooks_name, rf_public(), 16, cpf_none(), none, None),
            interface_class: hook_interface,
        }),
    };
    let data = match data {
        ExportData::ClassExport { func_map, class_within, interfaces, class_generated_by, class_default_object, struct_export } => {
            let StructExport { field, super_struct, children, mut loaded_properties, script_bytecode, normal_export } = struct_export;
            let ghost before = loaded_properties@;
            let ghost hooks_copy = hooks;
            loaded_properties.push(hooks);
            proof {
                assert(loaded_properties@.drop_last() =~= before);
                assert(loaded_properties@.last() == hooks_copy);
                assert(is_hooks_property(hooks_copy, hooks_name@, hook_interface.index));
            }
            ExportData::ClassExport {
                func_map,
                class_within,
                interfaces,
                class_generated_by,
                class_default_object,
                struct_export: StructExport { field, super_struct, children, loaded_properties, script_bytecode, normal_export },
            }
        },
        other => other,
    };
    exports.set(pos, Export { base_export, data });
}

/// The key of the default object of the engine's array library.
pub open spec fn array_lib_key() -> ImportKey {
    ("/Script/Engine"@, "KismetArrayLibrary"@, "Default__KismetArrayLibrary"@)
}

/// The key of the blueprint class `hook_name` that hooks implement.
pub open spec fn hook_class_key(hook_name: Seq<char>) -> ImportKey {
    ("/Script/Engine"@, "BlueprintGeneratedClass"@, hook_name)
}

/// Whether `e` is a call of the function with key `function_key(f)` among
/// `imports`.
pub open spec fn calls_math(e: Expr, imports: Seq<Import>, f: Seq<char>) -> bool {
    &&& e is CallMath
    &&& call_target(e) matches Some(r) && names_import(imports, r, function_key(f))
}

/// The parameters of a call.
pub open spec fn call_parameters(e: Expr) -> Seq<Expr> {
    match e {
        Expr::CallMath { parameters, .. } => parameters@,
        Expr::FinalFunction { parameters, .. } => parameters@,
        Expr::VirtualFunction { parameters, .. } => parameters@,
        Expr::LocalVirtualFunction { parameters, .. } => parameters@,
        _ => Seq::empty(),
    }
}

/// Whether `e` calls, on the default object of the array library, its
/// function `f` with `parameters`, writing through `result`.
pub open spec fn calls_array_lib(e: Expr, imports: Seq<Import>, f: Seq<char>, result: KismetPropertyPointer) -> bool {
    match e {
        Expr::Context { object_expression, r_value_pointer, context_expression, .. } => {
            &&& object_ref(*object_expression) matches Some(r) && names_import(imports, r, array_lib_key())
            &&& r_value_pointer == result
            &&& call_target(*context_expression) matches Some(r) && names_import(imports, r, function_key(f))
        },
        _ => false,
    }
}

/// The reference an object constant holds.
pub open spec fn object_ref(e: Expr) -> Option<i32> {
    match e {
        Expr::ObjectConst { value } => Some(value.index),
        _ => None,
    }
}

/// The function a call of a function by reference calls.
pub open spec fn call_target(e: Expr) -> Option<i32> {
    match e {
        Expr::CallMath { stack_node, .. } => Some(stack_node.index),
        Expr::FinalFunction { stack_node, .. } => Some(stack_node.index),
        _ => None,
    }
}

/// The object and the function reference of a call in a context.
pub open spec fn context_refs(e: Expr) -> (Option<i32>, Option<i32>) {
    match e {
        Expr::Context { object_expression, context_expression, .. } => (
            object_ref(*object_expression),
            call_target(*context_expression),
        ),
        _ => (None, None),
    }
}

/// The interface value whose object a context is evaluated on.
pub open spec fn interface_of(e: Expr) -> Option<Expr> {
    match e {
        Expr::InterfaceContext { interface_value } => Some(*interface_value),
        _ => None,
    }
}

/// The expression inside a context.
pub open spec fn context_inner(e: Expr) -> Expr {
    match e {
        Expr::Context { context_expression, .. } => *context_expression,
        _ => e,
    }
}

/// Whether `e` assigns, through the local variable `name` of `this`, the
/// value that `value` satisfies; `pointer` tells whether the assignment
/// names the variable by field path (else by no property).
pub open spec fn assigns_local(e: Expr, name: Seq<char>, this: i32, pointer: bool) -> bool {
    e matches Expr::Let { value, variable, .. } && (if pointer {
        field_is(value, name, this)
    } else {
        field_none(value)
    }) && local_is(*variable, name, this)
}

/// The value an assignment assigns.
pub open spec fn assigned(e: Expr) -> Expr {
    match e {
        Expr::Let { expression, .. } => *expression,
        Expr::LetBool { assignment_expression, .. } => *assignment_expression,
        Expr::LetObj { assignment_expression, .. } => *assignment_expression,
        _ => e,
    }
}

/// `CallFunc_GetAssetRegistry_ReturnValue := GetAssetRegistry()`.
pub open spec fn is_registry_call(e: Expr, this: i32, imports: Seq<Import>) -> bool {
    &&& assigns_local(e, "CallFunc_GetAssetRegistry_ReturnValue"@, this, true)
    &&& calls_math(assigned(e), imports, "GetAssetRegistry"@)
    &&& call_parameters(assigned(e)).len() == 0
}

/// `K2Node_MakeArray_Array := [folder]`.
pub open spec fn is_folder_array(e: Expr, this: i32, folder: Seq<char>) -> bool {
    &&& e matches Expr::SetArray { assigning_property: Some(a), .. } && local_is(*a, "K2Node_MakeArray_Array"@, this)
    &&& folder_set(e) == Some(folder)
}

/// `CallFunc_GetAssetRegistry_ReturnValue.ScanPathsSynchronous(K2Node_MakeArray_Array, true, false)`.
pub open spec fn is_scan(e: Expr, this: i32) -> bool {
    match e {
        Expr::Context { object_expression, r_value_pointer, context_expression, .. } => {
            &&& interface_of(*object_expression) matches Some(v) && local_is(
                v,
                "CallFunc_GetAssetRegistry_ReturnValue"@,
                this,
            )
            &&& field_none(r_value_pointer)
            &&& match *context_expression {
                Expr::VirtualFunction { virtual_function_name, parameters } => {
                    &&& virtual_function_name@ == "ScanPathsSynchronous"@
                    &&& parameters@.len() == 3
                    &&& local_is(parameters@[0], "K2Node_MakeArray_Array"@, this)
                    &&& parameters@[1] == Expr::True
                    &&& parameters@[2] == Expr::False
                },
                _ => false,
            }
        },
        _ => false,
    }
}

/// `CallFunc_GetAssetsByPath_OutAssetData := []`.
pub open spec fn is_assets_array(e: Expr, this: i32) -> bool {
    e matches Expr::SetArray { assigning_property: Some(a), elements, .. } && local_is(
        *a,
        "CallFunc_GetAssetsByPath_OutAssetData"@,
        this,
    ) && elements@.len() == 0
}

/// `CallFunc_Array_Length_ReturnValue := Array_Length(array)`, the array
/// being the instance variable `array` of `owner`.
pub open spec fn is_length(e: Expr, this: i32, imports: Seq<Import>, array: Seq<char>, owner: i32) -> bool {
    &&& assigns_local(e, "CallFunc_Array_Length_ReturnValue"@, this, true)
    &&& assigned(e) matches Expr::Context { r_value_pointer, .. } && calls_array_lib(
        assigned(e),
        imports,
        "Array_Length"@,
        r_value_pointer,
    ) && field_is(r_value_pointer, "CallFunc_Array_Length_ReturnValue"@, this)
    &&& call_parameters(context_inner(assigned(e))).len() == 1
    &&& instance_is(call_parameters(context_inner(assigned(e)))[0], array, owner)
}

/// `counter := 0`.
pub open spec fn is_reset(e: Expr, this: i32) -> bool {
    &&& assigns_local(e, "counter"@, this, true)
    &&& assigned(e) == Expr::IntConst { value: 0 }
}

/// `CallFunc_Less_IntInt_ReturnValue := Less_IntInt(counter, CallFunc_Array_Length_ReturnValue)`.
pub open spec fn is_condition(e: Expr, this: i32, imports: Seq<Import>) -> bool {
    &&& e matches Expr::LetBool { variable_expression, .. } && local_is(
        *variable_expression,
        "CallFunc_Less_IntInt_ReturnValue"@,
        this,
    )
    &&& calls_math(assigned(e), imports, "Less_IntInt"@)
    &&& call_parameters(assigned(e)).len() == 2
    &&& local_is(call_parameters(assigned(e))[0], "counter"@, this)
    &&& local_is(call_parameters(assigned(e))[1], "CallFunc_Array_Length_ReturnValue"@, this)
}

/// A jump out of the loop unless `CallFunc_Less_IntInt_ReturnValue` holds.
pub open spec fn is_exit_test(e: Expr, this: i32) -> bool {
    e matches Expr::JumpIfNot { boolean_expression, .. } && local_is(
        *boolean_expression,
        "CallFunc_Less_IntInt_ReturnValue"@,
        this,
    )
}

/// `CallFunc_Add_IntInt_ReturnValue := Add_IntInt(counter, 1)`.
pub open spec fn is_increment(e: Expr, this: i32, imports: Seq<Import>) -> bool {
    &&& assigns_local(e, "CallFunc_Add_IntInt_ReturnValue"@, this, true)
    &&& calls_math(assigned(e), imports, "Add_IntInt"@)
    &&& call_parameters(assigned(e)).len() == 2
    &&& local_is(call_parameters(assigned(e))[0], "counter"@, this)
    &&& call_parameters(assigned(e))[1] == Expr::IntConst { value: 1 }
}

/// `counter := CallFunc_Add_IntInt_ReturnValue`.
pub open spec fn is_update(e: Expr, this: i32) -> bool {
    &&& assigns_local(e, "counter"@, this, true)
    &&& local_is(assigned(e), "CallFunc_Add_IntInt_ReturnValue"@, this)
}

/// `Array_Get(array, counter, CallFunc_Array_Get_Item)`, the array being the
/// local variable `array` of `owner`.
pub open spec fn is_array_get(e: Expr, this: i32, imports: Seq<Import>, array: Seq<char>, owner: i32) -> bool {
    &&& e matches Expr::Context { r_value_pointer, .. } && calls_array_lib(e, imports, "Array_Get"@, r_value_pointer)
        && field_none(r_value_pointer)
    &&& call_parameters(context_inner(e)).len() == 3
    &&& local_is(call_parameters(context_inner(e))[0], array, owner)
    &&& local_is(call_parameters(context_inner(e))[1], "counter"@, this)
    &&& local_is(call_parameters(context_inner(e))[2], "CallFunc_Array_Get_Item"@, this)
}

/// `CallFunc_GetAsset_ReturnValue := GetAsset(CallFunc_Array_Get_Item)`.
pub open spec fn is_load(e: Expr, this: i32, imports: Seq<Import>) -> bool {
    &&& e matches Expr::LetObj { variable_expression, .. } && local_is(
        *variable_expression,
        "CallFunc_GetAsset_ReturnValue"@,
        this,
    )
    &&& calls_math(assigned(e), imports, "GetAsset"@)
    &&& call_parameters(assigned(e)).len() == 1
    &&& local_is(call_parameters(assigned(e))[0], "CallFunc_Array_Get_Item"@, this)
}

/// `K2Node_DynamicCast_As<hook> := CallFunc_GetAsset_ReturnValue as <hook>`.
pub open spec fn is_cast(e: Expr, this: i32, imports: Seq<Import>, hook_name: Seq<char>) -> bool {
    &&& assigns_local(e, "K2Node_DynamicCast_As"@ + hook_name, this, false)
    &&& assigned(e) matches Expr::ObjToInterfaceCast { class_ptr, target } && names_import(
        imports,
        class_ptr.index,
        hook_class_key(hook_name),
    ) && local_is(*target, "CallFunc_GetAsset_ReturnValue"@, this)
}

/// `K2Node_DynamicCast_bSuccess := K2Node_DynamicCast_As<hook> is set`.
pub open spec fn is_check(e: Expr, this: i32, hook_name: Seq<char>) -> bool {
    &&& assigns_local(e, "K2Node_DynamicCast_bSuccess"@, this, false)
    &&& assigned(e) matches Expr::PrimitiveCast { conversion_type, target } && conversion_type
        == CastToken::InterfaceToBool2 && local_is(*target, "K2Node_DynamicCast_As"@ + hook_name, this)
}

/// Ends the iteration unless `K2Node_DynamicCast_bSuccess` holds.
pub open spec fn is_skip(e: Expr, this: i32) -> bool {
    e matches Expr::PopExecutionFlowIfNot { boolean_expression } && local_is(
        *boolean_expression,
        "K2Node_DynamicCast_bSuccess"@,
        this,
    )
}

/// `CallFunc_Array_Add_ReturnValue := Array_Add(hooks, K2Node_DynamicCast_As<hook>)`,
/// `hooks` being the instance variable of the class.
pub open spec fn is_keep(e: Expr, this: i32, class: i32, imports: Seq<Import>, hook_name: Seq<char>) -> bool {
    &&& assigns_local(e, "CallFunc_Array_Add_ReturnValue"@, this, true)
    &&& assigned(e) matches Expr::Context { r_value_pointer, .. } && calls_array_lib(
        assigned(e),
        imports,
        "Array_Add"@,
        r_value_pointer,
    ) && field_is(r_value_pointer, "CallFunc_Array_Add_ReturnValue"@, this)
    &&& call_parameters(context_inner(assigned(e))).len() == 2
    &&& instance_is(call_parameters(context_inner(assigned(e)))[0], "hooks"@, class)
    &&& local_is(call_parameters(context_inner(assigned(e)))[1], "K2Node_DynamicCast_As"@ + hook_name, this)
}

/// `CallFunc_Array_Get_Item.name(self)`.
pub open spec fn is_hook_call(e: Expr, this: i32, name: Seq<char>) -> bool {
    &&& calls_on_hook(e, name)
    &&& match e {
        Expr::Context { object_expression, r_value_pointer, .. } => {
            &&& interface_of(*object_expression) matches Some(v) && local_is(v, "CallFunc_Array_Get_Item"@, this)
            &&& field_none(r_value_pointer)
        },
        _ => false,
    }
}

/// Whether the instructions of `s` from `at` on are the loop that calls
/// `name` on each hook of the class's `hooks`.
pub open spec fn hook_call_loop(s: Seq<Expr>, at: int, this: i32, class: i32, imports: Seq<Import>, name: Seq<char>) -> bool {
    &&& is_reset(s[at], this)
    &&& is_condition(s[at + 1], this, imports)
    &&& is_exit_test(s[at + 2], this)
    &&& is_array_get(s[at + 4], this, imports, "hooks"@, class)
    &&& is_hook_call(s[at + 5], this, name)
    &&& is_increment(s[at + 7], this, imports)
    &&& is_update(s[at + 8], this)
}

/// Whether the first instructions of `s` make the asset registry scan
/// `folder` and prepare the array of the assets found.
pub open spec fn registry_part(s: Seq<Expr>, this: i32, imports: Seq<Import>, folder: Seq<char>) -> bool {
    &&& is_registry_call(s[0], this, imports)
    &&& is_folder_array(s[1], this, folder)
    &&& is_scan(s[2], this)
    &&& is_registry_call(s[3], this, imports)
    &&& is_assets_array(s[4], this)
}

/// Whether instructions 5 to 19 of `s` measure the arrays and go over the
/// assets found, adding each hook object to the class's `hooks`.
pub open spec fn gather_part(s: Seq<Expr>, this: i32, class: i32, imports: Seq<Import>, hook_name: Seq<char>) -> bool {
    &&& is_length(s[5], this, imports, "hooks"@, class)
    &&& is_length(s[6], this, imports, "CallFunc_GetAssetsByPath_OutAssetData"@, this)
    &&& gather_loop_part(s, this, class, imports, hook_name)
}

/// Whether instructions 7 to 19 of `s` go over the assets found, adding
/// each hook object to the class's `hooks`.
pub open spec fn gather_loop_part(s: Seq<Expr>, this: i32, class: i32, imports: Seq<Import>, hook_name: Seq<char>) -> bool {
    &&& is_reset(s[7], this)
    &&& is_condition(s[8], this, imports)
    &&& is_exit_test(s[9], this)
    &&& is_array_get(s[11], this, imports, "CallFunc_GetAssetsByPath_OutAssetData"@, this)
    &&& is_load(s[12], this, imports)
    &&& is_cast(s[13], this, imports, hook_name)
    &&& is_check(s[14], this, hook_name)
    &&& is_skip(s[15], this)
    &&& is_keep(s[16], this, class, imports, hook_name)
    &&& is_increment(s[18], this, imports)
    &&& is_update(s[19], this)
}

/// Whether the hook bytecode `s` of the function `name`, whose export
/// reference is `this`, of the class `class`, does, instruction by
/// instruction, what a hook does: make the asset registry scan `folder`,
/// gather the hook objects of the class `hook_name` among the assets found
/// into the class's `hooks`, call `pre_` and the name on each, call the
/// original function, and call `post_` and the name on each; every call
/// target named through `imports`.
pub open spec fn hook_instructions(
    s: Seq<Expr>,
    this: i32,
    class: i32,
    imports: Seq<Import>,
    folder: Seq<char>,
    name: Seq<char>,
    hook_name: Seq<char>,
) -> bool {
    &&& registry_part(s, this, imports, folder)
    &&& gather_part(s, this, class, imports, hook_name)
    &&& is_length(s[21], this, imports, "hooks"@, class)
    &&& hook_call_loop(s, 22, this, class, imports, "pre_"@ + name)
    &&& calls_own(s[32], "orig_"@ + name)
    &&& hook_call_loop(s, 33, this, class, imports, "post_"@ + name)
}

/// An instruction of a prefix stays in place.
proof fn lemma_stack_at(s: Seq<Expr>, t: Seq<Expr>, k: int)
    requires
        prefix_of(s, t),
        0 <= k < s.len(),
    ensures
        t[k] == s[k],
{
    assert(t[k] == t.take(s.len() as int)[k]);
}

/// The registry instructions stay what they are as instructions follow and
/// imports are added.
proof fn lemma_registry_more(s: Seq<Expr>, t: Seq<Expr>, a: Seq<Import>, b: Seq<Import>, this: i32, folder: Seq<char>)
    requires
        registry_part(s, this, a, folder),
        s.len() >= 5,
        prefix_of(s, t),
        prefix_of(a, b),
    ensures
        registry_part(t, this, b, folder),
{
    broadcast use lemma_names_import_more;

    lemma_stack_at(s, t, 0);
    lemma_stack_at(s, t, 1);
    lemma_stack_at(s, t, 2);
    lemma_stack_at(s, t, 3);
    lemma_stack_at(s, t, 4);
}

/// An array length instruction stays what it is as instructions follow and
/// imports are added.
proof fn lemma_length_more(
    s: Seq<Expr>,
    t: Seq<Expr>,
    a: Seq<Import>,
    b: Seq<Import>,
    k: int,
    this: i32,
    array: Seq<char>,
    owner: i32,
)
    requires
        0 <= k < s.len(),
        is_length(s[k], this, a, array, owner),
        prefix_of(s, t),
        prefix_of(a, b),
    ensures
        is_length(t[k], this, b, array, owner),
{
    broadcast use lemma_names_import_more;

    lemma_stack_at(s, t, k);
}

/// The gathering loop stays what it is as instructions follow and imports
/// are added.
proof fn lemma_gather_more(
    s: Seq<Expr>,
    t: Seq<Expr>,
    a: Seq<Import>,
    b: Seq<Import>,
    this: i32,
    class: i32,
    hook_name: Seq<char>,
)
    requires
        gather_loop_part(s, this, class, a, hook_name),
        s.len() >= 21,
        prefix_of(s, t),
        prefix_of(a, b),
    ensures
        gather_loop_part(t, this, class, b, hook_name),
{
    broadcast use lemma_names_import_more;

    lemma_stack_at(s, t, 7);
    lemma_stack_at(s, t, 8);
    lemma_stack_at(s, t, 9);
    lemma_stack_at(s, t, 11);
    lemma_stack_at(s, t, 12);
    lemma_stack_at(s, t, 13);
    lemma_stack_at(s, t, 14);
    lemma_stack_at(s, t, 15);
    lemma_stack_at(s, t, 16);
    lemma_stack_at(s, t, 18);
    lemma_stack_at(s, t, 19);
}

/// A hook call loop stays what it is as instructions follow and imports are
/// added.
proof fn lemma_call_loop_more(
    s: Seq<Expr>,
    t: Seq<Expr>,
    a: Seq<Import>,
    b: Seq<Import>,
    at: int,
    this: i32,
    class: i32,
    name: Seq<char>,
)
    requires
        0 <= at,
        at + 10 <= s.len(),
        hook_call_loop(s, at, this, class, a, name),
        prefix_of(s, t),
        prefix_of(a, b),
    ensures
        hook_call_loop(t, at, this, class, b, name),
{
    broadcast use lemma_names_import_more;

    lemma_stack_at(s, t, at);
    lemma_stack_at(s, t, at + 1);
    lemma_stack_at(s, t, at + 2);
    lemma_stack_at(s, t, at + 4);
    lemma_stack_at(s, t, at + 5);
    lemma_stack_at(s, t, at + 7);
    lemma_stack_at(s, t, at + 8);
}

/// The instructions of a hook stay what they are as imports are added.
pub proof fn lemma_hook_instructions_more(
    s: Seq<Expr>,
    a: Seq<Import>,
    b: Seq<Import>,
    this: i32,
    class: i32,
    folder: Seq<char>,
    name: Seq<char>,
    hook_name: Seq<char>,
)
    requires
        s.len() == 43,
        hook_instructions(s, this, class, a, folder, name, hook_name),
        prefix_of(a, b),
    ensures
        hook_instructions(s, this, class, b, folder, name, hook_name),
{
    lemma_prefix_refl(s);
    lemma_registry_more(s, s, a, b, this, folder);
    lemma_length_more(s, s, a, b, 5, this, "hooks"@, class);
    lemma_length_more(s, s, a, b, 6, this, "CallFunc_GetAssetsByPath_OutAssetData"@, this);
    lemma_gather_more(s, s, a, b, this, class, hook_name);
    lemma_length_more(s, s, a, b, 21, this, "hooks"@, class);
    lemma_call_loop_more(s, s, a, b, 22, this, class, "pre_"@ + name);
    lemma_call_loop_more(s, s, a, b, 33, this, class, "post_"@ + name);
}

/// The folder that an assignment of an array of one string names.
pub open spec fn folder_set(e: Expr) -> Option<Seq<char>> {
    match e {
        Expr::SetArray { elements, .. } => if elements@.len() == 1 {
            match elements@[0] {
                Expr::StringConst { value } => Some(value@),
                _ => None,
            }
        } else {
            None
        },
        _ => None,
    }
}

/// The reference to the interface that an assignment of a cast casts to.
pub open spec fn cast_interface(e: Expr) -> Option<i32> {
    match e {
        Expr::Let { expression, .. } => match *expression {
            Expr::ObjToInterfaceCast { class_ptr, .. } => Some(class_ptr.index),
            _ => None,
        },
        _ => None,
    }
}

/// Whether the hook bytecode `s` looks for objects of the blueprint class
/// `hook_name`, which `imports` hold, and `imports` hold the package
/// `hook_path`.
pub open spec fn hooks_interface(s: Seq<Expr>, imports: Seq<Import>, hook_path: Seq<char>, hook_name: Seq<char>) -> bool {
    &&& cast_interface(s[13]) matches Some(r) && import_at(imports, r) matches Some(i) && key_of(i) == (
        "/Script/Engine"@,
        "BlueprintGeneratedClass"@,
        hook_name,
    )
    &&& keys(imports).contains(("/Script/CoreUObject"@, "Package"@, hook_path))
}

/// What `hooks_interface` says stays true as imports are added.
pub proof fn lemma_hooks_interface_more(s: Seq<Expr>, a: Seq<Import>, b: Seq<Import>, hook_path: Seq<char>, hook_name: Seq<char>)
    requires
        hooks_interface(s, a, hook_path, hook_name),
        prefix_of(a, b),
    ensures
        hooks_interface(s, b, hook_path, hook_name),
{
    let r = cast_interface(s[13]).unwrap();
    assert(b[-(r as int) - 1] == b.take(a.len() as int)[-(r as int) - 1]);
    let k = ("/Script/CoreUObject"@, "Package"@, hook_path);
    let i = choose|i: int| 0 <= i < keys(a).len() && keys(a)[i] == k;
    assert(b[i] == b.take(a.len() as int)[i]);
    assert(keys(b)[i] == k);
}

/// Whether `s` has the shape of the bytecode of a hook of the function
/// `name`: 43 instructions of known size holding three loops, with every
/// jump landing where its loop needs it, the first hook loop calling `pre_`
/// and the last `post_` followed by the name on each hook, and between them
/// a call of the original function, renamed `orig_` followed by the name;
/// the folder scanned is `folder`. What each instruction does is
/// `hook_instructions`.
pub open spec fn hook_script(v: i32, s: Seq<Expr>, name: Seq<char>, folder: Seq<char>) -> bool {
    &&& s.len() == 43
    &&& folder_set(s[1]) == Some(folder)
    &&& list_well_built(v, s)
    &&& expr_list_size(v, s) <= u32::MAX
    &&& loop_at(v, s, 8, 6)
    &&& loop_at(v, s, 23, 2)
    &&& calls_on_hook(s[27], "pre_"@ + name)
    &&& calls_own(s[32], "orig_"@ + name)
    &&& loop_at(v, s, 34, 2)
    &&& calls_on_hook(s[38], "post_"@ + name)
}

/// The names of the local variables a hook declares, in order.
pub open spec fn hook_local_names(locals: Seq<FProperty>, hook_name: Seq<char>) -> bool {
    &&& locals.len() == 12
    &&& fprop_name(locals[0]) == "CallFunc_GetAssetRegistry_ReturnValue"@
    &&& fprop_name(locals[1]) == "K2Node_MakeArray_Array"@
    &&& fprop_name(locals[2]) == "CallFunc_GetAssetsByPath_OutAssetData"@
    &&& fprop_name(locals[3]) == "counter"@
    &&& fprop_name(locals[4]) == "CallFunc_Less_IntInt_ReturnValue"@
    &&& fprop_name(locals[5]) == "CallFunc_Array_Length_ReturnValue"@
    &&& fprop_name(locals[6]) == "CallFunc_Add_IntInt_ReturnValue"@
    &&& fprop_name(locals[7]) == "CallFunc_Array_Get_Item"@
    &&& fprop_name(locals[8]) == "CallFunc_GetAsset_ReturnValue"@
    &&& fprop_name(locals[9]) == "K2Node_DynamicCast_As"@ + hook_name
    &&& fprop_name(locals[10]) == "K2Node_DynamicCast_bSuccess"@
    &&& fprop_name(locals[11]) == "CallFunc_Array_Add_ReturnValue"@
}

/// Whether `f1` and `a1` are the function `f0`, whose export reference is
/// `this`, and the blueprint `a0` once the function is hooked with the hook
/// class `hook_name` of the package `hook_path`, found in `hook_folder`: the
/// function's bytecode is a hook's, instruction by instruction, scanning
/// that folder and casting to that class, and refers to nothing but the
/// function, its class and the blueprint's imports, each of those imports
/// among its dependencies; its locals are the hook's and refer to imports
/// only; its create-before-serialisation dependencies gain the imports it
/// uses, each added import among them with an outer object that is nothing
/// or an import among them too; each added import sits within the first
/// import of its parent's key (see `placed_within`); the first import of
/// each key that hooking looks up or adds (see `hook_keys`) is among the
/// dependencies; the blueprint's imports and names only grow; and, where the function is
/// `ReceiveBeginPlay`, the first class export declares the `hooks` array.
pub open spec fn hooked(
    f0: Export,
    f1: Export,
    a0: Asset,
    a1: Asset,
    hook_folder: Seq<char>,
    hook_path: Seq<char>,
    hook_name: Seq<char>,
    this: int,
) -> bool {
    let v = a0.object_version_ue5;
    let c = first_class(a0.exports@).unwrap();
    &&& f1.base_export.class_index == f0.base_export.class_index
    &&& f1.base_export.super_index == f0.base_export.super_index
    &&& f1.base_export.template_index == f0.base_export.template_index
    &&& f1.base_export.outer_index == f0.base_export.outer_index
    &&& f1.base_export.object_name == f0.base_export.object_name
    &&& f1.base_export.serialization_before_serialization_dependencies
        == f0.base_export.serialization_before_serialization_dependencies
    &&& f1.base_export.serialization_before_create_dependencies
        == f0.base_export.serialization_before_create_dependencies
    &&& f1.base_export.create_before_create_dependencies
        == f0.base_export.create_before_create_dependencies
    &&& deps_grow(
        f0.base_export.create_before_serialization_dependencies@,
        f1.base_export.create_before_serialization_dependencies@,
    )
    &&& deps_name_imports(
        f1.base_export.create_before_serialization_dependencies@,
        f0.base_export.create_before_serialization_dependencies@.len() as int,
        a1.imports@,
    )
    &&& match (f0.data, f1.data) {
        (ExportData::FunctionExport { struct_export: s0 }, ExportData::FunctionExport { struct_export: s1 }) => {
            &&& s1.field == s0.field
            &&& s1.super_struct == s0.super_struct
            &&& s1.children == s0.children
            &&& s1.normal_export == s0.normal_export
            &&& hook_local_names(s1.loaded_properties@, hook_name)
            &&& locals_refer_to_imports(s1.loaded_properties@, a1.imports@)
            &&& s1.script_bytecode matches Some(s) && refs_in_deps(
                expr_list_refs(s@),
                f1.base_export.create_before_serialization_dependencies@,
                this,
            )
            &&& s1.script_bytecode matches Some(s) && hook_script(v, s@, f0.base_export.object_name@, hook_folder)
                && refs_allowed(expr_list_refs(s@), this, c + 1, a1.imports@.len() as int)
                && hooks_interface(s@, a1.imports@, hook_path, hook_name)
                && hook_instructions(
                s@,
                this as i32,
                (c + 1) as i32,
                a1.imports@,
                hook_folder,
                f0.base_export.object_name@,
                hook_name,
            )
        },
        _ => false,
    }
    &&& imports_grow(a0.imports@, a1.imports@)
    &&& added_imports_used(
        a1.imports@,
        a0.imports@.len() as int,
        f1.base_export.create_before_serialization_dependencies@,
    )
    &&& imports_placed(a1.imports@, a0.imports@.len() as int, hook_path)
    &&& keys_used(
        a1.imports@,
        f1.base_export.create_before_serialization_dependencies@,
        hook_keys(hook_path, hook_name),
    )
    &&& a1.imports@.len() <= a0.imports@.len() + 30
    &&& prefix_of(a0.name_map@, a1.name_map@)
    &&& a1.object_version_ue5 == a0.object_version_ue5
    &&& a1.exports@.len() == a0.exports@.len()
    &&& forall|k: int| 0 <= k < a0.exports@.len() && k != c ==> a1.exports@[k] == a0.exports@[k]
    &&& f0.base_export.object_name@ == "ReceiveBeginPlay"@ ==> hooks_declared(
        a0.exports@[c],
        a1.exports@[c],
        a1.imports@,
        hook_name,
    )
    &&& f0.base_export.object_name@ != "ReceiveBeginPlay"@ ==> a1.exports@[c] == a0.exports@[c]
}

/// Replaces the bytecode of `function`, a function export of `blueprint`
/// whose own export reference is `this`, by a hook: the bytecode gathers the
/// objects of the folder `hook_folder` that implement the interface
/// `hook_name` of the package `hook_path`, calls `pre_` and the function's
/// name on each, calls the original function (renamed `orig_` and the name),
/// and calls `post_` and the name on each. The imports, names and local
/// variables it needs are added; hooking `ReceiveBeginPlay` also declares the
/// class's `hooks` array. A blueprint without a class export is refused and
/// left as it is.
#[verifier::rlimit(100)]
pub fn hook(
    function: &mut Export,
    this: PackageIndex,
    blueprint: &mut Asset,
    hook_folder: &str,
    hook_path: &str,
    hook_name: &str,
) -> (r: Result<(), HookError>)
    requires
        old(function).data is FunctionExport,
        old(blueprint).imports@.len() + 100 < i32::MAX,
        old(blueprint).exports@.len() < i32::MAX,
        encode_utf8(hook_folder@).len() + 4000 <= u32::MAX,
    ensures
        r is Err <==> first_class(old(blueprint).exports@) is None,
        r is Err ==> *final(function) == *old(function) && *final(blueprint) == *old(blueprint),
        r is Ok ==> hooked(
            *old(function),
            *final(function),
            *old(blueprint),
            *final(blueprint),
            hook_folder@,
            hook_path@,
            hook_name@,
            this.index as int,
        ),
{
    broadcast use lemma_prefix_trans, lemma_imports_grow_trans, lemma_deps_grow_trans, group_allowed,
        lemma_deps_hold_more;

    let class_pos = match find_class(&blueprint.exports) {
        Some(p) => p,
        None => {
            return Err(HookError::ClassNotFound);
        },
    };
    let ghost f0 = *function;
    let ghost a0 = *blueprint;
    let v = blueprint.object_version_ue5;
    let function_name = function.base_export.object_name.clone();
    let init = crate::strings::str_equal(function_name.as_str(), "ReceiveBeginPlay");
    let mut data = ExportData::BaseExport;
    std::mem::swap(&mut data, &mut function.data);
    let StructExport { field, super_struct, children, loaded_properties, script_bytecode, normal_export } = match data {
        ExportData::FunctionExport { struct_export } => struct_export,
        _ => {
            proof {
                assert(false);
            }
            return Err(HookError::ClassNotFound);
        },
    };
    let mut sc = Script {
        stack: Vec::new(),
        offset: 0,
        deps: Vec::new(),
        locals: Vec::new(),
        this: Ghost(this.index as int),
        class: Ghost(class_pos as int + 1),
        base: Ghost(blueprint.imports@.len() as int),
        path: Ghost(hook_path@),
        used: Ghost(Set::empty()),
    };
    std::mem::swap(&mut sc.deps, &mut function.base_export.create_before_serialization_dependencies);
    let ghost from = sc.deps@.len() as int;
    let ghost sc0 = sc;
    let ghost a1 = *blueprint;
    proof {
        lemma_stage_refl(sc0, a1);
        assert(deps_name_imports(sc.deps@, from, blueprint.imports@));
        assert(sc.stack@ =~= Seq::<Expr>::empty());
        assert(imports_placed(blueprint.imports@, sc.base@, sc.path@)) by {
            reveal(imports_placed);
        }
        assert(keys_used(blueprint.imports@, sc.deps@, sc.used@)) by {
            reveal(keys_used);
        }
    }
    let coreuobject = name_into(&sc, blueprint, "/Script/CoreUObject");
    let package = name_into(&sc, blueprint, "Package");
    let n = name_into(&sc, blueprint, hook_path);
    let script_hook_interface = import_into(&mut sc, blueprint, make_import(&coreuobject, &package, PackageIndex::new(0), n), Ghost(v), Ghost(from));
    let ghost imports_path = blueprint.imports@;
    let ghost key_path = ("/Script/CoreUObject"@, "Package"@, hook_path@);
    proof {
        assert(first_match(imports_path, key_path) is Some);
    }
    let engine = name_into(&sc, blueprint, "/Script/Engine");
    let generated_class = name_into(&sc, blueprint, "BlueprintGeneratedClass");
    let n = name_into(&sc, blueprint, hook_name);
    let hook_interface = import_into(&mut sc, blueprint, make_import(&engine, &generated_class, script_hook_interface, n), Ghost(v), Ghost(from));
    let ghost imports_hook = blueprint.imports@;
    let ghost key_hook = ("/Script/Engine"@, "BlueprintGeneratedClass"@, hook_name@);
    proof {
        assert(first_match(imports_hook, key_hook) == Some(-hook_interface.index - 1));
    }
    let hooks_name = name_into(&sc, blueprint, "hooks");
    let none = name_into(&sc, blueprint, "None");
    let ghost a2 = *blueprint;
    if init {
        add_hooks_property(&mut blueprint.exports, class_pos, &hooks_name, &none, hook_interface);
    }
    let ghost a3 = *blueprint;
    let class = PackageIndex::new(class_pos as i32 + 1);
    let ghost sc1 = sc;
    let (class_name, function_import, registry_helpers, coreuobject_ref, assets_name) = registry_stage(&mut sc, blueprint, v, this, &coreuobject, &package, &none, hook_folder, Ghost(from));
    let ghost after_registry = sc.stack@;
    let ghost imports_registry = blueprint.imports@;
    let parts = loop_setup(&mut sc, blueprint, v, this, class, hook_interface, coreuobject_ref, &coreuobject, &package, &engine, &class_name, &function_import, &hooks_name, &assets_name, &none, hook_name, Ghost(from));
    let ghost after_setup = sc.stack@;
    let ghost imports_setup = blueprint.imports@;
    proof {
        assert(prefix_of(imports_hook, imports_setup));
        assert(names_import(imports_hook, hook_interface.index, hook_class_key(hook_name@)));
        lemma_names_import_more(imports_hook, imports_setup, hook_interface.index, hook_class_key(hook_name@));
    }
    proof {
        lemma_first_match_more(imports_registry, imports_setup, class_key("AssetRegistryHelpers"@));
    }
    gather_loop(&mut sc, blueprint, v, this, class, hook_interface, registry_helpers, &coreuobject, &function_import, &hooks_name, &assets_name, &parts, Ghost(from), Ghost(hook_name@));
    let ghost after_gather = sc.stack@;
    let ghost imports_gather = blueprint.imports@;
    let n = name_into(&sc, blueprint, "Array_Length");
    proof {
        lemma_first_match_more(imports_setup, blueprint.imports@, array_lib_class_key());
        lemma_first_match_more(imports_setup, blueprint.imports@, math_lib_key());
    }
    let array_length = import_into(&mut sc, blueprint, make_import(&coreuobject, &function_import, parts.array_lib, n), Ghost(v), Ghost(from));
    let hooks_length = array_length_call(&parts.len, this, parts.default_array_lib, array_length, instance_var(&hooks_name, class, Ghost(v)), Ghost(v));
    let ghost hooks_length_copy = hooks_length;
    proof {
        assert(prefix_of(imports_setup, blueprint.imports@));
        lemma_names_import_more(imports_setup, blueprint.imports@, parts.default_array_lib.index, array_lib_key());
        assert(is_length(hooks_length_copy, this.index, blueprint.imports@, "hooks"@, class.index));
    }
    emit(&mut sc, hooks_length, v, Ghost(blueprint.imports@), Ghost(from));
    let ghost after_length = sc.stack@;
    let ghost imports_length = blueprint.imports@;
    let pre_text = "pre_".to_owned().concat(function_name.as_str());
    let pre = name_into(&sc, blueprint, pre_text.as_str());
    proof {
        lemma_first_match_more(imports_setup, blueprint.imports@, array_lib_class_key());
        lemma_first_match_more(imports_setup, blueprint.imports@, math_lib_key());
    }
    call_loop(&mut sc, blueprint, v, this, class, &coreuobject, &function_import, &hooks_name, &parts, pre, Ghost(from));
    let ghost after_pre = sc.stack@;
    let ghost imports_pre = blueprint.imports@;
    proof {
        assert(prefix_of(imports_setup, blueprint.imports@));
        lemma_names_import_more(imports_setup, blueprint.imports@, parts.default_array_lib.index, array_lib_key());
    }
    let orig_text = "orig_".to_owned().concat(function_name.as_str());
    let orig = name_into(&sc, blueprint, orig_text.as_str());
    proof {
        lemma_list_empty(v);
    }
    emit(&mut sc, local_virtual_function(orig, Vec::new(), Ghost(v)), v, Ghost(blueprint.imports@), Ghost(from));
    let ghost after_orig = sc.stack@;
    let post_text = "post_".to_owned().concat(function_name.as_str());
    let post = name_into(&sc, blueprint, post_text.as_str());
    proof {
        lemma_first_match_more(imports_setup, blueprint.imports@, array_lib_class_key());
        lemma_first_match_more(imports_setup, blueprint.imports@, math_lib_key());
    }
    call_loop(&mut sc, blueprint, v, this, class, &coreuobject, &function_import, &hooks_name, &parts, post, Ghost(from));
    let ghost sc_end = sc;
    proof {
        assert(hook_keys(hook_path@, hook_name@).subset_of(sc_end.used@));
        assert(keys_used(blueprint.imports@, sc_end.deps@, hook_keys(hook_path@, hook_name@))) by {
            reveal(keys_used);
        }
    }
    let Script { stack, offset: _, mut deps, locals, .. } = sc;
    std::mem::swap(&mut deps, &mut function.base_export.create_before_serialization_dependencies);
    function.data = ExportData::FunctionExport {
        struct_export: StructExport { field, super_struct, children, loaded_properties: locals, script_bytecode: Some(stack), normal_export },
    };
    proof {
        lemma_loop_prefix(v, after_gather, after_pre, 8, 6);
        lemma_loop_prefix(v, after_pre, stack@, 8, 6);
        lemma_loop_prefix(v, after_pre, stack@, 23, 2);
        assert(stack@[27] == after_pre[27]);
        assert(stack@[32] == after_orig[32]);
        assert(stack@[1] == stack@.take(after_registry.len() as int)[1]);
        assert(prefix_of(after_registry, stack@));
        assert(prefix_of(after_setup, stack@));
        assert(prefix_of(after_gather, stack@));
        assert(prefix_of(after_length, stack@));
        assert(prefix_of(after_pre, stack@));
        assert(prefix_of(imports_registry, blueprint.imports@));
        assert(prefix_of(imports_setup, blueprint.imports@));
        assert(prefix_of(imports_gather, blueprint.imports@));
        assert(prefix_of(imports_length, blueprint.imports@));
        assert(prefix_of(imports_pre, blueprint.imports@));
        lemma_registry_more(after_registry, stack@, imports_registry, blueprint.imports@, this.index, hook_folder@);
        lemma_length_more(after_setup, stack@, imports_setup, blueprint.imports@, 5, this.index, "hooks"@, class.index);
        lemma_length_more(
            after_setup,
            stack@,
            imports_setup,
            blueprint.imports@,
            6,
            this.index,
            "CallFunc_GetAssetsByPath_OutAssetData"@,
            this.index,
        );
        lemma_gather_more(after_gather, stack@, imports_gather, blueprint.imports@, this.index, class.index, hook_name@);
        assert(after_length[21] == hooks_length_copy);
        lemma_length_more(after_length, stack@, imports_length, blueprint.imports@, 21, this.index, "hooks"@, class.index);
        lemma_call_loop_more(after_pre, stack@, imports_pre, blueprint.imports@, 22, this.index, class.index, pre@);
        assert(prefix_of(imports_hook, blueprint.imports@));
        lemma_names_import_more(imports_hook, blueprint.imports@, hook_interface.index, hook_class_key(hook_name@));
        assert(hook_instructions(
            stack@,
            this.index,
            class.index,
            blueprint.imports@,
            hook_folder@,
            function_name@,
            hook_name@,
        ));
        assert(stack@[13] == stack@.take(after_gather.len() as int)[13]);
        let fi = blueprint.imports@;
        lemma_first_key(keys(imports_hook), key_hook);
        lemma_first_key(keys(imports_path), key_path);
        let ph = -hook_interface.index - 1;
        let pp = first_match(imports_path, key_path).unwrap();
        assert(prefix_of(imports_hook, fi));
        assert(fi[ph] == fi.take(imports_hook.len() as int)[ph]);
        assert(keys(imports_hook)[ph] == key_of(imports_hook[ph]));
        assert(prefix_of(imports_path, fi));
        assert(fi[pp] == fi.take(imports_path.len() as int)[pp]);
        assert(keys(imports_path)[pp] == key_of(imports_path[pp]));
        assert(keys(fi)[pp] == key_path);
    }
    Ok(())
}

} // verus!
