//! Hooking every function of a blueprint: each function but the event graph
//! is duplicated, the copy takes the function's place in the class's function
//! map and gets the hook's bytecode, and the original is renamed `orig_` and
//! its name.
use vstd::prelude::*;
use vstd::string::StringExecFns;
use vstd::utf8::encode_utf8;
use crate::export::{
    BaseExport, Export, ExportData, FuncMapEntry, StructExport, duplicate_export, is_copy, same_export_shape,
};
use crate::hook::{
    HookError, first_class, fprop_name, gains_property, hook, hook_script, hooked, imports_grow,
    hook_class_key, hook_instructions, hooks_declared, hooks_interface, is_hooks_property,
    lemma_allowed_more, lemma_hook_instructions_more, lemma_names_import_more, names_import,
    property_interface,
    lemma_hooks_interface_more, keys_used, hook_keys, imports_placed, lemma_imports_placed_none,
    lemma_imports_placed_chain, lemma_keys_used_more,
    lemma_imports_grow_trans, lemma_prefix_trans, prefix_of, refs_allowed,
};
use crate::index::PackageIndex;
use crate::kismet::expr_list_refs;
use crate::strings::{starts_with, str_equal};
use crate::transplant::{Asset, Import, lemma_first_key, lemma_first_key_append, lemma_first_key_at};

verus! {

/// Whether hooking duplicates export `e`: a function other than the event
/// graph, whose name starts with `ExecuteUbergraph`.
pub open spec fn hookable(e: Export) -> bool {
    e.data is FunctionExport && !"ExecuteUbergraph"@.is_prefix_of(e.base_export.object_name@)
}

/// The positions of the exports of `e` that hooking duplicates, in order.
pub open spec fn hookable_positions(e: Seq<Export>) -> Seq<int>
    decreases e.len(),
{
    if e.len() == 0 {
        Seq::empty()
    } else if hookable(e.last()) {
        hookable_positions(e.drop_last()).push(e.len() - 1)
    } else {
        hookable_positions(e.drop_last())
    }
}

/// The positions are increasing, within `e`, and those of hookable exports;
/// every hookable export is among them.
pub proof fn lemma_hookable_positions(e: Seq<Export>)
    ensures
        forall|k: int|
            0 <= k < hookable_positions(e).len() ==> 0 <= #[trigger] hookable_positions(e)[k] < e.len()
                && hookable(e[hookable_positions(e)[k]]),
        forall|a: int, b: int|
            0 <= a < b < hookable_positions(e).len() ==> hookable_positions(e)[a]
                < hookable_positions(e)[b],
        forall|j: int| 0 <= j < e.len() && hookable(e[j]) ==> hookable_positions(e).contains(j),
        hookable_positions(e).len() <= e.len(),
    decreases e.len(),
{
    if e.len() > 0 {
        let d = e.drop_last();
        lemma_hookable_positions(d);
        let p = hookable_positions(d);
        assert(hookable_positions(e) == if hookable(e.last()) {
            p.push(e.len() - 1)
        } else {
            p
        });
        assert forall|k: int| 0 <= k < p.len() implies e[p[k]] == d[p[k]] by {}
        assert forall|j: int| 0 <= j < e.len() && hookable(e[j]) implies hookable_positions(e).contains(j) by {
            if j < e.len() - 1 {
                assert(e[j] == d[j]);
                assert(hookable(d[j]));
                assert(p.contains(j));
                let k = choose|k: int| 0 <= k < p.len() && p[k] == j;
                assert(hookable_positions(e)[k] == p[k]);
            } else {
                assert(hookable_positions(e).last() == j);
            }
        }
    }
}

/// The names of the exports at `positions`.
pub open spec fn names_at(e: Seq<Export>, positions: Seq<int>) -> Seq<Seq<char>> {
    positions.map_values(|i: int| e[i].base_export.object_name@)
}

/// The last position before `k` in `names` that holds `x`.
pub open spec fn last_before(names: Seq<Seq<char>>, x: Seq<char>, k: int) -> Option<int>
    decreases k,
{
    if k <= 0 {
        None
    } else if names[k - 1] == x {
        Some(k - 1)
    } else {
        last_before(names, x, k - 1)
    }
}

/// The export that the function map `m` gives for the name `name`.
pub open spec fn func_lookup(m: Seq<FuncMapEntry>, name: Seq<char>) -> Option<PackageIndex> {
    match m.map_values(|e: FuncMapEntry| e.name@).index_of_first(name) {
        Some(p) => Some(m[p].index),
        None => None,
    }
}

/// Points the entry `name` of the function map `map` at `index`, adding the
/// entry where there is none.
pub fn func_map_insert(map: &mut Vec<FuncMapEntry>, name: String, index: PackageIndex)
    ensures
        func_lookup(final(map)@, name@) == Some(index),
        forall|x: Seq<char>| x != name@ ==> func_lookup(final(map)@, x) == func_lookup(old(map)@, x),
{
    let ghost names = map@.map_values(|e: FuncMapEntry| e.name@);
    let mut i: usize = 0;
    while i < map.len()
        invariant
            i <= map@.len(),
            map@ == old(map)@,
            names == map@.map_values(|e: FuncMapEntry| e.name@),
            forall|j: int| 0 <= j < i ==> names[j] != name@,
        decreases map@.len() - i,
    {
        if str_equal(map[i].name.as_str(), name.as_str()) {
            let entry_name = map[i].name.clone();
            let ghost k = name@;
            map.set(i, FuncMapEntry { name: entry_name, index });
            proof {
                let after = map@.map_values(|e: FuncMapEntry| e.name@);
                assert(after =~= names);
                lemma_first_key_at(names, k, i as int);
                assert forall|x: Seq<char>| x != k implies func_lookup(map@, x) == func_lookup(
                    old(map)@,
                    x,
                ) by {
                    lemma_first_key(names, x);
                    if let Some(p) = names.index_of_first(x) {
                        assert(p != i);
                    }
                }
            }
            return;
        }
        i = i + 1;
    }
    let ghost k = name@;
    map.push(FuncMapEntry { name, index });
    proof {
        let after = map@.map_values(|e: FuncMapEntry| e.name@);
        assert(after =~= names + seq![k]);
        lemma_first_key(names, k);
        lemma_first_key_append(names, seq![k], k);
        lemma_first_key_at(seq![k], k, 0);
        assert forall|x: Seq<char>| x != k implies func_lookup(map@, x) == func_lookup(old(map)@, x) by {
            lemma_first_key(names, x);
            lemma_first_key_append(names, seq![k], x);
            lemma_first_key(seq![k], x);
            if let Some(p) = names.index_of_first(x) {
                assert(map@[p] == old(map)@[p]);
            }
        }
    }
}

/// The exports that hooking duplicates: their positions, and a copy of each.
pub fn hookable_functions(exports: &Vec<Export>) -> (r: (Vec<usize>, Vec<Export>))
    ensures
        r.0@.len() == hookable_positions(exports@).len(),
        r.1@.len() == r.0@.len(),
        forall|k: int| 0 <= k < r.0@.len() ==> #[trigger] r.0@[k] as int == hookable_positions(exports@)[k],
        forall|k: int| 0 <= k < r.1@.len() ==> is_copy(exports@[r.0@[k] as int], #[trigger] r.1@[k]),
{
    let mut positions: Vec<usize> = Vec::new();
    let mut copies: Vec<Export> = Vec::new();
    let mut i: usize = 0;
    proof {
        assert(exports@.take(0) =~= Seq::<Export>::empty());
    }
    while i < exports.len()
        invariant
            i <= exports@.len(),
            positions@.len() == hookable_positions(exports@.take(i as int)).len(),
            copies@.len() == positions@.len(),
            forall|k: int|
                0 <= k < positions@.len() ==> #[trigger] positions@[k] as int == hookable_positions(
                    exports@.take(i as int),
                )[k],
            forall|k: int|
                0 <= k < positions@.len() ==> positions@[k] < i,
            forall|k: int|
                0 <= k < copies@.len() ==> is_copy(exports@[positions@[k] as int], #[trigger] copies@[k]),
        decreases exports@.len() - i,
    {
        let ghost before = exports@.take(i as int);
        let ghost now = exports@.take(i + 1);
        proof {
            assert(now.drop_last() =~= before);
            assert(now.last() == exports@[i as int]);
            lemma_hookable_positions(before);
        }
        let is_function = match &exports[i].data {
            ExportData::FunctionExport { .. } => true,
            _ => false,
        };
        if is_function && !starts_with(exports[i].base_export.object_name.as_str(), "ExecuteUbergraph") {
            positions.push(i);
            copies.push(duplicate_export(&exports[i]));
        }
        i = i + 1;
    }
    proof {
        assert(exports@.take(exports@.len() as int) =~= exports@);
    }
    (positions, copies)
}

/// The function map of a class export.
pub open spec fn class_func_map(e: Export) -> Seq<FuncMapEntry> {
    match e.data {
        ExportData::ClassExport { func_map, .. } => func_map@,
        _ => Seq::empty(),
    }
}

/// Whether the class export `e1` is `e0` with another function map.
pub open spec fn same_but_func_map(e0: Export, e1: Export) -> bool {
    &&& e1.base_export == e0.base_export
    &&& match (e0.data, e1.data) {
        (
            ExportData::ClassExport {
                class_within: w0,
                interfaces: i0,
                class_generated_by: g0,
                class_default_object: d0,
                struct_export: s0,
                ..
            },
            ExportData::ClassExport {
                class_within: w1,
                interfaces: i1,
                class_generated_by: g1,
                class_default_object: d1,
                struct_export: s1,
                ..
            },
        ) => w1 == w0 && i1 == i0 && g1 == g0 && d1 == d0 && s1 == s0,
        _ => false,
    }
}

/// Whether the function map `m1` is `m0` with each name of `names`, in order,
/// pointed at the export `insert + 1` on from its position: each name is
/// looked up as the last copy that bears it.
pub open spec fn redirected(m0: Seq<FuncMapEntry>, m1: Seq<FuncMapEntry>, names: Seq<Seq<char>>, count: int, insert: int) -> bool {
    forall|x: Seq<char>|
        #![trigger func_lookup(m1, x)]
        func_lookup(m1, x) == match last_before(names, x, count) {
            Some(j) => Some(PackageIndex { index: (insert + j + 1) as i32 }),
            None => func_lookup(m0, x),
        }
}

/// Points the function map of the class export at `class` to the copies:
/// copy `k`, named as `copies[k]`, comes to stand at `insert + k`.
fn redirect_functions(exports: &mut Vec<Export>, class: usize, copies: &Vec<Export>, insert: usize)
    requires
        class < old(exports)@.len(),
        old(exports)@[class as int].data is ClassExport,
        insert + copies@.len() < i32::MAX,
    ensures
        final(exports)@.len() == old(exports)@.len(),
        forall|k: int| 0 <= k < old(exports)@.len() && k != class ==> final(exports)@[k] == old(exports)@[k],
        same_but_func_map(old(exports)@[class as int], final(exports)@[class as int]),
        redirected(
            class_func_map(old(exports)@[class as int]),
            class_func_map(final(exports)@[class as int]),
            copies@.map_values(|e: Export| e.base_export.object_name@),
            copies@.len() as int,
            insert as int,
        ),
{
    let ghost names = copies@.map_values(|e: Export| e.base_export.object_name@);
    let mut taken = crate::hook::empty_export();
    std::mem::swap(&mut taken, &mut exports[class]);
    let ghost e0 = taken;
    let Export { base_export, data } = taken;
    let data = match data {
        ExportData::ClassExport { mut func_map, class_within, interfaces, class_generated_by, class_default_object, struct_export } => {
            let ghost m0 = func_map@;
            let mut k: usize = 0;
            while k < copies.len()
                invariant
                    k <= copies@.len(),
                    insert + copies@.len() < i32::MAX,
                    names == copies@.map_values(|e: Export| e.base_export.object_name@),
                    redirected(m0, func_map@, names, k as int, insert as int),
                decreases copies@.len() - k,
            {
                let ghost before = func_map@;
                let name = copies[k].base_export.object_name.clone();
                let ghost x0 = name@;
                func_map_insert(&mut func_map, name, PackageIndex::new((insert + k) as i32 + 1));
                proof {
                    assert(names[k as int] == x0);
                    assert forall|x: Seq<char>| true implies #[trigger] func_lookup(func_map@, x) == match last_before(names, x, k + 1) {
                        Some(j) => Some(PackageIndex { index: (insert + j + 1) as i32 }),
                        None => func_lookup(m0, x),
                    } by {
                        assert(func_lookup(before, x) == match last_before(names, x, k as int) {
                            Some(j) => Some(PackageIndex { index: (insert + j + 1) as i32 }),
                            None => func_lookup(m0, x),
                        });
                    }
                }
                k = k + 1;
            }
            ExportData::ClassExport { func_map, class_within, interfaces, class_generated_by, class_default_object, struct_export }
        },
        other => other,
    };
    exports.set(class, Export { base_export, data });
}

/// Renames export `pos` of `blueprint` to `orig_` followed by its name,
/// adding that name to the name map.
fn rename_original(blueprint: &mut Asset, pos: usize)
    requires
        pos < old(blueprint).exports@.len(),
    ensures
        final(blueprint).exports@.len() == old(blueprint).exports@.len(),
        forall|k: int|
            0 <= k < old(blueprint).exports@.len() && k != pos ==> final(blueprint).exports@[k] == old(
                blueprint,
            ).exports@[k],
        final(blueprint).exports@[pos as int].data == old(blueprint).exports@[pos as int].data,
        final(blueprint).exports@[pos as int].base_export.object_name@ == "orig_"@ + old(
            blueprint,
        ).exports@[pos as int].base_export.object_name@,
        final(blueprint).imports == old(blueprint).imports,
        final(blueprint).object_version_ue5 == old(blueprint).object_version_ue5,
        prefix_of(old(blueprint).name_map@, final(blueprint).name_map@),
{
    let text = "orig_".to_owned().concat(blueprint.exports[pos].base_export.object_name.as_str());
    let name = crate::hook::add_name(blueprint, text.as_str());
    let mut taken = crate::hook::empty_export();
    std::mem::swap(&mut taken, &mut blueprint.exports[pos]);
    let Export { base_export, data } = taken;
    let BaseExport {
        class_index,
        super_index,
        template_index,
        outer_index,
        object_name: _,
        serialization_before_serialization_dependencies,
        create_before_serialization_dependencies,
        serialization_before_create_dependencies,
        create_before_create_dependencies,
    } = base_export;
    let renamed = BaseExport {
        class_index,
        super_index,
        template_index,
        outer_index,
        object_name: name,
        serialization_before_serialization_dependencies,
        create_before_serialization_dependencies,
        serialization_before_create_dependencies,
        create_before_create_dependencies,
    };
    blueprint.exports.set(pos, Export { base_export: renamed, data });
}

/// A position that is the first class export stays so while the positions
/// before it and itself keep whether they are class exports.
proof fn lemma_first_class_kept(e0: Seq<Export>, e1: Seq<Export>, c: int)
    requires
        first_class(e0) == Some(c),
        c < e1.len(),
        c < e0.len(),
        forall|j: int| 0 <= j <= c ==> (e1[j].data is ClassExport) == (e0[j].data is ClassExport),
    ensures
        first_class(e1) == Some(c),
{
    let f0 = e0.map_values(|e: Export| e.data is ClassExport);
    let f1 = e1.map_values(|e: Export| e.data is ClassExport);
    lemma_first_key(f0, true);
    assert forall|j: int| 0 <= j < c implies f1[j] != true by {
        assert(f0[j] != true);
    }
    assert(f1[c] == true);
    lemma_first_key_at(f1, true, c);
}

/// Whether `f` is a copy of the function `e` whose bytecode is a hook's,
/// scanning `hook_folder` for objects of the class `hook_name` of the package
/// `hook_path`, and referring to nothing but the copy itself (`this`), the
/// class and `imports`; the first import of each key that hooking looks up
/// or adds is among its dependencies.
pub open spec fn copy_hooked(
    e: Export,
    f: Export,
    v: i32,
    this: int,
    class: int,
    imports: Seq<Import>,
    hook_folder: Seq<char>,
    hook_path: Seq<char>,
    hook_name: Seq<char>,
) -> bool {
    &&& f.base_export.object_name@ == e.base_export.object_name@
    &&& f.base_export.class_index == e.base_export.class_index
    &&& f.base_export.super_index == e.base_export.super_index
    &&& f.base_export.template_index == e.base_export.template_index
    &&& f.base_export.outer_index == e.base_export.outer_index
    &&& f.base_export.serialization_before_serialization_dependencies@
        == e.base_export.serialization_before_serialization_dependencies@
    &&& f.base_export.serialization_before_create_dependencies@
        == e.base_export.serialization_before_create_dependencies@
    &&& f.base_export.create_before_create_dependencies@ == e.base_export.create_before_create_dependencies@
    &&& prefix_of(
        e.base_export.create_before_serialization_dependencies@,
        f.base_export.create_before_serialization_dependencies@,
    )
    &&& keys_used(imports, f.base_export.create_before_serialization_dependencies@, hook_keys(hook_path, hook_name))
    &&& match f.data {
        ExportData::FunctionExport { struct_export } => struct_export.script_bytecode matches Some(s)
            && hook_script(v, s@, e.base_export.object_name@, hook_folder)
            && refs_allowed(expr_list_refs(s@), this, class, imports.len() as int)
            && hooks_interface(s@, imports, hook_path, hook_name)
            && hook_instructions(
            s@,
            this as i32,
            class as i32,
            imports,
            hook_folder,
            e.base_export.object_name@,
            hook_name,
        ),
        _ => false,
    }
}

/// A hooked copy stays one as imports are added.
proof fn lemma_copy_hooked_more(
    e: Export,
    f: Export,
    v: i32,
    this: int,
    class: int,
    a: Seq<Import>,
    b: Seq<Import>,
    hook_folder: Seq<char>,
    hook_path: Seq<char>,
    hook_name: Seq<char>,
)
    requires
        copy_hooked(e, f, v, this, class, a, hook_folder, hook_path, hook_name),
        prefix_of(a, b),
    ensures
        copy_hooked(e, f, v, this, class, b, hook_folder, hook_path, hook_name),
{
    lemma_keys_used_more(a, b, f.base_export.create_before_serialization_dependencies@, hook_keys(hook_path, hook_name));
    if let ExportData::FunctionExport { struct_export } = f.data {
        if let Some(s) = struct_export.script_bytecode {
            lemma_allowed_more(expr_list_refs(s@), this, class, a.len() as int, b.len() as int);
            lemma_hooks_interface_more(s@, a, b, hook_path, hook_name);
            lemma_hook_instructions_more(
                s@,
                a,
                b,
                this as i32,
                class as i32,
                hook_folder,
                e.base_export.object_name@,
                hook_name,
            );
        }
    }
}

/// How many of the first `k` functions at positions `p` of `e` are named
/// `ReceiveBeginPlay`.
pub open spec fn begin_plays(e: Seq<Export>, p: Seq<int>, k: int) -> nat
    decreases k,
{
    if k <= 0 {
        0
    } else {
        begin_plays(e, p, k - 1) + if e[p[k - 1]].base_export.object_name@ == "ReceiveBeginPlay"@ {
            1nat
        } else {
            0nat
        }
    }
}

/// Whether the class export `e1` is `e0` with, but for its function map,
/// only `added` more properties declared after its own, each the array
/// `hooks` of the hook class `hook_name`, which `imports` name.
pub open spec fn class_grown(e0: Export, e1: Export, added: nat, imports: Seq<Import>, hook_name: Seq<char>) -> bool {
    &&& e1.base_export == e0.base_export
    &&& match (e0.data, e1.data) {
        (
            ExportData::ClassExport {
                class_within: w0,
                interfaces: i0,
                class_generated_by: g0,
                class_default_object: d0,
                struct_export: s0,
                ..
            },
            ExportData::ClassExport {
                class_within: w1,
                interfaces: i1,
                class_generated_by: g1,
                class_default_object: d1,
                struct_export: s1,
                ..
            },
        ) => {
            &&& w1 == w0
            &&& i1 == i0
            &&& g1 == g0
            &&& d1 == d0
            &&& s1.field == s0.field
            &&& s1.super_struct == s0.super_struct
            &&& s1.children == s0.children
            &&& s1.script_bytecode == s0.script_bytecode
            &&& s1.normal_export == s0.normal_export
            &&& s1.loaded_properties@.len() == s0.loaded_properties@.len() + added
            &&& prefix_of(s0.loaded_properties@, s1.loaded_properties@)
            &&& forall|i: int|
                s0.loaded_properties@.len() <= i < s1.loaded_properties@.len() ==> {
                    &&& fprop_name(#[trigger] s1.loaded_properties@[i]) == "hooks"@
                    &&& is_hooks_property(
                        s1.loaded_properties@[i],
                        "hooks"@,
                        property_interface(s1.loaded_properties@[i]),
                    )
                    &&& names_import(
                        imports,
                        property_interface(s1.loaded_properties@[i]),
                        hook_class_key(hook_name),
                    )
                }
        },
        _ => false,
    }
}

/// A grown class export stays so as imports are added.
proof fn lemma_class_grown_more(e0: Export, e1: Export, added: nat, a: Seq<Import>, b: Seq<Import>, hook_name: Seq<char>)
    requires
        class_grown(e0, e1, added, a, hook_name),
        prefix_of(a, b),
    ensures
        class_grown(e0, e1, added, b, hook_name),
{
    broadcast use lemma_names_import_more;

}

/// A class export that gains the `hooks` property grows by one property.
proof fn lemma_class_grows(
    e0: Export,
    x: Export,
    y: Export,
    added: nat,
    a: Seq<Import>,
    b: Seq<Import>,
    hook_name: Seq<char>,
)
    requires
        class_grown(e0, x, added, a, hook_name),
        hooks_declared(x, y, b, hook_name),
        prefix_of(a, b),
    ensures
        class_grown(e0, y, added + 1, b, hook_name),
{
    broadcast use lemma_names_import_more;

    if let (
        ExportData::ClassExport { struct_export: s0, .. },
        ExportData::ClassExport { struct_export: sx, .. },
        ExportData::ClassExport { struct_export: sy, .. },
    ) = (e0.data, x.data, y.data) {
        let l0 = s0.loaded_properties@;
        let lx = sx.loaded_properties@;
        let ly = sy.loaded_properties@;
        assert forall|i: int| 0 <= i < lx.len() implies ly[i] == lx[i] by {
            assert(ly.drop_last()[i] == ly[i]);
        }
        assert(ly.take(l0.len() as int) =~= lx.take(l0.len() as int));
        assert forall|i: int| l0.len() <= i < ly.len() implies {
            &&& fprop_name(#[trigger] ly[i]) == "hooks"@
            &&& is_hooks_property(ly[i], "hooks"@, property_interface(ly[i]))
            &&& names_import(b, property_interface(ly[i]), hook_class_key(hook_name))
        } by {
            if i < lx.len() {
                assert(ly[i] == lx[i]);
            } else {
                assert(ly[i] == ly.last());
            }
        }
    }
}

/// Whether `a1` is the blueprint `a0` with every function but the event graph
/// hooked: a hooked copy of each is added at the end, in order, referring to
/// nothing but itself, the class and the imports; each original is renamed
/// `orig_` and its name; the class's function map points each name at the
/// last copy that bears it, and the class declares one more `hooks` array
/// for each `ReceiveBeginPlay` hooked and is otherwise kept; the other
/// exports are kept; the imports and names only grow, each added import
/// sitting within the first import of its parent's key (see
/// `crate::hook::placed_within`); and the first import of each key that
/// hooking looks up or adds is among each copy's dependencies.
pub open spec fn hooked_blueprint(
    a0: Asset,
    a1: Asset,
    hook_folder: Seq<char>,
    hook_path: Seq<char>,
    hook_name: Seq<char>,
) -> bool {
    let e0 = a0.exports@;
    let p = hookable_positions(e0);
    let c = first_class(e0).unwrap();
    let v = a0.object_version_ue5;
    &&& a1.exports@.len() == e0.len() + p.len()
    &&& forall|k: int|
        0 <= k < p.len() ==> copy_hooked(
            e0[p[k]],
            #[trigger] a1.exports@[e0.len() + k],
            v,
            e0.len() + k + 1,
            c + 1,
            a1.imports@,
            hook_folder,
            hook_path,
            hook_name,
        )
    &&& forall|k: int|
        0 <= k < p.len() ==> {
            &&& (#[trigger] a1.exports@[p[k]]).base_export.object_name@ == "orig_"@
                + e0[p[k]].base_export.object_name@
            &&& a1.exports@[p[k]].data == e0[p[k]].data
        }
    &&& class_grown(e0[c], a1.exports@[c], begin_plays(e0, p, p.len() as int), a1.imports@, hook_name)
    &&& redirected(class_func_map(e0[c]), class_func_map(a1.exports@[c]), names_at(e0, p), p.len() as int, e0.len() as int)
    &&& forall|j: int| 0 <= j < e0.len() && j != c && !hookable(e0[j]) ==> #[trigger] a1.exports@[j] == e0[j]
    &&& imports_grow(a0.imports@, a1.imports@)
    &&& imports_placed(a1.imports@, a0.imports@.len() as int, hook_path)
    &&& prefix_of(a0.name_map@, a1.name_map@)
    &&& a1.object_version_ue5 == a0.object_version_ue5
}

/// Each hooked copy of a function stands where the function stands: it has
/// the function's name, outer object (its class), class, super struct and
/// template, and the function's dependencies, the hook adding only to those
/// it must create before serialising.
pub proof fn lemma_hooked_copies_keep_their_place(
    a0: Asset,
    a1: Asset,
    hook_folder: Seq<char>,
    hook_path: Seq<char>,
    hook_name: Seq<char>,
    k: int,
)
    requires
        hooked_blueprint(a0, a1, hook_folder, hook_path, hook_name),
        0 <= k < hookable_positions(a0.exports@).len(),
    ensures
        ({
            let e = a0.exports@[hookable_positions(a0.exports@)[k]].base_export;
            let f = a1.exports@[a0.exports@.len() + k].base_export;
            &&& f.object_name@ == e.object_name@
            &&& f.outer_index == e.outer_index
            &&& f.class_index == e.class_index
            &&& f.super_index == e.super_index
            &&& f.template_index == e.template_index
            &&& f.serialization_before_serialization_dependencies@
                == e.serialization_before_serialization_dependencies@
            &&& f.serialization_before_create_dependencies@ == e.serialization_before_create_dependencies@
            &&& f.create_before_create_dependencies@ == e.create_before_create_dependencies@
            &&& prefix_of(e.create_before_serialization_dependencies@, f.create_before_serialization_dependencies@)
        }),
{
    let e0 = a0.exports@;
    let p = hookable_positions(e0);
    let c = first_class(e0).unwrap();
    assert(copy_hooked(
        e0[p[k]],
        a1.exports@[e0.len() + k],
        a0.object_version_ue5,
        e0.len() + k + 1,
        c + 1,
        a1.imports@,
        hook_folder,
        hook_path,
        hook_name,
    ));
}

/// Hooks every function of `blueprint` but the event graph with
/// `crate::hook::hook` (see there for `hook_folder`, `hook_path` and
/// `hook_name`): each such function is copied, the copy is hooked and added
/// at the end, the class's function map points the function's name at the
/// copy, and the original is renamed `orig_` and its name, so that the hook
/// can call it. A blueprint without a class export is refused and left as
/// it is.
pub fn hook_blueprint(blueprint: &mut Asset, hook_folder: &str, hook_path: &str, hook_name: &str) -> (r: Result<(), HookError>)
    requires
        2 * old(blueprint).exports@.len() + 1 < i32::MAX,
        old(blueprint).imports@.len() + 30 * old(blueprint).exports@.len() + 100 < i32::MAX,
        encode_utf8(hook_folder@).len() + 4000 <= u32::MAX,
    ensures
        r is Err <==> first_class(old(blueprint).exports@) is None,
        r is Err ==> *final(blueprint) == *old(blueprint),
        r is Ok ==> hooked_blueprint(*old(blueprint), *final(blueprint), hook_folder@, hook_path@, hook_name@),
{
    broadcast use lemma_prefix_trans, lemma_imports_grow_trans;

    let ghost a0 = *blueprint;
    let ghost e0 = blueprint.exports@;
    let insert = blueprint.exports.len();
    let (positions, mut copies) = hookable_functions(&blueprint.exports);
    let class = match crate::hook::find_class(&blueprint.exports) {
        Some(c) => c,
        None => {
            return Err(HookError::ClassNotFound);
        },
    };
    let ghost p = hookable_positions(e0);
    let ghost n = p.len();
    proof {
        lemma_hookable_positions(e0);
        assert(names_at(e0, p) =~= copies@.map_values(|e: Export| e.base_export.object_name@));
    }
    redirect_functions(&mut blueprint.exports, class, &copies, insert);
    let ghost e1 = blueprint.exports@;
    let v = blueprint.object_version_ue5;
    let mut k: usize = 0;
    proof {
        assert(a0.imports@.take(a0.imports@.len() as int) =~= a0.imports@);
        lemma_imports_placed_none(a0.imports@, hook_path@);
        assert(a0.name_map@.take(a0.name_map@.len() as int) =~= a0.name_map@);
        assert forall|j: int| 0 <= j < n implies p[j] != class by {
            assert(hookable(e0[p[j]]));
        }
        if let ExportData::ClassExport { struct_export, .. } = e0[class as int].data {
            assert(struct_export.loaded_properties@.take(struct_export.loaded_properties@.len() as int)
                =~= struct_export.loaded_properties@);
        }
    }
    while k < copies.len()
        invariant
            0 <= k <= n,
            n == copies@.len(),
            n == p.len(),
            positions@.len() == n,
            forall|j: int| 0 <= j < n ==> #[trigger] positions@[j] as int == p[j],
            forall|j: int| 0 <= j < n ==> 0 <= #[trigger] p[j] < e0.len() && hookable(e0[p[j]]) && p[j] != class,
            forall|a: int, b: int| 0 <= a < b < n ==> p[a] < p[b],
            p == hookable_positions(e0),
            insert == e0.len(),
            e0.len() + n + 1 < i32::MAX,
            a0.imports@.len() + 30 * e0.len() + 100 < i32::MAX,
            encode_utf8(hook_folder@).len() + 4000 <= u32::MAX,
            n <= e0.len(),
            class < e0.len(),
            first_class(e0) == Some(class as int),
            e1.len() == e0.len(),
            forall|j: int| 0 <= j < e0.len() && j != class ==> e1[j] == e0[j],
            e1[class as int].data is ClassExport,
            v == a0.object_version_ue5,
            blueprint.object_version_ue5 == a0.object_version_ue5,
            blueprint.exports@.len() == e0.len() + k,
            forall|j: int|
                0 <= j < k ==> copy_hooked(
                    e0[p[j]],
                    #[trigger] blueprint.exports@[e0.len() + j],
                    v,
                    e0.len() + j + 1,
                    class + 1,
                    blueprint.imports@,
                    hook_folder@,
                    hook_path@,
                    hook_name@,
                ),
            forall|j: int|
                0 <= j < k ==> {
                    &&& (#[trigger] blueprint.exports@[p[j]]).base_export.object_name@ == "orig_"@
                        + e0[p[j]].base_export.object_name@
                    &&& blueprint.exports@[p[j]].data == e0[p[j]].data
                },
            forall|j: int| k <= j < n ==> #[trigger] blueprint.exports@[p[j]] == e0[p[j]],
            forall|j: int| k <= j < n ==> is_copy(e0[p[j]], #[trigger] copies@[j]),
            blueprint.exports@[class as int].data is ClassExport,
            class_func_map(blueprint.exports@[class as int]) == class_func_map(e1[class as int]),
            class_grown(
                e0[class as int],
                blueprint.exports@[class as int],
                begin_plays(e0, p, k as int),
                blueprint.imports@,
                hook_name@,
            ),
            forall|j: int|
                0 <= j < e0.len() && j != class && !hookable(e0[j]) ==> #[trigger] blueprint.exports@[j] == e0[j],
            forall|j: int|
                0 <= j < blueprint.exports@.len() ==> (#[trigger] blueprint.exports@[j].data is ClassExport)
                    == (j < e0.len() && e0[j].data is ClassExport),
            imports_grow(a0.imports@, blueprint.imports@),
            imports_placed(blueprint.imports@, a0.imports@.len() as int, hook_path@),
            blueprint.imports@.len() <= a0.imports@.len() + 30 * k,
            prefix_of(a0.name_map@, blueprint.name_map@),
        decreases n - k,
    {
        let pos = positions[k];
        let ghost before_rename = *blueprint;
        rename_original(blueprint, pos);
        let ghost renamed = *blueprint;
        let mut function = crate::hook::empty_export();
        std::mem::swap(&mut function, &mut copies[k]);
        let ghost f0 = function;
        proof {
            assert(is_copy(e0[p[k as int]], f0));
            lemma_first_class_kept(e0, renamed.exports@, class as int);
        }
        let result = hook(&mut function, PackageIndex::new((insert + k) as i32 + 1), blueprint, hook_folder, hook_path, hook_name);
        proof {
            assert(result is Ok);
            assert(hooked(
                f0,
                function,
                renamed,
                *blueprint,
                hook_folder@,
                hook_path@,
                hook_name@,
                (insert + k) as int + 1,
            ));
            assert(renamed.exports@[class as int] == before_rename.exports@[class as int]);
            if f0.base_export.object_name@ == "ReceiveBeginPlay"@ {
                lemma_class_grows(
                    e0[class as int],
                    renamed.exports@[class as int],
                    blueprint.exports@[class as int],
                    begin_plays(e0, p, k as int),
                    before_rename.imports@,
                    blueprint.imports@,
                    hook_name@,
                );
            } else {
                lemma_class_grown_more(
                    e0[class as int],
                    blueprint.exports@[class as int],
                    begin_plays(e0, p, k as int),
                    before_rename.imports@,
                    blueprint.imports@,
                    hook_name@,
                );
            }
        }
        let ghost after_hook = *blueprint;
        blueprint.exports.push(function);
        proof {
            lemma_imports_grow_trans(a0.imports@, renamed.imports@, after_hook.imports@);
            assert(renamed.imports@ == before_rename.imports@);
            lemma_imports_placed_chain(renamed.imports@, after_hook.imports@, a0.imports@.len() as int, hook_path@);
            lemma_prefix_trans(a0.name_map@, before_rename.name_map@, renamed.name_map@);
            lemma_prefix_trans(a0.name_map@, renamed.name_map@, after_hook.name_map@);
            assert(blueprint.exports@[e0.len() + k] == function);
            assert forall|j: int| 0 <= j < k + 1 implies copy_hooked(
                e0[p[j]],
                #[trigger] blueprint.exports@[e0.len() + j],
                v,
                e0.len() + j + 1,
                class + 1,
                blueprint.imports@,
                hook_folder@,
                hook_path@,
                hook_name@,
            ) by {
                if j < k {
                    assert(blueprint.exports@[e0.len() + j] == before_rename.exports@[e0.len() + j]);
                    lemma_copy_hooked_more(
                        e0[p[j]],
                        blueprint.exports@[e0.len() + j],
                        v,
                        e0.len() + j + 1,
                        class + 1,
                        before_rename.imports@,
                        blueprint.imports@,
                        hook_folder@,
                        hook_path@,
                        hook_name@,
                    );
                }
            }
            assert forall|j: int| 0 <= j < k + 1 implies {
                &&& (#[trigger] blueprint.exports@[p[j]]).base_export.object_name@ == "orig_"@
                    + e0[p[j]].base_export.object_name@
                &&& blueprint.exports@[p[j]].data == e0[p[j]].data
            } by {
                assert(blueprint.exports@[p[j]] == after_hook.exports@[p[j]]);
                assert(after_hook.exports@[p[j]] == renamed.exports@[p[j]]);
                if j < k {
                    assert(renamed.exports@[p[j]] == before_rename.exports@[p[j]]);
                }
            }
            assert forall|j: int| k + 1 <= j < n implies #[trigger] blueprint.exports@[p[j]] == e0[p[j]] by {
                assert(p[j] != p[k as int]);
                assert(blueprint.exports@[p[j]] == after_hook.exports@[p[j]]);
                assert(renamed.exports@[p[j]] == before_rename.exports@[p[j]]);
            }
            assert forall|j: int|
                0 <= j < e0.len() && j != class && !hookable(e0[j]) implies #[trigger] blueprint.exports@[j] == e0[j] by {
                assert(j != p[k as int]);
                assert(blueprint.exports@[j] == after_hook.exports@[j]);
                assert(renamed.exports@[j] == before_rename.exports@[j]);
            }
            assert forall|j: int| 0 <= j < blueprint.exports@.len() implies (#[trigger] blueprint.exports@[j].data is ClassExport)
                == (j < e0.len() && e0[j].data is ClassExport) by {
                if j < e0.len() + k {
                    assert(blueprint.exports@[j] == after_hook.exports@[j]);
                    if j != class {
                        assert(after_hook.exports@[j] == renamed.exports@[j]);
                    }
                    if j != pos {
                        assert(renamed.exports@[j] == before_rename.exports@[j]);
                    }
                }
            }
        }
        k = k + 1;
    }
    Ok(())
}

} // verus!
