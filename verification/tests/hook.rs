use spaghetti::blueprint::{func_map_insert, hook_blueprint};
use spaghetti::export::{BaseExport, Export, ExportData, FuncMapEntry, NormalExport, StructExport};
use spaghetti::fprop::FProperty;
use spaghetti::hook::{hook, HookError};
use spaghetti::index::PackageIndex;
use spaghetti::kismet::{size, Expr, KismetPropertyPointer};
use spaghetti::transplant::{Asset, Import};
use spaghetti::uprop::UField;

fn base(name: &str) -> BaseExport {
    BaseExport {
        class_index: PackageIndex::new(0),
        super_index: PackageIndex::new(0),
        template_index: PackageIndex::new(0),
        outer_index: PackageIndex::new(1),
        object_name: name.to_string(),
        serialization_before_serialization_dependencies: vec![],
        create_before_serialization_dependencies: vec![PackageIndex::new(5)],
        serialization_before_create_dependencies: vec![],
        create_before_create_dependencies: vec![],
    }
}

fn struct_export() -> StructExport {
    StructExport {
        field: UField { next: None },
        super_struct: PackageIndex::new(0),
        children: vec![],
        loaded_properties: vec![],
        script_bytecode: Some(vec![Expr::EndOfScript]),
        normal_export: NormalExport { properties: vec![] },
    }
}

fn function(name: &str) -> Export {
    Export { base_export: base(name), data: ExportData::FunctionExport { struct_export: struct_export() } }
}

fn class(func_map: Vec<FuncMapEntry>) -> Export {
    Export {
        base_export: base("BP_Chair_C"),
        data: ExportData::ClassExport {
            func_map,
            class_within: PackageIndex::new(0),
            interfaces: vec![],
            class_generated_by: PackageIndex::new(0),
            class_default_object: PackageIndex::new(0),
            struct_export: struct_export(),
        },
    }
}

fn entry(name: &str, index: i32) -> FuncMapEntry {
    FuncMapEntry { name: name.to_string(), index: PackageIndex::new(index) }
}

fn blueprint(exports: Vec<Export>) -> Asset {
    Asset {
        name_map: vec!["None".to_string()],
        imports: vec![Import {
            class_package: "/Script/CoreUObject".to_string(),
            class_name: "Package".to_string(),
            outer_index: PackageIndex::new(0),
            object_name: "/Script/Engine".to_string(),
            optional: false,
        }],
        exports,
        object_version_ue5: 1008,
    }
}

fn bytecode(e: &Export) -> &Vec<Expr> {
    match &e.data {
        ExportData::FunctionExport { struct_export } => struct_export.script_bytecode.as_ref().unwrap(),
        _ => panic!("not a function"),
    }
}

fn locals(e: &Export) -> &Vec<FProperty> {
    match &e.data {
        ExportData::FunctionExport { struct_export } => &struct_export.loaded_properties,
        _ => panic!("not a function"),
    }
}

fn offset_of(code: &[Expr], k: usize) -> u32 {
    code[..k].iter().map(|e| size(1008, e)).sum()
}

fn called_on_hook(e: &Expr) -> String {
    match e {
        Expr::Context { context_expression, .. } => match &**context_expression {
            Expr::LocalVirtualFunction { virtual_function_name, parameters } => {
                assert_eq!(parameters.len(), 1);
                assert!(matches!(parameters[0], Expr::SelfObject));
                virtual_function_name.clone()
            }
            _ => panic!("not a call"),
        },
        _ => panic!("not a context"),
    }
}

fn check_loop(code: &[Expr], head: usize, body: usize) {
    assert!(matches!(code[head - 1], Expr::Let { .. }));
    assert!(matches!(code[head], Expr::LetBool { .. }));
    match &code[head + 1] {
        Expr::JumpIfNot { code_offset, .. } => assert_eq!(*code_offset, offset_of(code, head + body + 7)),
        _ => panic!("no jump past the loop"),
    }
    match &code[head + 2] {
        Expr::PushExecutionFlow { pushing_address } => assert_eq!(*pushing_address, offset_of(code, head + body + 4)),
        _ => panic!("no push of the increment"),
    }
    assert!(matches!(code[head + body + 3], Expr::PopExecutionFlow));
    match &code[head + body + 6] {
        Expr::Jump { code_offset } => assert_eq!(*code_offset, offset_of(code, head)),
        _ => panic!("no jump back"),
    }
}

fn check_contexts(e: &Expr) {
    match e {
        Expr::Context { offset, context_expression, object_expression, .. } => {
            assert_eq!(*offset, size(1008, context_expression));
            check_contexts(object_expression);
            check_contexts(context_expression);
        }
        Expr::Let { variable, expression, .. } => {
            check_contexts(variable);
            check_contexts(expression);
        }
        _ => {}
    }
}

#[test]
fn hook_refuses_blueprint_without_class() {
    let mut bp = blueprint(vec![function("Tick")]);
    let mut f = function("Tick");
    assert_eq!(hook(&mut f, PackageIndex::new(2), &mut bp, "/Game/Hooks", "/Game/Hooks/Hook", "Hook_C"), Err(HookError::ClassNotFound));
    assert_eq!(bp.name_map.len(), 1);
    assert_eq!(bp.imports.len(), 1);
    assert_eq!(bytecode(&f).len(), 1);
}

#[test]
fn hook_writes_pre_orig_post_loops() {
    let mut bp = blueprint(vec![class(vec![]), function("Tick")]);
    let mut f = function("Tick");
    assert_eq!(hook(&mut f, PackageIndex::new(3), &mut bp, "/Game/Hooks", "/Game/Hooks/Hook", "Hook_C"), Ok(()));
    let code = bytecode(&f);
    assert_eq!(code.len(), 43);
    check_loop(code, 8, 6);
    check_loop(code, 23, 2);
    check_loop(code, 34, 2);
    assert_eq!(called_on_hook(&code[27]), "pre_Tick");
    assert_eq!(called_on_hook(&code[38]), "post_Tick");
    match &code[32] {
        Expr::LocalVirtualFunction { virtual_function_name, parameters } => {
            assert_eq!(virtual_function_name, "orig_Tick");
            assert!(parameters.is_empty());
        }
        _ => panic!("the original is not called"),
    }
    for e in code {
        check_contexts(e);
    }
    let total: u32 = code.iter().map(|e| size(1008, e)).sum();
    assert_eq!(total, 1209 + "/Game/Hooks".len() as u32);
}

#[test]
fn hook_declares_its_locals() {
    let mut bp = blueprint(vec![class(vec![]), function("Tick")]);
    let mut f = function("Tick");
    hook(&mut f, PackageIndex::new(3), &mut bp, "/Game/Hooks", "/Game/Hooks/Hook", "Hook_C").unwrap();
    let names: Vec<String> = locals(&f)
        .iter()
        .map(|p| match p {
            FProperty::FGenericProperty { generic_property }
            | FProperty::FArrayProperty { generic_property, .. }
            | FProperty::FInterfaceProperty { generic_property, .. }
            | FProperty::FObjectProperty { generic_property, .. }
            | FProperty::FBoolProperty { generic_property, .. } => generic_property.name.clone(),
            _ => panic!("unexpected declaration"),
        })
        .collect();
    assert_eq!(
        names,
        vec![
            "CallFunc_GetAssetRegistry_ReturnValue",
            "K2Node_MakeArray_Array",
            "CallFunc_GetAssetsByPath_OutAssetData",
            "counter",
            "CallFunc_Less_IntInt_ReturnValue",
            "CallFunc_Array_Length_ReturnValue",
            "CallFunc_Add_IntInt_ReturnValue",
            "CallFunc_Array_Get_Item",
            "CallFunc_GetAsset_ReturnValue",
            "K2Node_DynamicCast_AsHook_C",
            "K2Node_DynamicCast_bSuccess",
            "CallFunc_Array_Add_ReturnValue",
        ]
    );
}

#[test]
fn hook_imports_and_dependencies_are_shared() {
    let mut bp = blueprint(vec![class(vec![]), function("Tick"), function("Jump")]);
    let mut f = function("Tick");
    hook(&mut f, PackageIndex::new(4), &mut bp, "/Game/Hooks", "/Game/Hooks/Hook", "Hook_C").unwrap();
    let imports = bp.imports.len();
    let names = bp.name_map.len();
    // the engine package was imported already and is not added again
    assert_eq!(bp.imports.iter().filter(|i| i.object_name == "/Script/Engine").count(), 1);
    let deps = &f.base_export.create_before_serialization_dependencies;
    assert_eq!(deps[0].index, 5);
    for (i, d) in deps.iter().enumerate().skip(1) {
        assert!(d.index < 0 && ((-d.index - 1) as usize) < bp.imports.len());
        assert!(!deps[..i].contains(d));
    }
    let mut g = function("Jump");
    hook(&mut g, PackageIndex::new(5), &mut bp, "/Game/Hooks", "/Game/Hooks/Hook", "Hook_C").unwrap();
    assert_eq!(bp.imports.len(), imports);
    // only pre_Jump, orig_Jump and post_Jump are new names
    assert_eq!(bp.name_map.len(), names + 3);
}

#[test]
fn hooking_begin_play_declares_hooks_array() {
    let mut bp = blueprint(vec![function("Other"), class(vec![]), function("ReceiveBeginPlay")]);
    let mut f = function("ReceiveBeginPlay");
    hook(&mut f, PackageIndex::new(4), &mut bp, "/Game/Hooks", "/Game/Hooks/Hook", "Hook_C").unwrap();
    match &bp.exports[1].data {
        ExportData::ClassExport { struct_export, .. } => {
            assert_eq!(struct_export.loaded_properties.len(), 1);
            match &struct_export.loaded_properties[0] {
                FProperty::FArrayProperty { generic_property, inner } => {
                    assert_eq!(generic_property.name, "hooks");
                    assert!(matches!(**inner, FProperty::FInterfaceProperty { .. }));
                }
                _ => panic!("hooks is not an array"),
            }
        }
        _ => panic!("not a class"),
    }
    let mut g = function("Tick");
    let mut bp2 = blueprint(vec![class(vec![]), function("Tick")]);
    hook(&mut g, PackageIndex::new(3), &mut bp2, "/Game/Hooks", "/Game/Hooks/Hook", "Hook_C").unwrap();
    match &bp2.exports[0].data {
        ExportData::ClassExport { struct_export, .. } => assert!(struct_export.loaded_properties.is_empty()),
        _ => panic!("not a class"),
    }
}

#[test]
fn func_map_insert_replaces_or_appends() {
    let mut m = vec![entry("Tick", 2), entry("Jump", 3)];
    func_map_insert(&mut m, "Jump".to_string(), PackageIndex::new(9));
    assert_eq!(m.len(), 2);
    assert_eq!(m[1].index.index, 9);
    assert_eq!(m[0].index.index, 2);
    func_map_insert(&mut m, "Land".to_string(), PackageIndex::new(10));
    assert_eq!(m.len(), 3);
    assert_eq!(m[2].name, "Land");
    assert_eq!(m[2].index.index, 10);
}

#[test]
fn hook_blueprint_duplicates_functions() {
    let mut bp = blueprint(vec![
        class(vec![entry("ReceiveBeginPlay", 2), entry("ExecuteUbergraph_BP", 3), entry("Tick", 4)]),
        function("ReceiveBeginPlay"),
        function("ExecuteUbergraph_BP"),
        function("Tick"),
    ]);
    assert_eq!(hook_blueprint(&mut bp, "/Game/Hooks", "/Game/Hooks/Hook", "Hook_C"), Ok(()));
    assert_eq!(bp.exports.len(), 6);
    assert_eq!(bp.exports[1].base_export.object_name, "orig_ReceiveBeginPlay");
    assert_eq!(bp.exports[2].base_export.object_name, "ExecuteUbergraph_BP");
    assert_eq!(bp.exports[3].base_export.object_name, "orig_Tick");
    assert_eq!(bp.exports[4].base_export.object_name, "ReceiveBeginPlay");
    assert_eq!(bp.exports[5].base_export.object_name, "Tick");
    assert_eq!(bytecode(&bp.exports[2]).len(), 1);
    assert_eq!(bytecode(&bp.exports[4]).len(), 43);
    assert_eq!(bytecode(&bp.exports[5]).len(), 43);
    match &bp.exports[0].data {
        ExportData::ClassExport { func_map, struct_export, .. } => {
            assert_eq!(func_map.len(), 3);
            assert_eq!(func_map[0].index.index, 5);
            assert_eq!(func_map[1].index.index, 3);
            assert_eq!(func_map[2].index.index, 6);
            assert_eq!(struct_export.loaded_properties.len(), 1);
        }
        _ => panic!("not a class"),
    }
}

#[test]
fn hook_blueprint_refuses_blueprint_without_class() {
    let mut bp = blueprint(vec![function("Tick")]);
    assert_eq!(hook_blueprint(&mut bp, "/Game/Hooks", "/Game/Hooks/Hook", "Hook_C"), Err(HookError::ClassNotFound));
    assert_eq!(bp.exports.len(), 1);
    assert_eq!(bp.exports[0].base_export.object_name, "Tick");
}

fn pointer_refs(p: &KismetPropertyPointer, out: &mut Vec<i32>) {
    if let Some(i) = &p.old {
        out.push(i.index);
    }
    if let Some(f) = &p.new {
        out.push(f.resolved_owner.index);
    }
}

fn collect_refs(e: &Expr, out: &mut Vec<i32>) {
    match e {
        Expr::Let { value, variable, expression } => {
            pointer_refs(value, out);
            collect_refs(variable, out);
            collect_refs(expression, out);
        }
        Expr::LetBool { variable_expression, assignment_expression }
        | Expr::LetObj { variable_expression, assignment_expression } => {
            collect_refs(variable_expression, out);
            collect_refs(assignment_expression, out);
        }
        Expr::LocalVariable { variable } | Expr::InstanceVariable { variable } => pointer_refs(variable, out),
        Expr::CallMath { stack_node, parameters } | Expr::FinalFunction { stack_node, parameters } => {
            out.push(stack_node.index);
            for p in parameters {
                collect_refs(p, out);
            }
        }
        Expr::VirtualFunction { parameters, .. } | Expr::LocalVirtualFunction { parameters, .. } => {
            for p in parameters {
                collect_refs(p, out);
            }
        }
        Expr::Context { object_expression, r_value_pointer, context_expression, .. } => {
            collect_refs(object_expression, out);
            pointer_refs(r_value_pointer, out);
            collect_refs(context_expression, out);
        }
        Expr::InterfaceContext { interface_value } => collect_refs(interface_value, out),
        Expr::ObjToInterfaceCast { class_ptr, target } => {
            out.push(class_ptr.index);
            collect_refs(target, out);
        }
        Expr::PrimitiveCast { target, .. } => collect_refs(target, out),
        Expr::SetArray { assigning_property, array_inner_prop, elements } => {
            if let Some(a) = assigning_property {
                collect_refs(a, out);
            }
            if let Some(i) = array_inner_prop {
                out.push(i.index);
            }
            for x in elements {
                collect_refs(x, out);
            }
        }
        Expr::ObjectConst { value } => out.push(value.index),
        Expr::JumpIfNot { boolean_expression, .. } | Expr::PopExecutionFlowIfNot { boolean_expression } => {
            collect_refs(boolean_expression, out)
        }
        Expr::IntConst { .. }
        | Expr::StringConst { .. }
        | Expr::True
        | Expr::False
        | Expr::SelfObject
        | Expr::Jump { .. }
        | Expr::PushExecutionFlow { .. }
        | Expr::PopExecutionFlow => {}
        _ => panic!("unexpected instruction in a hook"),
    }
}

#[test]
fn hook_refers_only_to_itself_its_class_and_imports() {
    let mut bp = blueprint(vec![function("Other"), class(vec![]), function("Tick")]);
    let mut f = function("Tick");
    hook(&mut f, PackageIndex::new(3), &mut bp, "/Game/Hooks", "/Game/Hooks/Hook", "Hook_C").unwrap();
    let mut refs = Vec::new();
    for e in bytecode(&f) {
        collect_refs(e, &mut refs);
    }
    for r in &refs {
        assert!(*r == 0 || *r == 3 || *r == 2 || (*r < 0 && ((-*r - 1) as usize) < bp.imports.len()), "{}", r);
    }
    assert!(refs.contains(&3));
    assert!(refs.contains(&2));
    assert!(refs.iter().any(|r| *r < 0));
}

#[test]
fn hook_declares_public_properties() {
    let mut bp = blueprint(vec![class(vec![]), function("ReceiveBeginPlay")]);
    let mut f = function("ReceiveBeginPlay");
    hook(&mut f, PackageIndex::new(3), &mut bp, "/Game/Hooks", "/Game/Hooks/Hook", "Hook_C").unwrap();
    match &locals(&f)[0] {
        FProperty::FInterfaceProperty { generic_property, .. } => {
            assert_eq!(generic_property.flags, 0x1);
            assert_eq!(generic_property.property_flags, 0x0004_0000_0000_0000);
            assert_eq!(generic_property.array_dim, 1);
            assert_eq!(generic_property.blueprint_replication_condition, 0);
            assert_eq!(generic_property.rep_notify_func, "None");
        }
        _ => panic!("the registry is not an interface"),
    }
    match &locals(&f)[1] {
        FProperty::FArrayProperty { generic_property, .. } => {
            assert_eq!(generic_property.property_flags, 0x0800_0002);
        }
        _ => panic!("the folder list is not an array"),
    }
    match &bp.exports[0].data {
        ExportData::ClassExport { struct_export, .. } => match &struct_export.loaded_properties[0] {
            FProperty::FArrayProperty { generic_property, .. } => {
                assert_eq!(generic_property.flags, 0x0020_0001);
                assert_eq!(generic_property.property_flags, 0x0001_0005);
                assert_eq!(generic_property.element_size, 16);
            }
            _ => panic!("hooks is not an array"),
        },
        _ => panic!("not a class"),
    }
}

#[test]
fn hook_scans_the_folder_for_the_hook_class() {
    let mut bp = blueprint(vec![class(vec![]), function("Tick")]);
    let mut f = function("Tick");
    hook(&mut f, PackageIndex::new(3), &mut bp, "/Game/Mods/Hooks", "/Game/Mods/Hooks/MyHook", "MyHook_C").unwrap();
    let code = bytecode(&f);
    match &code[1] {
        Expr::SetArray { elements, .. } => {
            assert_eq!(elements.len(), 1);
            match &elements[0] {
                Expr::StringConst { value } => assert_eq!(value, "/Game/Mods/Hooks"),
                _ => panic!("the folder is not a string"),
            }
        }
        _ => panic!("the folder array is not set"),
    }
    let class_ptr = match &code[13] {
        Expr::Let { expression, .. } => match &**expression {
            Expr::ObjToInterfaceCast { class_ptr, .. } => class_ptr.index,
            _ => panic!("not a cast"),
        },
        _ => panic!("not an assignment"),
    };
    let interface = bp.get_import(PackageIndex::new(class_ptr)).unwrap();
    assert_eq!(interface.class_package, "/Script/Engine");
    assert_eq!(interface.class_name, "BlueprintGeneratedClass");
    assert_eq!(interface.object_name, "MyHook_C");
    assert!(bp.find_import_no_index("/Script/CoreUObject", "Package", "/Game/Mods/Hooks/MyHook").is_some());
}

#[test]
fn hook_gathers_hook_objects_into_the_class_hooks() {
    let mut bp = blueprint(vec![class(vec![]), function("Tick")]);
    let mut f = function("Tick");
    hook(&mut f, PackageIndex::new(3), &mut bp, "/Game/Hooks", "/Game/Hooks/Hook", "Hook_C").unwrap();
    let code = bytecode(&f);
    // instruction 16 adds the cast hook object to the class's hooks array
    match &code[16] {
        Expr::Let { expression, .. } => match &**expression {
            Expr::Context { context_expression, .. } => match &**context_expression {
                Expr::FinalFunction { stack_node, parameters } => {
                    assert_eq!(bp.get_import(*stack_node).unwrap().object_name, "Array_Add");
                    match &parameters[0] {
                        Expr::InstanceVariable { variable } => {
                            let path = variable.new.as_ref().unwrap();
                            assert_eq!(path.path, vec!["hooks".to_string()]);
                            assert_eq!(path.resolved_owner.index, 1);
                        }
                        _ => panic!("the hooks array is not the class's"),
                    }
                    match &parameters[1] {
                        Expr::LocalVariable { variable } => {
                            assert_eq!(variable.new.as_ref().unwrap().path, vec!["K2Node_DynamicCast_AsHook_C".to_string()])
                        }
                        _ => panic!("the cast is not added"),
                    }
                }
                _ => panic!("not a call"),
            },
            _ => panic!("not a context"),
        },
        _ => panic!("not an assignment"),
    }
    // exactly one call of the original function
    let origs = code
        .iter()
        .filter(|e| matches!(e, Expr::LocalVirtualFunction { virtual_function_name, .. } if virtual_function_name == "orig_Tick"))
        .count();
    assert_eq!(origs, 1);
    // every import the hook added is among the function's dependencies
    let deps = &f.base_export.create_before_serialization_dependencies;
    for k in 1..bp.imports.len() {
        assert!(deps.contains(&PackageIndex::new(-(k as i32) - 1)));
    }
}

fn import_named(bp: &Asset, class_name: &str, object_name: &str) -> (usize, PackageIndex) {
    let k = bp
        .imports
        .iter()
        .position(|i| i.class_name == class_name && i.object_name == object_name)
        .unwrap();
    (k, bp.imports[k].outer_index)
}

fn reference_of(k: usize) -> i32 {
    -(k as i32) - 1
}

#[test]
fn hook_places_each_import_within_its_parent() {
    let mut bp = blueprint(vec![class(vec![]), function("ReceiveBeginPlay")]);
    let mut f = function("ReceiveBeginPlay");
    hook(&mut f, PackageIndex::new(2), &mut bp, "/Game/Hooks", "/Game/Hooks/Hook", "Hook_C").unwrap();
    let (hook_package, p) = import_named(&bp, "Package", "/Game/Hooks/Hook");
    assert_eq!(p.index, 0);
    let (_, c) = import_named(&bp, "BlueprintGeneratedClass", "Hook_C");
    assert_eq!(c.index, reference_of(hook_package));
    let (registry_package, _) = import_named(&bp, "Package", "/Script/AssetRegistry");
    let (helpers, h) = import_named(&bp, "Class", "AssetRegistryHelpers");
    assert_eq!(h.index, reference_of(registry_package));
    for name in ["GetAssetRegistry", "GetAsset"] {
        assert_eq!(import_named(&bp, "Function", name).1.index, reference_of(helpers));
    }
    let (engine, _) = import_named(&bp, "Package", "/Script/Engine");
    let (math, m) = import_named(&bp, "Class", "Less_IntInt");
    assert_eq!(m.index, reference_of(engine));
    for name in ["Less_IntInt", "Add_IntInt"] {
        assert_eq!(import_named(&bp, "Function", name).1.index, reference_of(math));
    }
    let (array, a) = import_named(&bp, "Class", "KismetArrayLibrary");
    assert_eq!(a.index, reference_of(engine));
    for name in ["Array_Length", "Array_Get", "Array_Add"] {
        assert_eq!(import_named(&bp, "Function", name).1.index, reference_of(array));
    }
    let (core, _) = import_named(&bp, "Package", "/Script/CoreUObject");
    assert_eq!(import_named(&bp, "Class", "Object").1.index, reference_of(core));
    assert_eq!(import_named(&bp, "ScriptStruct", "AssetData").1.index, reference_of(core));
    match &bp.exports[0].data {
        ExportData::ClassExport { struct_export, .. } => match &struct_export.loaded_properties[0] {
            FProperty::FArrayProperty { inner, .. } => match &**inner {
                FProperty::FInterfaceProperty { interface_class, .. } => {
                    let (k, _) = import_named(&bp, "BlueprintGeneratedClass", "Hook_C");
                    assert_eq!(interface_class.index, reference_of(k));
                }
                _ => panic!("the hooks array does not hold interfaces"),
            },
            _ => panic!("the hooks property is not an array"),
        },
        _ => panic!("the class export is gone"),
    }
}

#[test]
fn hook_keeps_every_import_it_looks_up_among_its_dependencies() {
    let mut bp = blueprint(vec![class(vec![]), function("Tick")]);
    bp.imports.push(Import {
        class_package: "/Script/CoreUObject".to_string(),
        class_name: "Package".to_string(),
        outer_index: PackageIndex::new(0),
        object_name: "/Game/Hooks/Hook".to_string(),
        optional: false,
    });
    let mut f = function("Tick");
    hook(&mut f, PackageIndex::new(2), &mut bp, "/Game/Hooks", "/Game/Hooks/Hook", "Hook_C").unwrap();
    assert_eq!(bp.imports[1].object_name, "/Game/Hooks/Hook");
    let deps = &f.base_export.create_before_serialization_dependencies;
    assert!(deps.iter().any(|d| d.index == -2));
    for k in 0..bp.imports.len() {
        assert!(deps.iter().any(|d| d.index == reference_of(k)), "{}", bp.imports[k].object_name);
    }
}
