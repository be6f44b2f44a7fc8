use spaghetti::export::{BaseExport, Export, ExportData, NormalExport, StructExport};
use spaghetti::index::PackageIndex;
use spaghetti::kismet::Expr;
use spaghetti::transplant::{get_export, transplant, Asset, Import};
use spaghetti::uprop::UField;

fn import(package: &str, class: &str, outer: i32, name: &str) -> Import {
    Import {
        class_package: package.to_string(),
        class_name: class.to_string(),
        outer_index: PackageIndex::new(outer),
        object_name: name.to_string(),
        optional: false,
    }
}

fn base(name: &str, class_index: i32, outer: i32) -> BaseExport {
    BaseExport {
        class_index: PackageIndex::new(class_index),
        super_index: PackageIndex::new(0),
        template_index: PackageIndex::new(0),
        outer_index: PackageIndex::new(outer),
        object_name: name.to_string(),
        serialization_before_serialization_dependencies: vec![],
        create_before_serialization_dependencies: vec![],
        serialization_before_create_dependencies: vec![],
        create_before_create_dependencies: vec![],
    }
}

fn function(name: &str, class_index: i32, outer: i32, bytecode: Vec<Expr>) -> Export {
    Export {
        base_export: base(name, class_index, outer),
        data: ExportData::FunctionExport {
            struct_export: StructExport {
                field: UField { next: None },
                super_struct: PackageIndex::new(0),
                children: vec![],
                loaded_properties: vec![],
                script_bytecode: Some(bytecode),
                normal_export: NormalExport { properties: vec![] },
            },
        },
    }
}

fn asset(names: &[&str], imports: Vec<Import>, exports: Vec<Export>) -> Asset {
    Asset {
        name_map: names.iter().map(|n| n.to_string()).collect(),
        imports,
        exports,
        object_version_ue5: 1008,
    }
}

fn object_const(e: &Expr) -> i32 {
    match e {
        Expr::ObjectConst { value } => value.index,
        _ => panic!("not an object constant"),
    }
}

#[test]
fn get_import_and_find_import() {
    let a = asset(&[], vec![import("/Script/Engine", "Class", 0, "Actor"), import("/Script/CoreUObject", "Package", 0, "/Script/Engine")], vec![]);
    assert_eq!(a.get_import(PackageIndex::new(-1)).unwrap().object_name, "Actor");
    assert_eq!(a.get_import(PackageIndex::new(-2)).unwrap().object_name, "/Script/Engine");
    assert!(a.get_import(PackageIndex::new(-3)).is_none());
    assert!(a.get_import(PackageIndex::new(0)).is_none());
    assert!(a.get_import(PackageIndex::new(1)).is_none());
    assert_eq!(a.find_import_no_index("/Script/Engine", "Class", "Actor"), Some(-1));
    assert_eq!(a.find_import_no_index("/Script/Engine", "Class", "Pawn"), None);
}

#[test]
fn add_fname_adds_each_name_once() {
    let mut a = asset(&["None"], vec![], vec![]);
    assert_eq!(a.add_fname("None"), "None");
    assert_eq!(a.name_map.len(), 1);
    assert_eq!(a.add_fname("hooks"), "hooks");
    assert_eq!(a.name_map, vec!["None".to_string(), "hooks".to_string()]);
    a.add_fname("hooks");
    assert_eq!(a.name_map.len(), 2);
}

#[test]
fn get_export_redirects_self_and_outer() {
    let donor = asset(
        &[],
        vec![],
        vec![
            function("Class", 0, 0, vec![]),
            function("hook_Tick", -1, 1, vec![Expr::ObjectConst { value: PackageIndex::new(2) }, Expr::ObjectConst { value: PackageIndex::new(1) }, Expr::ObjectConst { value: PackageIndex::new(5) }]),
        ],
    );
    let mut d = donor;
    d.exports[1].base_export.create_before_create_dependencies = vec![PackageIndex::new(4), PackageIndex::new(1)];
    let child = get_export(1, &d, 7, 3);
    assert_eq!(child.base_export.outer_index.index, 3);
    assert_eq!(child.base_export.class_index.index, -1);
    assert_eq!(child.base_export.create_before_create_dependencies, vec![PackageIndex::new(4), PackageIndex::new(3)]);
    match &child.data {
        ExportData::FunctionExport { struct_export } => {
            let code = struct_export.script_bytecode.as_ref().unwrap();
            // the export itself (2) now points at its new place (7 + 1), its
            // outer object (1) at the class (3), and anything else is kept
            assert_eq!(object_const(&code[0]), 8);
            assert_eq!(object_const(&code[1]), 3);
            assert_eq!(object_const(&code[2]), 5);
        }
        _ => panic!("not a function"),
    }
}

#[test]
fn transplant_moves_export_and_resolves_imports() {
    let donor = asset(
        &[],
        vec![
            import("/Script/CoreUObject", "Package", 0, "/Script/Engine"),
            import("/Script/Engine", "Class", -1, "Actor"),
            import("/Script/CoreUObject", "Function", -2, "K2_DestroyActor"),
        ],
        vec![
            function("BlueprintClass", 0, 0, vec![]),
            function("hook_hook_ReceiveTick", -3, 1, vec![Expr::ObjectConst { value: PackageIndex::new(-2) }, Expr::ObjectConst { value: PackageIndex::new(-3) }]),
        ],
    );
    let mut recipient = asset(
        &["None"],
        vec![import("/Script/Engine", "Class", 0, "Actor")],
        vec![function("Existing", 0, 0, vec![])],
    );
    transplant(1, &mut recipient, &donor, 1);
    assert_eq!(recipient.exports.len(), 2);
    assert_eq!(recipient.exports[0].base_export.object_name, "Existing");
    let moved = &recipient.exports[1];
    // every leading "hook_" goes
    assert_eq!(moved.base_export.object_name, "ReceiveTick");
    assert!(recipient.name_map.contains(&"ReceiveTick".to_string()));
    assert_eq!(moved.base_export.outer_index.index, 1);
    // the Actor class was there already; only the function is added, and its
    // outer object, Actor, needs nothing more
    assert_eq!(recipient.imports.len(), 2);
    assert_eq!(recipient.imports[0].object_name, "Actor");
    assert_eq!(recipient.imports[1].object_name, "K2_DestroyActor");
    // class index -3 (K2_DestroyActor) becomes -2 in the recipient
    assert_eq!(moved.base_export.class_index.index, -2);
    // the added function's outer (Actor, -2 in the donor) resolves to the existing Actor
    assert_eq!(recipient.imports[1].outer_index.index, -1);
    match &moved.data {
        ExportData::FunctionExport { struct_export } => {
            let code = struct_export.script_bytecode.as_ref().unwrap();
            assert_eq!(object_const(&code[0]), -1);
            assert_eq!(object_const(&code[1]), -2);
        }
        _ => panic!("not a function"),
    }
}

#[test]
fn transplant_adds_each_import_once() {
    let donor = asset(
        &[],
        vec![import("/Script/Engine", "Class", 0, "Pawn"), import("/Script/Engine", "Class", 0, "Pawn")],
        vec![function("hook_Tick", -1, 0, vec![Expr::ObjectConst { value: PackageIndex::new(-2) }, Expr::ObjectConst { value: PackageIndex::new(-1) }])],
    );
    let mut recipient = asset(&[], vec![], vec![]);
    transplant(0, &mut recipient, &donor, 1);
    assert_eq!(recipient.imports.len(), 1);
    assert_eq!(recipient.exports[0].base_export.class_index.index, -1);
    match &recipient.exports[0].data {
        ExportData::FunctionExport { struct_export } => {
            let code = struct_export.script_bytecode.as_ref().unwrap();
            assert_eq!(object_const(&code[0]), -1);
            assert_eq!(object_const(&code[1]), -1);
        }
        _ => panic!("not a function"),
    }
}

#[test]
fn transplant_adds_only_needed_imports() {
    let donor = asset(
        &[],
        vec![
            import("/Script/CoreUObject", "Package", 0, "/Script/Engine"),
            import("/Script/Engine", "Class", -1, "Actor"),
            import("/Script/Engine", "Class", -1, "Pawn"),
            import("/Script/CoreUObject", "Function", -2, "K2_DestroyActor"),
        ],
        vec![function("hook_Tick", 0, 0, vec![Expr::ObjectConst { value: PackageIndex::new(-4) }])],
    );
    let mut recipient = asset(&[], vec![], vec![]);
    transplant(0, &mut recipient, &donor, 1);
    // the function, then its outer Actor, then Actor's outer package; Pawn is
    // named by nothing the export needs and stays behind
    let names: Vec<&str> = recipient.imports.iter().map(|i| i.object_name.as_str()).collect();
    assert_eq!(names, vec!["K2_DestroyActor", "Actor", "/Script/Engine"]);
    assert_eq!(recipient.imports[0].outer_index.index, -2);
    assert_eq!(recipient.imports[1].outer_index.index, -3);
    assert_eq!(recipient.imports[2].outer_index.index, 0);
}

#[test]
fn transplant_resolves_create_before_create_dependencies() {
    let mut donor = asset(
        &[],
        vec![
            import("/Script/CoreUObject", "Package", 0, "/Script/Engine"),
            import("/Script/Engine", "Class", -1, "Pawn"),
        ],
        vec![function("hook_Tick", 0, 1, vec![])],
    );
    donor.exports[0].base_export.create_before_create_dependencies = vec![PackageIndex::new(-2)];
    let mut recipient = asset(&[], vec![], vec![]);
    transplant(0, &mut recipient, &donor, 1);
    let names: Vec<&str> = recipient.imports.iter().map(|i| i.object_name.as_str()).collect();
    assert_eq!(names, vec!["Pawn", "/Script/Engine"]);
    assert_eq!(recipient.exports[0].base_export.create_before_create_dependencies, vec![PackageIndex::new(-1)]);
}
