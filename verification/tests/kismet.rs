use spaghetti::index::PackageIndex;
use spaghetti::kismet::{on_kismet, size, Expr, FieldPath, KismetPropertyPointer};
use spaghetti::index::Both;
use spaghetti::props::{on_props, MapEntry, Property};
use spaghetti::transplant::ExportRedirect;

fn named_pointer(name: &str, owner: i32) -> KismetPropertyPointer {
    KismetPropertyPointer {
        old: None,
        new: Some(FieldPath { path: vec![name.to_string()], resolved_owner: PackageIndex::new(owner) }),
    }
}

// confirming that the offset field in ExContext is the size of the context expression
#[test]
fn offset() {
    let named = named_pointer("", 0);
    assert_eq!(
        size(
            1008,
            &Expr::VirtualFunction {
                virtual_function_name: String::new(),
                parameters: vec![Expr::LocalVariable { variable: named }, Expr::True, Expr::False],
            },
        ),
        25
    );
}

#[test]
fn vector_size_follows_large_world_coordinates() {
    assert_eq!(size(1003, &Expr::VectorConst), 13);
    assert_eq!(size(1004, &Expr::VectorConst), 25);
    assert_eq!(size(1003, &Expr::TransformConst), 41);
    assert_eq!(size(1008, &Expr::TransformConst), 81);
}

#[test]
fn string_size_counts_utf8_bytes_and_terminator() {
    assert_eq!(size(1008, &Expr::StringConst { value: "abc".to_string() }), 5);
    assert_eq!(size(1008, &Expr::StringConst { value: "é".to_string() }), 4);
    assert_eq!(size(1008, &Expr::UnicodeStringConst { value: "ab".to_string() }), 7);
}

#[test]
fn jump_if_not_on_a_local_takes_fourteen_bytes() {
    let e = Expr::JumpIfNot {
        code_offset: 0,
        boolean_expression: Box::new(Expr::LocalVariable { variable: named_pointer("b", 1) }),
    };
    assert_eq!(size(1008, &e), 14);
    assert_eq!(size(1008, &Expr::PushExecutionFlow { pushing_address: 3 }), 5);
    assert_eq!(size(1008, &Expr::PopExecutionFlow), 1);
}

#[test]
fn context_size_adds_skip_offset_and_pointer() {
    let e = Expr::Context {
        object_expression: Box::new(Expr::ObjectConst { value: PackageIndex::new(-1) }),
        offset: 19,
        r_value_pointer: named_pointer("len", 1),
        context_expression: Box::new(Expr::FinalFunction {
            stack_node: PackageIndex::new(-2),
            parameters: vec![Expr::InstanceVariable { variable: named_pointer("hooks", 2) }],
        }),
    };
    assert_eq!(size(1008, &e), 1 + 9 + 4 + 8 + 19);
}

#[test]
fn redirect_rewrites_references_inside_bytecode() {
    let mut e = Expr::Let {
        value: named_pointer("x", 3),
        variable: Box::new(Expr::LocalVariable { variable: named_pointer("x", 3) }),
        expression: Box::new(Expr::ObjectConst { value: PackageIndex::new(7) }),
    };
    let mut redirect = ExportRedirect { self_index: 3, package_offset: 10, old: 7, class: 2 };
    on_kismet(&mut e, &mut redirect);
    match e {
        Expr::Let { value, variable, expression } => {
            assert_eq!(value.new.unwrap().resolved_owner.index, 10);
            match *variable {
                Expr::LocalVariable { variable } => assert_eq!(variable.new.unwrap().resolved_owner.index, 10),
                _ => panic!("variable changed kind"),
            }
            match *expression {
                Expr::ObjectConst { value } => assert_eq!(value.index, 2),
                _ => panic!("expression changed kind"),
            }
        }
        _ => panic!("expression changed kind"),
    }
}

#[test]
fn map_keys_are_walked_before_their_values() {
    let mut p = Property::MapProperty {
        name: "m".to_string(),
        key_type: "ObjectProperty".to_string(),
        value_type: "ObjectProperty".to_string(),
        value: vec![MapEntry {
            key: Property::ObjectProperty { name: "k".to_string(), value: PackageIndex::new(5) },
            value: Property::ObjectProperty { name: "v".to_string(), value: PackageIndex::new(9) },
        }],
    };
    let mut redirect = ExportRedirect { self_index: 5, package_offset: 7, old: 9, class: 2 };
    on_props(&mut p, &mut redirect);
    match p {
        Property::MapProperty { value, .. } => {
            match &value[0].key {
                Property::ObjectProperty { value, .. } => assert_eq!(value.index, 7),
                _ => panic!("key changed kind"),
            }
            match &value[0].value {
                Property::ObjectProperty { value, .. } => assert_eq!(value.index, 2),
                _ => panic!("value changed kind"),
            }
        }
        _ => panic!("map changed kind"),
    }
}

#[test]
fn two_walks_are_one_walk_with_both_visitors() {
    let make = || Expr::Let {
        value: named_pointer("x", 3),
        variable: Box::new(Expr::LocalVariable { variable: named_pointer("x", 3) }),
        expression: Box::new(Expr::ObjectConst { value: PackageIndex::new(7) }),
    };
    let mut twice = make();
    on_kismet(&mut twice, &mut ExportRedirect { self_index: 3, package_offset: 10, old: 7, class: 2 });
    on_kismet(&mut twice, &mut ExportRedirect { self_index: 10, package_offset: 20, old: 2, class: 4 });
    let mut once = make();
    let mut both = Both {
        first: ExportRedirect { self_index: 3, package_offset: 10, old: 7, class: 2 },
        second: ExportRedirect { self_index: 10, package_offset: 20, old: 2, class: 4 },
    };
    on_kismet(&mut once, &mut both);
    for e in [twice, once] {
        match e {
            Expr::Let { value, expression, .. } => {
                assert_eq!(value.new.unwrap().resolved_owner.index, 20);
                match *expression {
                    Expr::ObjectConst { value } => assert_eq!(value.index, 4),
                    _ => panic!("expression changed kind"),
                }
            }
            _ => panic!("expression changed kind"),
        }
    }
}

#[test]
fn later_versions_never_shrink_bytecode() {
    let e = Expr::Let {
        value: named_pointer("x", 3),
        variable: Box::new(Expr::LocalVariable { variable: named_pointer("x", 3) }),
        expression: Box::new(Expr::VectorConst),
    };
    assert!(size(1003, &e) < size(1004, &e));
    let f = Expr::Let {
        value: named_pointer("x", 3),
        variable: Box::new(Expr::LocalVariable { variable: named_pointer("x", 3) }),
        expression: Box::new(Expr::IntConst { value: 1 }),
    };
    assert_eq!(size(1000, &f), size(1009, &f));
}

#[test]
fn appending_a_parameter_adds_its_size() {
    let one = Expr::IntConst { value: 1 };
    let extra = Expr::IntConst { value: 7 };
    let f = Expr::VirtualFunction { virtual_function_name: "f".to_string(), parameters: vec![Expr::IntConst { value: 1 }] };
    let g = Expr::VirtualFunction {
        virtual_function_name: "f".to_string(),
        parameters: vec![Expr::IntConst { value: 1 }, Expr::IntConst { value: 7 }],
    };
    assert_eq!(size(1000, &f), 14 + size(1000, &one));
    assert_eq!(size(1000, &g), size(1000, &f) + size(1000, &extra));
    let m = Expr::CallMath { stack_node: PackageIndex::new(-1), parameters: vec![Expr::IntConst { value: 1 }] };
    let n = Expr::CallMath {
        stack_node: PackageIndex::new(-1),
        parameters: vec![Expr::IntConst { value: 1 }, Expr::IntConst { value: 7 }],
    };
    assert_eq!(size(1000, &m), 10 + size(1000, &one));
    assert_eq!(size(1000, &n), size(1000, &m) + size(1000, &extra));
    assert_eq!(size(1000, &g), 24);
}
