//! The search for the types of methods.

use cpp_class::signatures::{
    find_suitable_foreign_types_for_methods, method_declares_object, Direction, TypePosition,
    TypeQuery,
};
use cpp_class::types::{
    CppForeignTypeInfo, ForeignTypeInfo, ForeignerClassInfo, ForeignerMethod, MethodAccess,
    MethodVariant, ReturnType, RustPath,
};

fn method(variant: MethodVariant, inputs: usize, output: ReturnType) -> ForeignerMethod {
    ForeignerMethod {
        variant,
        access: MethodAccess::Public,
        doc_comments: String::new(),
        rust_id: RustPath { segments: vec![], text: String::new() },
        short_name: String::new(),
        c_func_name: String::new(),
        dummy_constructor: false,
        inputs,
        output,
    }
}

fn class(methods: Vec<ForeignerMethod>) -> ForeignerClassInfo {
    ForeignerClassInfo {
        name: "Foo".to_string(),
        c_class_type: "FooOpaque".to_string(),
        cpp_header_name: "Foo.hpp".to_string(),
        doc_comments: String::new(),
        copy_derived: false,
        has_constructor_ret_type: true,
        methods,
        foreigner_code: String::new(),
    }
}

fn foreign_type(name: &str) -> CppForeignTypeInfo {
    CppForeignTypeInfo {
        base: ForeignTypeInfo { name: name.to_string(), rust_type: format!("rust {}", name) },
        cpp_converter: None,
    }
}

fn argument(method: usize, k: usize) -> TypeQuery {
    TypeQuery { method, position: TypePosition::Argument(k), direction: Direction::Incoming }
}

fn output(method: usize) -> TypeQuery {
    TypeQuery { method, position: TypePosition::Output, direction: Direction::Outgoing }
}

fn found(query: TypeQuery) -> Result<CppForeignTypeInfo, String> {
    Ok(match query.position {
        TypePosition::Argument(k) => foreign_type(&format!("m{}a{}", query.method, k)),
        TypePosition::Output => foreign_type(&format!("m{}r", query.method)),
    })
}

fn declared() -> ReturnType {
    ReturnType::Type("i32".to_string())
}

#[test]
fn search_asks_for_every_type_but_the_object() {
    let class = class(vec![
        method(MethodVariant::Constructor, 2, declared()),
        method(MethodVariant::Method { read_only: true }, 3, declared()),
        method(MethodVariant::StaticMethod, 1, ReturnType::Default),
        method(MethodVariant::Method { read_only: false }, 1, ReturnType::Default),
        method(MethodVariant::StaticMethod, 0, declared()),
    ]);
    let mut search = find_suitable_foreign_types_for_methods(&class, "()".to_string());
    let mut asked = Vec::new();
    while let Some(method) = search.method() {
        assert!(method_declares_object(method));
        let mut queries = Vec::new();
        while let Some(query) = search.query() {
            queries.push(query);
            search = search.supply(found(query)).ok().unwrap();
        }
        asked.push(queries);
        search.conclude();
    }
    assert_eq!(
        asked,
        [
            vec![argument(0, 0), argument(0, 1)],
            vec![argument(1, 1), argument(1, 2), output(1)],
            vec![argument(2, 0)],
            vec![],
            vec![output(4)],
        ]
    );
    let found = search.finish();
    let names: Vec<(String, String, Vec<String>)> = found
        .iter()
        .map(|s| {
            (
                s.output.base.name.clone(),
                s.output.base.rust_type.clone(),
                s.input.iter().map(|t| t.base.name.clone()).collect(),
            )
        })
        .collect();
    let strings = |parts: &[&str]| parts.iter().map(|s| s.to_string()).collect::<Vec<_>>();
    assert_eq!(
        names,
        [
            (String::new(), "()".to_string(), strings(&["m0a0", "m0a1"])),
            ("m1r".to_string(), "rust m1r".to_string(), strings(&["m1a1", "m1a2"])),
            ("void".to_string(), "()".to_string(), strings(&["m2a0"])),
            ("void".to_string(), "()".to_string(), strings(&[])),
            ("m4r".to_string(), "rust m4r".to_string(), strings(&[])),
        ]
    );
    assert!(found[0].output.cpp_converter.is_none());
}

#[test]
fn class_without_methods_needs_no_search() {
    let class = class(vec![]);
    let search = find_suitable_foreign_types_for_methods(&class, "()".to_string());
    assert!(search.method().is_none());
    assert!(search.finish().is_empty());
}

#[test]
fn method_without_arguments_has_no_object() {
    let variant = MethodVariant::Method { read_only: true };
    assert!(!method_declares_object(&method(variant, 0, ReturnType::Default)));
    assert!(method_declares_object(&method(variant, 1, ReturnType::Default)));
    assert!(method_declares_object(&method(MethodVariant::StaticMethod, 0, declared())));
    assert!(method_declares_object(&method(MethodVariant::Constructor, 0, declared())));
}

#[test]
fn missing_type_ends_the_search() {
    let class = class(vec![
        method(MethodVariant::StaticMethod, 2, declared()),
        method(MethodVariant::Method { read_only: true }, 0, declared()),
    ]);
    for missing in [argument(0, 0), argument(0, 1), output(0)] {
        let mut search = find_suitable_foreign_types_for_methods(&class, "()".to_string());
        let mut asked = Vec::new();
        let reason = loop {
            let query = search.query().unwrap();
            asked.push(query);
            let reply =
                if query == missing { Err("unknown type".to_string()) } else { found(query) };
            search = match search.supply(reply) {
                Ok(after) => after,
                Err(reason) => break reason,
            };
        };
        assert_eq!(reason, "unknown type");
        assert_eq!(*asked.last().unwrap(), missing);
    }
}
