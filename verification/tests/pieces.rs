//! The pieces of text, against exact values.

use cpp_class::c_header::{
    render_c_constructor, render_c_destructor, render_c_epilogue, render_c_method,
    render_c_prologue, render_c_static_method,
};
use cpp_class::class_text::{
    find_clone, method_is_clone, output_returns_value, render_access_label,
    render_c_header_name, render_const_if_readonly, render_convert_ret_for_cpp,
    render_cpp_ret_type, render_destructor_name, render_following, render_fwd_header_name,
    render_impl_header_name, render_wrapper_name,
};
use cpp_class::cpp_header::{render_forward_header, write_methods_impls};
use cpp_class::generation::render_write_failed_message;
use cpp_class::glue::push_tokens;
use cpp_class::tokens::{parse_code, GenerateError};
use cpp_class::types::{
    CppConverter, CppForeignTypeInfo, ForeignTypeInfo, ForeignerMethod, MethodAccess,
    MethodVariant, ReturnType, RustPath,
};
use proc_macro2::TokenStream;

fn method_at(segments: &[&str]) -> ForeignerMethod {
    ForeignerMethod {
        variant: MethodVariant::StaticMethod,
        access: MethodAccess::Public,
        doc_comments: String::new(),
        rust_id: RustPath {
            segments: segments.iter().map(|s| s.to_string()).collect(),
            text: String::new(),
        },
        short_name: String::new(),
        c_func_name: String::new(),
        dummy_constructor: false,
        inputs: 0,
        output: ReturnType::Default,
    }
}

fn output(name: &str, converter: Option<(&str, &str)>) -> CppForeignTypeInfo {
    CppForeignTypeInfo {
        base: ForeignTypeInfo { name: name.to_string(), rust_type: String::new() },
        cpp_converter: converter.map(|(typename, converter)| CppConverter {
            typename: typename.to_string(),
            converter: converter.to_string(),
        }),
    }
}

#[test]
fn c_pieces() {
    assert_eq!(
        render_c_prologue("// doc", "8", "FooOpaque"),
        "// Automaticaly generated by rust_swig\n// doc\n#pragma once\n\n//for (u)intX_t types\n\
         #include <stdint.h>\n\n#ifdef __cplusplus\n\
         static_assert(sizeof(uintptr_t) == sizeof(uint8_t) * 8,\n   \
         \"our conversation usize <-> uintptr_t is wrong\");\nextern \"C\" {\n#endif\n\n    \
         typedef struct FooOpaque FooOpaque;\n\n"
    );
    assert_eq!(
        render_c_static_method("int32_t", "Foo_f", "int32_t a"),
        "\n    int32_t Foo_f(int32_t a);\n"
    );
    assert_eq!(
        render_c_method("void", "Foo_f", "const ", "FooOpaque", ", int32_t a"),
        "\n    void Foo_f(const FooOpaque * const self, int32_t a);\n"
    );
    assert_eq!(render_c_constructor("FooOpaque", "Foo_new", ""), "\n    FooOpaque *Foo_new();\n");
    assert_eq!(
        render_c_destructor("Foo_delete", "FooOpaque"),
        "\n    void Foo_delete(const FooOpaque *self);\n"
    );
    assert_eq!(render_c_epilogue(), "\n#ifdef __cplusplus\n}\n#endif\n\n");
}

#[test]
fn names_of_files_and_functions() {
    assert_eq!(render_c_header_name("Foo"), "c_Foo.h");
    assert_eq!(render_fwd_header_name("Foo"), "Foo_fwd.hpp");
    assert_eq!(render_impl_header_name("Foo"), "Foo_impl.hpp");
    assert_eq!(render_wrapper_name("Foo"), "FooWrapper");
    assert_eq!(render_destructor_name("Foo"), "Foo_delete");
}

#[test]
fn label_only_where_the_access_changes() {
    let all = [MethodAccess::Private, MethodAccess::Public, MethodAccess::Protected];
    for last in all {
        for next in all {
            assert_eq!(render_access_label(last, next).is_empty(), last == next);
        }
    }
    assert_eq!(render_access_label(MethodAccess::Public, MethodAccess::Protected), "protected:\n");
    assert_eq!(render_access_label(MethodAccess::Public, MethodAccess::Private), "private:\n");
    assert_eq!(render_access_label(MethodAccess::Private, MethodAccess::Public), "public:\n");
}

#[test]
fn qualifiers_and_argument_lists() {
    assert_eq!(render_const_if_readonly(true), "const ");
    assert_eq!(render_const_if_readonly(false), "");
    assert_eq!(render_following(true, "a"), ", a");
    assert_eq!(render_following(false, "a"), "");
}

#[test]
fn result_types() {
    assert!(!output_returns_value(&output("void", None)));
    assert!(output_returns_value(&output("void *", None)));
    assert_eq!(render_cpp_ret_type(&output("struct Foo", None)), " Foo");
    assert_eq!(render_cpp_ret_type(&output("int", Some(("Bar<struct Foo>", "x")))), "Bar< Foo>");
    assert_eq!(render_convert_ret_for_cpp(&output("int", None), "{v}"), "ret");
    assert_eq!(
        render_convert_ret_for_cpp(&output("int", Some(("Bar", "Bar({v})"))), "{v}"),
        "Bar(ret)"
    );
}

#[test]
fn first_clone_is_found() {
    let methods = || {
        vec![
            method_at(&[]),
            method_at(&["clone", "other"]),
            method_at(&["Foo", "clone"]),
            method_at(&["clone"]),
        ]
    };
    assert!(!method_is_clone(&methods()[0]));
    assert!(!method_is_clone(&methods()[1]));
    assert!(method_is_clone(&methods()[2]));
    assert_eq!(find_clone(&methods()), Some(2));
    assert_eq!(find_clone(&methods().into_iter().take(2).collect()), None);
}

#[test]
fn definitions_close_the_namespace() {
    let mut file = "head".to_string();
    write_methods_impls(&mut file, "org", "impls");
    assert_eq!(file, "head\nimpls\n} // namespace org\n");
}

#[test]
fn forward_declarations() {
    assert_eq!(
        render_forward_header("org", "FooWrapper", "Foo"),
        "// Automaticaly generated by rust_swig\n#pragma once\n\nnamespace org {\n\
         template<bool>\nclass FooWrapper;\nusing Foo = FooWrapper<true>;\n\
         using FooRef = FooWrapper<false>;\n} // namespace org\n"
    );
}

#[test]
fn write_failure_names_the_file() {
    assert_eq!(
        render_write_failed_message("out/c_Foo.h", "no space"),
        "write to out/c_Foo.h failed: no space"
    );
}

#[test]
fn code_becomes_tokens() {
    let stream = parse_code("test", "fn f ( ) { /* gone */ }".to_string()).ok().unwrap();
    assert_eq!(stream.to_string(), "fn f ( ) { }");
    match parse_code("test", "fn f ( {".to_string()) {
        Err(GenerateError::Unparsable { what, code, .. }) => {
            assert_eq!(what, "test");
            assert_eq!(code, "fn f ( {");
        }
        _ => panic!("unbalanced code was parsed"),
    }
}

#[test]
fn tokens_stand_behind_their_dependencies() {
    let stream = |code: &str| syn::parse_str::<TokenStream>(code).unwrap();
    let all = push_tokens(vec![stream("a"), stream("b")], Ok(stream("c"))).ok().unwrap();
    let printed: Vec<String> = all.iter().map(|t| t.to_string()).collect();
    assert_eq!(printed, ["a", "b", "c"]);
    let err = GenerateError::Diagnostic { message: "no".to_string() };
    assert!(push_tokens(vec![stream("a")], Err(err)).is_err());
}

#[test]
fn names_can_be_exchanged() {
    let places = [
        ("pub fn ", "() {}"),
        ("static S: &str = \" ", "( \";"),
        ("static S: &str = r#\" ", "( \"#;"),
        ("static S: &[u8] = b\" ", "( \";"),
        ("/// about ", "()\nfn f() {}"),
        ("/** about ", "() */ fn f() {}"),
        ("fn f() {} // see ", "()"),
        ("fn f() { /* see ", "() */ }"),
        ("x = 1. ", "(&'a u8, 'c')"),
    ];
    let printed = |code: String| parse_code("test", code).ok().unwrap().to_string();
    for (opening, rest) in places {
        let first = printed(format!("{}Zed{}", opening, rest));
        for name in ["A", "r", "b", "br", "_", "e5", "fn"] {
            let other = printed(format!("{}{}{}", opening, name, rest));
            assert_eq!(other, first.replace("Zed", name), "{} {}", opening, name);
        }
    }
}
