//! Whole generations, against the text that they must produce.

use cpp_class::generation::{
    generate, Answer, ConversionKind, GeneratedClass, ObjectType, Question, Stage, Stop,
};
use cpp_class::glue::{
    generate_static_method, try_generate_static_method, Converted, ConvertedThis, MethodContext,
    ThisType,
};
use cpp_class::tokens::GenerateError;
use cpp_class::types::{
    ClassJob, CppConverter, CppForeignMethodSignature, CppForeignTypeInfo, ForeignTypeInfo,
    ForeignerClassInfo, ForeignerMethod, MethodAccess, MethodVariant, RenderedSignature,
    ReturnType, RustPath,
};
use proc_macro2::TokenStream;

fn foreign_type(name: &str, rust_type: &str) -> CppForeignTypeInfo {
    CppForeignTypeInfo {
        base: ForeignTypeInfo { name: name.to_string(), rust_type: rust_type.to_string() },
        cpp_converter: None,
    }
}

fn method(variant: MethodVariant, access: MethodAccess, name: &str) -> ForeignerMethod {
    ForeignerMethod {
        variant,
        access,
        doc_comments: format!("// about {}\n", name),
        rust_id: RustPath {
            segments: vec!["Foo".to_string(), name.to_string()],
            text: format!("Foo :: {}", name),
        },
        short_name: name.to_string(),
        c_func_name: format!("Foo_{}", name),
        dummy_constructor: false,
        inputs: 1,
        output: ReturnType::Default,
    }
}

fn signature(name: &str, args: usize) -> RenderedSignature {
    let list = |sep: &str, word: &str| {
        (0..args).map(|i| format!("{}{}", word, i)).collect::<Vec<_>>().join(sep)
    };
    RenderedSignature {
        signature: CppForeignMethodSignature {
            output: foreign_type(name, "i32"),
            input: (0..args).map(|_| foreign_type("int32_t", "i32")).collect(),
        },
        c_args_with_types: Ok(list(", ", "int32_t c")),
        cpp_args_with_types: Ok(list(", ", "int32_t p")),
        cpp_args_for_c: Ok(list(", ", "p")),
        rust_args_with_types: Ok(list(", ", "a_x: i32, r")),
        args_names: list(", ", "a_"),
        c_ret_type: "i32".to_string(),
    }
}

fn job(methods: Vec<ForeignerMethod>, methods_sign: Vec<RenderedSignature>) -> ClassJob {
    ClassJob {
        class: ForeignerClassInfo {
            name: "Foo".to_string(),
            c_class_type: "FooOpaque".to_string(),
            cpp_header_name: "Foo.hpp".to_string(),
            doc_comments: "// the class\n".to_string(),
            copy_derived: false,
            has_constructor_ret_type: true,
            methods,
            foreigner_code: "    // own code".to_string(),
        },
        methods_sign,
        namespace_name: "org".to_string(),
        target_pointer_width: 64,
        separate_impl_headers: false,
        req_includes: vec!["\"rust_str.hpp\"".to_string(), "<vector>".to_string()],
        from_var_template: "{from_var}".to_string(),
        to_var_template: "{to_var}".to_string(),
    }
}

/// A class with a method of every kind.
fn full_job() -> ClassJob {
    let mut dummy = method(MethodVariant::Constructor, MethodAccess::Private, "empty");
    dummy.dummy_constructor = true;
    let mut converted = signature("struct CPoint", 2);
    converted.signature.output.cpp_converter = Some(CppConverter {
        typename: "struct Point".to_string(),
        converter: "Point{{from_var}.x, {from_var}.y}".to_string(),
    });
    job(
        vec![
            method(MethodVariant::Constructor, MethodAccess::Public, "new"),
            dummy,
            method(MethodVariant::StaticMethod, MethodAccess::Private, "count"),
            method(MethodVariant::StaticMethod, MethodAccess::Protected, "reset"),
            method(MethodVariant::Method { read_only: true }, MethodAccess::Public, "get"),
            method(MethodVariant::Method { read_only: false }, MethodAccess::Public, "set"),
            method(MethodVariant::Method { read_only: false }, MethodAccess::Public, "pos"),
            method(MethodVariant::Method { read_only: true }, MethodAccess::Public, "clone"),
        ],
        vec![
            signature("", 1),
            signature("", 0),
            signature("int32_t", 0),
            signature("void", 1),
            signature("int32_t", 0),
            signature("void", 2),
            converted,
            signature("FooOpaque *", 0),
        ],
    )
}

/// The files of a class, written the plain way.
fn expected_files(job: &ClassJob) -> Vec<(String, String)> {
    let class = &job.class;
    let namespace = &job.namespace_name;
    let class_name = format!("{}Wrapper", class.name);
    let mut includes = String::new();
    for inc in &job.req_includes {
        includes.push_str(&format!("#include {}\n", inc));
    }
    let mut c = format!(
        r##"// Automaticaly generated by rust_swig
{doc_comments}
#pragma once

//for (u)intX_t types
#include <stdint.h>

#ifdef __cplusplus
static_assert(sizeof(uintptr_t) == sizeof(uint8_t) * {sizeof_usize},
   "our conversation usize <-> uintptr_t is wrong");
extern "C" {{
#endif

    typedef struct {c_class_type} {c_class_type};

"##,
        doc_comments = class.doc_comments,
        c_class_type = class.c_class_type,
        sizeof_usize = job.target_pointer_width / 8,
    );
    let mut cpp = format!(
        r##"// Automaticaly generated by rust_swig
#pragma once

//for std::abort
#include <cstdlib>
//for std::move
#include <utility>
//for std::conditional
#include <type_traits>

{includes}
#include "c_{class_dot_name}.h"

namespace {namespace} {{

template<bool>
class {class_name};
using {class_dot_name} = {class_name}<true>;
using {class_dot_name}Ref = {class_name}<false>;

{doc_comments}
template<bool OWN_DATA>
class {class_name} {{
public:
    using SelfType = typename std::conditional<OWN_DATA, {c_class_type} *, const {c_class_type} *>::type;
    using CForeignType = {c_class_type};
    using value_type = {class_name}<true>;
    friend class {class_name}<true>;
    friend class {class_name}<false>;

    {class_name}({class_name} &&o) noexcept: self_(o.self_)
    {{
        o.self_ = nullptr;
    }}
    {class_name} &operator=({class_name} &&o) noexcept
    {{
        assert(this != &o);
        free_mem(this->self_);
        self_ = o.self_;
        o.self_ = nullptr;
        return *this;
    }}
    explicit {class_name}(SelfType o) noexcept: self_(o) {{}}
    {c_class_type} *release() noexcept
    {{
        {c_class_type} *ret = self_;
        self_ = nullptr;
        return ret;
    }}
    explicit operator SelfType() const noexcept {{ return self_; }}
    {class_name}<false> as_rref() const noexcept {{ return {class_name}<false>{{ self_ }}; }}
    const {class_name}<true> &as_cref() const noexcept {{ return reinterpret_cast<const {class_name}<true> &>(*this); }}
"##,
        c_class_type = class.c_class_type,
        class_name = class_name,
        class_dot_name = class.name,
        includes = includes,
        doc_comments = class.doc_comments,
        namespace = namespace,
    );
    if class.copy_derived {
        let pos = class
            .methods
            .iter()
            .position(|m| m.rust_id.segments.last().map(|s| s == "clone").unwrap_or(false))
            .unwrap();
        cpp.push_str(&format!(
            r##"
            {class_name}(const {class_name}& o) noexcept {{
                static_assert(OWN_DATA, "copy possible only if class own data");

                 if (o.self_ != nullptr) {{
                     self_ = {c_clone_func}(o.self_);
                 }} else {{
                     self_ = nullptr;
                 }}
            }}
            {class_name} &operator=(const {class_name}& o) noexcept {{
                static_assert(OWN_DATA, "copy possible only if class own data");
                if (this != &o) {{
                    free_mem(this->self_);
                    if (o.self_ != nullptr) {{
                        self_ = {c_clone_func}(o.self_);
                    }} else {{
                        self_ = nullptr;
                    }}
                }}
                return *this;
            }}
        "##,
            c_clone_func = class.methods[pos].c_func_name,
            class_name = class_name
        ));
    } else {
        cpp.push_str(&format!(
            r##"
    {class_name}(const {class_name}&) = delete;
    {class_name} &operator=(const {class_name}&) = delete;
"##,
            class_name = class_name
        ));
    }
    let mut last_access = "public";
    let mut need_destructor = false;
    let mut inline_impl = String::new();
    for (method, sign) in class.methods.iter().zip(&job.methods_sign) {
        c.push_str(&method.doc_comments);
        let access = match method.access {
            MethodAccess::Private => "private",
            MethodAccess::Public => "public",
            MethodAccess::Protected => "protected",
        };
        if access != last_access {
            cpp.push_str(&format!("{}:\n", access));
        }
        last_access = access;
        cpp.push_str(&method.doc_comments);
        let c_args = sign.c_args_with_types.as_ref().unwrap();
        let comma_c_args =
            if c_args.is_empty() { String::new() } else { format!(", {}", c_args) };
        let cpp_args_with_types = sign.cpp_args_with_types.as_ref().unwrap();
        let cpp_args_for_c = sign.cpp_args_for_c.as_ref().unwrap();
        let output = &sign.signature.output;
        let (cpp_ret_type, convert_ret_for_cpp) = match output.cpp_converter {
            Some(ref c) => (c.typename.clone(), c.converter.replace("{from_var}", "ret")),
            None => (output.base.name.clone(), "ret".to_string()),
        };
        let cpp_ret_type = cpp_ret_type.replace("struct", "");
        let method_name = &method.short_name;
        let c_func_name = &method.c_func_name;
        match method.variant {
            MethodVariant::StaticMethod => {
                c.push_str(&format!(
                    r##"
    {ret_type} {c_func_name}({args_with_types});
"##,
                    ret_type = output.base.name,
                    c_func_name = c_func_name,
                    args_with_types = c_args,
                ));
                if output.base.name != "void" {
                    cpp.push_str(&format!(
                        r##"
    static {cpp_ret_type} {method_name}({cpp_args_with_types}) noexcept;
"##,
                        method_name = method_name,
                        cpp_ret_type = cpp_ret_type,
                        cpp_args_with_types = cpp_args_with_types,
                    ));
                    inline_impl.push_str(&format!(
                        r##"
    template<bool OWN_DATA>
    inline {cpp_ret_type} {class_name}<OWN_DATA>::{method_name}({cpp_args_with_types}) noexcept
    {{
        {c_ret_type} ret = {c_func_name}({cpp_args_for_c});
        return {convert_ret_for_cpp};
    }}
"##,
                        c_ret_type = output.base.name,
                        convert_ret_for_cpp = convert_ret_for_cpp,
                        cpp_args_for_c = cpp_args_for_c,
                        c_func_name = c_func_name,
                        cpp_ret_type = cpp_ret_type,
                        class_name = class_name,
                        method_name = method_name,
                        cpp_args_with_types = cpp_args_with_types,
                    ));
                } else {
                    cpp.push_str(&format!(
                        r##"
    static void {method_name}({cpp_args_with_types}) noexcept;
"##,
                        method_name = method_name,
                        cpp_args_with_types = cpp_args_with_types,
                    ));
                    inline_impl.push_str(&format!(
                        r##"
    template<bool OWN_DATA>
    inline void {class_name}<OWN_DATA>::{method_name}({cpp_args_with_types}) noexcept
    {{
        {c_func_name}({cpp_args_for_c});
    }}
"##,
                        cpp_args_with_types = cpp_args_with_types,
                        class_name = class_name,
                        method_name = method_name,
                        c_func_name = c_func_name,
                        cpp_args_for_c = cpp_args_for_c,
                    ));
                }
            }
            MethodVariant::Method { read_only } => {
                let const_if_readonly = if read_only { "const " } else { "" };
                c.push_str(&format!(
                    r##"
    {ret_type} {func_name}({const_if_readonly}{c_class_type} * const self{args_with_types});
"##,
                    ret_type = output.base.name,
                    c_class_type = class.c_class_type,
                    func_name = c_func_name,
                    args_with_types = comma_c_args,
                    const_if_readonly = const_if_readonly,
                ));
                let comma_args_for_c = if sign.args_names.is_empty() {
                    String::new()
                } else {
                    format!(", {}", cpp_args_for_c)
                };
                if output.base.name != "void" {
                    cpp.push_str(&format!(
                        r##"
    {cpp_ret_type} {method_name}({cpp_args_with_types}) {const_if_readonly} noexcept;
"##,
                        method_name = method_name,
                        cpp_ret_type = cpp_ret_type,
                        cpp_args_with_types = cpp_args_with_types,
                        const_if_readonly = const_if_readonly,
                    ));
                    inline_impl.push_str(&format!(
                        r##"
    template<bool OWN_DATA>
    inline {cpp_ret_type} {class_name}<OWN_DATA>::{method_name}({cpp_args_with_types}) {const_if_readonly} noexcept
    {{
        {c_ret_type} ret = {c_func_name}(this->self_{cpp_args_for_c});
        return {convert_ret_for_cpp};
    }}
"##,
                        method_name = method_name,
                        convert_ret_for_cpp = convert_ret_for_cpp,
                        c_ret_type = output.base.name,
                        class_name = class_name,
                        cpp_ret_type = cpp_ret_type,
                        c_func_name = c_func_name,
                        cpp_args_with_types = cpp_args_with_types,
                        cpp_args_for_c = comma_args_for_c,
                        const_if_readonly = const_if_readonly,
                    ));
                } else {
                    cpp.push_str(&format!(
                        r##"
    void {method_name}({cpp_args_with_types}) {const_if_readonly} noexcept;
"##,
                        method_name = method_name,
                        cpp_args_with_types = cpp_args_with_types,
                        const_if_readonly = const_if_readonly,
                    ));
                    inline_impl.push_str(&format!(
                        r##"
    template<bool OWN_DATA>
    inline void {class_name}<OWN_DATA>::{method_name}({cpp_args_with_types}) {const_if_readonly} noexcept
    {{
        {c_func_name}(this->self_{cpp_args_for_c});
    }}
"##,
                        method_name = method_name,
                        c_func_name = c_func_name,
                        class_name = class_name,
                        cpp_args_with_types = cpp_args_with_types,
                        cpp_args_for_c = comma_args_for_c,
                        const_if_readonly = const_if_readonly,
                    ));
                }
            }
            MethodVariant::Constructor => {
                need_destructor = true;
                if method.dummy_constructor {
                    cpp.push_str(&format!(
                        r##"
    {class_name}() noexcept {{}}
"##,
                        class_name = class_name,
                    ));
                } else {
                    c.push_str(&format!(
                        r##"
    {c_class_type} *{func_name}({args_with_types});
"##,
                        c_class_type = class.c_class_type,
                        func_name = c_func_name,
                        args_with_types = c_args,
                    ));
                    cpp.push_str(&format!(
                        r##"
    {class_name}({cpp_args_with_types}) noexcept
    {{
        this->self_ = {c_func_name}({cpp_args_for_c});
        if (this->self_ == nullptr) {{
            std::abort();
        }}
    }}
"##,
                        c_func_name = c_func_name,
                        cpp_args_with_types = cpp_args_with_types,
                        class_name = class_name,
                        cpp_args_for_c = cpp_args_for_c,
                    ));
                }
            }
        }
    }
    if need_destructor {
        let c_destructor_name = format!("{}_delete", class.name);
        c.push_str(&format!(
            r##"
    void {c_destructor_name}(const {c_class_type} *self);
"##,
            c_class_type = class.c_class_type,
            c_destructor_name = c_destructor_name,
        ));
        cpp.push_str(&format!(
            r##"
private:
   static void free_mem(SelfType &p) noexcept
   {{
        if (OWN_DATA && p != nullptr) {{
            {c_destructor_name}(p);
        }}
        p = nullptr;
   }}
public:
    ~{class_name}() noexcept
    {{
        free_mem(this->self_);
    }}
"##,
            c_destructor_name = c_destructor_name,
            class_name = class_name,
        ));
    } else {
        cpp.push_str(&format!(
            r##"
private:
   static void free_mem(SelfType &) noexcept
   {{
   }}
"##,
        ));
    }
    c.push_str(&format!(
        r##"
#ifdef __cplusplus
}}
#endif

"##
    ));
    cpp.push_str(&format!(
        r##"
{foreigner_code}
private:
    SelfType self_;
}};
"##,
        foreigner_code = class.foreigner_code,
    ));
    let impls = format!(
        r##"
{inline_impl}
}} // namespace {namespace}
"##,
        namespace = namespace,
        inline_impl = inline_impl,
    );
    let mut files = Vec::new();
    if job.separate_impl_headers {
        cpp.push_str(&format!(
            r##"

}} // namespace {namespace}
"##,
            namespace = namespace
        ));
        let head = format!(
            r##"// Automaticaly generated by rust_swig
#pragma once

#include "{class_name}.hpp"

namespace {namespace} {{
"##,
            class_name = class.name,
            namespace = namespace,
        );
        files.push((format!("{}_impl.hpp", class.name), head + &impls));
    } else {
        cpp.push_str(&impls);
    }
    let fwd = format!(
        r##"// Automaticaly generated by rust_swig
#pragma once

namespace {namespace} {{
template<bool>
class {base_class_name};
using {class_name} = {base_class_name}<true>;
using {class_name}Ref = {base_class_name}<false>;
}} // namespace {namespace}
"##,
        namespace = namespace,
        class_name = class.name,
        base_class_name = class_name
    );
    files.push((format!("{}_fwd.hpp", class.name), fwd));
    files.push((format!("c_{}.h", class.name), c));
    files.push((class.cpp_header_name.clone(), cpp));
    files
}

fn tokens(code: &str) -> TokenStream {
    syn::parse_str(code).unwrap()
}

fn converted(word: &str) -> Converted {
    Converted { deps: vec![tokens(&format!("fn {}_dep() {{}}", word))], code: format!("    {}();", word) }
}

fn converted_this(word: &str) -> ConvertedThis {
    ConvertedThis {
        from_type: format!("{}From", word),
        deps: vec![tokens(&format!("fn {}_dep() {{}}", word))],
        code: format!("    {}();", word),
    }
}

fn this_type() -> ThisType {
    ThisType {
        heap_type: "RefCell<Foo>".to_string(),
        box_code: "    let this = Box::new(this);".to_string(),
        lifetimes: vec!["'a".to_string(), "'b".to_string()],
        unpack_code: "    let {to_var} = unpack({to_var});".to_string(),
        type_text: "Foo".to_string(),
    }
}

fn answer_to(stage: Stage) -> Answer {
    match stage {
        Stage::UnitType => Answer::UnitType { name: "()".to_string() },
        Stage::ThisType => Answer::ThisType(this_type()),
        Stage::StaticOutput(i) | Stage::MethodOutput(i) => {
            Answer::Output(converted(&format!("out{}", i)))
        }
        Stage::StaticInputs(i) | Stage::MethodInputs(i) | Stage::ConstructorInputs(i) => {
            Answer::Inputs(converted(&format!("in{}", i)))
        }
        Stage::MethodThis(i) | Stage::ConstructorThis(i) => {
            Answer::This(converted_this(&format!("this{}", i)))
        }
        Stage::ConstructorType(_) => Answer::ConstructorType { name: "Foo".to_string() },
        Stage::Destructor => {
            Answer::Destructor { unpack_code: "    let this = unpack(this);".to_string() }
        }
        Stage::Done => panic!("nothing is asked"),
    }
}

/// Runs a generation, answering `answer_to` unless `other` has an answer.
fn run(
    job: &ClassJob,
    other: fn(Stage) -> Option<Answer>,
) -> Result<(GeneratedClass, Vec<Stage>), GenerateError> {
    let mut generation = generate(job)?;
    let mut stages = Vec::new();
    while generation.stage() != Stage::Done {
        let stage = generation.stage();
        stages.push(stage);
        let reply: Result<Answer, String> = Ok(other(stage).unwrap_or_else(|| answer_to(stage)));
        generation = match generation.answer(reply) {
            Ok(after) => after,
            Err(Stop::Refused(e)) => return Err(e),
            Err(Stop::Unanswered(reason)) => panic!("{}", reason),
        };
    }
    Ok((generation.finish(), stages))
}

fn plain(_: Stage) -> Option<Answer> {
    None
}

fn files_of(generated: &GeneratedClass) -> Vec<(String, String)> {
    generated.files.iter().map(|f| (f.name.clone(), f.text.clone())).collect()
}

fn diagnostic(res: Result<(GeneratedClass, Vec<Stage>), GenerateError>) -> String {
    match res {
        Err(GenerateError::Diagnostic { message }) => message,
        Err(GenerateError::Unparsable { what, .. }) => panic!("cannot parse {}", what),
        Ok(_) => panic!("not refused"),
    }
}

fn unparsable(res: Result<(GeneratedClass, Vec<Stage>), GenerateError>) -> (String, String) {
    match res {
        Err(GenerateError::Unparsable { what, code, .. }) => (what, code),
        Err(GenerateError::Diagnostic { message }) => panic!("refused: {}", message),
        Ok(_) => panic!("parsed"),
    }
}

#[test]
fn full_class_in_one_header() {
    let job = full_job();
    let (generated, _) = run(&job, plain).ok().unwrap();
    let files = files_of(&generated);
    let names: Vec<&str> = files.iter().map(|f| f.0.as_str()).collect();
    assert_eq!(names, ["Foo_fwd.hpp", "c_Foo.h", "Foo.hpp"]);
    assert_eq!(files, expected_files(&job));
}

#[test]
fn full_class_with_separate_definitions() {
    let mut job = full_job();
    job.separate_impl_headers = true;
    let (generated, _) = run(&job, plain).ok().unwrap();
    let files = files_of(&generated);
    let names: Vec<&str> = files.iter().map(|f| f.0.as_str()).collect();
    assert_eq!(names, ["Foo_impl.hpp", "Foo_fwd.hpp", "c_Foo.h", "Foo.hpp"]);
    assert_eq!(files, expected_files(&job));
}

#[test]
fn layout_moves_only_the_definitions() {
    let together = run(&full_job(), plain).ok().unwrap().0;
    let mut job = full_job();
    job.separate_impl_headers = true;
    let apart = run(&job, plain).ok().unwrap().0;
    assert_eq!(together.files[0].text, apart.files[1].text);
    assert_eq!(together.files[1].text, apart.files[2].text);
    let definitions = apart.files[0].text.split("namespace org {\n").nth(1).unwrap();
    assert!(together.files[2].text.ends_with(definitions));
    assert!(!apart.files[3].text.contains("inline"));
    let codes = |c: &GeneratedClass| c.code.iter().map(|t| t.to_string()).collect::<Vec<_>>();
    assert_eq!(codes(&together), codes(&apart));
}

#[test]
fn copyable_class_uses_its_first_clone() {
    let mut job = full_job();
    job.class.copy_derived = true;
    job.class.methods[5].rust_id.segments = vec!["Clone".to_string(), "clone".to_string()];
    let files = files_of(&run(&job, plain).ok().unwrap().0);
    assert_eq!(files, expected_files(&job));
    assert!(files[2].1.contains("self_ = Foo_set(o.self_);"));
    assert!(!files[2].1.contains("self_ = Foo_clone(o.self_);"));
}

#[test]
fn class_without_constructors_has_no_destructor() {
    let mut job = job(
        vec![method(MethodVariant::Method { read_only: true }, MethodAccess::Public, "get")],
        vec![signature("int32_t", 1)],
    );
    job.class.has_constructor_ret_type = false;
    let (generated, stages) = run(&job, plain).ok().unwrap();
    assert_eq!(
        stages,
        [Stage::UnitType, Stage::MethodInputs(0), Stage::MethodOutput(0), Stage::MethodThis(0)]
    );
    let files = files_of(&generated);
    assert_eq!(files, expected_files(&job));
    assert!(files[2].1.contains("static void free_mem(SelfType &) noexcept"));
    assert!(!files[1].1.contains("_delete"));
    // the object stands behind a pointer to the unit type
    let code = generated.code.last().unwrap().to_string();
    assert!(code.contains("this : * mut ( )"), "{}", code);
}

#[test]
fn class_without_methods() {
    let job = job(vec![], vec![]);
    let (generated, stages) = run(&job, plain).ok().unwrap();
    assert_eq!(stages, [Stage::UnitType, Stage::ThisType]);
    assert_eq!(files_of(&generated), expected_files(&job));
    assert_eq!(generated.code.len(), 1);
}

#[test]
fn spare_signatures_and_methods_are_left_out() {
    let mut more_signatures = full_job();
    more_signatures.methods_sign.push(signature("void", 3));
    assert_eq!(
        files_of(&run(&more_signatures, plain).ok().unwrap().0),
        expected_files(&full_job())
    );
    let mut fewer_signatures = full_job();
    fewer_signatures.methods_sign.truncate(3);
    let (generated, stages) = run(&fewer_signatures, plain).ok().unwrap();
    assert_eq!(files_of(&generated), expected_files(&fewer_signatures));
    assert!(!stages.contains(&Stage::StaticOutput(3)));
}

#[test]
fn stages_follow_the_methods() {
    let (_, stages) = run(&full_job(), plain).ok().unwrap();
    assert_eq!(
        stages,
        [
            Stage::UnitType,
            Stage::ThisType,
            Stage::ConstructorType(0),
            Stage::ConstructorInputs(0),
            Stage::ConstructorThis(0),
            Stage::StaticOutput(2),
            Stage::StaticInputs(2),
            Stage::StaticOutput(3),
            Stage::StaticInputs(3),
            Stage::MethodInputs(4),
            Stage::MethodOutput(4),
            Stage::MethodThis(4),
            Stage::MethodInputs(5),
            Stage::MethodOutput(5),
            Stage::MethodThis(5),
            Stage::MethodInputs(6),
            Stage::MethodOutput(6),
            Stage::MethodThis(6),
            Stage::MethodInputs(7),
            Stage::MethodOutput(7),
            Stage::MethodThis(7),
            Stage::Destructor,
        ]
    );
}

#[test]
fn access_labels_mark_changes() {
    let files = files_of(&run(&full_job(), plain).ok().unwrap().0);
    let body = files[2].1.split("reinterpret_cast").nth(1).unwrap();
    let labels: Vec<&str> = body
        .lines()
        .filter(|l| matches!(*l, "public:" | "private:" | "protected:"))
        .collect();
    assert_eq!(
        labels,
        ["private:", "protected:", "public:", "private:", "public:", "private:"]
    );
}

#[test]
fn questions_say_what_is_asked() {
    let job = full_job();
    let mut generation = generate(&job).ok().unwrap();
    let mut conversions = Vec::new();
    while generation.stage() != Stage::Done {
        let stage = generation.stage();
        match generation.question() {
            Question::UnitType => assert_eq!(stage, Stage::UnitType),
            Question::ThisType { class_trait, box_var, unpacking } => {
                assert_eq!(stage, Stage::ThisType);
                assert_eq!(class_trait, "SwigForeignClass");
                assert_eq!(box_var, "this");
                assert_eq!(unpacking.var, "{to_var}");
                assert!(unpacking.unbox);
            }
            Question::Conversion(c) => {
                conversions.push((c.method, c.kind, c.vars.join(","), c.ret_type))
            }
            Question::ConstructorType { method } => {
                assert_eq!(stage, Stage::ConstructorType(method))
            }
            Question::Destructor(unpacking) => {
                assert_eq!(stage, Stage::Destructor);
                assert_eq!(unpacking.var, "this");
                assert!(!unpacking.unbox);
            }
            Question::Nothing => panic!("nothing is asked at {:?}", stage),
        }
        let reply: Result<Answer, String> = Ok(answer_to(stage));
        generation = generation.answer(reply).ok().unwrap();
    }
    assert!(matches!(generation.question(), Question::Nothing));
    let of_method = |i: usize| -> Vec<(ConversionKind, &str, &str)> {
        conversions
            .iter()
            .filter(|c| c.0 == i)
            .map(|c| (c.1, c.2.as_str(), c.3.as_str()))
            .collect()
    };
    let constructed =
        ConversionKind::This { from: ObjectType::Constructed, to: ObjectType::Constructed };
    let object = ConversionKind::This { from: ObjectType::Held, to: ObjectType::Own };
    assert_eq!(
        of_method(0),
        [(ConversionKind::Inputs, "a_0", "Foo"), (constructed, "this", "Foo")]
    );
    assert!(of_method(1).is_empty());
    assert_eq!(
        of_method(3),
        [(ConversionKind::Output, "ret", "i32"), (ConversionKind::Inputs, "a_0", "i32")]
    );
    assert_eq!(
        of_method(5),
        [
            (ConversionKind::Inputs, "a_0,a_1", "i32"),
            (ConversionKind::Output, "ret", "i32"),
            (object, "this", "i32"),
        ]
    );
}

#[test]
fn unanswered_question_ends_the_generation() {
    let job = full_job();
    let all = run(&job, plain).ok().unwrap().1;
    for last in 0..all.len() {
        let mut generation = generate(&job).ok().unwrap();
        let mut asked = Vec::new();
        let reason = loop {
            let stage = generation.stage();
            asked.push(stage);
            let reply = if stage == all[last] { Err("no way") } else { Ok(answer_to(stage)) };
            generation = match generation.answer(reply) {
                Ok(after) => after,
                Err(Stop::Unanswered(reason)) => break reason,
                Err(Stop::Refused(_)) => panic!("the class is sound"),
            };
        };
        assert_eq!(reason, "no way");
        assert_eq!(asked, &all[..=last]);
    }
}

#[test]
fn renaming_changes_only_the_name() {
    let first = method(MethodVariant::StaticMethod, MethodAccess::Public, "count");
    let mut second = method(MethodVariant::StaticMethod, MethodAccess::Public, "count");
    let sign = signature("int32_t", 0);
    let code = |method: &ForeignerMethod| -> Vec<String> {
        let mc = MethodContext {
            method,
            f_method: &sign,
            decl_func_args: "a: i32",
            real_output_typename: "i32",
        };
        generate_static_method(&mc, converted("out"), converted("in"))
            .iter()
            .map(|t| t.to_string())
            .collect()
    };
    let before = code(&first);
    assert_eq!(before.len(), 3);
    for name in ["B", "r", "b", "br", "_", "r2d2", "fn_"] {
        second.c_func_name = name.to_string();
        let after = code(&second);
        assert_eq!(after[..2], before[..2]);
        let parts: Vec<&str> = before[2].split("Foo_count").collect();
        assert_eq!(parts.len(), 2);
        assert_eq!(after[2], format!("{}{}{}", parts[0], name, parts[1]));
    }
}

#[test]
fn unparsable_static_method_gives_no_tokens() {
    let method = method(MethodVariant::StaticMethod, MethodAccess::Public, "count");
    let sign = signature("int32_t", 0);
    let mc = MethodContext {
        method: &method,
        f_method: &sign,
        decl_func_args: "(",
        real_output_typename: "i32",
    };
    match try_generate_static_method(&mc, converted("out"), converted("in")) {
        Err(GenerateError::Unparsable { what, .. }) => {
            assert_eq!(what, "cpp internal static method")
        }
        _ => panic!("parsed"),
    }
}

/// The printed tokens of `code`.
fn printed(code: &str) -> String {
    tokens(code).to_string()
}

#[test]
fn code_stands_behind_what_it_depends_on() {
    let (generated, _) = run(&full_job(), plain).ok().unwrap();
    let code: Vec<String> = generated.code.iter().map(|t| t.to_string()).collect();
    let dep = |word: &str| printed(&format!("fn {}_dep() {{}}", word));
    let class_impl = printed(&format!(
        r##"impl<{lifetimes}> SwigForeignClass for {class_name} {{
    fn c_class_name() -> *const ::std::os::raw::c_char {{
        swig_c_str!("{class_name}")
    }}
    fn box_object(this: Self) -> *mut ::std::os::raw::c_void {{
{code_box_this}
        this as *mut ::std::os::raw::c_void
    }}
    fn unbox_object(p: *mut ::std::os::raw::c_void) -> Self {{
        let p = p as *mut {this_type_for_method};
{unpack_code}
       p
    }}
}}"##,
        lifetimes = "'a,'b",
        class_name = "Foo",
        code_box_this = "    let this = Box::new(this);",
        unpack_code = "    let p = unpack(p);",
        this_type_for_method = "RefCell<Foo>"
    ));
    let constructor = printed(&format!(
        r##"
#[no_mangle]
#[allow(unused_variables, unused_mut, non_snake_case)]
pub extern "C" fn {func_name}({decl_func_args}) -> *const ::std::os::raw::c_void {{
{convert_input_code}
    let this: {real_output_typename} = {rust_func_name}({args_names});
{convert_this}
{box_this}
    this as *const ::std::os::raw::c_void
}}
"##,
        func_name = "Foo_new",
        convert_this = "    this0();",
        decl_func_args = "a_x: i32, r0",
        convert_input_code = "    in0();",
        rust_func_name = "Foo :: new",
        args_names = "a_0",
        box_this = "    let this = Box::new(this);",
        real_output_typename = "this0From",
    ));
    let count = printed(&format!(
        r##"
#[allow(non_snake_case, unused_variables, unused_mut)]
#[no_mangle]
pub extern "C" fn {func_name}({decl_func_args}) -> {c_ret_type} {{
{convert_input_code}
    let mut ret: {real_output_typename} = {rust_func_name}({args_names});
{convert_output_code}
    ret
}}
"##,
        func_name = "Foo_count",
        decl_func_args = "",
        c_ret_type = "i32",
        convert_input_code = "    in2();",
        rust_func_name = "Foo :: count",
        args_names = "",
        convert_output_code = "    out2();",
        real_output_typename = "()",
    ));
    let set = printed(&format!(
        r##"
#[allow(non_snake_case, unused_variables, unused_mut)]
#[no_mangle]
pub extern "C" fn {func_name}(this: *mut {this_type}, {decl_func_args}) -> {c_ret_type} {{
{convert_input_code}
    let this: {this_type_ref} = unsafe {{
        this.as_mut().unwrap()
    }};
{convert_this}
    let mut ret: {real_output_typename} = {rust_func_name}(this, {args_names});
{convert_output_code}
    ret
}}
"##,
        func_name = "Foo_set",
        decl_func_args = "a_x: i32, r0, a_x: i32, r1",
        convert_input_code = "    in5();",
        c_ret_type = "i32",
        this_type_ref = "this5From",
        this_type = "RefCell<Foo>",
        convert_this = "    this5();",
        rust_func_name = "Foo :: set",
        args_names = "a_0, a_1",
        convert_output_code = "    out5();",
        real_output_typename = "()",
    ));
    let destructor = printed(&format!(
        r##"
#[allow(unused_variables, unused_mut, non_snake_case)]
#[no_mangle]
pub extern "C" fn {c_destructor_name}(this: *mut {this_type}) {{
{unpack_code}
    drop(this);
}}
"##,
        c_destructor_name = "Foo_delete",
        unpack_code = "    let this = unpack(this);",
        this_type = "RefCell<Foo>",
    ));
    assert_eq!(code[0], class_impl);
    assert_eq!(&code[1..4], [dep("in0"), dep("this0"), constructor]);
    assert_eq!(&code[4..7], [dep("in2"), dep("out2"), count]);
    assert_eq!(&code[7..9], [dep("in3"), dep("out3")]);
    assert_eq!(&code[14..18], [dep("in5"), dep("out5"), dep("this5"), set]);
    assert_eq!(code.len(), 27);
    assert_eq!(*code.last().unwrap(), destructor);
}

#[test]
fn declared_result_is_the_type_of_the_call() {
    let mut method = method(MethodVariant::StaticMethod, MethodAccess::Public, "count");
    method.output = ReturnType::Type("Vec<u8>".to_string());
    let job = job(vec![method], vec![signature("int32_t", 0)]);
    let (generated, _) = run(&job, plain).ok().unwrap();
    let code = generated.code.last().unwrap().to_string();
    assert!(code.contains("let mut ret : Vec < u8 > = Foo :: count ( )"), "{}", code);
}

#[test]
fn linked_names_agree() {
    let (generated, _) = run(&full_job(), plain).ok().unwrap();
    let files = files_of(&generated);
    let code: String =
        generated.code.iter().map(|t| t.to_string()).collect::<Vec<_>>().join("\n");
    for name in
        ["Foo_new", "Foo_count", "Foo_reset", "Foo_get", "Foo_set", "Foo_pos", "Foo_clone", "Foo_delete"]
    {
        assert!(files[1].1.contains(&format!("{}(", name)), "{}", name);
        assert!(files[2].1.contains(&format!("{}(", name)), "{}", name);
        assert!(code.contains(&format!("fn {} (", name)), "{}", name);
    }
    assert!(!files[1].1.contains("Foo_empty"));
}

#[test]
fn copy_without_clone_is_refused() {
    let mut job = full_job();
    job.class.copy_derived = true;
    job.class.methods[7].rust_id.segments = vec!["clone".to_string(), "copy".to_string()];
    job.class.methods[6].rust_id.segments = vec![];
    assert_eq!(
        diagnostic(run(&job, plain)),
        "Class Foo (namespace org) has derived Copy attribute, but no clone method"
    );
}

const NO_CONSTRUCTOR: &str = "Class Foo (namespace org) has methods, but there is no constructor\n
May be you need to use `private constructor = empty;` syntax?";

#[test]
fn constructor_without_a_type_is_refused() {
    let mut job = full_job();
    job.class.has_constructor_ret_type = false;
    assert_eq!(diagnostic(run(&job, plain)), NO_CONSTRUCTOR);
}

#[test]
fn dummy_constructor_without_a_type_is_refused_at_the_end() {
    let mut job = full_job();
    job.class.has_constructor_ret_type = false;
    job.class.methods.remove(0);
    job.methods_sign.remove(0);
    assert_eq!(diagnostic(run(&job, plain)), NO_CONSTRUCTOR);
    job.methods_sign[6].rust_args_with_types = Err("first".to_string());
    assert_eq!(diagnostic(run(&job, plain)), "first");
}

#[test]
fn unwritten_lists_are_reported_in_their_order() {
    let mut job = full_job();
    job.methods_sign[4].rust_args_with_types = Err("rust".to_string());
    assert_eq!(diagnostic(run(&job, plain)), "rust");
    job.methods_sign[4].cpp_args_for_c = Err("call".to_string());
    assert_eq!(diagnostic(run(&job, plain)), "call");
    job.methods_sign[4].cpp_args_with_types = Err("cpp".to_string());
    assert_eq!(diagnostic(run(&job, plain)), "cpp");
    job.methods_sign[4].c_args_with_types = Err("c".to_string());
    assert_eq!(diagnostic(run(&job, plain)), "c");
    job.methods_sign[1].c_args_with_types = Err("dummy".to_string());
    assert_eq!(diagnostic(run(&job, plain)), "dummy");
}

#[test]
fn unparsable_code_is_named() {
    fn class_impl(stage: Stage) -> Option<Answer> {
        let mut this_type = this_type();
        this_type.unpack_code = "{".to_string();
        if stage == Stage::ThisType { Some(Answer::ThisType(this_type)) } else { None }
    }
    fn constructor(stage: Stage) -> Option<Answer> {
        match stage {
            Stage::ConstructorInputs(_) => {
                let mut inputs = converted("in");
                inputs.code = "(".to_string();
                Some(Answer::Inputs(inputs))
            }
            _ => None,
        }
    }
    fn static_method(stage: Stage) -> Option<Answer> {
        match stage {
            Stage::StaticOutput(_) => {
                let mut output = converted("out");
                output.code = "]".to_string();
                Some(Answer::Output(output))
            }
            _ => None,
        }
    }
    fn object_method(stage: Stage) -> Option<Answer> {
        match stage {
            Stage::MethodThis(_) => {
                let mut this = converted_this("this");
                this.code = "\"".to_string();
                Some(Answer::This(this))
            }
            _ => None,
        }
    }
    fn destructor(stage: Stage) -> Option<Answer> {
        match stage {
            Stage::Destructor => Some(Answer::Destructor { unpack_code: "}".to_string() }),
            _ => None,
        }
    }
    let job = full_job();
    assert_eq!(unparsable(run(&job, class_impl)).0, "internal foreign class impl code");
    assert_eq!(unparsable(run(&job, constructor)).0, "cpp internal constructor method");
    assert_eq!(unparsable(run(&job, static_method)).0, "cpp internal static method");
    assert_eq!(unparsable(run(&job, object_method)).0, "cpp internal method");
    let (what, code) = unparsable(run(&job, destructor));
    assert_eq!(what, "internal cpp desctructor code");
    assert_eq!(
        code,
        "\n#[allow(unused_variables, unused_mut, non_snake_case)]\n#[no_mangle]\npub extern \"C\" \
         fn Foo_delete(this: *mut RefCell<Foo>) {\n}\n    drop(this);\n}\n"
    );
}

#[test]
fn unparsable_code_comes_before_the_next_method() {
    fn constructor(stage: Stage) -> Option<Answer> {
        match stage {
            Stage::ConstructorInputs(_) => {
                let mut inputs = converted("in");
                inputs.code = "(".to_string();
                Some(Answer::Inputs(inputs))
            }
            _ => None,
        }
    }
    let mut job = full_job();
    job.methods_sign[1].c_args_with_types = Err("later".to_string());
    assert_eq!(unparsable(run(&job, constructor)).0, "cpp internal constructor method");
    assert_eq!(diagnostic(run(&job, plain)), "later");
}
