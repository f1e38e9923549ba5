//! What the C++ class declares and defines.

use crate::fragments::{closes, group_fragments, made_of, opens};
use crate::laws::{law_methods_are_written_in_order, mentions};
use crate::text::replaced;
use crate::types::{ClassJob, CppForeignTypeInfo, MethodAccess, MethodVariant};
use vstd::prelude::*;

verus! {

/// The name of a type in C++: the one that its converter gives or else the one in C, with
/// every `struct` taken out.
pub open spec fn shown_type(output: CppForeignTypeInfo) -> Seq<char> {
    match output.cpp_converter {
        Some(converter) => replaced(converter.typename@, "struct"@, ""@),
        None => replaced(output.base.name@, "struct"@, ""@),
    }
}

/// The word `const` exactly where a method cannot change its object.
pub open spec fn qualifier(variant: MethodVariant) -> Seq<char> {
    if variant == (MethodVariant::Method { read_only: true }) {
        "const "@
    } else {
        seq![]
    }
}

/// The C++ expression that is made of the C value `ret`: what the converter says of it, or
/// the value itself.
pub open spec fn converted_result(job: ClassJob, output: CppForeignTypeInfo) -> Seq<char> {
    match output.cpp_converter {
        Some(converter) => replaced(converter.converter@, job.from_var_template@, "ret"@),
        None => "ret"@,
    }
}

/// The words that put `access` in force.
pub open spec fn label(access: MethodAccess) -> Seq<char> {
    match access {
        MethodAccess::Private => "private:\n"@,
        MethodAccess::Public => "public:\n"@,
        MethodAccess::Protected => "protected:\n"@,
    }
}

/// The C++ header grows by one method at a time: by a label exactly where the access of
/// the method is not the one in force, by its documentation and by its declaration.
pub proof fn law_cpp_header_grows(job: ClassJob, i: int)
    requires
        0 <= i < job.paired(),
    ensures
        ({
            let method = job.class.methods@[i];
            let last = if i == 0 {
                MethodAccess::Public
            } else {
                job.class.methods@[i - 1].access
            };
            made_of(
                job.cpp_text(i + 1),
                job.cpp_text(i),
                (if method.access == last {
                    seq![]
                } else {
                    label(method.access)
                }) + method.doc_comments@ + job.cpp_declaration(i),
            )
        }),
        job.cpp_text(i + 1).is_prefix_of(job.cpp_header()),
        made_of(job.inline_text(i + 1), job.inline_text(i), job.inline_part(i)),
{
    broadcast use group_fragments;

    law_methods_are_written_in_order(job, i);
    assert("private"@ + ":\n"@ =~= "private:\n"@ && "public"@ + ":\n"@ =~= "public:\n"@ && "protected"@
        + ":\n"@ =~= "protected:\n"@) by {
        reveal_strlit("private");
        reveal_strlit("public");
        reveal_strlit("protected");
        reveal_strlit(":\n");
        reveal_strlit("private:\n");
        reveal_strlit("public:\n");
        reveal_strlit("protected:\n");
    }
}

/// A static method is declared `static`, with the result, the name and the arguments that
/// C++ sees; without a result where its C function has none.
pub proof fn law_cpp_declares_static_methods(job: ClassJob, i: int)
    requires
        0 <= i < job.paired(),
        job.class.methods@[i].variant is StaticMethod,
    ensures
        ({
            let output = job.methods_sign@[i].signature.output;
            let name = job.class.methods@[i].short_name@;
            let args = job.methods_sign@[i].cpp_args_with_types->Ok_0@;
            if output.base.name@ == "void"@ {
                made_of(
                    job.cpp_declaration(i),
                    "\n    static void "@ + name + "("@ + args,
                    ") noexcept;\n"@,
                )
            } else {
                made_of(
                    job.cpp_declaration(i),
                    "\n    static "@ + shown_type(output) + " "@ + name + "("@ + args,
                    ") noexcept;\n"@,
                )
            }
        }),
{
    broadcast use group_fragments;

}

/// A method of an object is declared with the result, the name and the arguments that C++
/// sees, without a result where its C function has none, and `const` exactly where it is
/// read only.
pub proof fn law_cpp_declares_methods(job: ClassJob, i: int)
    requires
        0 <= i < job.paired(),
        job.class.methods@[i].variant is Method,
    ensures
        ({
            let variant = job.class.methods@[i].variant;
            let output = job.methods_sign@[i].signature.output;
            let name = job.class.methods@[i].short_name@;
            let args = job.methods_sign@[i].cpp_args_with_types->Ok_0@;
            if output.base.name@ == "void"@ {
                made_of(
                    job.cpp_declaration(i),
                    "\n    void "@ + name + "("@ + args,
                    ") "@ + qualifier(variant) + " noexcept;\n"@,
                )
            } else {
                made_of(
                    job.cpp_declaration(i),
                    "\n    "@ + shown_type(output) + " "@ + name + "("@ + args,
                    ") "@ + qualifier(variant) + " noexcept;\n"@,
                )
            }
        }),
{
    broadcast use group_fragments;

}

/// The definition of a method of an object carries the same name, arguments and qualifier
/// as its declaration.
pub proof fn law_definitions_match_declarations(job: ClassJob, i: int)
    requires
        0 <= i < job.paired(),
        job.class.methods@[i].variant is Method,
    ensures
        ({
            let signature = job.class.methods@[i].short_name@ + "("@
                + job.methods_sign@[i].cpp_args_with_types->Ok_0@ + ") "@ + (
            if job.class.methods@[i].variant == (MethodVariant::Method { read_only: true }) {
                "const "@
            } else {
                seq![]
            }) + " noexcept"@;
            &&& mentions(job.cpp_declaration(i), signature)
            &&& mentions(job.inline_part(i), signature)
        }),
{
    broadcast use group_fragments;

    assert(opens(" noexcept;\n"@, " noexcept"@) && opens(
        " noexcept\n    {\n        "@,
        " noexcept"@,
    )) by {
        reveal_strlit(" noexcept;\n");
        reveal_strlit(" noexcept\n    {\n        ");
        reveal_strlit(" noexcept");
        assert(" noexcept;\n"@.subrange(0, 9) =~= " noexcept"@);
        assert(" noexcept\n    {\n        "@.subrange(0, 9) =~= " noexcept"@);
    }
}

/// A constructor calls its exported function with the arguments that C takes, keeps the
/// object, and gives up where there is none. A constructor without a Rust function does
/// nothing.
pub proof fn law_cpp_constructs(job: ClassJob, i: int)
    requires
        0 <= i < job.paired(),
        job.class.methods@[i].variant is Constructor,
    ensures
        ({
            let method = job.class.methods@[i];
            let sign = job.methods_sign@[i];
            let wrapper = job.class.name@ + "Wrapper"@;
            if method.dummy_constructor {
                made_of(job.cpp_declaration(i), "\n    "@ + wrapper, "() noexcept {}\n"@)
            } else {
                made_of(
                    job.cpp_declaration(i),
                    "\n    "@ + wrapper + "("@ + sign.cpp_args_with_types->Ok_0@,
                    ") noexcept\n    {\n        this->self_ = "@ + method.c_func_name@ + "("@
                        + sign.cpp_args_for_c->Ok_0@
                        + ");\n        if (this->self_ == nullptr) {\n            std::abort();\n        }\n    }\n"@,
                )
            }
        }),
        job.inline_part(i).len() == 0,
{
    broadcast use group_fragments;

}

/// The definition of a static method calls its exported function with the arguments that C
/// takes. Where the function has a result, the C value is kept, and what the converter
/// makes of it is returned.
pub proof fn law_cpp_defines_static_methods(job: ClassJob, i: int)
    requires
        0 <= i < job.paired(),
        job.class.methods@[i].variant is StaticMethod,
    ensures
        ({
            let output = job.methods_sign@[i].signature.output;
            let name = job.class.methods@[i].short_name@;
            let wrapper = job.class.name@ + "Wrapper"@;
            let args = job.methods_sign@[i].cpp_args_with_types->Ok_0@;
            let c_args = job.methods_sign@[i].cpp_args_for_c->Ok_0@;
            let func = job.class.methods@[i].c_func_name@;
            if output.base.name@ == "void"@ {
                made_of(
                    job.inline_part(i),
                    "\n    template<bool OWN_DATA>\n    inline void "@ + wrapper + "<OWN_DATA>::"@
                        + name + "("@ + args,
                    ") noexcept\n    {\n        "@ + func + "("@ + c_args + ");\n    }\n"@,
                )
            } else {
                made_of(
                    job.inline_part(i),
                    "\n    template<bool OWN_DATA>\n    inline "@ + shown_type(output) + " "@
                        + wrapper + "<OWN_DATA>::"@ + name + "("@ + args,
                    ") noexcept\n    {\n        "@ + output.base.name@ + " ret = "@ + func + "("@
                        + c_args + ");\n        return "@ + converted_result(job, output)
                        + ";\n    }\n"@,
                )
            }
        }),
{
    broadcast use group_fragments;

}

/// The definition of a method of an object calls its exported function with the object and
/// then the arguments that C takes, where there are any. Where the function has a result,
/// the C value is kept, and what the converter makes of it is returned.
pub proof fn law_cpp_defines_methods(job: ClassJob, i: int)
    requires
        0 <= i < job.paired(),
        job.class.methods@[i].variant is Method,
    ensures
        ({
            let variant = job.class.methods@[i].variant;
            let sign = job.methods_sign@[i];
            let output = sign.signature.output;
            let name = job.class.methods@[i].short_name@;
            let wrapper = job.class.name@ + "Wrapper"@;
            let args = sign.cpp_args_with_types->Ok_0@;
            let more = if sign.args_names@.len() == 0 {
                seq![]
            } else {
                ", "@ + sign.cpp_args_for_c->Ok_0@
            };
            let func = job.class.methods@[i].c_func_name@;
            if output.base.name@ == "void"@ {
                made_of(
                    job.inline_part(i),
                    "\n    template<bool OWN_DATA>\n    inline void "@ + wrapper + "<OWN_DATA>::"@
                        + name + "("@ + args,
                    ") "@ + qualifier(variant) + " noexcept\n    {\n        "@ + func
                        + "(this->self_"@ + more + ");\n    }\n"@,
                )
            } else {
                made_of(
                    job.inline_part(i),
                    "\n    template<bool OWN_DATA>\n    inline "@ + shown_type(output) + " "@
                        + wrapper + "<OWN_DATA>::"@ + name + "("@ + args,
                    ") "@ + qualifier(variant) + " noexcept\n    {\n        "@ + output.base.name@
                        + " ret = "@ + func + "(this->self_"@ + more + ");\n        return "@
                        + converted_result(job, output) + ";\n    }\n"@,
                )
            }
        }),
{
    broadcast use group_fragments;

}

/// A method with a result returns the value that its converter makes of the C value, be it
/// static or not.
pub proof fn law_results_are_converted(job: ClassJob, i: int)
    requires
        0 <= i < job.paired(),
        job.class.methods@[i].variant !is Constructor,
        job.methods_sign@[i].signature.output.base.name@ != "void"@,
        job.methods_sign@[i].signature.output.cpp_converter is Some,
    ensures
        closes(
            job.inline_part(i),
            ");\n        return "@ + replaced(
                job.methods_sign@[i].signature.output.cpp_converter->0.converter@,
                job.from_var_template@,
                "ret"@,
            ) + ";\n    }\n"@,
        ),
{
    broadcast use group_fragments;

}

/// Behind the methods, the C++ class frees its object through the exported destructor
/// exactly where one of the methods is a constructor; then come the code that the class
/// adds and the object.
pub proof fn law_cpp_class_ends(job: ClassJob)
    ensures
        ({
            let wrapper = job.class.name@ + "Wrapper"@;
            let end = "\n"@ + job.class.foreigner_code@ + "\nprivate:\n    SelfType self_;\n};\n"@;
            let methods = job.cpp_text(job.paired() as int);
            &&& (exists|i: int|
                0 <= i < job.paired() && #[trigger] job.class.methods@[i].variant is Constructor)
                ==> made_of(
                job.cpp_class(),
                methods + ("\nprivate:\n   static void free_mem(SelfType &p) noexcept\n   {\n        if (OWN_DATA && p != nullptr) {\n            "@
                    + (job.class.name@ + "_delete"@)
                    + "(p);\n        }\n        p = nullptr;\n   }\npublic:\n    ~"@ + wrapper
                    + "() noexcept\n    {\n        free_mem(this->self_);\n    }\n"@),
                end,
            )
            &&& (forall|i: int|
                0 <= i < job.paired() ==> #[trigger] job.class.methods@[i].variant !is Constructor)
                ==> made_of(
                job.cpp_class(),
                methods
                    + "\nprivate:\n   static void free_mem(SelfType &) noexcept\n   {\n   }\n"@,
                end,
            )
        }),
{
    broadcast use group_fragments;

}

/// The C++ definitions stand behind the class or, where they are kept apart, in a file of
/// their own that brings in the C++ header; each file closes the namespace that it opened.
pub proof fn law_definitions_have_their_file(job: ClassJob)
    ensures
        ({
            let definitions = job.inline_text(job.paired() as int);
            let end = "\n} // namespace "@ + job.namespace_name@ + "\n"@;
            &&& made_of(job.definitions(), "\n"@ + definitions, end)
            &&& !job.separate_impl_headers ==> made_of(
                job.cpp_header(),
                job.cpp_class(),
                job.definitions(),
            )
            &&& job.separate_impl_headers ==> made_of(
                job.cpp_header(),
                job.cpp_class(),
                "\n\n} // namespace "@ + job.namespace_name@ + "\n"@,
            )
            &&& made_of(
                job.impl_header(),
                "// Automaticaly generated by rust_swig\n#pragma once\n\n#include \""@
                    + job.class.name@ + ".hpp\"\n\nnamespace "@ + job.namespace_name@ + " {\n"@,
                job.definitions(),
            )
        }),
{
    broadcast use group_fragments;

}

/// The forward declarations name the class, the owner of an object and the reference to
/// one, in the namespace.
pub proof fn law_class_is_declared_ahead(job: ClassJob)
    ensures
        ({
            let name = job.class.name@;
            let wrapper = job.class.name@ + "Wrapper"@;
            made_of(
                job.fwd_header(),
                "// Automaticaly generated by rust_swig\n#pragma once\n\nnamespace "@
                    + job.namespace_name@ + " {\ntemplate<bool>\nclass "@ + wrapper + ";\nusing "@
                    + name + " = "@ + wrapper + "<true>;\nusing "@ + name + "Ref = "@ + wrapper
                    + "<false>;\n} // namespace "@,
                job.namespace_name@ + "\n"@,
            )
        }),
{
    broadcast use group_fragments;

}

} // verus!
