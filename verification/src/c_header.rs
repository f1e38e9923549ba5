//! The text of the C header, piece by piece.

use vstd::prelude::*;
use vstd::string::StringExecFns;

verus! {

/// Opening of the C header: the class documentation, the check of the pointer
/// width and the opaque class type.
pub open spec fn c_prologue(
    doc_comments: Seq<char>,
    sizeof_usize: Seq<char>,
    c_class_type: Seq<char>,
) -> Seq<char> {
    "// Automaticaly generated by rust_swig\n"@ + doc_comments + r"
#pragma once

//for (u)intX_t types
#include <stdint.h>

#ifdef __cplusplus
static_assert(sizeof(uintptr_t) == sizeof(uint8_t) * "@ + sizeof_usize + r#",
   "our conversation usize <-> uintptr_t is wrong");
extern "C" {
#endif

    typedef struct "#@ + c_class_type + " "@ + c_class_type + r";

"@
}

/// Builds the opening of the C header.
pub fn render_c_prologue(
    doc_comments: &str,
    sizeof_usize: &str,
    c_class_type: &str,
) -> (text: String)
    ensures
        text@ == c_prologue(doc_comments@, sizeof_usize@, c_class_type@),
{
    "// Automaticaly generated by rust_swig\n".to_string().concat(doc_comments).concat(r"
#pragma once

//for (u)intX_t types
#include <stdint.h>

#ifdef __cplusplus
static_assert(sizeof(uintptr_t) == sizeof(uint8_t) * ").concat(sizeof_usize).concat(r#",
   "our conversation usize <-> uintptr_t is wrong");
extern "C" {
#endif

    typedef struct "#).concat(c_class_type).concat(" ").concat(c_class_type).concat(r";

")
}

/// C declaration of a static method.
pub open spec fn c_static_method(
    ret_type: Seq<char>,
    c_func_name: Seq<char>,
    args_with_types: Seq<char>,
) -> Seq<char> {
    "\n    "@ + ret_type + " "@ + c_func_name + "("@ + args_with_types + ");\n"@
}

/// Builds the C declaration of a static method.
pub fn render_c_static_method(
    ret_type: &str,
    c_func_name: &str,
    args_with_types: &str,
) -> (text: String)
    ensures
        text@ == c_static_method(ret_type@, c_func_name@, args_with_types@),
{
    "\n    ".to_string().concat(ret_type).concat(" ").concat(c_func_name).concat("(")
        .concat(args_with_types).concat(");\n")
}

/// C declaration of a method; `args_with_types` starts with a comma unless it is
/// empty.
pub open spec fn c_method(
    ret_type: Seq<char>,
    c_func_name: Seq<char>,
    const_if_readonly: Seq<char>,
    c_class_type: Seq<char>,
    args_with_types: Seq<char>,
) -> Seq<char> {
    "\n    "@ + ret_type + " "@ + c_func_name + "("@ + const_if_readonly + c_class_type
        + " * const self"@ + args_with_types + ");\n"@
}

/// Builds the C declaration of a method.
pub fn render_c_method(
    ret_type: &str,
    c_func_name: &str,
    const_if_readonly: &str,
    c_class_type: &str,
    args_with_types: &str,
) -> (text: String)
    ensures
        text@ == c_method(
            ret_type@,
            c_func_name@,
            const_if_readonly@,
            c_class_type@,
            args_with_types@,
        ),
{
    "\n    ".to_string().concat(ret_type).concat(" ").concat(c_func_name).concat("(")
        .concat(const_if_readonly).concat(c_class_type).concat(" * const self")
        .concat(args_with_types).concat(");\n")
}

/// C declaration of a constructor.
pub open spec fn c_constructor(
    c_class_type: Seq<char>,
    c_func_name: Seq<char>,
    args_with_types: Seq<char>,
) -> Seq<char> {
    "\n    "@ + c_class_type + " *"@ + c_func_name + "("@ + args_with_types + ");\n"@
}

/// Builds the C declaration of a constructor.
pub fn render_c_constructor(
    c_class_type: &str,
    c_func_name: &str,
    args_with_types: &str,
) -> (text: String)
    ensures
        text@ == c_constructor(c_class_type@, c_func_name@, args_with_types@),
{
    "\n    ".to_string().concat(c_class_type).concat(" *").concat(c_func_name).concat("(")
        .concat(args_with_types).concat(");\n")
}

/// C declaration of the destructor.
pub open spec fn c_destructor(c_destructor_name: Seq<char>, c_class_type: Seq<char>) -> Seq<char> {
    "\n    void "@ + c_destructor_name + "(const "@ + c_class_type + " *self);\n"@
}

/// Builds the C declaration of the destructor.
pub fn render_c_destructor(c_destructor_name: &str, c_class_type: &str) -> (text: String)
    ensures
        text@ == c_destructor(c_destructor_name@, c_class_type@),
{
    "\n    void ".to_string().concat(c_destructor_name).concat("(const ").concat(c_class_type)
        .concat(" *self);\n")
}

/// Closing of the C header.
pub open spec fn c_epilogue() -> Seq<char> {
    r"
#ifdef __cplusplus
}
#endif

"@
}

/// Builds the closing of the C header.
pub fn render_c_epilogue() -> (text: String)
    ensures
        text@ == c_epilogue(),
{
    r"
#ifdef __cplusplus
}
#endif

".to_string()
}

} // verus!
