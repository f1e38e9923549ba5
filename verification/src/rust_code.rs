//! The text of the Rust functions that C++ calls, piece by piece.

use vstd::prelude::*;
use vstd::string::StringExecFns;

verus! {

/// The opening of an exported method, up to its name.
pub open spec fn method_opening() -> Seq<char> {
    r#"
#[allow(non_snake_case, unused_variables, unused_mut)]
#[no_mangle]
pub extern "C" fn "#@
}

/// The opening of an exported constructor, up to its name.
pub open spec fn constructor_opening() -> Seq<char> {
    r#"
#[no_mangle]
#[allow(unused_variables, unused_mut, non_snake_case)]
pub extern "C" fn "#@
}

/// The opening of the exported destructor, up to its name.
pub open spec fn destructor_opening() -> Seq<char> {
    r#"
#[allow(unused_variables, unused_mut, non_snake_case)]
#[no_mangle]
pub extern "C" fn "#@
}

/// Rust code that boxes an object of the class and takes it out of its box.
pub open spec fn foreign_class_impl(
    lifetimes: Seq<char>,
    class_name: Seq<char>,
    code_box_this: Seq<char>,
    this_type: Seq<char>,
    unpack_code: Seq<char>,
) -> Seq<char> {
    "impl<"@ + lifetimes + "> SwigForeignClass for "@ + class_name + r#" {
    fn c_class_name() -> *const ::std::os::raw::c_char {
        swig_c_str!(""#@ + class_name + r#"")
    }
    fn box_object(this: Self) -> *mut ::std::os::raw::c_void {
"#@ + code_box_this + r"
        this as *mut ::std::os::raw::c_void
    }
    fn unbox_object(p: *mut ::std::os::raw::c_void) -> Self {
        let p = p as *mut "@ + this_type + ";\n"@ + unpack_code + r"
       p
    }
}"@
}

/// Builds the Rust code that boxes and unboxes an object of the class.
pub fn render_foreign_class_impl(
    lifetimes: &str,
    class_name: &str,
    code_box_this: &str,
    this_type: &str,
    unpack_code: &str,
) -> (text: String)
    ensures
        text@ == foreign_class_impl(
            lifetimes@,
            class_name@,
            code_box_this@,
            this_type@,
            unpack_code@,
        ),
{
    "impl<".to_string().concat(lifetimes).concat("> SwigForeignClass for ").concat(class_name)
        .concat(r#" {
    fn c_class_name() -> *const ::std::os::raw::c_char {
        swig_c_str!(""#).concat(class_name).concat(r#"")
    }
    fn box_object(this: Self) -> *mut ::std::os::raw::c_void {
"#).concat(code_box_this).concat(r"
        this as *mut ::std::os::raw::c_void
    }
    fn unbox_object(p: *mut ::std::os::raw::c_void) -> Self {
        let p = p as *mut ").concat(this_type).concat(";\n").concat(unpack_code).concat(r"
       p
    }
}")
}

/// What stands behind the name of the exported destructor.
pub open spec fn destructor_rest(this_type: Seq<char>, unpack_code: Seq<char>) -> Seq<char> {
    "(this: *mut "@ + this_type + ") {\n"@ + unpack_code
        + r"
    drop(this);
}
"@
}

/// Rust code of the exported destructor.
pub open spec fn destructor_code(
    c_destructor_name: Seq<char>,
    this_type: Seq<char>,
    unpack_code: Seq<char>,
) -> Seq<char> {
    destructor_opening() + c_destructor_name + destructor_rest(this_type, unpack_code)
}

/// Builds what stands behind the name of the exported destructor.
fn render_destructor_rest(this_type: &str, unpack_code: &str) -> (text: String)
    ensures
        text@ == destructor_rest(this_type@, unpack_code@),
{
    "(this: *mut ".to_string().concat(this_type)
        .concat(") {\n").concat(unpack_code).concat(r"
    drop(this);
}
")
}

/// Builds the Rust code of the exported destructor.
pub fn render_destructor_code(
    c_destructor_name: &str,
    this_type: &str,
    unpack_code: &str,
) -> (text: String)
    ensures
        text@ == destructor_code(c_destructor_name@, this_type@, unpack_code@),
{
    let rest = render_destructor_rest(this_type, unpack_code);
    r#"
#[allow(unused_variables, unused_mut, non_snake_case)]
#[no_mangle]
pub extern "C" fn "#.to_string().concat(c_destructor_name).concat(rest.as_str())
}

/// What stands behind the name of an exported static method.
pub open spec fn static_method_rest(
    decl_func_args: Seq<char>,
    c_ret_type: Seq<char>,
    convert_input_code: Seq<char>,
    real_output_typename: Seq<char>,
    rust_func_name: Seq<char>,
    args_names: Seq<char>,
    convert_output_code: Seq<char>,
) -> Seq<char> {
    "("@ + decl_func_args + ") -> "@ + c_ret_type + " {\n"@
        + convert_input_code + "\n    let mut ret: "@ + real_output_typename + " = "@
        + rust_func_name + "("@ + args_names + ");\n"@ + convert_output_code + r"
    ret
}
"@
}

/// Rust code of an exported static method.
pub open spec fn static_method_code(
    func_name: Seq<char>,
    decl_func_args: Seq<char>,
    c_ret_type: Seq<char>,
    convert_input_code: Seq<char>,
    real_output_typename: Seq<char>,
    rust_func_name: Seq<char>,
    args_names: Seq<char>,
    convert_output_code: Seq<char>,
) -> Seq<char> {
    method_opening() + func_name + static_method_rest(
        decl_func_args,
        c_ret_type,
        convert_input_code,
        real_output_typename,
        rust_func_name,
        args_names,
        convert_output_code,
    )
}

/// Builds what stands behind the name of an exported static method.
fn render_static_method_rest(
    decl_func_args: &str,
    c_ret_type: &str,
    convert_input_code: &str,
    real_output_typename: &str,
    rust_func_name: &str,
    args_names: &str,
    convert_output_code: &str,
) -> (text: String)
    ensures
        text@ == static_method_rest(
            decl_func_args@,
            c_ret_type@,
            convert_input_code@,
            real_output_typename@,
            rust_func_name@,
            args_names@,
            convert_output_code@,
        ),
{
    "(".to_string().concat(decl_func_args)
        .concat(") -> ").concat(c_ret_type).concat(" {\n").concat(convert_input_code)
        .concat("\n    let mut ret: ").concat(real_output_typename).concat(" = ")
        .concat(rust_func_name).concat("(").concat(args_names).concat(");\n")
        .concat(convert_output_code).concat(r"
    ret
}
")
}

/// Builds the Rust code of an exported static method.
pub fn render_static_method_code(
    func_name: &str,
    decl_func_args: &str,
    c_ret_type: &str,
    convert_input_code: &str,
    real_output_typename: &str,
    rust_func_name: &str,
    args_names: &str,
    convert_output_code: &str,
) -> (text: String)
    ensures
        text@ == static_method_code(
            func_name@,
            decl_func_args@,
            c_ret_type@,
            convert_input_code@,
            real_output_typename@,
            rust_func_name@,
            args_names@,
            convert_output_code@,
        ),
{
    let rest = render_static_method_rest(
        decl_func_args,
        c_ret_type,
        convert_input_code,
        real_output_typename,
        rust_func_name,
        args_names,
        convert_output_code,
    );
    r#"
#[allow(non_snake_case, unused_variables, unused_mut)]
#[no_mangle]
pub extern "C" fn "#.to_string().concat(func_name).concat(rest.as_str())
}

/// What stands behind the name of an exported method.
pub open spec fn method_rest(
    this_type: Seq<char>,
    decl_func_args: Seq<char>,
    c_ret_type: Seq<char>,
    convert_input_code: Seq<char>,
    this_type_ref: Seq<char>,
    convert_this: Seq<char>,
    real_output_typename: Seq<char>,
    rust_func_name: Seq<char>,
    args_names: Seq<char>,
    convert_output_code: Seq<char>,
) -> Seq<char> {
    "(this: *mut "@ + this_type + ", "@ + decl_func_args + ") -> "@
        + c_ret_type + " {\n"@ + convert_input_code + "\n    let this: "@ + this_type_ref
        + r" = unsafe {
        this.as_mut().unwrap()
    };
"@ + convert_this + "\n    let mut ret: "@ + real_output_typename + " = "@ + rust_func_name
        + "(this, "@ + args_names + ");\n"@ + convert_output_code + r"
    ret
}
"@
}

/// Rust code of an exported method.
pub open spec fn method_code(
    func_name: Seq<char>,
    this_type: Seq<char>,
    decl_func_args: Seq<char>,
    c_ret_type: Seq<char>,
    convert_input_code: Seq<char>,
    this_type_ref: Seq<char>,
    convert_this: Seq<char>,
    real_output_typename: Seq<char>,
    rust_func_name: Seq<char>,
    args_names: Seq<char>,
    convert_output_code: Seq<char>,
) -> Seq<char> {
    method_opening() + func_name + method_rest(
        this_type,
        decl_func_args,
        c_ret_type,
        convert_input_code,
        this_type_ref,
        convert_this,
        real_output_typename,
        rust_func_name,
        args_names,
        convert_output_code,
    )
}

/// Builds what stands behind the name of an exported method.
fn render_method_rest(
    this_type: &str,
    decl_func_args: &str,
    c_ret_type: &str,
    convert_input_code: &str,
    this_type_ref: &str,
    convert_this: &str,
    real_output_typename: &str,
    rust_func_name: &str,
    args_names: &str,
    convert_output_code: &str,
) -> (text: String)
    ensures
        text@ == method_rest(
            this_type@,
            decl_func_args@,
            c_ret_type@,
            convert_input_code@,
            this_type_ref@,
            convert_this@,
            real_output_typename@,
            rust_func_name@,
            args_names@,
            convert_output_code@,
        ),
{
    "(this: *mut ".to_string().concat(this_type)
        .concat(", ").concat(decl_func_args).concat(") -> ").concat(c_ret_type).concat(" {\n")
        .concat(convert_input_code).concat("\n    let this: ").concat(this_type_ref)
        .concat(r" = unsafe {
        this.as_mut().unwrap()
    };
").concat(convert_this).concat("\n    let mut ret: ").concat(real_output_typename).concat(" = ")
        .concat(rust_func_name).concat("(this, ").concat(args_names).concat(");\n")
        .concat(convert_output_code).concat(r"
    ret
}
")
}

/// Builds the Rust code of an exported method.
pub fn render_method_code(
    func_name: &str,
    this_type: &str,
    decl_func_args: &str,
    c_ret_type: &str,
    convert_input_code: &str,
    this_type_ref: &str,
    convert_this: &str,
    real_output_typename: &str,
    rust_func_name: &str,
    args_names: &str,
    convert_output_code: &str,
) -> (text: String)
    ensures
        text@ == method_code(
            func_name@,
            this_type@,
            decl_func_args@,
            c_ret_type@,
            convert_input_code@,
            this_type_ref@,
            convert_this@,
            real_output_typename@,
            rust_func_name@,
            args_names@,
            convert_output_code@,
        ),
{
    let rest = render_method_rest(
        this_type,
        decl_func_args,
        c_ret_type,
        convert_input_code,
        this_type_ref,
        convert_this,
        real_output_typename,
        rust_func_name,
        args_names,
        convert_output_code,
    );
    r#"
#[allow(non_snake_case, unused_variables, unused_mut)]
#[no_mangle]
pub extern "C" fn "#.to_string().concat(func_name).concat(rest.as_str())
}

/// What stands behind the name of an exported constructor.
pub open spec fn constructor_rest(
    decl_func_args: Seq<char>,
    convert_input_code: Seq<char>,
    real_output_typename: Seq<char>,
    rust_func_name: Seq<char>,
    args_names: Seq<char>,
    convert_this: Seq<char>,
    box_this: Seq<char>,
) -> Seq<char> {
    "("@ + decl_func_args
        + ") -> *const ::std::os::raw::c_void {\n"@ + convert_input_code + "\n    let this: "@
        + real_output_typename + " = "@ + rust_func_name + "("@ + args_names + ");\n"@
        + convert_this + "\n"@ + box_this + r"
    this as *const ::std::os::raw::c_void
}
"@
}

/// Rust code of an exported constructor.
pub open spec fn constructor_code(
    func_name: Seq<char>,
    decl_func_args: Seq<char>,
    convert_input_code: Seq<char>,
    real_output_typename: Seq<char>,
    rust_func_name: Seq<char>,
    args_names: Seq<char>,
    convert_this: Seq<char>,
    box_this: Seq<char>,
) -> Seq<char> {
    constructor_opening() + func_name + constructor_rest(
        decl_func_args,
        convert_input_code,
        real_output_typename,
        rust_func_name,
        args_names,
        convert_this,
        box_this,
    )
}

/// Builds what stands behind the name of an exported constructor.
fn render_constructor_rest(
    decl_func_args: &str,
    convert_input_code: &str,
    real_output_typename: &str,
    rust_func_name: &str,
    args_names: &str,
    convert_this: &str,
    box_this: &str,
) -> (text: String)
    ensures
        text@ == constructor_rest(
            decl_func_args@,
            convert_input_code@,
            real_output_typename@,
            rust_func_name@,
            args_names@,
            convert_this@,
            box_this@,
        ),
{
    "(".to_string().concat(decl_func_args)
        .concat(") -> *const ::std::os::raw::c_void {\n").concat(convert_input_code)
        .concat("\n    let this: ").concat(real_output_typename).concat(" = ")
        .concat(rust_func_name).concat("(").concat(args_names).concat(");\n").concat(convert_this)
        .concat("\n").concat(box_this).concat(r"
    this as *const ::std::os::raw::c_void
}
")
}

/// Builds the Rust code of an exported constructor.
pub fn render_constructor_code(
    func_name: &str,
    decl_func_args: &str,
    convert_input_code: &str,
    real_output_typename: &str,
    rust_func_name: &str,
    args_names: &str,
    convert_this: &str,
    box_this: &str,
) -> (text: String)
    ensures
        text@ == constructor_code(
            func_name@,
            decl_func_args@,
            convert_input_code@,
            real_output_typename@,
            rust_func_name@,
            args_names@,
            convert_this@,
            box_this@,
        ),
{
    let rest = render_constructor_rest(
        decl_func_args,
        convert_input_code,
        real_output_typename,
        rust_func_name,
        args_names,
        convert_this,
        box_this,
    );
    r#"
#[no_mangle]
#[allow(unused_variables, unused_mut, non_snake_case)]
pub extern "C" fn "#.to_string().concat(func_name).concat(rest.as_str())
}

} // verus!
