//! The name of an exported function is a name and nothing more.

use crate::glue::{generated, Converted, ConvertedThis, MethodContext};
use crate::rust_code::{
    constructor_opening, constructor_rest, destructor_opening, destructor_rest, method_opening,
    method_rest, static_method_rest,
};
use crate::tokens::{
    is_name, parsed_tokens, same_but_name, token_text, with_name,
};
use proc_macro2::TokenStream;
use vstd::prelude::*;

verus! {

/// Whether the exported functions of two methods are made from the same things, but
/// for their names.
pub open spec fn differ_in_name(a: MethodContext, b: MethodContext) -> bool {
    &&& a.method.rust_id.text@ == b.method.rust_id.text@
    &&& a.f_method.c_ret_type@ == b.f_method.c_ret_type@
    &&& a.f_method.args_names@ == b.f_method.args_names@
    &&& a.decl_func_args@ == b.decl_func_args@
    &&& a.real_output_typename@ == b.real_output_typename@
    &&& is_name(a.method.c_func_name@)
    &&& is_name(b.method.c_func_name@)
}

/// Whether two generated functions agree but for their names: the code that they depend
/// on is the same, and so are their own tokens, but that one may hold `other` where the
/// other holds `name`.
pub open spec fn alike(
    first: Seq<TokenStream>,
    second: Seq<TokenStream>,
    name: Seq<char>,
    other: Seq<char>,
) -> bool {
    &&& first.len() == second.len() > 0
    &&& first.drop_last() == second.drop_last()
    &&& same_but_name(token_text(first.last()), token_text(second.last()), name, other)
}

/// Another name for its exported function changes nothing else of a static method: where
/// the function could be generated under one name it can be under the other, and what
/// comes out is the same but for the name.
pub proof fn law_renaming_a_static_method(
    a: MethodContext,
    b: MethodContext,
    output: Converted,
    inputs: Converted,
    first: Seq<TokenStream>,
)
    requires
        differ_in_name(a, b),
        generated(
            first,
            inputs.deps@ + output.deps@,
            a.static_method(inputs.code@, output.code@),
        ),
    ensures
        parsed_tokens(b.static_method(inputs.code@, output.code@)) is Some,
        forall|second: Seq<TokenStream>|
            #[trigger] generated(
                second,
                inputs.deps@ + output.deps@,
                b.static_method(inputs.code@, output.code@),
            ) ==> alike(first, second, a.method.c_func_name@, b.method.c_func_name@),
{
    let rest = static_method_rest(
        a.decl_func_args@,
        a.f_method.c_ret_type@,
        inputs.code@,
        a.real_output_typename@,
        a.method.rust_id.text@,
        a.f_method.args_names@,
        output.code@,
    );
    lemma_openings();
    lemma_static_method_rest(
        a.decl_func_args@,
        a.f_method.c_ret_type@,
        inputs.code@,
        a.real_output_typename@,
        a.method.rust_id.text@,
        a.f_method.args_names@,
        output.code@,
    );
    let code = with_name(method_opening(), a.method.c_func_name@, rest);
    let renamed = with_name(method_opening(), b.method.c_func_name@, rest);
    assert(a.static_method(inputs.code@, output.code@) == code);
    assert(b.static_method(inputs.code@, output.code@) == renamed);
}

/// Another name for its exported function changes nothing else of a method.
pub proof fn law_renaming_a_method(
    a: MethodContext,
    b: MethodContext,
    inputs: Converted,
    output: Converted,
    this: ConvertedThis,
    this_type: Seq<char>,
    first: Seq<TokenStream>,
)
    requires
        differ_in_name(a, b),
        generated(
            first,
            inputs.deps@ + output.deps@ + this.deps@,
            a.object_method(inputs.code@, output.code@, this_type, this.from_type@, this.code@),
        ),
    ensures
        parsed_tokens(
            b.object_method(inputs.code@, output.code@, this_type, this.from_type@, this.code@),
        ) is Some,
        forall|second: Seq<TokenStream>|
            #[trigger] generated(
                second,
                inputs.deps@ + output.deps@ + this.deps@,
                b.object_method(
                    inputs.code@,
                    output.code@,
                    this_type,
                    this.from_type@,
                    this.code@,
                ),
            ) ==> alike(first, second, a.method.c_func_name@, b.method.c_func_name@),
{
    let rest = method_rest(
        this_type,
        a.decl_func_args@,
        a.f_method.c_ret_type@,
        inputs.code@,
        this.from_type@,
        this.code@,
        a.real_output_typename@,
        a.method.rust_id.text@,
        a.f_method.args_names@,
        output.code@,
    );
    lemma_openings();
    lemma_method_rest(
        this_type,
        a.decl_func_args@,
        a.f_method.c_ret_type@,
        inputs.code@,
        this.from_type@,
        this.code@,
        a.real_output_typename@,
        a.method.rust_id.text@,
        a.f_method.args_names@,
        output.code@,
    );
    let code = with_name(method_opening(), a.method.c_func_name@, rest);
    let renamed = with_name(method_opening(), b.method.c_func_name@, rest);
    assert(a.object_method(inputs.code@, output.code@, this_type, this.from_type@, this.code@)
        == code);
    assert(b.object_method(inputs.code@, output.code@, this_type, this.from_type@, this.code@)
        == renamed);
}

/// Another name for its exported function changes nothing else of a constructor.
pub proof fn law_renaming_a_constructor(
    a: MethodContext,
    b: MethodContext,
    inputs: Converted,
    this: ConvertedThis,
    box_this: Seq<char>,
    first: Seq<TokenStream>,
)
    requires
        differ_in_name(a, b),
        generated(
            first,
            inputs.deps@ + this.deps@,
            a.constructor(inputs.code@, this.from_type@, this.code@, box_this),
        ),
    ensures
        parsed_tokens(b.constructor(inputs.code@, this.from_type@, this.code@, box_this)) is Some,
        forall|second: Seq<TokenStream>|
            #[trigger] generated(
                second,
                inputs.deps@ + this.deps@,
                b.constructor(inputs.code@, this.from_type@, this.code@, box_this),
            ) ==> alike(first, second, a.method.c_func_name@, b.method.c_func_name@),
{
    let rest = constructor_rest(
        a.decl_func_args@,
        inputs.code@,
        this.from_type@,
        a.method.rust_id.text@,
        a.f_method.args_names@,
        this.code@,
        box_this,
    );
    lemma_openings();
    lemma_constructor_rest(
        a.decl_func_args@,
        inputs.code@,
        this.from_type@,
        a.method.rust_id.text@,
        a.f_method.args_names@,
        this.code@,
        box_this,
    );
    let code = with_name(constructor_opening(), a.method.c_func_name@, rest);
    let renamed = with_name(constructor_opening(), b.method.c_func_name@, rest);
    assert(a.constructor(inputs.code@, this.from_type@, this.code@, box_this) == code);
    assert(b.constructor(inputs.code@, this.from_type@, this.code@, box_this) == renamed);
}

/// The text in front of the name of an exported function ends with the keyword of a
/// function and a space.
pub proof fn lemma_openings()
    ensures
        "fn "@.is_suffix_of(method_opening()),
        "fn "@.is_suffix_of(constructor_opening()),
        "fn "@.is_suffix_of(destructor_opening()),
        method_opening().len() > 0 && method_opening().last() == ' ',
        constructor_opening().len() > 0 && constructor_opening().last() == ' ',
{
    reveal_strlit("fn ");
    reveal_strlit(r#"
#[allow(non_snake_case, unused_variables, unused_mut)]
#[no_mangle]
pub extern "C" fn "#);
    reveal_strlit(r#"
#[no_mangle]
#[allow(unused_variables, unused_mut, non_snake_case)]
pub extern "C" fn "#);
    reveal_strlit(r#"
#[allow(unused_variables, unused_mut, non_snake_case)]
#[no_mangle]
pub extern "C" fn "#);
}

/// What stands behind the name of a static method starts with a parenthesis.
pub proof fn lemma_static_method_rest(
    decl_func_args: Seq<char>,
    c_ret_type: Seq<char>,
    convert_input_code: Seq<char>,
    real_output_typename: Seq<char>,
    rust_func_name: Seq<char>,
    args_names: Seq<char>,
    convert_output_code: Seq<char>,
)
    ensures
        ({
            let rest = static_method_rest(
                decl_func_args,
                c_ret_type,
                convert_input_code,
                real_output_typename,
                rust_func_name,
                args_names,
                convert_output_code,
            );
            rest.len() > 0 && rest[0] == '('
        }),
{
    reveal_strlit("(");
}

/// What stands behind the name of a method starts with a parenthesis.
pub proof fn lemma_method_rest(
    this_type: Seq<char>,
    decl_func_args: Seq<char>,
    c_ret_type: Seq<char>,
    convert_input_code: Seq<char>,
    this_type_ref: Seq<char>,
    convert_this: Seq<char>,
    real_output_typename: Seq<char>,
    rust_func_name: Seq<char>,
    args_names: Seq<char>,
    convert_output_code: Seq<char>,
)
    ensures
        ({
            let rest = method_rest(
                this_type,
                decl_func_args,
                c_ret_type,
                convert_input_code,
                this_type_ref,
                convert_this,
                real_output_typename,
                rust_func_name,
                args_names,
                convert_output_code,
            );
            rest.len() > 0 && rest[0] == '('
        }),
{
    reveal_strlit("(this: *mut ");
}

/// What stands behind the name of a constructor starts with a parenthesis.
pub proof fn lemma_constructor_rest(
    decl_func_args: Seq<char>,
    convert_input_code: Seq<char>,
    real_output_typename: Seq<char>,
    rust_func_name: Seq<char>,
    args_names: Seq<char>,
    convert_this: Seq<char>,
    box_this: Seq<char>,
)
    ensures
        ({
            let rest = constructor_rest(
                decl_func_args,
                convert_input_code,
                real_output_typename,
                rust_func_name,
                args_names,
                convert_this,
                box_this,
            );
            rest.len() > 0 && rest[0] == '('
        }),
{
    reveal_strlit("(");
}

/// What stands behind the name of the destructor starts with a parenthesis.
pub proof fn lemma_destructor_rest(this_type: Seq<char>, unpack_code: Seq<char>)
    ensures
        destructor_rest(this_type, unpack_code).len() > 0,
        destructor_rest(this_type, unpack_code)[0] == '(',
{
    reveal_strlit("(this: *mut ");
}

} // verus!
