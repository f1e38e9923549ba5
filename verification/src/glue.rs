//! The Rust functions that C++ calls, as tokens.

use crate::class_text::{destructor_name, render_destructor_name};
use crate::rust_code::{
    constructor_code, destructor_code, foreign_class_impl, method_code, render_constructor_code,
    render_destructor_code, render_foreign_class_impl, render_method_code,
    render_static_method_code, static_method_code,
};
use crate::text::{join, joined, replace, replaced, texts};
use crate::tokens::{
    parse_code, parsed_tokens, takes_any_name, token_text, Failure, GenerateError,
};
use crate::types::{ForeignerMethod, RenderedSignature, ReturnType};
use proc_macro2::TokenStream;
use vstd::prelude::*;

verus! {

/// A conversion of values, and the code that it depends on.
pub struct Converted {
    pub deps: Vec<TokenStream>,
    pub code: String,
}

/// What a [`Converted`] holds.
pub struct ConvertedView {
    pub deps: Seq<TokenStream>,
    pub code: Seq<char>,
}

impl View for Converted {
    type V = ConvertedView;

    open spec fn view(&self) -> ConvertedView {
        ConvertedView { deps: self.deps@, code: self.code@ }
    }
}

/// A conversion of the object that a method is called on, or that a constructor
/// returns.
pub struct ConvertedThis {
    /// Normalized name of the type that the conversion starts from.
    pub from_type: String,
    pub deps: Vec<TokenStream>,
    pub code: String,
}

/// The type that the constructors of a class return.
pub struct ThisType {
    /// Normalized name of the type behind the pointer that C++ holds.
    pub heap_type: String,
    /// Code that moves an object behind that pointer.
    pub box_code: String,
    /// The lifetimes of the type.
    pub lifetimes: Vec<String>,
    /// Code that takes the object out again, over a place-holder.
    pub unpack_code: String,
    /// The type as Rust code.
    pub type_text: String,
}

/// What the exported function of a method is made from.
pub struct MethodContext<'a> {
    pub method: &'a ForeignerMethod,
    pub f_method: &'a RenderedSignature,
    pub decl_func_args: &'a str,
    pub real_output_typename: &'a str,
}

/// The type of the value that the Rust function behind a method returns.
pub open spec fn real_output_typename(output: ReturnType) -> Seq<char> {
    match output {
        ReturnType::Default => "()"@,
        ReturnType::Type(normalized) => normalized@,
    }
}

/// Names the type of the value that the Rust function behind a method returns.
pub fn render_real_output_typename<'a>(output: &'a ReturnType) -> (text: &'a str)
    ensures
        text@ == real_output_typename(*output),
{
    match output {
        ReturnType::Default => "()",
        ReturnType::Type(normalized) => normalized.as_str(),
    }
}

impl<'a> MethodContext<'a> {
    /// The exported function of a static method.
    pub open spec fn static_method(
        self,
        convert_input_code: Seq<char>,
        convert_output_code: Seq<char>,
    ) -> Seq<char> {
        static_method_code(
            self.method.c_func_name@,
            self.decl_func_args@,
            self.f_method.c_ret_type@,
            convert_input_code,
            self.real_output_typename@,
            self.method.rust_id.text@,
            self.f_method.args_names@,
            convert_output_code,
        )
    }

    /// The exported function of a method of an object behind a pointer to
    /// `this_type`.
    pub open spec fn object_method(
        self,
        convert_input_code: Seq<char>,
        convert_output_code: Seq<char>,
        this_type: Seq<char>,
        this_type_ref: Seq<char>,
        convert_this: Seq<char>,
    ) -> Seq<char> {
        method_code(
            self.method.c_func_name@,
            this_type,
            self.decl_func_args@,
            self.f_method.c_ret_type@,
            convert_input_code,
            this_type_ref,
            convert_this,
            self.real_output_typename@,
            self.method.rust_id.text@,
            self.f_method.args_names@,
            convert_output_code,
        )
    }

    /// The exported function of a constructor of `constructed_type`.
    pub open spec fn constructor(
        self,
        convert_input_code: Seq<char>,
        constructed_type: Seq<char>,
        convert_this: Seq<char>,
        box_this: Seq<char>,
    ) -> Seq<char> {
        constructor_code(
            self.method.c_func_name@,
            self.decl_func_args@,
            convert_input_code,
            constructed_type,
            self.method.rust_id.text@,
            self.f_method.args_names@,
            convert_this,
            box_this,
        )
    }
}

impl<'a> MethodContext<'a> {
    /// Writes the exported function of a static method.
    pub fn render_static_method(
        &self,
        convert_input_code: &str,
        convert_output_code: &str,
    ) -> (text: String)
        ensures
            text@ == self.static_method(convert_input_code@, convert_output_code@),
    {
        render_static_method_code(
            self.method.c_func_name.as_str(),
            self.decl_func_args,
            self.f_method.c_ret_type.as_str(),
            convert_input_code,
            self.real_output_typename,
            self.method.rust_id.text.as_str(),
            self.f_method.args_names.as_str(),
            convert_output_code,
        )
    }

    /// Writes the exported function of a method of an object behind a pointer to
    /// `this_type`.
    pub fn render_object_method(
        &self,
        convert_input_code: &str,
        convert_output_code: &str,
        this_type: &str,
        this_type_ref: &str,
        convert_this: &str,
    ) -> (text: String)
        ensures
            text@ == self.object_method(
                convert_input_code@,
                convert_output_code@,
                this_type@,
                this_type_ref@,
                convert_this@,
            ),
    {
        render_method_code(
            self.method.c_func_name.as_str(),
            this_type,
            self.decl_func_args,
            self.f_method.c_ret_type.as_str(),
            convert_input_code,
            this_type_ref,
            convert_this,
            self.real_output_typename,
            self.method.rust_id.text.as_str(),
            self.f_method.args_names.as_str(),
            convert_output_code,
        )
    }

    /// Writes the exported function of a constructor of `constructed_type`.
    pub fn render_constructor(
        &self,
        convert_input_code: &str,
        constructed_type: &str,
        convert_this: &str,
        box_this: &str,
    ) -> (text: String)
        ensures
            text@ == self.constructor(
                convert_input_code@,
                constructed_type@,
                convert_this@,
                box_this@,
            ),
    {
        render_constructor_code(
            self.method.c_func_name.as_str(),
            self.decl_func_args,
            convert_input_code,
            constructed_type,
            self.method.rust_id.text.as_str(),
            self.f_method.args_names.as_str(),
            convert_this,
            box_this,
        )
    }
}

/// The implementation of boxing for a class with constructors.
pub open spec fn class_impl(this_type: ThisType, to_var_template: Seq<char>) -> Seq<char> {
    foreign_class_impl(
        joined(texts(this_type.lifetimes@), ","@),
        this_type.type_text@,
        this_type.box_code@,
        this_type.heap_type@,
        replaced(this_type.unpack_code@, to_var_template, "p"@),
    )
}

/// Whether `tokens` are the streams `deps`, then the tokens of `code`.
pub open spec fn holds_code(
    tokens: Seq<TokenStream>,
    deps: Seq<TokenStream>,
    code: Seq<char>,
) -> bool {
    &&& tokens.len() == deps.len() + 1
    &&& tokens.drop_last() == deps
    &&& parsed_tokens(code) == Some(token_text(tokens.last()))
}

/// Whether `tokens` are `code` behind `deps`, and the code could bear another name.
pub open spec fn generated(
    tokens: Seq<TokenStream>,
    deps: Seq<TokenStream>,
    code: Seq<char>,
) -> bool {
    holds_code(tokens, deps, code) && takes_any_name(code)
}

/// What comes out of turning `code` into tokens behind `deps`: the tokens, or the
/// failure that names the code by `what`.
pub open spec fn tokens_of_code(
    res: Result<Vec<TokenStream>, GenerateError>,
    deps: Seq<TokenStream>,
    what: Seq<char>,
    code: Seq<char>,
) -> bool {
    match res {
        Ok(tokens) => generated(tokens@, deps, code),
        Err(e) => parsed_tokens(code) is None && e@ == (Failure::Unparsable { what, code }),
    }
}

/// Puts parsed code behind the code that it depends on.
pub fn push_tokens(deps: Vec<TokenStream>, parsed: Result<TokenStream, GenerateError>) -> (res:
    Result<Vec<TokenStream>, GenerateError>)
    ensures
        match parsed {
            Ok(stream) => res matches Ok(tokens) && tokens@ == deps@.push(stream),
            Err(e) => res matches Err(same) && same == e,
        },
{
    match parsed {
        Ok(stream) => {
            let mut tokens = deps;
            tokens.push(stream);
            Ok(tokens)
        },
        Err(e) => Err(e),
    }
}

/// Turns `code` into tokens and puts them behind `deps`.
fn push_code(deps: Vec<TokenStream>, what: &str, code: String) -> (res: Result<
    Vec<TokenStream>,
    GenerateError,
>)
    ensures
        tokens_of_code(res, deps@, what@, code@),
{
    let res = push_tokens(deps, parse_code(what, code));
    assert(res matches Ok(tokens) ==> tokens@.drop_last() =~= deps@);
    res
}

/// Turns code that is known to be Rust tokens into them and puts them behind `deps`.
fn push_sound_code(deps: Vec<TokenStream>, what: &str, code: String) -> (tokens: Vec<TokenStream>)
    requires
        parsed_tokens(code@) is Some,
    ensures
        generated(tokens@, deps@, code@),
{
    match push_code(deps, what, code) {
        Ok(tokens) => tokens,
        Err(_) => {
            assert(false);
            Vec::new()
        },
    }
}

/// Generates the exported function of a static method, behind the code that its
/// conversions depend on.
///
/// The code has to be Rust tokens; [`try_generate_static_method`] finds out.
pub fn generate_static_method(
    mc: &MethodContext,
    output: Converted,
    inputs: Converted,
) -> (tokens: Vec<TokenStream>)
    requires
        parsed_tokens(mc.static_method(inputs.code@, output.code@)) is Some,
    ensures
        generated(
            tokens@,
            inputs.deps@ + output.deps@,
            mc.static_method(inputs.code@, output.code@),
        ),
{
    let code = mc.render_static_method(inputs.code.as_str(), output.code.as_str());
    let mut deps = inputs.deps;
    let mut output_deps = output.deps;
    deps.append(&mut output_deps);
    push_sound_code(deps, "cpp internal static method", code)
}

/// Generates the exported function of a static method, behind the code that its
/// conversions depend on, or tells that
/// its code is no sequence of Rust tokens.
pub fn try_generate_static_method(
    mc: &MethodContext,
    output: Converted,
    inputs: Converted,
) -> (res: Result<Vec<TokenStream>, GenerateError>)
    ensures
        tokens_of_code(
            res,
            inputs.deps@ + output.deps@,
            "cpp internal static method"@,
            mc.static_method(inputs.code@, output.code@),
        ),
{
    let code = mc.render_static_method(inputs.code.as_str(), output.code.as_str());
    match parse_code("cpp internal static method", code) {
        Ok(_) => Ok(generate_static_method(mc, output, inputs)),
        Err(e) => Err(e),
    }
}

/// Generates the exported function of a method, behind the code that its
/// conversions depend on.
///
/// The code has to be Rust tokens; [`try_generate_method`] finds out.
pub fn generate_method(
    mc: &MethodContext,
    inputs: Converted,
    output: Converted,
    this: ConvertedThis,
    this_type_for_method: &str,
) -> (tokens: Vec<TokenStream>)
    requires
        parsed_tokens(mc.object_method(
            inputs.code@,
            output.code@,
            this_type_for_method@,
            this.from_type@,
            this.code@,
        )) is Some,
    ensures
        generated(
            tokens@,
            inputs.deps@ + output.deps@ + this.deps@,
            mc.object_method(
                inputs.code@,
                output.code@,
                this_type_for_method@,
                this.from_type@,
                this.code@,
            ),
        ),
{
    let code = mc.render_object_method(
        inputs.code.as_str(),
        output.code.as_str(),
        this_type_for_method,
        this.from_type.as_str(),
        this.code.as_str(),
    );
    let mut deps = inputs.deps;
    let mut output_deps = output.deps;
    let mut this_deps = this.deps;
    deps.append(&mut output_deps);
    deps.append(&mut this_deps);
    push_sound_code(deps, "cpp internal method", code)
}

/// Generates the exported function of a method, behind the code that its
/// conversions depend on, or tells that
/// its code is no sequence of Rust tokens.
pub fn try_generate_method(
    mc: &MethodContext,
    inputs: Converted,
    output: Converted,
    this: ConvertedThis,
    this_type_for_method: &str,
) -> (res: Result<Vec<TokenStream>, GenerateError>)
    ensures
        tokens_of_code(
            res,
            inputs.deps@ + output.deps@ + this.deps@,
            "cpp internal method"@,
            mc.object_method(
                inputs.code@,
                output.code@,
                this_type_for_method@,
                this.from_type@,
                this.code@,
            ),
        ),
{
    let code = mc.render_object_method(
        inputs.code.as_str(),
        output.code.as_str(),
        this_type_for_method,
        this.from_type.as_str(),
        this.code.as_str(),
    );
    match parse_code("cpp internal method", code) {
        Ok(_) => Ok(generate_method(mc, inputs, output, this, this_type_for_method)),
        Err(e) => Err(e),
    }
}

/// Generates the exported function of a constructor, behind the code that its
/// conversions depend on.
///
/// The code has to be Rust tokens; [`try_generate_constructor`] finds out.
pub fn generate_constructor(
    mc: &MethodContext,
    inputs: Converted,
    this: ConvertedThis,
    code_box_this: &str,
) -> (tokens: Vec<TokenStream>)
    requires
        parsed_tokens(
            mc.constructor(inputs.code@, this.from_type@, this.code@, code_box_this@),
        ) is Some,
    ensures
        generated(
            tokens@,
            inputs.deps@ + this.deps@,
            mc.constructor(inputs.code@, this.from_type@, this.code@, code_box_this@),
        ),
{
    let code = mc.render_constructor(
        inputs.code.as_str(),
        this.from_type.as_str(),
        this.code.as_str(),
        code_box_this,
    );
    let mut deps = inputs.deps;
    let mut this_deps = this.deps;
    deps.append(&mut this_deps);
    push_sound_code(deps, "cpp internal constructor method", code)
}

/// Generates the exported function of a constructor, behind the code that its
/// conversions depend on, or tells that
/// its code is no sequence of Rust tokens.
pub fn try_generate_constructor(
    mc: &MethodContext,
    inputs: Converted,
    this: ConvertedThis,
    code_box_this: &str,
) -> (res: Result<Vec<TokenStream>, GenerateError>)
    ensures
        tokens_of_code(
            res,
            inputs.deps@ + this.deps@,
            "cpp internal constructor method"@,
            mc.constructor(inputs.code@, this.from_type@, this.code@, code_box_this@),
        ),
{
    let code = mc.render_constructor(
        inputs.code.as_str(),
        this.from_type.as_str(),
        this.code.as_str(),
        code_box_this,
    );
    match parse_code("cpp internal constructor method", code) {
        Ok(_) => Ok(generate_constructor(mc, inputs, this, code_box_this)),
        Err(e) => Err(e),
    }
}

/// Writes the implementation of boxing for a class with constructors.
pub fn render_class_impl(this_type: &ThisType, to_var_template: &str) -> (text: String)
    ensures
        text@ == class_impl(*this_type, to_var_template@),
{
    render_foreign_class_impl(
        join(&this_type.lifetimes, ",").as_str(),
        this_type.type_text.as_str(),
        this_type.box_code.as_str(),
        this_type.heap_type.as_str(),
        replace(this_type.unpack_code.as_str(), to_var_template, "p").as_str(),
    )
}

/// Generates the implementation of boxing for a class with constructors.
///
/// The code has to be Rust tokens; [`try_generate_class_impl`] finds out.
pub fn generate_class_impl(
    this_type: &ThisType,
    to_var_template: &str,
) -> (tokens: Vec<TokenStream>)
    requires
        parsed_tokens(class_impl(*this_type, to_var_template@)) is Some,
    ensures
        generated(
            tokens@,
            seq![],
            class_impl(*this_type, to_var_template@),
        ),
{
    let code = render_class_impl(this_type, to_var_template);
    push_sound_code(Vec::new(), "internal foreign class impl code", code)
}

/// Generates the implementation of boxing for a class with constructors, or tells that
/// its code is no sequence of Rust tokens.
pub fn try_generate_class_impl(
    this_type: &ThisType,
    to_var_template: &str,
) -> (res: Result<Vec<TokenStream>, GenerateError>)
    ensures
        tokens_of_code(
            res,
            seq![],
            "internal foreign class impl code"@,
            class_impl(*this_type, to_var_template@),
        ),
{
    let code = render_class_impl(this_type, to_var_template);
    match parse_code("internal foreign class impl code", code) {
        Ok(_) => Ok(generate_class_impl(this_type, to_var_template)),
        Err(e) => Err(e),
    }
}

/// Generates the exported destructor of the class `name`, whose objects stand
/// behind pointers to `this_type`.
///
/// The code has to be Rust tokens; [`try_generate_destructor`] finds out.
pub fn generate_destructor(
    name: &str,
    this_type: &str,
    unpack_code: &str,
) -> (tokens: Vec<TokenStream>)
    requires
        parsed_tokens(destructor_code(destructor_name(name@), this_type@, unpack_code@)) is Some,
    ensures
        generated(
            tokens@,
            seq![],
            destructor_code(destructor_name(name@), this_type@, unpack_code@),
        ),
{
    let code = render_destructor_code(
        render_destructor_name(name).as_str(),
        this_type,
        unpack_code,
    );
    push_sound_code(Vec::new(), "internal cpp desctructor code", code)
}

/// Generates the exported destructor of the class `name`, whose objects stand
/// behind pointers to `this_type`, or tells that
/// its code is no sequence of Rust tokens.
pub fn try_generate_destructor(
    name: &str,
    this_type: &str,
    unpack_code: &str,
) -> (res: Result<Vec<TokenStream>, GenerateError>)
    ensures
        tokens_of_code(
            res,
            seq![],
            "internal cpp desctructor code"@,
            destructor_code(destructor_name(name@), this_type@, unpack_code@),
        ),
{
    let code = render_destructor_code(
        render_destructor_name(name).as_str(),
        this_type,
        unpack_code,
    );
    match parse_code("internal cpp desctructor code", code) {
        Ok(_) => Ok(generate_destructor(name, this_type, unpack_code)),
        Err(e) => Err(e),
    }
}

} // verus!
