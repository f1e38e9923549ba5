//! The text that one class and its methods contribute to the headers.

use crate::c_header::{
    c_constructor, c_destructor, c_epilogue, c_method, c_prologue, c_static_method,
    render_c_constructor, render_c_method, render_c_prologue, render_c_static_method,
};
use crate::cpp_header::{
    copy_by_clone, copy_deleted, cpp_class_end, cpp_constructor, cpp_destructor,
    cpp_dummy_constructor, cpp_method, cpp_namespace_end, cpp_no_destructor, cpp_prologue,
    cpp_static_method, cpp_static_void_method, cpp_void_method, forward_header, impl_prologue,
    inline_method, inline_static_method, inline_static_void_method, inline_void_method,
    methods_impls, render_copy_by_clone, render_copy_deleted, render_cpp_constructor,
    render_cpp_dummy_constructor, render_cpp_method, render_cpp_prologue,
    render_cpp_static_method, render_cpp_static_void_method, render_cpp_void_method,
    render_inline_method, render_inline_static_method, render_inline_static_void_method,
    render_inline_void_method,
};
use crate::text::{
    decimal, decimal_text, include_lines, render_include_lines, replace, replaced, same_text, texts,
};
use crate::types::{
    ClassJob, CppForeignTypeInfo, ForeignerClassInfo, ForeignerMethod, MethodAccess, MethodVariant,
    RenderedSignature,
};
use vstd::prelude::*;
use vstd::string::StringExecFns;

verus! {

/// Name of the C++ wrapper template of the class `name`.
pub open spec fn wrapper_name(name: Seq<char>) -> Seq<char> {
    name + "Wrapper"@
}

/// Name of the exported destructor of the class `name`.
pub open spec fn destructor_name(name: Seq<char>) -> Seq<char> {
    name + "_delete"@
}

/// The C++ keyword of an access.
pub open spec fn access_name(access: MethodAccess) -> Seq<char> {
    match access {
        MethodAccess::Private => "private"@,
        MethodAccess::Public => "public"@,
        MethodAccess::Protected => "protected"@,
    }
}

/// The label that changes the access `last` to `next`: none where they agree.
pub open spec fn access_label(last: MethodAccess, next: MethodAccess) -> Seq<char> {
    if last == next {
        seq![]
    } else {
        access_name(next) + ":\n"@
    }
}

/// The qualifier of a method that cannot change its object.
pub open spec fn const_if_readonly(read_only: bool) -> Seq<char> {
    if read_only {
        "const "@
    } else {
        seq![]
    }
}

/// `args` as they follow a first argument, given whether there are any.
pub open spec fn following(any: bool, args: Seq<char>) -> Seq<char> {
    if any {
        ", "@ + args
    } else {
        seq![]
    }
}

/// Whether a C function with this result returns a value.
pub open spec fn returns_value(output: CppForeignTypeInfo) -> bool {
    output.base.name@ != "void"@
}

/// The C++ type of a result, with every `struct` taken out of its name.
pub open spec fn cpp_ret_type(output: CppForeignTypeInfo) -> Seq<char> {
    replaced(
        match output.cpp_converter {
            Some(converter) => converter.typename@,
            None => output.base.name@,
        },
        "struct"@,
        ""@,
    )
}

/// The C++ expression that makes a result out of the C value `ret`.
pub open spec fn convert_ret_for_cpp(
    output: CppForeignTypeInfo,
    from_var_template: Seq<char>,
) -> Seq<char> {
    match output.cpp_converter {
        Some(converter) => replaced(converter.converter@, from_var_template, "ret"@),
        None => "ret"@,
    }
}

/// The text of an argument list that could be written.
pub open spec fn list(args: Result<String, String>) -> Seq<char> {
    args->Ok_0@
}

/// The first reason why an argument list of a signature could not be written.
pub open spec fn unwritten_list(sign: RenderedSignature) -> Option<Seq<char>> {
    if sign.c_args_with_types is Err {
        Some(sign.c_args_with_types->Err_0@)
    } else if sign.cpp_args_with_types is Err {
        Some(sign.cpp_args_with_types->Err_0@)
    } else if sign.cpp_args_for_c is Err {
        Some(sign.cpp_args_for_c->Err_0@)
    } else if sign.rust_args_with_types is Err {
        Some(sign.rust_args_with_types->Err_0@)
    } else {
        None
    }
}

/// Whether `method` is a call of a Rust function named `clone`.
pub open spec fn is_clone(method: ForeignerMethod) -> bool {
    &&& method.rust_id.segments@.len() > 0
    &&& method.rust_id.segments@.last()@ == "clone"@
}

/// Position of the first `clone` method at or behind `from`.
pub open spec fn first_clone(methods: Seq<ForeignerMethod>, from: int) -> Option<int>
    decreases methods.len() - from,
{
    if from >= methods.len() {
        None
    } else if is_clone(methods[from]) {
        Some(from)
    } else {
        first_clone(methods, from + 1)
    }
}

impl ForeignerClassInfo {
    /// Whether the class can have the copy operations that it asks for.
    pub open spec fn copy_is_possible(self) -> bool {
        self.copy_derived ==> first_clone(self.methods@, 0) is Some
    }

    /// The copy operations of the class.
    pub open spec fn copy_operations(self) -> Seq<char> {
        if self.copy_derived {
            copy_by_clone(
                wrapper_name(self.name@),
                self.methods@[first_clone(self.methods@, 0)->0].c_func_name@,
            )
        } else {
            copy_deleted(wrapper_name(self.name@))
        }
    }
}

impl ClassJob {
    /// Number of methods that have a signature.
    pub open spec fn paired(self) -> nat {
        if self.class.methods@.len() <= self.methods_sign@.len() {
            self.class.methods@.len()
        } else {
            self.methods_sign@.len()
        }
    }

    /// C++ access in force in front of the method number `i`.
    pub open spec fn access_before(self, i: int) -> MethodAccess {
        if i <= 0 {
            MethodAccess::Public
        } else {
            self.class.methods@[i - 1].access
        }
    }

    /// Whether one of the first `k` methods is a constructor.
    pub open spec fn constructs(self, k: int) -> bool {
        exists|i: int| 0 <= i < k && #[trigger] self.class.methods@[i].variant is Constructor
    }

    /// What the method number `i` adds to the C header.
    pub open spec fn c_part(self, i: int) -> Seq<char> {
        let method = self.class.methods@[i];
        let sign = self.methods_sign@[i];
        let ret_type = sign.signature.output.base.name@;
        let args = list(sign.c_args_with_types);
        match method.variant {
            MethodVariant::StaticMethod => method.doc_comments@ + c_static_method(
                ret_type,
                method.c_func_name@,
                args,
            ),
            MethodVariant::Method { read_only } => method.doc_comments@ + c_method(
                ret_type,
                method.c_func_name@,
                const_if_readonly(read_only),
                self.class.c_class_type@,
                following(args.len() > 0, args),
            ),
            MethodVariant::Constructor => if method.dummy_constructor {
                method.doc_comments@
            } else {
                method.doc_comments@ + c_constructor(
                    self.class.c_class_type@,
                    method.c_func_name@,
                    args,
                )
            },
        }
    }

    /// The C++ declaration of the method number `i`.
    pub open spec fn cpp_declaration(self, i: int) -> Seq<char> {
        let method = self.class.methods@[i];
        let sign = self.methods_sign@[i];
        let output = sign.signature.output;
        let name = method.short_name@;
        let args = list(sign.cpp_args_with_types);
        match method.variant {
            MethodVariant::StaticMethod => if returns_value(output) {
                cpp_static_method(cpp_ret_type(output), name, args)
            } else {
                cpp_static_void_method(name, args)
            },
            MethodVariant::Method { read_only } => if returns_value(output) {
                cpp_method(cpp_ret_type(output), name, args, const_if_readonly(read_only))
            } else {
                cpp_void_method(name, args, const_if_readonly(read_only))
            },
            MethodVariant::Constructor => if method.dummy_constructor {
                cpp_dummy_constructor(wrapper_name(self.class.name@))
            } else {
                cpp_constructor(
                    wrapper_name(self.class.name@),
                    args,
                    method.c_func_name@,
                    list(sign.cpp_args_for_c),
                )
            },
        }
    }

    /// What the method number `i` adds to the C++ header.
    pub open spec fn cpp_part(self, i: int) -> Seq<char> {
        let method = self.class.methods@[i];
        access_label(self.access_before(i), method.access) + method.doc_comments@
            + self.cpp_declaration(i)
    }

    /// The C++ definition of the method number `i`; a constructor is defined where
    /// it is declared.
    pub open spec fn inline_part(self, i: int) -> Seq<char> {
        let method = self.class.methods@[i];
        let sign = self.methods_sign@[i];
        let output = sign.signature.output;
        let class_name = wrapper_name(self.class.name@);
        let name = method.short_name@;
        let args = list(sign.cpp_args_with_types);
        let c_args = list(sign.cpp_args_for_c);
        let convert = convert_ret_for_cpp(output, self.from_var_template@);
        match method.variant {
            MethodVariant::StaticMethod => if returns_value(output) {
                inline_static_method(
                    cpp_ret_type(output),
                    class_name,
                    name,
                    args,
                    output.base.name@,
                    method.c_func_name@,
                    c_args,
                    convert,
                )
            } else {
                inline_static_void_method(class_name, name, args, method.c_func_name@, c_args)
            },
            MethodVariant::Method { read_only } => if returns_value(output) {
                inline_method(
                    cpp_ret_type(output),
                    class_name,
                    name,
                    args,
                    const_if_readonly(read_only),
                    output.base.name@,
                    method.c_func_name@,
                    following(sign.args_names@.len() > 0, c_args),
                    convert,
                )
            } else {
                inline_void_method(
                    class_name,
                    name,
                    args,
                    const_if_readonly(read_only),
                    method.c_func_name@,
                    following(sign.args_names@.len() > 0, c_args),
                )
            },
            MethodVariant::Constructor => seq![],
        }
    }

    /// The C header up to and including the first `k` methods.
    pub open spec fn c_text(self, k: int) -> Seq<char>
        decreases k,
    {
        if k <= 0 {
            c_prologue(
                self.class.doc_comments@,
                decimal((self.target_pointer_width / 8) as nat),
                self.class.c_class_type@,
            )
        } else {
            self.c_text(k - 1) + self.c_part(k - 1)
        }
    }

    /// The C++ header up to and including the first `k` methods.
    pub open spec fn cpp_text(self, k: int) -> Seq<char>
        decreases k,
    {
        if k <= 0 {
            cpp_prologue(
                include_lines(texts(self.req_includes@)),
                self.class.name@,
                self.namespace_name@,
                wrapper_name(self.class.name@),
                self.class.doc_comments@,
                self.class.c_class_type@,
            ) + self.class.copy_operations()
        } else {
            self.cpp_text(k - 1) + self.cpp_part(k - 1)
        }
    }

    /// The C++ definitions of the first `k` methods.
    pub open spec fn inline_text(self, k: int) -> Seq<char>
        decreases k,
    {
        if k <= 0 {
            seq![]
        } else {
            self.inline_text(k - 1) + self.inline_part(k - 1)
        }
    }

    /// Whether the class has a destructor.
    pub open spec fn has_destructor(self) -> bool {
        self.constructs(self.paired() as int)
    }

    /// The whole C header.
    pub open spec fn c_header(self) -> Seq<char> {
        let methods = self.c_text(self.paired() as int);
        if self.has_destructor() {
            methods + c_destructor(destructor_name(self.class.name@), self.class.c_class_type@)
                + c_epilogue()
        } else {
            methods + c_epilogue()
        }
    }

    /// The C++ header up to the end of the wrapper template.
    pub open spec fn cpp_class(self) -> Seq<char> {
        self.cpp_text(self.paired() as int) + (if self.has_destructor() {
            cpp_destructor(destructor_name(self.class.name@), wrapper_name(self.class.name@))
        } else {
            cpp_no_destructor()
        }) + cpp_class_end(self.class.foreigner_code@)
    }

    /// The C++ definitions and the end of the namespace.
    pub open spec fn definitions(self) -> Seq<char> {
        methods_impls(self.inline_text(self.paired() as int), self.namespace_name@)
    }

    /// The whole C++ header.
    pub open spec fn cpp_header(self) -> Seq<char> {
        if self.separate_impl_headers {
            self.cpp_class() + cpp_namespace_end(self.namespace_name@)
        } else {
            self.cpp_class() + self.definitions()
        }
    }

    /// The whole file of C++ definitions.
    pub open spec fn impl_header(self) -> Seq<char> {
        impl_prologue(self.class.name@, self.namespace_name@) + self.definitions()
    }

    /// The whole file of forward declarations.
    pub open spec fn fwd_header(self) -> Seq<char> {
        forward_header(
            self.namespace_name@,
            wrapper_name(self.class.name@),
            self.class.name@,
        )
    }

    /// The files of the class with their names, in the order in which they are
    /// brought up to date.
    pub open spec fn files(self) -> Seq<(Seq<char>, Seq<char>)> {
        let headers = seq![
            (fwd_header_name(self.class.name@), self.fwd_header()),
            (c_header_name(self.class.name@), self.c_header()),
            (self.class.cpp_header_name@, self.cpp_header()),
        ];
        if self.separate_impl_headers {
            seq![(impl_header_name(self.class.name@), self.impl_header())] + headers
        } else {
            headers
        }
    }
}

/// Name of the C header of the class `name`.
pub open spec fn c_header_name(name: Seq<char>) -> Seq<char> {
    "c_"@ + name + ".h"@
}

/// Name of the file of forward declarations of the class `name`.
pub open spec fn fwd_header_name(name: Seq<char>) -> Seq<char> {
    name + "_fwd.hpp"@
}

/// Name of the file of C++ definitions of the class `name`.
pub open spec fn impl_header_name(name: Seq<char>) -> Seq<char> {
    name + "_impl.hpp"@
}

/// Names the C++ wrapper template of the class `name`.
pub fn render_wrapper_name(name: &str) -> (text: String)
    ensures
        text@ == wrapper_name(name@),
{
    name.to_string().concat("Wrapper")
}

/// Names the exported destructor of the class `name`.
pub fn render_destructor_name(name: &str) -> (text: String)
    ensures
        text@ == destructor_name(name@),
{
    name.to_string().concat("_delete")
}

/// Names the C header of the class `name`.
pub fn render_c_header_name(name: &str) -> (text: String)
    ensures
        text@ == c_header_name(name@),
{
    "c_".to_string().concat(name).concat(".h")
}

/// Names the file of forward declarations of the class `name`.
pub fn render_fwd_header_name(name: &str) -> (text: String)
    ensures
        text@ == fwd_header_name(name@),
{
    name.to_string().concat("_fwd.hpp")
}

/// Names the file of C++ definitions of the class `name`.
pub fn render_impl_header_name(name: &str) -> (text: String)
    ensures
        text@ == impl_header_name(name@),
{
    name.to_string().concat("_impl.hpp")
}

/// Writes the C++ keyword of an access.
pub fn render_access_name(access: MethodAccess) -> (text: &'static str)
    ensures
        text@ == access_name(access),
{
    match access {
        MethodAccess::Private => "private",
        MethodAccess::Public => "public",
        MethodAccess::Protected => "protected",
    }
}

/// Writes the label that changes the access `last` to `next`.
pub fn render_access_label(last: MethodAccess, next: MethodAccess) -> (text: String)
    ensures
        text@ == access_label(last, next),
{
    if last == next {
        String::new()
    } else {
        render_access_name(next).to_string().concat(":\n")
    }
}

/// Writes the qualifier of a method that cannot change its object.
pub fn render_const_if_readonly(read_only: bool) -> (text: &'static str)
    ensures
        text@ == const_if_readonly(read_only),
{
    if read_only {
        "const "
    } else {
        proof {
            reveal_strlit("");
        }
        ""
    }
}

/// Writes `args` as they follow a first argument, given whether there are any.
pub fn render_following(any: bool, args: &str) -> (text: String)
    ensures
        text@ == following(any, args@),
{
    if any {
        ", ".to_string().concat(args)
    } else {
        String::new()
    }
}

/// Tells whether a C function with this result returns a value.
pub fn output_returns_value(output: &CppForeignTypeInfo) -> (res: bool)
    ensures
        res == returns_value(*output),
{
    !same_text(output.base.name.as_str(), "void")
}

/// Writes the C++ type of a result.
pub fn render_cpp_ret_type(output: &CppForeignTypeInfo) -> (text: String)
    ensures
        text@ == cpp_ret_type(*output),
{
    match &output.cpp_converter {
        Some(converter) => replace(converter.typename.as_str(), "struct", ""),
        None => replace(output.base.name.as_str(), "struct", ""),
    }
}

/// Writes the C++ expression that makes a result out of the C value `ret`.
pub fn render_convert_ret_for_cpp(
    output: &CppForeignTypeInfo,
    from_var_template: &str,
) -> (text: String)
    ensures
        text@ == convert_ret_for_cpp(*output, from_var_template@),
{
    match &output.cpp_converter {
        Some(converter) => replace(converter.converter.as_str(), from_var_template, "ret"),
        None => "ret".to_string(),
    }
}

/// The argument lists of a method, all of which could be written.
pub struct ArgumentLists<'a> {
    pub c_args_with_types: &'a str,
    pub cpp_args_with_types: &'a str,
    pub cpp_args_for_c: &'a str,
    pub rust_args_with_types: &'a str,
}

impl<'a> ArgumentLists<'a> {
    /// Whether these are the argument lists of `sign`.
    pub open spec fn of(self, sign: RenderedSignature) -> bool {
        &&& unwritten_list(sign) is None
        &&& self.c_args_with_types@ == list(sign.c_args_with_types)
        &&& self.cpp_args_with_types@ == list(sign.cpp_args_with_types)
        &&& self.cpp_args_for_c@ == list(sign.cpp_args_for_c)
        &&& self.rust_args_with_types@ == list(sign.rust_args_with_types)
    }
}

/// Takes the argument lists of a signature, or the first reason why one of them
/// could not be written.
pub fn argument_lists<'a>(sign: &'a RenderedSignature) -> (res: Result<
    ArgumentLists<'a>,
    &'a str,
>)
    ensures
        match res {
            Ok(lists) => lists.of(*sign),
            Err(reason) => unwritten_list(*sign) == Some(reason@),
        },
{
    let c_args_with_types = match &sign.c_args_with_types {
        Ok(args) => args.as_str(),
        Err(reason) => {
            return Err(reason.as_str());
        },
    };
    let cpp_args_with_types = match &sign.cpp_args_with_types {
        Ok(args) => args.as_str(),
        Err(reason) => {
            return Err(reason.as_str());
        },
    };
    let cpp_args_for_c = match &sign.cpp_args_for_c {
        Ok(args) => args.as_str(),
        Err(reason) => {
            return Err(reason.as_str());
        },
    };
    let rust_args_with_types = match &sign.rust_args_with_types {
        Ok(args) => args.as_str(),
        Err(reason) => {
            return Err(reason.as_str());
        },
    };
    Ok(
        ArgumentLists {
            c_args_with_types,
            cpp_args_with_types,
            cpp_args_for_c,
            rust_args_with_types,
        },
    )
}

/// Tells whether `method` is a call of a Rust function named `clone`.
pub fn method_is_clone(method: &ForeignerMethod) -> (res: bool)
    ensures
        res == is_clone(*method),
{
    let n = method.rust_id.segments.len();
    n > 0 && same_text(method.rust_id.segments[n - 1].as_str(), "clone")
}

/// Finds the first `clone` method.
pub fn find_clone(methods: &Vec<ForeignerMethod>) -> (res: Option<usize>)
    ensures
        match res {
            Some(i) => first_clone(methods@, 0) == Some(i as int) && i < methods@.len(),
            None => first_clone(methods@, 0) is None,
        },
{
    let n = methods.len();
    for i in 0..n
        invariant
            n == methods@.len(),
            first_clone(methods@, 0) == first_clone(methods@, i as int),
    {
        if method_is_clone(&methods[i]) {
            return Some(i);
        }
    }
    None
}

/// Writes the copy operations of a class, where it can have them.
pub fn render_copy_operations(class: &ForeignerClassInfo) -> (res: Option<String>)
    ensures
        match res {
            Some(text) => class.copy_is_possible() && text@ == class.copy_operations(),
            None => !class.copy_is_possible(),
        },
{
    let class_name = render_wrapper_name(class.name.as_str());
    if class.copy_derived {
        match find_clone(&class.methods) {
            Some(pos) => Some(
                render_copy_by_clone(
                    class_name.as_str(),
                    class.methods[pos].c_func_name.as_str(),
                ),
            ),
            None => None,
        }
    } else {
        Some(render_copy_deleted(class_name.as_str()))
    }
}

/// Counts the methods that have a signature.
pub fn count_paired(job: &ClassJob) -> (n: usize)
    ensures
        n == job.paired(),
{
    if job.class.methods.len() <= job.methods_sign.len() {
        job.class.methods.len()
    } else {
        job.methods_sign.len()
    }
}

/// Writes the opening of the C header of a class.
pub fn render_c_opening(job: &ClassJob) -> (text: String)
    ensures
        text@ == job.c_text(0),
{
    render_c_prologue(
        job.class.doc_comments.as_str(),
        decimal_text(job.target_pointer_width / 8).as_str(),
        job.class.c_class_type.as_str(),
    )
}

/// Writes the opening of the C++ header of a class, where it can have the copy
/// operations that it asks for.
pub fn render_cpp_opening(job: &ClassJob) -> (res: Option<String>)
    ensures
        match res {
            Some(text) => job.class.copy_is_possible() && text@ == job.cpp_text(0),
            None => !job.class.copy_is_possible(),
        },
{
    let class_name = render_wrapper_name(job.class.name.as_str());
    let opening = render_cpp_prologue(
        render_include_lines(&job.req_includes).as_str(),
        job.class.name.as_str(),
        job.namespace_name.as_str(),
        class_name.as_str(),
        job.class.doc_comments.as_str(),
        job.class.c_class_type.as_str(),
    );
    match render_copy_operations(&job.class) {
        Some(copy) => Some(opening.concat(copy.as_str())),
        None => None,
    }
}

/// Writes what the method number `i` adds to the C header.
pub fn render_c_part(job: &ClassJob, i: usize, lists: &ArgumentLists) -> (text: String)
    requires
        i < job.paired(),
        lists.of(job.methods_sign@[i as int]),
    ensures
        text@ == job.c_part(i as int),
{
    let method = &job.class.methods[i];
    let ret_type = job.methods_sign[i].signature.output.base.name.as_str();
    let args = lists.c_args_with_types;
    let doc = method.doc_comments.as_str().to_string();
    match method.variant {
        MethodVariant::StaticMethod => doc.concat(
            render_c_static_method(ret_type, method.c_func_name.as_str(), args).as_str(),
        ),
        MethodVariant::Method { read_only } => doc.concat(
            render_c_method(
                ret_type,
                method.c_func_name.as_str(),
                render_const_if_readonly(read_only),
                job.class.c_class_type.as_str(),
                render_following(!args.is_empty(), args).as_str(),
            ).as_str(),
        ),
        MethodVariant::Constructor => {
            if method.dummy_constructor {
                doc
            } else {
                doc.concat(
                    render_c_constructor(
                        job.class.c_class_type.as_str(),
                        method.c_func_name.as_str(),
                        args,
                    ).as_str(),
                )
            }
        },
    }
}

/// Writes the C++ declaration of the method number `i`.
pub fn render_cpp_declaration(job: &ClassJob, i: usize, lists: &ArgumentLists) -> (text: String)
    requires
        i < job.paired(),
        lists.of(job.methods_sign@[i as int]),
    ensures
        text@ == job.cpp_declaration(i as int),
{
    let method = &job.class.methods[i];
    let output = &job.methods_sign[i].signature.output;
    let name = method.short_name.as_str();
    let args = lists.cpp_args_with_types;
    match method.variant {
        MethodVariant::StaticMethod => {
            if output_returns_value(output) {
                render_cpp_static_method(render_cpp_ret_type(output).as_str(), name, args)
            } else {
                render_cpp_static_void_method(name, args)
            }
        },
        MethodVariant::Method { read_only } => {
            if output_returns_value(output) {
                render_cpp_method(
                    render_cpp_ret_type(output).as_str(),
                    name,
                    args,
                    render_const_if_readonly(read_only),
                )
            } else {
                render_cpp_void_method(name, args, render_const_if_readonly(read_only))
            }
        },
        MethodVariant::Constructor => {
            let class_name = render_wrapper_name(job.class.name.as_str());
            if method.dummy_constructor {
                render_cpp_dummy_constructor(class_name.as_str())
            } else {
                render_cpp_constructor(
                    class_name.as_str(),
                    args,
                    method.c_func_name.as_str(),
                    lists.cpp_args_for_c,
                )
            }
        },
    }
}

/// Writes what the method number `i` adds to the C++ header, behind the access
/// `last`.
pub fn render_cpp_part(
    job: &ClassJob,
    i: usize,
    last: MethodAccess,
    lists: &ArgumentLists,
) -> (text: String)
    requires
        i < job.paired(),
        lists.of(job.methods_sign@[i as int]),
        last == job.access_before(i as int),
    ensures
        text@ == job.cpp_part(i as int),
{
    let method = &job.class.methods[i];
    let declaration = render_cpp_declaration(job, i, lists);
    render_access_label(last, method.access).concat(method.doc_comments.as_str()).concat(
        declaration.as_str(),
    )
}

/// Writes the C++ definition of the method number `i`.
pub fn render_inline_part(job: &ClassJob, i: usize, lists: &ArgumentLists) -> (text: String)
    requires
        i < job.paired(),
        lists.of(job.methods_sign@[i as int]),
    ensures
        text@ == job.inline_part(i as int),
{
    let method = &job.class.methods[i];
    let sign = &job.methods_sign[i];
    let output = &sign.signature.output;
    let class_name = render_wrapper_name(job.class.name.as_str());
    let name = method.short_name.as_str();
    let args = lists.cpp_args_with_types;
    let c_args = lists.cpp_args_for_c;
    let convert = render_convert_ret_for_cpp(output, job.from_var_template.as_str());
    match method.variant {
        MethodVariant::StaticMethod => {
            if output_returns_value(output) {
                render_inline_static_method(
                    render_cpp_ret_type(output).as_str(),
                    class_name.as_str(),
                    name,
                    args,
                    output.base.name.as_str(),
                    method.c_func_name.as_str(),
                    c_args,
                    convert.as_str(),
                )
            } else {
                render_inline_static_void_method(
                    class_name.as_str(),
                    name,
                    args,
                    method.c_func_name.as_str(),
                    c_args,
                )
            }
        },
        MethodVariant::Method { read_only } => {
            let any = !sign.args_names.as_str().is_empty();
            let following_args = render_following(any, c_args);
            if output_returns_value(output) {
                render_inline_method(
                    render_cpp_ret_type(output).as_str(),
                    class_name.as_str(),
                    name,
                    args,
                    render_const_if_readonly(read_only),
                    output.base.name.as_str(),
                    method.c_func_name.as_str(),
                    following_args.as_str(),
                    convert.as_str(),
                )
            } else {
                render_inline_void_method(
                    class_name.as_str(),
                    name,
                    args,
                    render_const_if_readonly(read_only),
                    method.c_func_name.as_str(),
                    following_args.as_str(),
                )
            }
        },
        MethodVariant::Constructor => String::new(),
    }
}

} // verus!
