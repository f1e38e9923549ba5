//! What a class says of itself, as far as its C++ side depends on it.

use vstd::prelude::*;

verus! {

/// C++ access of a method.
#[derive(Clone, Copy, Debug, PartialEq, Eq, Structural)]
pub enum MethodAccess {
    Private,
    Public,
    Protected,
}

/// How a method takes the object that it is called on.
#[derive(Clone, Copy, Debug, PartialEq, Eq, Structural)]
pub enum MethodVariant {
    /// Returns a new object.
    Constructor,
    /// Takes the object; `read_only` when it cannot change it.
    Method { read_only: bool },
    /// Takes no object.
    StaticMethod,
}

/// The path of the Rust function behind a method.
#[derive(Debug)]
pub struct RustPath {
    /// The names of its segments, in their order.
    pub segments: Vec<String>,
    /// The path as Rust code.
    pub text: String,
}

/// The declared result of the Rust function behind a method.
#[derive(Debug)]
pub enum ReturnType {
    /// No result is declared.
    Default,
    /// The declared type, with its lifetimes normalized.
    Type(String),
}

/// A method of a foreign class.
#[derive(Debug)]
pub struct ForeignerMethod {
    pub variant: MethodVariant,
    pub access: MethodAccess,
    /// Documentation of the method, as C comments.
    pub doc_comments: String,
    pub rust_id: RustPath,
    /// Name of the method in C++.
    pub short_name: String,
    /// Name of the exported C function.
    pub c_func_name: String,
    /// Whether this is a constructor without a Rust function behind it.
    pub dummy_constructor: bool,
    /// Number of declared arguments, with the one for the object itself.
    pub inputs: usize,
    pub output: ReturnType,
}

/// A class that is exported to C++.
#[derive(Debug)]
pub struct ForeignerClassInfo {
    pub name: String,
    /// Name of the opaque C type that stands for the class.
    pub c_class_type: String,
    /// Name of the C++ header of the class.
    pub cpp_header_name: String,
    /// Documentation of the class, as C comments.
    pub doc_comments: String,
    /// Whether C++ code may copy objects of the class.
    pub copy_derived: bool,
    /// Whether some constructor tells the type that constructors return.
    pub has_constructor_ret_type: bool,
    pub methods: Vec<ForeignerMethod>,
    /// C++ code that the class adds to its header.
    pub foreigner_code: String,
}

/// A type as C sees it.
#[derive(Debug)]
pub struct ForeignTypeInfo {
    /// Name of the type in C.
    pub name: String,
    /// Normalized name of the Rust type that corresponds to it.
    pub rust_type: String,
}

/// How C++ shows a C type.
#[derive(Debug)]
pub struct CppConverter {
    /// Name of the type in C++.
    pub typename: String,
    /// C++ expression that converts a value, over a place-holder.
    pub converter: String,
}

/// A type as C and C++ see it.
#[derive(Debug)]
pub struct CppForeignTypeInfo {
    pub base: ForeignTypeInfo,
    /// The conversion between the two, where C++ shows another type.
    pub cpp_converter: Option<CppConverter>,
}

/// The types of a method as C and C++ see them.
#[derive(Debug)]
pub struct CppForeignMethodSignature {
    pub output: CppForeignTypeInfo,
    /// One type for each argument but the object itself.
    pub input: Vec<CppForeignTypeInfo>,
}

/// A signature with the argument lists that were written out for it.
///
/// A list that could not be written holds the reason.
#[derive(Debug)]
pub struct RenderedSignature {
    pub signature: CppForeignMethodSignature,
    /// Arguments of the C declaration.
    pub c_args_with_types: Result<String, String>,
    /// Arguments of the C++ declaration.
    pub cpp_args_with_types: Result<String, String>,
    /// Arguments of the C call in the C++ definition.
    pub cpp_args_for_c: Result<String, String>,
    /// Arguments of the Rust declaration.
    pub rust_args_with_types: Result<String, String>,
    /// Names of the arguments, in a call.
    pub args_names: String,
    /// Rust name of the type that the exported function returns.
    pub c_ret_type: String,
}

/// Everything that decides the C++ side of one class.
#[derive(Debug)]
pub struct ClassJob {
    pub class: ForeignerClassInfo,
    /// The signatures of the methods, in the order of the methods.
    pub methods_sign: Vec<RenderedSignature>,
    pub namespace_name: String,
    /// Pointer width of the target, in bits.
    pub target_pointer_width: usize,
    /// Whether the C++ definitions go to a file of their own.
    pub separate_impl_headers: bool,
    /// Operands of the directives that the C++ header starts with.
    pub req_includes: Vec<String>,
    /// Place-holder of the converted value in a conversion from C.
    pub from_var_template: String,
    /// Place-holder of the produced value in a conversion to Rust.
    pub to_var_template: String,
}

} // verus!
