//! The text of the C++ headers, piece by piece.

use vstd::prelude::*;
use vstd::string::StringExecFns;

verus! {

/// Opening of the C++ header: the wrapper template, its two aliases and its
/// ownership operations.
pub open spec fn cpp_prologue(
    includes: Seq<char>,
    class_dot_name: Seq<char>,
    namespace: Seq<char>,
    class_name: Seq<char>,
    doc_comments: Seq<char>,
    c_class_type: Seq<char>,
) -> Seq<char> {
    r"// Automaticaly generated by rust_swig
#pragma once

//for std::abort
#include <cstdlib>
//for std::move
#include <utility>
//for std::conditional
#include <type_traits>

"@ + includes + "\n#include \"c_"@ + class_dot_name + r#".h"

namespace "#@ + namespace + r" {

template<bool>
class "@ + class_name + ";\nusing "@ + class_dot_name + " = "@ + class_name + "<true>;\nusing "@
        + class_dot_name + "Ref = "@ + class_name + r"<false>;

"@ + doc_comments + r"
template<bool OWN_DATA>
class "@ + class_name + r" {
public:
    using SelfType = typename std::conditional<OWN_DATA, "@ + c_class_type + " *, const "@
        + c_class_type + " *>::type;\n    using CForeignType = "@ + c_class_type
        + ";\n    using value_type = "@ + class_name + "<true>;\n    friend class "@ + class_name
        + "<true>;\n    friend class "@ + class_name + r"<false>;

    "@ + class_name + "("@ + class_name + r" &&o) noexcept: self_(o.self_)
    {
        o.self_ = nullptr;
    }
    "@ + class_name + " &operator=("@ + class_name + r" &&o) noexcept
    {
        assert(this != &o);
        free_mem(this->self_);
        self_ = o.self_;
        o.self_ = nullptr;
        return *this;
    }
    explicit "@ + class_name + "(SelfType o) noexcept: self_(o) {}\n    "@ + c_class_type
        + r" *release() noexcept
    {
        "@ + c_class_type + r" *ret = self_;
        self_ = nullptr;
        return ret;
    }
    explicit operator SelfType() const noexcept { return self_; }
    "@ + class_name + "<false> as_rref() const noexcept { return "@ + class_name
        + "<false>{ self_ }; }\n    const "@ + class_name
        + "<true> &as_cref() const noexcept { return reinterpret_cast<const "@ + class_name
        + "<true> &>(*this); }\n"@
}

/// Builds the opening of the C++ header.
pub fn render_cpp_prologue(
    includes: &str,
    class_dot_name: &str,
    namespace: &str,
    class_name: &str,
    doc_comments: &str,
    c_class_type: &str,
) -> (text: String)
    ensures
        text@ == cpp_prologue(
            includes@,
            class_dot_name@,
            namespace@,
            class_name@,
            doc_comments@,
            c_class_type@,
        ),
{
    r"// Automaticaly generated by rust_swig
#pragma once

//for std::abort
#include <cstdlib>
//for std::move
#include <utility>
//for std::conditional
#include <type_traits>

".to_string().concat(includes).concat("\n#include \"c_").concat(class_dot_name).concat(r#".h"

namespace "#).concat(namespace).concat(r" {

template<bool>
class ").concat(class_name).concat(";\nusing ").concat(class_dot_name).concat(" = ")
        .concat(class_name).concat("<true>;\nusing ").concat(class_dot_name).concat("Ref = ")
        .concat(class_name).concat(r"<false>;

").concat(doc_comments).concat(r"
template<bool OWN_DATA>
class ").concat(class_name).concat(r" {
public:
    using SelfType = typename std::conditional<OWN_DATA, ").concat(c_class_type)
        .concat(" *, const ").concat(c_class_type).concat(" *>::type;\n    using CForeignType = ")
        .concat(c_class_type).concat(";\n    using value_type = ").concat(class_name)
        .concat("<true>;\n    friend class ").concat(class_name)
        .concat("<true>;\n    friend class ").concat(class_name).concat(r"<false>;

    ").concat(class_name).concat("(").concat(class_name).concat(r" &&o) noexcept: self_(o.self_)
    {
        o.self_ = nullptr;
    }
    ").concat(class_name).concat(" &operator=(").concat(class_name).concat(r" &&o) noexcept
    {
        assert(this != &o);
        free_mem(this->self_);
        self_ = o.self_;
        o.self_ = nullptr;
        return *this;
    }
    explicit ").concat(class_name).concat("(SelfType o) noexcept: self_(o) {}\n    ")
        .concat(c_class_type).concat(r" *release() noexcept
    {
        ").concat(c_class_type).concat(r" *ret = self_;
        self_ = nullptr;
        return ret;
    }
    explicit operator SelfType() const noexcept { return self_; }
    ").concat(class_name).concat("<false> as_rref() const noexcept { return ").concat(class_name)
        .concat("<false>{ self_ }; }\n    const ").concat(class_name)
        .concat("<true> &as_cref() const noexcept { return reinterpret_cast<const ")
        .concat(class_name).concat("<true> &>(*this); }\n")
}

/// Copy operations of a class that cannot be copied.
pub open spec fn copy_deleted(class_name: Seq<char>) -> Seq<char> {
    "\n    "@ + class_name + "(const "@ + class_name + "&) = delete;\n    "@ + class_name
        + " &operator=(const "@ + class_name + "&) = delete;\n"@
}

/// Builds the copy operations of a class that cannot be copied.
pub fn render_copy_deleted(class_name: &str) -> (text: String)
    ensures
        text@ == copy_deleted(class_name@),
{
    "\n    ".to_string().concat(class_name).concat("(const ").concat(class_name)
        .concat("&) = delete;\n    ").concat(class_name).concat(" &operator=(const ")
        .concat(class_name).concat("&) = delete;\n")
}

/// Copy operations that go through the exported `clone` function.
pub open spec fn copy_by_clone(class_name: Seq<char>, c_clone_func: Seq<char>) -> Seq<char> {
    "\n            "@ + class_name + "(const "@ + class_name + r#"& o) noexcept {
                static_assert(OWN_DATA, "copy possible only if class own data");

                 if (o.self_ != nullptr) {
                     self_ = "#@ + c_clone_func + r"(o.self_);
                 } else {
                     self_ = nullptr;
                 }
            }
            "@ + class_name + " &operator=(const "@ + class_name + r#"& o) noexcept {
                static_assert(OWN_DATA, "copy possible only if class own data");
                if (this != &o) {
                    free_mem(this->self_);
                    if (o.self_ != nullptr) {
                        self_ = "#@ + c_clone_func + r"(o.self_);
                    } else {
                        self_ = nullptr;
                    }
                }
                return *this;
            }
        "@
}

/// Builds the copy operations that go through the exported `clone` function.
pub fn render_copy_by_clone(class_name: &str, c_clone_func: &str) -> (text: String)
    ensures
        text@ == copy_by_clone(class_name@, c_clone_func@),
{
    "\n            ".to_string().concat(class_name).concat("(const ").concat(class_name)
        .concat(r#"& o) noexcept {
                static_assert(OWN_DATA, "copy possible only if class own data");

                 if (o.self_ != nullptr) {
                     self_ = "#).concat(c_clone_func).concat(r"(o.self_);
                 } else {
                     self_ = nullptr;
                 }
            }
            ").concat(class_name).concat(" &operator=(const ").concat(class_name)
        .concat(r#"& o) noexcept {
                static_assert(OWN_DATA, "copy possible only if class own data");
                if (this != &o) {
                    free_mem(this->self_);
                    if (o.self_ != nullptr) {
                        self_ = "#).concat(c_clone_func).concat(r"(o.self_);
                    } else {
                        self_ = nullptr;
                    }
                }
                return *this;
            }
        ")
}

/// C++ declaration of a static method with a result.
pub open spec fn cpp_static_method(
    cpp_ret_type: Seq<char>,
    method_name: Seq<char>,
    cpp_args_with_types: Seq<char>,
) -> Seq<char> {
    "\n    static "@ + cpp_ret_type + " "@ + method_name + "("@ + cpp_args_with_types
        + ") noexcept;\n"@
}

/// Builds the C++ declaration of a static method with a result.
pub fn render_cpp_static_method(
    cpp_ret_type: &str,
    method_name: &str,
    cpp_args_with_types: &str,
) -> (text: String)
    ensures
        text@ == cpp_static_method(cpp_ret_type@, method_name@, cpp_args_with_types@),
{
    "\n    static ".to_string().concat(cpp_ret_type).concat(" ").concat(method_name).concat("(")
        .concat(cpp_args_with_types).concat(") noexcept;\n")
}

/// C++ declaration of a static method without a result.
pub open spec fn cpp_static_void_method(
    method_name: Seq<char>,
    cpp_args_with_types: Seq<char>,
) -> Seq<char> {
    "\n    static void "@ + method_name + "("@ + cpp_args_with_types + ") noexcept;\n"@
}

/// Builds the C++ declaration of a static method without a result.
pub fn render_cpp_static_void_method(method_name: &str, cpp_args_with_types: &str) -> (text: String)
    ensures
        text@ == cpp_static_void_method(method_name@, cpp_args_with_types@),
{
    "\n    static void ".to_string().concat(method_name).concat("(").concat(cpp_args_with_types)
        .concat(") noexcept;\n")
}

/// C++ definition of a static method with a result.
pub open spec fn inline_static_method(
    cpp_ret_type: Seq<char>,
    class_name: Seq<char>,
    method_name: Seq<char>,
    cpp_args_with_types: Seq<char>,
    c_ret_type: Seq<char>,
    c_func_name: Seq<char>,
    cpp_args_for_c: Seq<char>,
    convert_ret_for_cpp: Seq<char>,
) -> Seq<char> {
    r"
    template<bool OWN_DATA>
    inline "@ + cpp_ret_type + " "@ + class_name + "<OWN_DATA>::"@ + method_name + "("@
        + cpp_args_with_types + r") noexcept
    {
        "@ + c_ret_type + " ret = "@ + c_func_name + "("@ + cpp_args_for_c + ");\n        return "@
        + convert_ret_for_cpp + r";
    }
"@
}

/// Builds the C++ definition of a static method with a result.
pub fn render_inline_static_method(
    cpp_ret_type: &str,
    class_name: &str,
    method_name: &str,
    cpp_args_with_types: &str,
    c_ret_type: &str,
    c_func_name: &str,
    cpp_args_for_c: &str,
    convert_ret_for_cpp: &str,
) -> (text: String)
    ensures
        text@ == inline_static_method(
            cpp_ret_type@,
            class_name@,
            method_name@,
            cpp_args_with_types@,
            c_ret_type@,
            c_func_name@,
            cpp_args_for_c@,
            convert_ret_for_cpp@,
        ),
{
    r"
    template<bool OWN_DATA>
    inline ".to_string().concat(cpp_ret_type).concat(" ").concat(class_name).concat("<OWN_DATA>::")
        .concat(method_name).concat("(").concat(cpp_args_with_types).concat(r") noexcept
    {
        ").concat(c_ret_type).concat(" ret = ").concat(c_func_name).concat("(")
        .concat(cpp_args_for_c).concat(");\n        return ").concat(convert_ret_for_cpp).concat(r";
    }
")
}

/// C++ definition of a static method without a result.
pub open spec fn inline_static_void_method(
    class_name: Seq<char>,
    method_name: Seq<char>,
    cpp_args_with_types: Seq<char>,
    c_func_name: Seq<char>,
    cpp_args_for_c: Seq<char>,
) -> Seq<char> {
    r"
    template<bool OWN_DATA>
    inline void "@ + class_name + "<OWN_DATA>::"@ + method_name + "("@ + cpp_args_with_types
        + r") noexcept
    {
        "@ + c_func_name + "("@ + cpp_args_for_c + r");
    }
"@
}

/// Builds the C++ definition of a static method without a result.
pub fn render_inline_static_void_method(
    class_name: &str,
    method_name: &str,
    cpp_args_with_types: &str,
    c_func_name: &str,
    cpp_args_for_c: &str,
) -> (text: String)
    ensures
        text@ == inline_static_void_method(
            class_name@,
            method_name@,
            cpp_args_with_types@,
            c_func_name@,
            cpp_args_for_c@,
        ),
{
    r"
    template<bool OWN_DATA>
    inline void ".to_string().concat(class_name).concat("<OWN_DATA>::").concat(method_name)
        .concat("(").concat(cpp_args_with_types).concat(r") noexcept
    {
        ").concat(c_func_name).concat("(").concat(cpp_args_for_c).concat(r");
    }
")
}

/// C++ declaration of a method with a result.
pub open spec fn cpp_method(
    cpp_ret_type: Seq<char>,
    method_name: Seq<char>,
    cpp_args_with_types: Seq<char>,
    const_if_readonly: Seq<char>,
) -> Seq<char> {
    "\n    "@ + cpp_ret_type + " "@ + method_name + "("@ + cpp_args_with_types + ") "@
        + const_if_readonly + " noexcept;\n"@
}

/// Builds the C++ declaration of a method with a result.
pub fn render_cpp_method(
    cpp_ret_type: &str,
    method_name: &str,
    cpp_args_with_types: &str,
    const_if_readonly: &str,
) -> (text: String)
    ensures
        text@ == cpp_method(cpp_ret_type@, method_name@, cpp_args_with_types@, const_if_readonly@),
{
    "\n    ".to_string().concat(cpp_ret_type).concat(" ").concat(method_name).concat("(")
        .concat(cpp_args_with_types).concat(") ").concat(const_if_readonly).concat(" noexcept;\n")
}

/// C++ declaration of a method without a result.
pub open spec fn cpp_void_method(
    method_name: Seq<char>,
    cpp_args_with_types: Seq<char>,
    const_if_readonly: Seq<char>,
) -> Seq<char> {
    "\n    void "@ + method_name + "("@ + cpp_args_with_types + ") "@ + const_if_readonly
        + " noexcept;\n"@
}

/// Builds the C++ declaration of a method without a result.
pub fn render_cpp_void_method(
    method_name: &str,
    cpp_args_with_types: &str,
    const_if_readonly: &str,
) -> (text: String)
    ensures
        text@ == cpp_void_method(method_name@, cpp_args_with_types@, const_if_readonly@),
{
    "\n    void ".to_string().concat(method_name).concat("(").concat(cpp_args_with_types)
        .concat(") ").concat(const_if_readonly).concat(" noexcept;\n")
}

/// C++ definition of a method with a result; `cpp_args_for_c` starts with a comma
/// unless it is empty.
pub open spec fn inline_method(
    cpp_ret_type: Seq<char>,
    class_name: Seq<char>,
    method_name: Seq<char>,
    cpp_args_with_types: Seq<char>,
    const_if_readonly: Seq<char>,
    c_ret_type: Seq<char>,
    c_func_name: Seq<char>,
    cpp_args_for_c: Seq<char>,
    convert_ret_for_cpp: Seq<char>,
) -> Seq<char> {
    r"
    template<bool OWN_DATA>
    inline "@ + cpp_ret_type + " "@ + class_name + "<OWN_DATA>::"@ + method_name + "("@
        + cpp_args_with_types + ") "@ + const_if_readonly + r" noexcept
    {
        "@ + c_ret_type + " ret = "@ + c_func_name + "(this->self_"@ + cpp_args_for_c
        + ");\n        return "@ + convert_ret_for_cpp + r";
    }
"@
}

/// Builds the C++ definition of a method with a result.
pub fn render_inline_method(
    cpp_ret_type: &str,
    class_name: &str,
    method_name: &str,
    cpp_args_with_types: &str,
    const_if_readonly: &str,
    c_ret_type: &str,
    c_func_name: &str,
    cpp_args_for_c: &str,
    convert_ret_for_cpp: &str,
) -> (text: String)
    ensures
        text@ == inline_method(
            cpp_ret_type@,
            class_name@,
            method_name@,
            cpp_args_with_types@,
            const_if_readonly@,
            c_ret_type@,
            c_func_name@,
            cpp_args_for_c@,
            convert_ret_for_cpp@,
        ),
{
    r"
    template<bool OWN_DATA>
    inline ".to_string().concat(cpp_ret_type).concat(" ").concat(class_name).concat("<OWN_DATA>::")
        .concat(method_name).concat("(").concat(cpp_args_with_types).concat(") ")
        .concat(const_if_readonly).concat(r" noexcept
    {
        ").concat(c_ret_type).concat(" ret = ").concat(c_func_name).concat("(this->self_")
        .concat(cpp_args_for_c).concat(");\n        return ").concat(convert_ret_for_cpp).concat(r";
    }
")
}

/// C++ definition of a method without a result; `cpp_args_for_c` starts with a
/// comma unless it is empty.
pub open spec fn inline_void_method(
    class_name: Seq<char>,
    method_name: Seq<char>,
    cpp_args_with_types: Seq<char>,
    const_if_readonly: Seq<char>,
    c_func_name: Seq<char>,
    cpp_args_for_c: Seq<char>,
) -> Seq<char> {
    r"
    template<bool OWN_DATA>
    inline void "@ + class_name + "<OWN_DATA>::"@ + method_name + "("@ + cpp_args_with_types + ") "@
        + const_if_readonly + r" noexcept
    {
        "@ + c_func_name + "(this->self_"@ + cpp_args_for_c + r");
    }
"@
}

/// Builds the C++ definition of a method without a result.
pub fn render_inline_void_method(
    class_name: &str,
    method_name: &str,
    cpp_args_with_types: &str,
    const_if_readonly: &str,
    c_func_name: &str,
    cpp_args_for_c: &str,
) -> (text: String)
    ensures
        text@ == inline_void_method(
            class_name@,
            method_name@,
            cpp_args_with_types@,
            const_if_readonly@,
            c_func_name@,
            cpp_args_for_c@,
        ),
{
    r"
    template<bool OWN_DATA>
    inline void ".to_string().concat(class_name).concat("<OWN_DATA>::").concat(method_name)
        .concat("(").concat(cpp_args_with_types).concat(") ").concat(const_if_readonly)
        .concat(r" noexcept
    {
        ").concat(c_func_name).concat("(this->self_").concat(cpp_args_for_c).concat(r");
    }
")
}

/// C++ constructor of a class that C++ code never builds.
pub open spec fn cpp_dummy_constructor(class_name: Seq<char>) -> Seq<char> {
    "\n    "@ + class_name + "() noexcept {}\n"@
}

/// Builds the C++ constructor of a class that C++ code never builds.
pub fn render_cpp_dummy_constructor(class_name: &str) -> (text: String)
    ensures
        text@ == cpp_dummy_constructor(class_name@),
{
    "\n    ".to_string().concat(class_name).concat("() noexcept {}\n")
}

/// C++ constructor that calls the exported constructor and aborts on a null result.
pub open spec fn cpp_constructor(
    class_name: Seq<char>,
    cpp_args_with_types: Seq<char>,
    c_func_name: Seq<char>,
    cpp_args_for_c: Seq<char>,
) -> Seq<char> {
    "\n    "@ + class_name + "("@ + cpp_args_with_types + r") noexcept
    {
        this->self_ = "@ + c_func_name + "("@ + cpp_args_for_c + r");
        if (this->self_ == nullptr) {
            std::abort();
        }
    }
"@
}

/// Builds the C++ constructor that calls the exported constructor.
pub fn render_cpp_constructor(
    class_name: &str,
    cpp_args_with_types: &str,
    c_func_name: &str,
    cpp_args_for_c: &str,
) -> (text: String)
    ensures
        text@ == cpp_constructor(class_name@, cpp_args_with_types@, c_func_name@, cpp_args_for_c@),
{
    "\n    ".to_string().concat(class_name).concat("(").concat(cpp_args_with_types)
        .concat(r") noexcept
    {
        this->self_ = ").concat(c_func_name).concat("(").concat(cpp_args_for_c).concat(r");
        if (this->self_ == nullptr) {
            std::abort();
        }
    }
")
}

/// C++ release of the owned object, and the destructor.
pub open spec fn cpp_destructor(c_destructor_name: Seq<char>, class_name: Seq<char>) -> Seq<char> {
    r"
private:
   static void free_mem(SelfType &p) noexcept
   {
        if (OWN_DATA && p != nullptr) {
            "@ + c_destructor_name + r"(p);
        }
        p = nullptr;
   }
public:
    ~"@ + class_name + r"() noexcept
    {
        free_mem(this->self_);
    }
"@
}

/// Builds the C++ release of the owned object, and the destructor.
pub fn render_cpp_destructor(c_destructor_name: &str, class_name: &str) -> (text: String)
    ensures
        text@ == cpp_destructor(c_destructor_name@, class_name@),
{
    r"
private:
   static void free_mem(SelfType &p) noexcept
   {
        if (OWN_DATA && p != nullptr) {
            ".to_string().concat(c_destructor_name).concat(r"(p);
        }
        p = nullptr;
   }
public:
    ~").concat(class_name).concat(r"() noexcept
    {
        free_mem(this->self_);
    }
")
}

/// C++ release of a class without constructors: there is nothing to free.
pub open spec fn cpp_no_destructor() -> Seq<char> {
    r"
private:
   static void free_mem(SelfType &) noexcept
   {
   }
"@
}

/// Builds the C++ release of a class without constructors.
pub fn render_cpp_no_destructor() -> (text: String)
    ensures
        text@ == cpp_no_destructor(),
{
    r"
private:
   static void free_mem(SelfType &) noexcept
   {
   }
".to_string()
}

/// The class's own C++ code, and the end of the wrapper template.
pub open spec fn cpp_class_end(foreigner_code: Seq<char>) -> Seq<char> {
    "\n"@ + foreigner_code + r"
private:
    SelfType self_;
};
"@
}

/// Builds the class's own C++ code and the end of the wrapper template.
pub fn render_cpp_class_end(foreigner_code: &str) -> (text: String)
    ensures
        text@ == cpp_class_end(foreigner_code@),
{
    "\n".to_string().concat(foreigner_code).concat(r"
private:
    SelfType self_;
};
")
}

/// End of the namespace in a header whose definitions stand in a file of their own.
pub open spec fn cpp_namespace_end(namespace: Seq<char>) -> Seq<char> {
    r"

} // namespace "@ + namespace + "\n"@
}

/// Builds the end of the namespace in a header without definitions.
pub fn render_cpp_namespace_end(namespace: &str) -> (text: String)
    ensures
        text@ == cpp_namespace_end(namespace@),
{
    r"

} // namespace ".to_string().concat(namespace).concat("\n")
}

/// Opening of the file of C++ definitions.
pub open spec fn impl_prologue(class_dot_name: Seq<char>, namespace: Seq<char>) -> Seq<char> {
    r#"// Automaticaly generated by rust_swig
#pragma once

#include ""#@ + class_dot_name + r#".hpp"

namespace "#@ + namespace + " {\n"@
}

/// Builds the opening of the file of C++ definitions.
pub fn render_impl_prologue(class_dot_name: &str, namespace: &str) -> (text: String)
    ensures
        text@ == impl_prologue(class_dot_name@, namespace@),
{
    r#"// Automaticaly generated by rust_swig
#pragma once

#include ""#.to_string().concat(class_dot_name).concat(r#".hpp"

namespace "#).concat(namespace).concat(" {\n")
}

/// The C++ definitions, and the end of the namespace.
pub open spec fn methods_impls(inline_impl: Seq<char>, namespace: Seq<char>) -> Seq<char> {
    "\n"@ + inline_impl + "\n} // namespace "@ + namespace + "\n"@
}

/// Builds the C++ definitions and the end of the namespace.
pub fn render_methods_impls(inline_impl: &str, namespace: &str) -> (text: String)
    ensures
        text@ == methods_impls(inline_impl@, namespace@),
{
    "\n".to_string().concat(inline_impl).concat("\n} // namespace ").concat(namespace).concat("\n")
}

/// Ends `file` with the C++ definitions and the end of the namespace.
pub fn write_methods_impls(file: &mut String, namespace_name: &str, inline_impl: &str)
    ensures
        final(file)@ == old(file)@ + methods_impls(inline_impl@, namespace_name@),
{
    file.append(render_methods_impls(inline_impl, namespace_name).as_str());
}

/// The forward declarations of the wrapper template and its two aliases.
pub open spec fn forward_header(
    namespace: Seq<char>,
    class_name: Seq<char>,
    class_dot_name: Seq<char>,
) -> Seq<char> {
    r"// Automaticaly generated by rust_swig
#pragma once

namespace "@ + namespace + r" {
template<bool>
class "@ + class_name + ";\nusing "@ + class_dot_name + " = "@ + class_name + "<true>;\nusing "@
        + class_dot_name + "Ref = "@ + class_name + "<false>;\n} // namespace "@ + namespace + "\n"@
}

/// Builds the file of forward declarations.
pub fn render_forward_header(
    namespace: &str,
    class_name: &str,
    class_dot_name: &str,
) -> (text: String)
    ensures
        text@ == forward_header(namespace@, class_name@, class_dot_name@),
{
    r"// Automaticaly generated by rust_swig
#pragma once

namespace ".to_string().concat(namespace).concat(r" {
template<bool>
class ").concat(class_name).concat(";\nusing ").concat(class_dot_name).concat(" = ")
        .concat(class_name).concat("<true>;\nusing ").concat(class_dot_name).concat("Ref = ")
        .concat(class_name).concat("<false>;\n} // namespace ").concat(namespace).concat("\n")
}

} // verus!
