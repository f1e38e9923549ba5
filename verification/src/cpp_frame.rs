//! What every C++ class is around its methods.

use crate::class_text::first_clone;
use crate::fragments::{closes, group_fragments, opens};
use crate::laws::{law_first_clone, law_headers_are_closed, mentions};
use crate::text::{include_lines, texts};
use crate::types::{ClassJob, ForeignerMethod};
use vstd::prelude::*;

verus! {

/// Whether the last name in the path of the Rust function of `method` is `clone`.
pub open spec fn calls_clone(method: ForeignerMethod) -> bool {
    method.rust_id.segments@.len() > 0 && method.rust_id.segments@.last()@ == "clone"@
}

/// The C++ header opens with what the class needs, the C header and its namespace, and
/// names the class: the owner of an object and the reference to one. Then comes the class
/// under its documentation.
pub proof fn law_cpp_header_opens(job: ClassJob)
    ensures
        ({
            let name = job.class.name@;
            let wrapper = job.class.name@ + "Wrapper"@;
            opens(
                job.cpp_header(),
                "// Automaticaly generated by rust_swig\n#pragma once\n\n//for std::abort\n#include <cstdlib>\n//for std::move\n#include <utility>\n//for std::conditional\n#include <type_traits>\n\n"@
                    + include_lines(texts(job.req_includes@)) + "\n#include \"c_"@ + name
                    + ".h\"\n\nnamespace "@ + job.namespace_name@
                    + " {\n\ntemplate<bool>\nclass "@ + wrapper + ";\nusing "@ + name + " = "@
                    + wrapper + "<true>;\nusing "@ + name + "Ref = "@ + wrapper
                    + "<false>;\n\n"@ + job.class.doc_comments@
                    + "\ntemplate<bool OWN_DATA>\nclass "@ + wrapper,
            )
        }),
{
    broadcast use group_fragments;

    lemma_header_goes_on(job);
}

/// The C++ header goes on behind its opening.
proof fn lemma_header_goes_on(job: ClassJob)
    ensures
        job.cpp_header() == job.cpp_text(0) + job.cpp_header().skip(job.cpp_text(0).len() as int),
{
    law_headers_are_closed(job);
    let text = job.cpp_text(0);
    assert(job.cpp_header() =~= text + job.cpp_header().skip(text.len() as int));
}

/// The class holds a pointer to the C type: one that it may free where it owns its object,
/// and one to constant where it does not. The two kinds of the class know each other.
pub proof fn law_cpp_class_holds_the_c_type(job: ClassJob)
    ensures
        ({
            let wrapper = job.class.name@ + "Wrapper"@;
            let c_type = job.class.c_class_type@;
            mentions(
                job.cpp_header(),
                "\ntemplate<bool OWN_DATA>\nclass "@ + wrapper
                    + " {\npublic:\n    using SelfType = typename std::conditional<OWN_DATA, "@
                    + c_type + " *, const "@ + c_type
                    + " *>::type;\n    using CForeignType = "@ + c_type
                    + ";\n    using value_type = "@ + wrapper + "<true>;\n    friend class "@
                    + wrapper + "<true>;\n    friend class "@ + wrapper + "<false>;\n\n    "@,
            )
        }),
{
    broadcast use group_fragments;

    lemma_header_goes_on(job);
}

/// An object that is moved leaves nothing behind, and what stood at its new place is freed.
pub proof fn law_objects_are_moved(job: ClassJob)
    ensures
        ({
            let wrapper = job.class.name@ + "Wrapper"@;
            mentions(
                job.cpp_header(),
                "<false>;\n\n    "@ + wrapper + "("@ + wrapper
                    + " &&o) noexcept: self_(o.self_)\n    {\n        o.self_ = nullptr;\n    }\n    "@
                    + wrapper + " &operator=("@ + wrapper
                    + " &&o) noexcept\n    {\n        assert(this != &o);\n        free_mem(this->self_);\n        self_ = o.self_;\n        o.self_ = nullptr;\n        return *this;\n    }\n    explicit "@,
            )
        }),
{
    broadcast use group_fragments;

    lemma_header_goes_on(job);
}

/// A class can be made from the pointer that it holds, can give it away or show it, and can
/// be seen as a reference to its object.
pub proof fn law_objects_are_handed_out(job: ClassJob)
    ensures
        ({
            let wrapper = job.class.name@ + "Wrapper"@;
            let c_type = job.class.c_class_type@;
            mentions(
                job.cpp_header(),
                "        return *this;\n    }\n    explicit "@ + wrapper
                    + "(SelfType o) noexcept: self_(o) {}\n    "@ + c_type
                    + " *release() noexcept\n    {\n        "@ + c_type
                    + " *ret = self_;\n        self_ = nullptr;\n        return ret;\n    }\n    explicit operator SelfType() const noexcept { return self_; }\n    "@
                    + wrapper + "<false> as_rref() const noexcept { return "@ + wrapper
                    + "<false>{ self_ }; }\n    const "@ + wrapper
                    + "<true> &as_cref() const noexcept { return reinterpret_cast<const "@
                    + wrapper + "<true> &>(*this); }\n"@,
            )
        }),
{
    broadcast use group_fragments;

    lemma_header_goes_on(job);
    let before = " &&o) noexcept\n    {\n        assert(this != &o);\n        free_mem(this->self_);\n        self_ = o.self_;\n        o.self_ = nullptr;\n        return *this;\n    }\n    explicit "@;
    let end = "        return *this;\n    }\n    explicit "@;
    assert(closes(before, end)) by {
        reveal_strlit(" &&o) noexcept\n    {\n        assert(this != &o);\n        free_mem(this->self_);\n        self_ = o.self_;\n        o.self_ = nullptr;\n        return *this;\n    }\n    explicit ");
        reveal_strlit("        return *this;\n    }\n    explicit ");
        assert(before.subrange(before.len() - end.len(), before.len() as int) =~= end);
    }
}

/// Where a class is not to be copied, its copy operations are deleted.
pub proof fn law_copies_are_deleted(job: ClassJob)
    requires
        !job.class.copy_derived,
    ensures
        ({
            let wrapper = job.class.name@ + "Wrapper"@;
            closes(
                job.cpp_text(0),
                "<true> &>(*this); }\n"@ + ("\n    "@ + wrapper + "(const "@ + wrapper
                    + "&) = delete;\n    "@ + wrapper + " &operator=(const "@ + wrapper
                    + "&) = delete;\n"@),
            )
        }),
        opens(job.cpp_header(), job.cpp_text(0)),
{
    broadcast use group_fragments;

    law_headers_are_closed(job);
}

/// Where a class is to be copied, both of its copy operations call the exported function of
/// the first of its methods whose Rust function is named `clone`, on an object that is
/// there; the assignment frees the object that stood at the place. There has to be such a
/// method.
pub proof fn law_copies_are_cloned(job: ClassJob, p: int)
    requires
        job.class.copy_derived,
        0 <= p < job.class.methods@.len(),
        calls_clone(job.class.methods@[p]),
        forall|j: int| 0 <= j < p ==> !calls_clone(#[trigger] job.class.methods@[j]),
    ensures
        ({
            let wrapper = job.class.name@ + "Wrapper"@;
            let clone = job.class.methods@[p].c_func_name@;
            closes(
                job.cpp_text(0),
                "<true> &>(*this); }\n"@ + ("\n            "@ + wrapper + "(const "@ + wrapper
                    + "& o) noexcept {\n                static_assert(OWN_DATA, \"copy possible only if class own data\");\n\n                 if (o.self_ != nullptr) {\n                     self_ = "@
                    + clone
                    + "(o.self_);\n                 } else {\n                     self_ = nullptr;\n                 }\n            }\n            "@
                    + wrapper + " &operator=(const "@ + wrapper
                    + "& o) noexcept {\n                static_assert(OWN_DATA, \"copy possible only if class own data\");\n                if (this != &o) {\n                    free_mem(this->self_);\n                    if (o.self_ != nullptr) {\n                        self_ = "@
                    + clone
                    + "(o.self_);\n                    } else {\n                        self_ = nullptr;\n                    }\n                }\n                return *this;\n            }\n        "@),
            )
        }),
        opens(job.cpp_header(), job.cpp_text(0)),
        job.class.copy_is_possible(),
{
    broadcast use group_fragments;

    law_headers_are_closed(job);
    law_first_clone(job.class.methods@);
    let found = first_clone(job.class.methods@, 0);
    assert(found == Some(p)) by {
        if found is Some {
            assert(calls_clone(job.class.methods@[found->0]));
        }
    }
}

/// A class can be generated exactly where it is not to be copied or one of its methods
/// calls a Rust function named `clone`.
pub proof fn law_copies_need_a_clone(job: ClassJob)
    ensures
        job.class.copy_is_possible() <==> (!job.class.copy_derived || exists|p: int|
            0 <= p < job.class.methods@.len() && calls_clone(#[trigger] job.class.methods@[p])),
{
    law_first_clone(job.class.methods@);
}

} // verus!
