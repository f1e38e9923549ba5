//! What the C header declares.

use crate::fragments::{closes, group_fragments, lemma_mentioned_beyond, made_of, opens};
use crate::laws::{
    decimal_value, law_headers_are_closed, law_methods_are_written_in_order, mentions,
};
use crate::text::decimal;
use crate::text_laws::{is_number, law_decimals_are_numbers};
use crate::types::{ClassJob, MethodVariant};
use vstd::prelude::*;

verus! {

/// The text that checks that a pointer has as many bytes as `digits` tell.
pub open spec fn pointer_check(digits: Seq<char>) -> Seq<char> {
    "static_assert(sizeof(uintptr_t) == sizeof(uint8_t) * "@ + digits + ",\n"@
}

/// The C header checks the pointer width of the target: the number of bytes in the check
/// is the width in bits where whole bytes fill it, and falls short of it by less than a
/// byte otherwise.
pub proof fn law_pointer_width_is_checked(job: ClassJob)
    ensures
        exists|digits: Seq<char>|
            {
                &&& is_number(digits)
                &&& decimal_value(digits) * 8 <= job.target_pointer_width < decimal_value(digits)
                    * 8 + 8
                &&& #[trigger] mentions(job.c_header(), pointer_check(digits))
            },
        job.target_pointer_width % 8 == 0 ==> exists|digits: Seq<char>|
            {
                &&& is_number(digits)
                &&& decimal_value(digits) * 8 == job.target_pointer_width
                &&& #[trigger] mentions(job.c_header(), pointer_check(digits))
            },
{
    let digits = decimal((job.target_pointer_width / 8) as nat);
    law_decimals_are_numbers((job.target_pointer_width / 8) as nat);
    lemma_c_opening(job, digits);
    law_headers_are_closed(job);
    lemma_mentioned_beyond(job.c_text(0), job.c_header(), pointer_check(digits));
}

proof fn lemma_c_opening(job: ClassJob, digits: Seq<char>)
    requires
        digits == decimal((job.target_pointer_width / 8) as nat),
    ensures
        mentions(job.c_text(0), pointer_check(digits)),
{
    broadcast use group_fragments;

    let before = "\n#pragma once\n\n//for (u)intX_t types\n#include <stdint.h>\n\n#ifdef __cplusplus\nstatic_assert(sizeof(uintptr_t) == sizeof(uint8_t) * "@;
    let after = ",\n   \"our conversation usize <-> uintptr_t is wrong\");\nextern \"C\" {\n#endif\n\n    typedef struct "@;
    let check = "static_assert(sizeof(uintptr_t) == sizeof(uint8_t) * "@;
    assert(closes(before, check)) by {
        reveal_strlit("\n#pragma once\n\n//for (u)intX_t types\n#include <stdint.h>\n\n#ifdef __cplusplus\nstatic_assert(sizeof(uintptr_t) == sizeof(uint8_t) * ");
        reveal_strlit("static_assert(sizeof(uintptr_t) == sizeof(uint8_t) * ");
        assert(before.subrange(before.len() - check.len(), before.len() as int) =~= check);
    }
    assert(opens(after, ",\n"@)) by {
        reveal_strlit(",\n   \"our conversation usize <-> uintptr_t is wrong\");\nextern \"C\" {\n#endif\n\n    typedef struct ");
        reveal_strlit(",\n");
        assert(after.subrange(0, 2) =~= ",\n"@);
    }
}

/// The C header opens with the documentation of the class, guards itself, brings in the
/// integer types, opens its linkage block for C++, and declares the opaque type of the
/// class.
pub proof fn law_c_header_opens(job: ClassJob)
    ensures
        opens(
            job.c_text(0),
            "// Automaticaly generated by rust_swig\n"@ + job.class.doc_comments@
                + "\n#pragma once\n\n//for (u)intX_t types\n#include <stdint.h>\n\n#ifdef __cplusplus\nstatic_assert(sizeof(uintptr_t) == sizeof(uint8_t) * "@,
        ),
        closes(
            job.c_text(0),
            ",\n   \"our conversation usize <-> uintptr_t is wrong\");\nextern \"C\" {\n#endif\n\n    typedef struct "@
                + job.class.c_class_type@ + " "@ + job.class.c_class_type@ + ";\n\n"@,
        ),
        opens(job.c_header(), job.c_text(0)),
{
    broadcast use group_fragments;

    law_headers_are_closed(job);
}

/// A static method adds its documentation to the C header, and the declaration of its
/// exported function: the result, the name and the arguments that C sees.
pub proof fn law_c_declares_static_methods(job: ClassJob, i: int)
    requires
        0 <= i < job.paired(),
        job.class.methods@[i].variant is StaticMethod,
    ensures
        made_of(
            job.c_text(i + 1),
            job.c_text(i),
            job.class.methods@[i].doc_comments@ + ("\n    "@
                + job.methods_sign@[i].signature.output.base.name@ + " "@
                + job.class.methods@[i].c_func_name@ + "("@
                + job.methods_sign@[i].c_args_with_types->Ok_0@ + ");\n"@),
        ),
        job.c_text(i + 1).is_prefix_of(job.c_header()),
{
    broadcast use group_fragments;

    law_methods_are_written_in_order(job, i);
}

/// A method adds its documentation to the C header, and the declaration of its exported
/// function: the object comes first, through a pointer to constant exactly where the method
/// is read only, and the other arguments follow it.
pub proof fn law_c_declares_methods(job: ClassJob, i: int)
    requires
        0 <= i < job.paired(),
        job.class.methods@[i].variant is Method,
    ensures
        ({
            let args = job.methods_sign@[i].c_args_with_types->Ok_0@;
            made_of(
                job.c_text(i + 1),
                job.c_text(i),
                job.class.methods@[i].doc_comments@ + ("\n    "@
                    + job.methods_sign@[i].signature.output.base.name@ + " "@
                    + job.class.methods@[i].c_func_name@ + "("@ + (
                if job.class.methods@[i].variant == (MethodVariant::Method { read_only: true }) {
                    "const "@
                } else {
                    seq![]
                }) + job.class.c_class_type@ + " * const self"@ + (if args.len() == 0 {
                    seq![]
                } else {
                    ", "@ + args
                }) + ");\n"@),
            )
        }),
        job.c_text(i + 1).is_prefix_of(job.c_header()),
{
    broadcast use group_fragments;

    law_methods_are_written_in_order(job, i);
}

/// A constructor with a Rust function adds its documentation to the C header, and the
/// declaration of its exported function, which returns a pointer to a new object. A
/// constructor without one adds its documentation alone.
pub proof fn law_c_declares_constructors(job: ClassJob, i: int)
    requires
        0 <= i < job.paired(),
        job.class.methods@[i].variant is Constructor,
    ensures
        !job.class.methods@[i].dummy_constructor ==> made_of(
            job.c_text(i + 1),
            job.c_text(i),
            job.class.methods@[i].doc_comments@ + ("\n    "@ + job.class.c_class_type@ + " *"@
                + job.class.methods@[i].c_func_name@ + "("@
                + job.methods_sign@[i].c_args_with_types->Ok_0@ + ");\n"@),
        ),
        job.class.methods@[i].dummy_constructor ==> made_of(
            job.c_text(i + 1),
            job.c_text(i),
            job.class.methods@[i].doc_comments@,
        ),
        job.c_text(i + 1).is_prefix_of(job.c_header()),
{
    broadcast use group_fragments;

    law_methods_are_written_in_order(job, i);
}

/// Behind the methods, the C header declares the destructor exactly where one of the
/// methods is a constructor, and closes its linkage block.
pub proof fn law_c_header_ends(job: ClassJob)
    ensures
        (exists|i: int|
            0 <= i < job.paired() && #[trigger] job.class.methods@[i].variant is Constructor)
            ==> made_of(
            job.c_header(),
            job.c_text(job.paired() as int),
            "\n    void "@ + (job.class.name@ + "_delete"@) + "(const "@ + job.class.c_class_type@
                + " *self);\n"@ + "\n#ifdef __cplusplus\n}\n#endif\n\n"@,
        ),
        (forall|i: int|
            0 <= i < job.paired() ==> #[trigger] job.class.methods@[i].variant !is Constructor)
            ==> made_of(
            job.c_header(),
            job.c_text(job.paired() as int),
            "\n#ifdef __cplusplus\n}\n#endif\n\n"@,
        ),
{
    broadcast use group_fragments;

}

} // verus!
