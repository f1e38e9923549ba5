//! What holds of the text of every class.

use crate::c_header::{c_destructor, c_epilogue};
use crate::class_text::{
    access_label, access_name, destructor_name, first_clone, is_clone, wrapper_name,
};
use crate::cpp_header::{cpp_namespace_end, impl_prologue};
use crate::signatures::{
    declares_object, foreign_arguments, maps_output, method_queries, TypePosition,
};
use crate::text::{argument_name, decimal, replaced};
use crate::types::{ClassJob, ForeignerMethod, MethodAccess};
use vstd::prelude::*;

verus! {

/// Whether `part` stands somewhere in `text`.
pub open spec fn mentions(text: Seq<char>, part: Seq<char>) -> bool {
    exists|at: int| #[trigger] stands_at(text, part, at)
}

/// Whether `part` stands in `text` at position `at`.
pub open spec fn stands_at(text: Seq<char>, part: Seq<char>, at: int) -> bool {
    0 <= at && at + part.len() <= text.len() && text.subrange(at, at + part.len()) == part
}

/// The number that a sequence of decimal digits stands for.
pub open spec fn decimal_value(digits: Seq<char>) -> int
    decreases digits.len(),
{
    if digits.len() == 0 {
        0
    } else {
        decimal_value(digits.drop_last()) * 10 + (digits.last() as int - '0' as int)
    }
}

/// A number can be read back from its decimal digits.
pub proof fn law_decimal_reads_back(n: nat)
    ensures
        decimal_value(decimal(n)) == n,
    decreases n,
{
    if n < 10 {
        assert(decimal(n).drop_last() =~= seq![]);
        assert(decimal_value(seq![]) == 0);
    } else {
        law_decimal_reads_back(n / 10);
        assert(decimal(n).drop_last() =~= decimal(n / 10));
    }
}

/// Two arguments of an exported function never share a name.
pub proof fn law_argument_names_are_distinct(i: nat, j: nat)
    requires
        i != j,
    ensures
        argument_name(i) != argument_name(j),
{
    if argument_name(i) == argument_name(j) {
        let n = "a_"@.len() as int;
        assert(argument_name(i).skip(n) =~= decimal(i));
        assert(argument_name(j).skip(n) =~= decimal(j));
        law_decimal_reads_back(i);
        law_decimal_reads_back(j);
    }
}

/// Replacing a pattern that does not occur changes nothing.
pub proof fn law_replace_without_occurrence(s: Seq<char>, pattern: Seq<char>, by: Seq<char>)
    requires
        pattern.len() > 0,
        !mentions(s, pattern),
    ensures
        replaced(s, pattern, by) == s,
    decreases s.len(),
{
    if s.len() > 0 {
        if pattern.is_prefix_of(s) {
            assert(stands_at(s, pattern, 0));
        }
        let rest = s.skip(1);
        assert forall|at: int| !stands_at(rest, pattern, at) by {
            if stands_at(rest, pattern, at) {
                assert(s.subrange(at + 1, at + 1 + pattern.len()) =~= rest.subrange(
                    at,
                    at + pattern.len(),
                ));
                assert(stands_at(s, pattern, at + 1));
            }
        }
        law_replace_without_occurrence(rest, pattern, by);
        assert(seq![s[0]] + rest =~= s);
    }
}

/// The `clone` behind the copy operations of a class is the first of the methods
/// that call a Rust function of that name, and there is none only where no method
/// does.
pub proof fn law_first_clone(methods: Seq<ForeignerMethod>)
    ensures
        match first_clone(methods, 0) {
            Some(i) => {
                &&& 0 <= i < methods.len()
                &&& is_clone(methods[i])
                &&& forall|j: int| 0 <= j < i ==> !is_clone(#[trigger] methods[j])
            },
            None => forall|j: int| 0 <= j < methods.len() ==> !is_clone(#[trigger] methods[j]),
        },
{
    lemma_first_clone_from(methods, 0);
}

proof fn lemma_first_clone_from(methods: Seq<ForeignerMethod>, from: int)
    requires
        0 <= from,
    ensures
        match first_clone(methods, from) {
            Some(i) => {
                &&& from <= i < methods.len()
                &&& is_clone(methods[i])
                &&& forall|j: int| from <= j < i ==> !is_clone(#[trigger] methods[j])
            },
            None => forall|j: int| from <= j < methods.len() ==> !is_clone(#[trigger] methods[j]),
        },
    decreases methods.len() - from,
{
    if from < methods.len() && !is_clone(methods[from]) {
        lemma_first_clone_from(methods, from + 1);
    }
}

/// A label stands in front of a method exactly where the access changes.
pub proof fn law_label_marks_change(last: MethodAccess, next: MethodAccess)
    ensures
        access_label(last, next).len() == 0 <==> last == next,
        last != next ==> access_label(last, next) == access_name(next) + ":\n"@,
{
    reveal_strlit(":\n");
}

/// The C++ access that the labels written so far put in force for the method
/// number `i`; a class starts with `public`.
pub open spec fn access_in_force(job: ClassJob, i: int) -> MethodAccess
    decreases i + 1,
{
    if i < 0 {
        MethodAccess::Public
    } else if access_label(job.access_before(i), job.class.methods@[i].access).len() > 0 {
        job.class.methods@[i].access
    } else {
        access_in_force(job, i - 1)
    }
}

/// Every method is declared under its own access.
pub proof fn law_methods_have_their_access(job: ClassJob, i: int)
    requires
        0 <= i < job.class.methods@.len(),
    ensures
        access_in_force(job, i) == job.class.methods@[i].access,
    decreases i,
{
    law_label_marks_change(job.access_before(i), job.class.methods@[i].access);
    if i > 0 {
        law_methods_have_their_access(job, i - 1);
    } else {
        assert(access_in_force(job, -1) == MethodAccess::Public);
    }
}

/// Every method with a signature adds its part to the C header, to the C++ header
/// and to the C++ definitions, behind the parts of the methods before it.
pub proof fn law_methods_are_written_in_order(job: ClassJob, i: int)
    requires
        0 <= i < job.paired(),
    ensures
        (job.c_text(i) + job.c_part(i)).is_prefix_of(job.c_header()),
        (job.cpp_text(i) + job.cpp_part(i)).is_prefix_of(job.cpp_header()),
        (job.inline_text(i) + job.inline_part(i)).is_prefix_of(
            job.inline_text(job.paired() as int),
        ),
{
    let n = job.paired() as int;
    lemma_text_grows(job, i + 1, n);
    lemma_prefix_of_sum(job.c_text(i + 1), job.c_text(n), c_epilogue());
    let c_end = c_destructor(destructor_name(job.class.name@), job.class.c_class_type@);
    lemma_prefix_of_sum(job.c_text(i + 1), job.c_text(n), c_end);
    lemma_prefix_of_sum(job.c_text(i + 1), job.c_text(n) + c_end, c_epilogue());
    lemma_cpp_header_starts(job);
    lemma_prefix_trans(job.cpp_text(i + 1), job.cpp_text(n), job.cpp_header());
}

/// The headers have their opening and their closing, whatever the methods are: the
/// linkage block of the C header and the namespaces of the C++ headers are closed.
pub proof fn law_headers_are_closed(job: ClassJob)
    ensures
        job.c_text(0).is_prefix_of(job.c_header()),
        c_epilogue().is_suffix_of(job.c_header()),
        job.cpp_text(0).is_prefix_of(job.cpp_header()),
        ("} // namespace "@ + job.namespace_name@ + "\n"@).is_suffix_of(job.cpp_header()),
        ("} // namespace "@ + job.namespace_name@ + "\n"@).is_suffix_of(job.impl_header()),
        ("} // namespace "@ + job.namespace_name@ + "\n"@).is_suffix_of(job.fwd_header()),
{
    let n = job.paired() as int;
    let ns = job.namespace_name@;
    lemma_text_grows(job, 0, n);
    let c_end = c_destructor(destructor_name(job.class.name@), job.class.c_class_type@);
    lemma_prefix_of_sum(job.c_text(0), job.c_text(n), c_epilogue());
    lemma_prefix_of_sum(job.c_text(0), job.c_text(n), c_end);
    lemma_prefix_of_sum(job.c_text(0), job.c_text(n) + c_end, c_epilogue());
    lemma_cpp_header_starts(job);
    lemma_prefix_trans(job.cpp_text(0), job.cpp_text(n), job.cpp_header());
    lemma_suffix_of_itself(c_epilogue());
    lemma_suffix_of_sum(job.c_text(n), c_epilogue(), c_epilogue());
    lemma_suffix_of_sum(job.c_text(n) + c_end, c_epilogue(), c_epilogue());
    lemma_namespaces_end(job);
    let end = "} // namespace "@ + ns + "\n"@;
    lemma_suffix_of_sum(job.cpp_class(), job.definitions(), end);
    lemma_suffix_of_sum(job.cpp_class(), cpp_namespace_end(ns), end);
    lemma_suffix_of_sum(impl_prologue(job.class.name@, ns), job.definitions(), end);
}

/// Every piece of text that closes a namespace closes it by name.
proof fn lemma_namespaces_end(job: ClassJob)
    ensures
        ("} // namespace "@ + job.namespace_name@ + "\n"@).is_suffix_of(job.definitions()),
        ("} // namespace "@ + job.namespace_name@ + "\n"@).is_suffix_of(job.fwd_header()),
        ("} // namespace "@ + job.namespace_name@ + "\n"@).is_suffix_of(
            cpp_namespace_end(job.namespace_name@),
        ),
{
    let ns = job.namespace_name@;
    let name = job.class.name@;
    let wrapper = wrapper_name(name);
    lemma_closing_literals();
    let inline_impl = job.inline_text(job.paired() as int);
    lemma_suffix_of_sum("\n"@ + inline_impl, "\n} // namespace "@, "} // namespace "@);
    lemma_namespace_end("\n"@ + inline_impl + "\n} // namespace "@, ns);
    lemma_namespace_end("\n\n} // namespace "@, ns);
    let fwd = job.fwd_header();
    let last = "<false>;\n} // namespace "@;
    let opening = fwd.take(fwd.len() - ns.len() - "\n"@.len());
    assert(opening + ns + "\n"@ =~= fwd);
    assert(last.is_suffix_of(opening)) by {
        assert(opening.subrange(opening.len() - last.len(), opening.len() as int) =~= last);
    }
    lemma_suffix_trans("} // namespace "@, last, opening);
    lemma_namespace_end(opening, ns);
}

/// The literals that end with the words that close a namespace.
proof fn lemma_closing_literals()
    ensures
        "} // namespace "@.is_suffix_of("\n} // namespace "@),
        "} // namespace "@.is_suffix_of("\n\n} // namespace "@),
        "} // namespace "@.is_suffix_of("<false>;\n} // namespace "@),
{
    reveal_strlit("} // namespace ");
    reveal_strlit("\n} // namespace ");
    reveal_strlit("\n\n} // namespace ");
    reveal_strlit("<false>;\n} // namespace ");
}

proof fn lemma_namespace_end(opening: Seq<char>, ns: Seq<char>)
    requires
        "} // namespace "@.is_suffix_of(opening),
    ensures
        ("} // namespace "@ + ns + "\n"@).is_suffix_of(opening + ns + "\n"@),
{
    let words = "} // namespace "@;
    let end = words + ns + "\n"@;
    let t = opening + ns + "\n"@;
    let at = opening.len() - words.len();
    assert forall|k: int| 0 <= k < end.len() implies #[trigger] end[k] == t[at + k] by {
        if k < words.len() {
            assert(words[k] == opening.subrange(at, opening.len() as int)[k]);
        }
    }
    assert(end =~= t.subrange(t.len() - end.len(), t.len() as int));
}

proof fn lemma_suffix_of_itself(a: Seq<char>)
    ensures
        a.is_suffix_of(a),
{
    assert(a.subrange(0, a.len() as int) =~= a);
}

proof fn lemma_suffix_of_sum(a: Seq<char>, b: Seq<char>, end: Seq<char>)
    requires
        end.is_suffix_of(b),
    ensures
        end.is_suffix_of(a + b),
{
    assert((a + b).subrange((a + b).len() - end.len(), (a + b).len() as int) =~= b.subrange(
        b.len() - end.len(),
        b.len() as int,
    ));
}

proof fn lemma_suffix_trans(a: Seq<char>, b: Seq<char>, c: Seq<char>)
    requires
        a.is_suffix_of(b),
        b.is_suffix_of(c),
    ensures
        a.is_suffix_of(c),
{
    let tail = c.subrange(c.len() - b.len(), c.len() as int);
    assert(c.subrange(c.len() - a.len(), c.len() as int) =~= tail.subrange(
        b.len() - a.len(),
        b.len() as int,
    ));
}

/// Whether two jobs ask for the same class, but for where the C++ definitions go.
pub open spec fn same_but_layout(a: ClassJob, b: ClassJob) -> bool {
    &&& a.class == b.class
    &&& a.methods_sign == b.methods_sign
    &&& a.namespace_name == b.namespace_name
    &&& a.target_pointer_width == b.target_pointer_width
    &&& a.req_includes == b.req_includes
    &&& a.from_var_template == b.from_var_template
    &&& a.to_var_template == b.to_var_template
}

/// The layout moves the C++ definitions and changes nothing else: the C header, the
/// forward declarations, the class itself and the definitions are the same, and the
/// definitions stand once, in the C++ header or in a file of their own.
pub proof fn law_layout_moves_definitions(together: ClassJob, apart: ClassJob)
    requires
        same_but_layout(together, apart),
        !together.separate_impl_headers,
        apart.separate_impl_headers,
    ensures
        together.c_header() == apart.c_header(),
        together.fwd_header() == apart.fwd_header(),
        together.cpp_header() == apart.cpp_class() + apart.definitions(),
        apart.definitions().is_suffix_of(apart.impl_header()),
        apart.cpp_class().is_prefix_of(apart.cpp_header()),
        together.files().len() == 3,
        apart.files().len() == 4,
        apart.files()[1] == together.files()[0],
        apart.files()[2] == together.files()[1],
        apart.files()[3].0 == together.files()[2].0,
{
    let n = together.paired() as int;
    lemma_same_texts(together, apart, n);
    assert(together.constructs(n) == apart.constructs(n));
    assert(together.cpp_class() == apart.cpp_class());
    assert(together.definitions() == apart.definitions());
    let t = apart.impl_header();
    assert(t.subrange(t.len() - apart.definitions().len(), t.len() as int)
        =~= apart.definitions());
    let h = apart.cpp_header();
    assert(h.subrange(0, apart.cpp_class().len() as int) =~= apart.cpp_class());
}

/// Whether two jobs agree but for the signatures that have no method.
pub open spec fn same_but_spare_signatures(a: ClassJob, b: ClassJob) -> bool {
    let n = a.class.methods@.len() as int;
    &&& a.class == b.class
    &&& a.namespace_name == b.namespace_name
    &&& a.target_pointer_width == b.target_pointer_width
    &&& a.separate_impl_headers == b.separate_impl_headers
    &&& a.req_includes == b.req_includes
    &&& a.from_var_template == b.from_var_template
    &&& a.to_var_template == b.to_var_template
    &&& a.methods_sign@.len() >= n
    &&& b.methods_sign@.len() >= n
    &&& a.methods_sign@.take(n) == b.methods_sign@.take(n)
}

/// Signatures that have no method leave no trace in the files.
pub proof fn law_spare_signatures_leave_no_trace(a: ClassJob, b: ClassJob)
    requires
        same_but_spare_signatures(a, b),
    ensures
        a.files() == b.files(),
{
    let n = a.paired() as int;
    assert forall|i: int| 0 <= i < n implies #[trigger] a.methods_sign@[i] == b.methods_sign@[i] by {
        assert(a.methods_sign@.take(n)[i] == b.methods_sign@.take(n)[i]);
    }
    lemma_same_texts(a, b, n);
    assert(a.constructs(n) == b.constructs(n));
}

/// Every argument of a method but its object is asked for once, in its order and on
/// its way to Rust; a declared result is asked for last, on its way to C++.
pub proof fn law_queries_cover_the_declaration(method: ForeignerMethod, i: usize)
    requires
        declares_object(method),
    ensures
        method_queries(method, i).len() == foreign_arguments(method) + (if maps_output(method) {
            1int
        } else {
            0
        }),
        forall|k: int|
            0 <= k < foreign_arguments(method) ==> {
                let query = #[trigger] method_queries(method, i)[k];
                &&& query.direction is Incoming
                &&& query.position == TypePosition::Argument(
                    (method.inputs - foreign_arguments(method) + k) as usize,
                )
            },
        maps_output(method) ==> {
            &&& method_queries(method, i).last().direction is Outgoing
            &&& method_queries(method, i).last().position is Output
        },
        method.variant is Method ==> forall|k: int|
            0 <= k < method_queries(method, i).len() ==> (#[trigger] method_queries(
                method,
                i,
            )[k]).position != TypePosition::Argument(0),
{
}

/// Jobs that agree on the class and on the first `k` signatures write the same
/// text for the first `k` methods.
proof fn lemma_same_texts(a: ClassJob, b: ClassJob, k: int)
    requires
        a.class == b.class,
        a.namespace_name == b.namespace_name,
        a.target_pointer_width == b.target_pointer_width,
        a.req_includes == b.req_includes,
        a.from_var_template == b.from_var_template,
        0 <= k <= a.paired(),
        forall|i: int| 0 <= i < k ==> #[trigger] a.methods_sign@[i] == b.methods_sign@[i],
    ensures
        a.c_text(k) == b.c_text(k),
        a.cpp_text(k) == b.cpp_text(k),
        a.inline_text(k) == b.inline_text(k),
    decreases k,
{
    if k > 0 {
        lemma_same_texts(a, b, k - 1);
        assert(a.methods_sign@[k - 1] == b.methods_sign@[k - 1]);
    }
}

proof fn lemma_prefix_of_sum(a: Seq<char>, b: Seq<char>, c: Seq<char>)
    requires
        a.is_prefix_of(b),
    ensures
        a.is_prefix_of(b + c),
{
    assert((b + c).subrange(0, a.len() as int) =~= b.subrange(0, a.len() as int));
}

proof fn lemma_prefix_trans(a: Seq<char>, b: Seq<char>, c: Seq<char>)
    requires
        a.is_prefix_of(b),
        b.is_prefix_of(c),
    ensures
        a.is_prefix_of(c),
{
    assert(c.subrange(0, a.len() as int) =~= c.subrange(0, b.len() as int).subrange(
        0,
        a.len() as int,
    ));
}

/// The text of the first methods is the beginning of the text of more methods.
proof fn lemma_text_grows(job: ClassJob, i: int, k: int)
    requires
        0 <= i <= k,
    ensures
        job.c_text(i).is_prefix_of(job.c_text(k)),
        job.cpp_text(i).is_prefix_of(job.cpp_text(k)),
        job.inline_text(i).is_prefix_of(job.inline_text(k)),
    decreases k,
{
    if i == k {
        assert(job.c_text(k).subrange(0, job.c_text(k).len() as int) =~= job.c_text(k));
        assert(job.cpp_text(k).subrange(0, job.cpp_text(k).len() as int) =~= job.cpp_text(k));
        assert(job.inline_text(k).subrange(0, job.inline_text(k).len() as int)
            =~= job.inline_text(k));
    } else {
        lemma_text_grows(job, i, k - 1);
        lemma_prefix_of_sum(job.c_text(i), job.c_text(k - 1), job.c_part(k - 1));
        lemma_prefix_of_sum(job.cpp_text(i), job.cpp_text(k - 1), job.cpp_part(k - 1));
        lemma_prefix_of_sum(job.inline_text(i), job.inline_text(k - 1), job.inline_part(k - 1));
    }
}

/// The C++ header starts with its methods.
proof fn lemma_cpp_header_starts(job: ClassJob)
    ensures
        job.cpp_text(job.paired() as int).is_prefix_of(job.cpp_header()),
{
    let t = job.cpp_text(job.paired() as int);
    assert(job.cpp_header().subrange(0, t.len() as int) =~= t);
}

} // verus!
