//! The functions that C++ calls are those that C declares and Rust defines.

use crate::c_header::{c_destructor, c_epilogue};
use crate::class_text::{
    access_label, const_if_readonly, convert_ret_for_cpp, cpp_ret_type, destructor_name,
    first_clone, following, is_clone, list, wrapper_name,
};
use crate::cpp_header::{
    copy_by_clone, cpp_destructor, inline_method, inline_static_method, inline_static_void_method,
    inline_void_method,
};
use crate::generation::{Answer, GenerationView, Stage};
use crate::glue::real_output_typename;
use crate::laws::{
    law_first_clone, law_headers_are_closed, law_methods_are_written_in_order, mentions, stands_at,
};
use crate::runs::{
    code_stage, is_dummy, is_run, is_step, law_finished_runs_are_complete, lemma_run_advances,
};
use crate::renaming::{
    lemma_constructor_rest, lemma_destructor_rest, lemma_method_rest, lemma_openings,
    lemma_static_method_rest,
};
use crate::rust_code::{
    constructor_opening, constructor_rest, destructor_code, destructor_opening, destructor_rest,
    method_opening, method_rest, static_method_rest,
};
use crate::types::{ClassJob, MethodVariant};
use vstd::prelude::*;

verus! {

/// A use of the function `name`: its name and the parenthesis behind it.
pub open spec fn function_use(name: Seq<char>) -> Seq<char> {
    name + "("@
}

/// The beginning of the definition of the Rust function `name`.
pub open spec fn function_definition(name: Seq<char>) -> Seq<char> {
    "fn "@ + name + "("@
}

/// The exported function of every method is declared by the C header, called by the
/// C++ side (a method by its definition, a constructor by its declaration) and
/// defined by the Rust code that completes the method.
pub proof fn law_methods_link(state: GenerationView, answer: Answer, i: usize)
    requires
        state.stage.of(state.job),
        state.stage.asks_for(answer),
        state.stage == Stage::StaticInputs(i) || state.stage == Stage::MethodThis(i)
            || state.stage == Stage::ConstructorThis(i),
    ensures
        ({
            let name = state.job.class.methods@[i as int].c_func_name@;
            &&& mentions(state.job.c_header(), function_use(name))
            &&& state.stage !is ConstructorThis ==> mentions(
                state.job.definitions(),
                function_use(name),
            )
            &&& state.stage is ConstructorThis ==> mentions(
                state.job.cpp_header(),
                function_use(name),
            )
            &&& state.completed(answer) is Some
            &&& mentions(state.completed(answer)->0.text, function_definition(name))
        }),
{
    let job = state.job;
    let method = job.class.methods@[i as int];
    let name = method.c_func_name@;
    lemma_c_header_declares(job, i as int);
    law_methods_are_written_in_order(job, i as int);
    if state.stage is ConstructorThis {
        lemma_cpp_part_calls(job, i as int);
        lemma_mentions_in_sum(
            job.cpp_text(i as int),
            job.cpp_part(i as int),
            seq![],
            function_use(name),
        );
        assert(job.cpp_text(i as int) + job.cpp_part(i as int) + seq![] =~= job.cpp_text(i as int)
            + job.cpp_part(i as int));
        lemma_mentions_in_prefix(
            job.cpp_text(i as int) + job.cpp_part(i as int),
            job.cpp_header(),
            function_use(name),
        );
    } else {
        lemma_inline_part_calls(job, i as int);
        lemma_mentions_in_sum(
            job.inline_text(i as int),
            job.inline_part(i as int),
            seq![],
            function_use(name),
        );
        assert(job.inline_text(i as int) + job.inline_part(i as int) + seq![]
            =~= job.inline_text(i as int) + job.inline_part(i as int));
        let all = job.inline_text(job.paired() as int);
        lemma_mentions_in_prefix(
            job.inline_text(i as int) + job.inline_part(i as int),
            all,
            function_use(name),
        );
        let tail = "\n} // namespace "@ + job.namespace_name@ + "\n"@;
        lemma_mentions_in_sum("\n"@, all, tail, function_use(name));
        assert(job.definitions() =~= "\n"@ + all + tail);
    }
    lemma_code_defines(state, answer, i);
}

/// The exported destructor is declared by the C header, called by the C++ header and
/// defined by the Rust code that completes it.
pub proof fn law_destructor_links(state: GenerationView, answer: Answer)
    requires
        state.stage.of(state.job),
        state.stage is Destructor,
        state.stage.asks_for(answer),
    ensures
        ({
            let name = destructor_name(state.job.class.name@);
            &&& mentions(state.job.c_header(), function_use(name))
            &&& mentions(state.job.cpp_header(), function_use(name))
            &&& state.completed(answer) is Some
            &&& mentions(state.completed(answer)->0.text, function_definition(name))
        }),
{
    let job = state.job;
    let name = destructor_name(job.class.name@);
    let n = job.paired() as int;
    let c_type = job.class.c_class_type@;
    let wrapper = wrapper_name(job.class.name@);
    let c_end = c_destructor(name, c_type);
    assert("("@.is_prefix_of("(const "@)) by {
        reveal_strlit("(");
        reveal_strlit("(const ");
    }
    assert(("\n    void "@ + name + "(const "@).is_prefix_of(c_end)) by {
        let start = "\n    void "@ + name + "(const "@;
        assert(c_end.subrange(0, start.len() as int) =~= start);
    }
    lemma_use_stands(c_end, "\n    void "@, name, "(const "@);
    lemma_mentions_in_sum(job.c_text(n), c_end, c_epilogue(), function_use(name));
    lemma_cpp_destructor_calls(name, wrapper);
    let cpp_end = cpp_destructor(name, wrapper);
    let rest = job.cpp_header().skip((job.cpp_text(n) + cpp_end).len() as int);
    lemma_mentions_in_sum(job.cpp_text(n), cpp_end, rest, function_use(name));
    assert(job.cpp_header() =~= job.cpp_text(n) + cpp_end + rest);
    lemma_destructor_code_defines(name, state.this_type, answer->unpack_code@);
}

/// The copy operations of a class that can be copied call the exported function of a
/// method that calls the Rust function `clone`; that method is one of the class, and
/// the C header declares the function where the method is written and has a function.
pub proof fn law_copy_calls_clone(job: ClassJob)
    requires
        job.class.copy_derived,
        job.class.copy_is_possible(),
    ensures
        exists|i: int|
            0 <= i < job.class.methods@.len() && is_clone(
                #[trigger] job.class.methods@[i],
            ) && mentions(job.cpp_header(), function_use(job.class.methods@[i].c_func_name@))
                && (i < job.paired() && !is_dummy(job.class.methods@[i]) ==> mentions(
                job.c_header(),
                function_use(job.class.methods@[i].c_func_name@),
            )),
{
    law_first_clone(job.class.methods@);
    let i = first_clone(job.class.methods@, 0)->0;
    let name = job.class.methods@[i].c_func_name@;
    let wrapper = wrapper_name(job.class.name@);
    lemma_copy_calls(wrapper, name);
    law_headers_are_closed(job);
    let copy = job.class.copy_operations();
    let opening = job.cpp_text(0).take(job.cpp_text(0).len() - copy.len());
    lemma_mentions_in_sum(opening, copy, seq![], function_use(name));
    assert(opening + copy + seq![] =~= job.cpp_text(0));
    lemma_mentions_in_prefix(job.cpp_text(0), job.cpp_header(), function_use(name));
    if i < job.paired() && !is_dummy(job.class.methods@[i]) {
        lemma_c_header_declares(job, i);
    }
}

/// A finished generation leaves no exported function undefined: for every method with
/// a Rust function behind it, one of the answers completed code that defines the
/// function that the C header declares, and so for the destructor.
pub proof fn law_finished_runs_define_what_is_declared(
    job: ClassJob,
    states: Seq<GenerationView>,
    answers: Seq<Answer>,
)
    requires
        is_run(job, states, answers),
        states.last().stage is Done,
    ensures
        forall|i: int|
            0 <= i < job.paired() && !is_dummy(#[trigger] job.class.methods@[i]) ==> {
                &&& mentions(job.c_header(), function_use(job.class.methods@[i].c_func_name@))
                &&& defines(states, answers, job.class.methods@[i].c_func_name@)
            },
        job.has_destructor() ==> {
            &&& mentions(job.c_header(), function_use(destructor_name(job.class.name@)))
            &&& defines(states, answers, destructor_name(job.class.name@))
        },
{
    let n = answers.len() as int;
    law_finished_runs_are_complete(job, states, answers);
    assert forall|i: int|
        0 <= i < job.paired() && !is_dummy(#[trigger] job.class.methods@[i]) implies {
        &&& mentions(job.c_header(), function_use(job.class.methods@[i].c_func_name@))
        &&& defines(states, answers, job.class.methods@[i].c_func_name@)
    } by {
        let stage = code_stage(job, i);
        let l = choose|l: int| 0 <= l < n && (#[trigger] states[l]).stage == stage;
        lemma_run_advances(job, states, answers, l);
        assert(is_step(states[l], answers[l], states[l + 1]));
        assert(job.class.methods@.len() == job.class.methods.len());
        law_methods_link(states[l], answers[l], i as usize);
        assert(defines_at(states, answers, job.class.methods@[i].c_func_name@, l));
    }
    if job.has_destructor() {
        let l = choose|l: int| 0 <= l < n && (#[trigger] states[l]).stage == Stage::Destructor;
        lemma_run_advances(job, states, answers, l);
        assert(is_step(states[l], answers[l], states[l + 1]));
        law_destructor_links(states[l], answers[l]);
        assert(defines_at(states, answers, destructor_name(job.class.name@), l));
    }
}

/// Whether the answer number `l` of a run completes code that defines `name`.
pub open spec fn defines_at(
    states: Seq<GenerationView>,
    answers: Seq<Answer>,
    name: Seq<char>,
    l: int,
) -> bool {
    &&& 0 <= l < answers.len()
    &&& states[l].completed(answers[l]) matches Some(code)
    &&& mentions(code.text, function_definition(name))
}

/// Whether one of the answers of a run completes code that defines `name`.
pub open spec fn defines(
    states: Seq<GenerationView>,
    answers: Seq<Answer>,
    name: Seq<char>,
) -> bool {
    exists|l: int| #[trigger] defines_at(states, answers, name, l)
}

/// The C header declares the exported function of a method.
proof fn lemma_c_header_declares(job: ClassJob, i: int)
    requires
        0 <= i < job.paired(),
        !is_dummy(job.class.methods@[i]),
    ensures
        mentions(job.c_header(), function_use(job.class.methods@[i].c_func_name@)),
{
    let name = job.class.methods@[i].c_func_name@;
    lemma_c_part_declares(job, i);
    law_methods_are_written_in_order(job, i);
    lemma_mentions_in_sum(job.c_text(i), job.c_part(i), seq![], function_use(name));
    assert(job.c_text(i) + job.c_part(i) + seq![] =~= job.c_text(i) + job.c_part(i));
    lemma_mentions_in_prefix(job.c_text(i) + job.c_part(i), job.c_header(), function_use(name));
}

proof fn lemma_mentions_in_sum(a: Seq<char>, x: Seq<char>, b: Seq<char>, part: Seq<char>)
    requires
        mentions(x, part),
    ensures
        mentions(a + x + b, part),
{
    let at = choose|at: int| stands_at(x, part, at);
    let t = a + x + b;
    let to = a.len() + at;
    assert(t.subrange(to, to + part.len()) =~= x.subrange(at, at + part.len()));
    assert(stands_at(t, part, to));
}

proof fn lemma_mentions_in_prefix(x: Seq<char>, t: Seq<char>, part: Seq<char>)
    requires
        mentions(x, part),
        x.is_prefix_of(t),
    ensures
        mentions(t, part),
{
    let at = choose|at: int| stands_at(x, part, at);
    assert(t.subrange(at, at + part.len()) =~= t.subrange(0, x.len() as int).subrange(
        at,
        at + part.len(),
    ));
    assert(stands_at(t, part, at));
}

/// A text that starts with `opening`, `name` and an opening parenthesis uses `name`.
proof fn lemma_use_stands(text: Seq<char>, opening: Seq<char>, name: Seq<char>, after: Seq<char>)
    requires
        (opening + name + after).is_prefix_of(text),
        "("@.is_prefix_of(after),
    ensures
        mentions(text, function_use(name)),
{
    let start = opening + name + after;
    let part = function_use(name);
    let at = opening.len() as int;
    assert forall|k: int| 0 <= k < part.len() implies part[k] == #[trigger] start[at + k] by {
        if k >= name.len() {
            assert("("@[k - name.len()] == after.subrange(0, "("@.len() as int)[k - name.len()]);
        }
    }
    assert(start.subrange(at, at + part.len()) =~= part);
    assert(stands_at(start, part, at));
    lemma_mentions_in_prefix(start, text, part);
}

/// A text of `opening`, `name` and `rest` defines `name` where `opening` ends with the
/// keyword of a function and `rest` starts with a parenthesis.
proof fn lemma_definition_stands(opening: Seq<char>, name: Seq<char>, rest: Seq<char>)
    requires
        "fn "@.is_suffix_of(opening),
        rest.len() > 0,
        rest[0] == '(',
    ensures
        mentions(opening + name + rest, function_definition(name)),
{
    let text = opening + name + rest;
    let part = function_definition(name);
    let word = "fn "@;
    let at = opening.len() - word.len();
    reveal_strlit("(");
    assert forall|k: int| 0 <= k < part.len() implies part[k] == #[trigger] text[at + k] by {
        if k < word.len() {
            assert(word[k] == opening.subrange(at, opening.len() as int)[k]);
        }
    }
    assert(text.subrange(at, at + part.len()) =~= part);
    assert(stands_at(text, part, at));
}

/// The literals that open or continue the use of a function.
proof fn lemma_parentheses()
    ensures
        "("@.is_prefix_of("("@),
        "("@.is_prefix_of("(this->self_"@),
{
    reveal_strlit("(");
    reveal_strlit("(this->self_");
}

proof fn lemma_c_part_declares(job: ClassJob, i: int)
    requires
        0 <= i < job.paired(),
        !is_dummy(job.class.methods@[i]),
    ensures
        mentions(job.c_part(i), function_use(job.class.methods@[i].c_func_name@)),
{
    let method = job.class.methods@[i];
    let name = method.c_func_name@;
    let c_type = job.class.c_class_type@;
    let ret = job.methods_sign@[i].signature.output.base.name@;
    let part = job.c_part(i);
    let doc = method.doc_comments@;
    lemma_parentheses();
    let opening = match method.variant {
        MethodVariant::Constructor => doc + ("\n    "@ + c_type + " *"@),
        _ => doc + ("\n    "@ + ret + " "@),
    };
    let start = opening + name + "("@;
    assert(part.subrange(0, start.len() as int) =~= start);
    lemma_use_stands(part, opening, name, "("@);
}

proof fn lemma_cpp_part_calls(job: ClassJob, i: int)
    requires
        0 <= i < job.paired(),
        job.class.methods@[i].variant is Constructor,
        !is_dummy(job.class.methods@[i]),
    ensures
        mentions(job.cpp_part(i), function_use(job.class.methods@[i].c_func_name@)),
{
    let method = job.class.methods@[i];
    let name = method.c_func_name@;
    let text = job.cpp_declaration(i);
    let wrapper = wrapper_name(job.class.name@);
    let args = list(job.methods_sign@[i].cpp_args_with_types);
    lemma_parentheses();
    let opening = "\n    "@ + wrapper + "("@ + args + r") noexcept
    {
        this->self_ = "@;
    let start = opening + name + "("@;
    assert(text.subrange(0, start.len() as int) =~= start);
    lemma_use_stands(text, opening, name, "("@);
    let before = access_label(job.access_before(i), method.access)
        + method.doc_comments@;
    lemma_mentions_in_sum(before, text, seq![], function_use(name));
    assert(before + text + seq![] =~= job.cpp_part(i));
}

/// The definition of a method calls the exported function of the method.
proof fn lemma_inline_part_calls(job: ClassJob, i: int)
    requires
        0 <= i < job.paired(),
        job.class.methods@[i].variant !is Constructor,
    ensures
        mentions(job.inline_part(i), function_use(job.class.methods@[i].c_func_name@)),
{
    let method = job.class.methods@[i];
    let sign = job.methods_sign@[i];
    let output = sign.signature.output;
    let wrapper = wrapper_name(job.class.name@);
    let name = method.short_name@;
    let args = list(sign.cpp_args_with_types);
    let func = method.c_func_name@;
    let c_args = list(sign.cpp_args_for_c);
    let after_self = following(sign.args_names@.len() > 0, c_args);
    let convert = convert_ret_for_cpp(output, job.from_var_template@);
    let ret = cpp_ret_type(output);
    let c_ret = output.base.name@;
    match method.variant {
        MethodVariant::StaticMethod => {
            lemma_inline_static_calls(ret, wrapper, name, args, c_ret, func, c_args, convert);
            lemma_inline_static_void_calls(wrapper, name, args, func, c_args);
        },
        MethodVariant::Method { read_only } => {
            let const_word = const_if_readonly(read_only);
            lemma_inline_calls(
                ret,
                wrapper,
                name,
                args,
                const_word,
                c_ret,
                func,
                after_self,
                convert,
            );
            lemma_inline_void_calls(wrapper, name, args, const_word, func, after_self);
        },
        MethodVariant::Constructor => {},
    }
}

proof fn lemma_inline_static_calls(
    ret: Seq<char>,
    wrapper: Seq<char>,
    name: Seq<char>,
    args: Seq<char>,
    c_ret: Seq<char>,
    func: Seq<char>,
    c_args: Seq<char>,
    convert: Seq<char>,
)
    ensures
        mentions(
            inline_static_method(ret, wrapper, name, args, c_ret, func, c_args, convert),
            function_use(func),
        ),
{
    let opening = r"
    template<bool OWN_DATA>
    inline "@ + ret + " "@ + wrapper + "<OWN_DATA>::"@ + name + "("@ + args + r") noexcept
    {
        "@ + c_ret + " ret = "@;
    let start = opening + func + "("@;
    let call = start + c_args + ");\n        return "@;
    let text = call + convert + r";
    }
"@;
    lemma_parentheses();
    lemma_starts(start, c_args, ");\n        return "@);
    lemma_starts(call, convert, r";
    }
"@);
    lemma_use_stands(call, opening, func, "("@);
    lemma_mentions_in_prefix(call, text, function_use(func));
}

proof fn lemma_inline_static_void_calls(
    wrapper: Seq<char>,
    name: Seq<char>,
    args: Seq<char>,
    func: Seq<char>,
    c_args: Seq<char>,
)
    ensures
        mentions(
            inline_static_void_method(wrapper, name, args, func, c_args),
            function_use(func),
        ),
{
    let opening = r"
    template<bool OWN_DATA>
    inline void "@ + wrapper + "<OWN_DATA>::"@ + name + "("@ + args + r") noexcept
    {
        "@;
    lemma_parentheses();
    lemma_starts(opening + func + "("@, c_args, r");
    }
"@);
    lemma_use_stands(
        inline_static_void_method(wrapper, name, args, func, c_args),
        opening,
        func,
        "("@,
    );
}

proof fn lemma_inline_calls(
    ret: Seq<char>,
    wrapper: Seq<char>,
    name: Seq<char>,
    args: Seq<char>,
    const_word: Seq<char>,
    c_ret: Seq<char>,
    func: Seq<char>,
    c_args: Seq<char>,
    convert: Seq<char>,
)
    ensures
        mentions(
            inline_method(ret, wrapper, name, args, const_word, c_ret, func, c_args, convert),
            function_use(func),
        ),
{
    let opening = r"
    template<bool OWN_DATA>
    inline "@ + ret + " "@ + wrapper + "<OWN_DATA>::"@ + name + "("@ + args + ") "@ + const_word
        + r" noexcept
    {
        "@ + c_ret + " ret = "@;
    let start = opening + func + "(this->self_"@;
    let call = start + c_args + ");\n        return "@;
    let text = call + convert + r";
    }
"@;
    lemma_parentheses();
    lemma_starts(start, c_args, ");\n        return "@);
    lemma_starts(call, convert, r";
    }
"@);
    lemma_use_stands(call, opening, func, "(this->self_"@);
    lemma_mentions_in_prefix(call, text, function_use(func));
}

proof fn lemma_inline_void_calls(
    wrapper: Seq<char>,
    name: Seq<char>,
    args: Seq<char>,
    const_word: Seq<char>,
    func: Seq<char>,
    c_args: Seq<char>,
)
    ensures
        mentions(
            inline_void_method(wrapper, name, args, const_word, func, c_args),
            function_use(func),
        ),
{
    let opening = r"
    template<bool OWN_DATA>
    inline void "@ + wrapper + "<OWN_DATA>::"@ + name + "("@ + args + ") "@ + const_word
        + r" noexcept
    {
        "@;
    lemma_parentheses();
    lemma_starts(opening + func + "(this->self_"@, c_args, r");
    }
"@);
    lemma_use_stands(
        inline_void_method(wrapper, name, args, const_word, func, c_args),
        opening,
        func,
        "(this->self_"@,
    );
}

/// A sum starts with its first part.
proof fn lemma_starts(a: Seq<char>, b: Seq<char>, c: Seq<char>)
    ensures
        a.is_prefix_of(a + b + c),
{
    assert((a + b + c).subrange(0, a.len() as int) =~= a);
}

proof fn lemma_code_defines(state: GenerationView, answer: Answer, i: usize)
    requires
        state.stage.asks_for(answer),
        state.stage == Stage::StaticInputs(i) || state.stage == Stage::MethodThis(i)
            || state.stage == Stage::ConstructorThis(i),
    ensures
        state.completed(answer) is Some,
        mentions(
            state.completed(answer)->0.text,
            function_definition(state.job.class.methods@[i as int].c_func_name@),
        ),
{
    let method = state.job.class.methods@[i as int];
    let sign = state.job.methods_sign@[i as int];
    let name = method.c_func_name@;
    let decl = list(sign.rust_args_with_types);
    let ret = real_output_typename(method.output);
    let inputs = state.inputs->0.code;
    let output = state.output->0.code;
    lemma_openings();
    match (state.stage, answer) {
        (Stage::StaticInputs(_), Answer::Inputs(inputs)) => {
            lemma_static_method_rest(
                decl,
                sign.c_ret_type@,
                inputs.code@,
                ret,
                method.rust_id.text@,
                sign.args_names@,
                output,
            );
            let rest = static_method_rest(
                decl,
                sign.c_ret_type@,
                inputs.code@,
                ret,
                method.rust_id.text@,
                sign.args_names@,
                output,
            );
            lemma_definition_stands(method_opening(), name, rest);
        },
        (Stage::MethodThis(_), Answer::This(this)) => {
            lemma_method_rest(
                state.this_type,
                decl,
                sign.c_ret_type@,
                inputs,
                this.from_type@,
                this.code@,
                ret,
                method.rust_id.text@,
                sign.args_names@,
                output,
            );
            let rest = method_rest(
                state.this_type,
                decl,
                sign.c_ret_type@,
                inputs,
                this.from_type@,
                this.code@,
                ret,
                method.rust_id.text@,
                sign.args_names@,
                output,
            );
            lemma_definition_stands(method_opening(), name, rest);
        },
        (Stage::ConstructorThis(_), Answer::This(this)) => {
            lemma_constructor_rest(
                decl,
                inputs,
                this.from_type@,
                method.rust_id.text@,
                sign.args_names@,
                this.code@,
                state.box_code,
            );
            let rest = constructor_rest(
                decl,
                inputs,
                this.from_type@,
                method.rust_id.text@,
                sign.args_names@,
                this.code@,
                state.box_code,
            );
            lemma_definition_stands(constructor_opening(), name, rest);
        },
        _ => {},
    }
}

proof fn lemma_destructor_code_defines(
    name: Seq<char>,
    this_type: Seq<char>,
    unpack_code: Seq<char>,
)
    ensures
        mentions(destructor_code(name, this_type, unpack_code), function_definition(name)),
{
    lemma_openings();
    lemma_destructor_rest(this_type, unpack_code);
    lemma_definition_stands(
        destructor_opening(),
        name,
        destructor_rest(this_type, unpack_code),
    );
}

proof fn lemma_cpp_destructor_calls(name: Seq<char>, wrapper: Seq<char>)
    ensures
        mentions(cpp_destructor(name, wrapper), function_use(name)),
{
    let text = cpp_destructor(name, wrapper);
    let opening = r"
private:
   static void free_mem(SelfType &p) noexcept
   {
        if (OWN_DATA && p != nullptr) {
            "@;
    let after = r"(p);
        }
        p = nullptr;
   }
public:
    ~"@;
    assert("("@.is_prefix_of(after)) by {
        reveal_strlit("(");
        reveal_strlit(r"(p);
        }
        p = nullptr;
   }
public:
    ~");
    }
    let start = opening + name + after;
    assert(text.subrange(0, start.len() as int) =~= start);
    lemma_use_stands(text, opening, name, after);
}

proof fn lemma_copy_calls(wrapper: Seq<char>, name: Seq<char>)
    ensures
        mentions(copy_by_clone(wrapper, name), function_use(name)),
{
    let text = copy_by_clone(wrapper, name);
    let opening = "\n            "@ + wrapper + "(const "@ + wrapper + r#"& o) noexcept {
                static_assert(OWN_DATA, "copy possible only if class own data");

                 if (o.self_ != nullptr) {
                     self_ = "#@;
    let after = r"(o.self_);
                 } else {
                     self_ = nullptr;
                 }
            }
            "@;
    assert("("@.is_prefix_of(after)) by {
        reveal_strlit("(");
        reveal_strlit(r"(o.self_);
                 } else {
                     self_ = nullptr;
                 }
            }
            ");
    }
    let start = opening + name + after;
    assert(text.subrange(0, start.len() as int) =~= start);
    lemma_use_stands(text, opening, name, after);
}

} // verus!
