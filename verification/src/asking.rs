//! What a generation asks, in which order, and what it makes of the answers.

use crate::class_text::unwritten_list;
use crate::fragments::{group_fragments, made_of};
use crate::generation::{
    no_clone_message, no_this_message, stage_from, write_failed_message, Answer, ConversionKind,
    GenerationView, ObjectType, Outcome, QuestionView, Stage,
};
use crate::runs::{
    is_dummy, is_run, is_step, lemma_run_advances, lemma_stage_from, rank,
};
use crate::text::argument_names;
use crate::tokens::{parsed_tokens, token_text, Failure};
use crate::types::{ClassJob, RenderedSignature};
use vstd::prelude::*;

verus! {

/// The methods that are written are those at the front that have a signature.
pub proof fn law_methods_have_signatures(job: ClassJob)
    ensures
        job.paired() <= job.class.methods@.len(),
        job.paired() <= job.methods_sign@.len(),
        job.paired() == job.class.methods@.len() || job.paired() == job.methods_sign@.len(),
{
}

/// A class comes in three files, and in a fourth one in front of them where its definitions
/// are kept apart. Each has the name of the class in its own, but for the C++ header, whose
/// name is given.
pub proof fn law_files_of_a_class(job: ClassJob)
    ensures
        ({
            let name = job.class.name@;
            let n = job.files().len() as int;
            &&& n == (if job.separate_impl_headers {
                4int
            } else {
                3
            })
            &&& job.files()[n - 3] == (name + "_fwd.hpp"@, job.fwd_header())
            &&& job.files()[n - 2] == ("c_"@ + name + ".h"@, job.c_header())
            &&& job.files()[n - 1] == (job.class.cpp_header_name@, job.cpp_header())
            &&& job.separate_impl_headers ==> job.files()[0] == (
                name + "_impl.hpp"@,
                job.impl_header(),
            )
        }),
{
}

/// The complaints name the class and its namespace, or the file and the cause.
pub proof fn law_complaints_say_what_is_wrong(
    name: Seq<char>,
    namespace: Seq<char>,
    path: Seq<char>,
    err: Seq<char>,
)
    ensures
        made_of(
            no_clone_message(name, namespace),
            "Class "@ + name + " (namespace "@ + namespace,
            ") has derived Copy attribute, but no clone method"@,
        ),
        made_of(
            no_this_message(name, namespace),
            "Class "@ + name + " (namespace "@ + namespace,
            ") has methods, but there is no constructor\n\nMay be you need to use `private constructor = empty;` syntax?"@,
        ),
        made_of(
            write_failed_message(path, err),
            "write to "@ + path,
            " failed: "@ + err,
        ),
{
    broadcast use group_fragments;

}

/// A generation starts with the unit type, and asks for the type that constructors return
/// next where the class tells it.
pub proof fn law_runs_start_with_the_types(
    job: ClassJob,
    states: Seq<GenerationView>,
    answers: Seq<Answer>,
)
    requires
        is_run(job, states, answers),
    ensures
        states[0].stage is UnitType,
        states[0].code.len() == 0,
        answers.len() > 0 ==> answers[0] is UnitType,
        answers.len() > 0 ==> (states[1].stage is ThisType <==> job.class.has_constructor_ret_type),
        answers.len() > 1 && job.class.has_constructor_ret_type ==> answers[1] is ThisType,
{
    if answers.len() > 0 {
        assert(is_step(states[0], answers[0], states[1]));
        lemma_stage_from(job, 0);
        if answers.len() > 1 {
            assert(is_step(states[1], answers[1], states[2]));
        }
    }
}

/// What a generation knows while it goes through the methods comes from the answers at its
/// start: the type behind the pointer that C++ holds is the heap type of the class where
/// constructors tell their type, and the unit type where they do not; the code that moves
/// an object behind that pointer is the one that came with the type.
pub proof fn law_types_come_from_the_first_answers(
    job: ClassJob,
    states: Seq<GenerationView>,
    answers: Seq<Answer>,
    k: int,
)
    requires
        is_run(job, states, answers),
        1 <= k <= answers.len(),
        states[k].stage !is ThisType,
    ensures
        job.class.has_constructor_ret_type ==> {
            &&& k >= 2
            &&& states[k].this_type == answers[1]->ThisType_0.heap_type@
            &&& states[k].box_code == answers[1]->ThisType_0.box_code@
        },
        !job.class.has_constructor_ret_type ==> {
            &&& states[k].this_type == answers[0]->UnitType_name@
            &&& states[k].box_code.len() == 0
        },
    decreases k,
{
    law_runs_start_with_the_types(job, states, answers);
    assert(is_step(states[k - 1], answers[k - 1], states[k]));
    lemma_run_advances(job, states, answers, k - 1);
    lemma_run_advances(job, states, answers, k);
    if k >= 2 {
        if states[k - 1].stage !is ThisType {
            law_types_come_from_the_first_answers(job, states, answers, k - 1);
        } else if k > 2 {
            assert(is_step(states[k - 2], answers[k - 2], states[k - 1]));
            lemma_run_advances(job, states, answers, k - 2);
            assert(rank(job, states[k - 1].stage) >= k - 1);
        }
    }
}

/// The code of a static method is completed with the answers to two questions that follow
/// each other: the conversion of its result, then that of its arguments.
pub proof fn law_static_methods_are_asked_about(
    job: ClassJob,
    states: Seq<GenerationView>,
    answers: Seq<Answer>,
    k: int,
    i: usize,
)
    requires
        is_run(job, states, answers),
        0 <= k < answers.len(),
        states[k].stage == Stage::StaticInputs(i),
    ensures
        k >= 1,
        states[k - 1].stage == Stage::StaticOutput(i),
        answers[k - 1] is Output,
        answers[k] is Inputs,
        states[k].output == Some(answers[k - 1]->Output_0@),
        states[k].job == job,
{
    assert(is_step(states[k], answers[k], states[k + 1]));
    lemma_run_advances(job, states, answers, k);
    if k >= 1 {
        lemma_before(job, states, answers, k);
    }
}

/// The code of a method is completed with the answers to three questions that follow each
/// other: the conversion of its arguments, of its result, and of its object.
pub proof fn law_methods_are_asked_about(
    job: ClassJob,
    states: Seq<GenerationView>,
    answers: Seq<Answer>,
    k: int,
    i: usize,
)
    requires
        is_run(job, states, answers),
        0 <= k < answers.len(),
        states[k].stage == Stage::MethodThis(i),
    ensures
        k >= 2,
        states[k - 2].stage == Stage::MethodInputs(i),
        states[k - 1].stage == Stage::MethodOutput(i),
        answers[k - 2] is Inputs,
        answers[k - 1] is Output,
        answers[k] is This,
        states[k].inputs == Some(answers[k - 2]->Inputs_0@),
        states[k].output == Some(answers[k - 1]->Output_0@),
        states[k].job == job,
{
    assert(is_step(states[k], answers[k], states[k + 1]));
    lemma_run_advances(job, states, answers, k);
    if k >= 1 {
        lemma_before(job, states, answers, k);
        if k >= 2 {
            lemma_before(job, states, answers, k - 1);
        }
    }
}

/// The code of a constructor is completed with the answers to three questions that follow
/// each other: the name of its type, and the conversions of its arguments and of the new
/// object, which are asked for under that name.
pub proof fn law_constructors_are_asked_about(
    job: ClassJob,
    states: Seq<GenerationView>,
    answers: Seq<Answer>,
    k: int,
    i: usize,
)
    requires
        is_run(job, states, answers),
        0 <= k < answers.len(),
        states[k].stage == Stage::ConstructorThis(i),
    ensures
        k >= 2,
        states[k - 2].stage == Stage::ConstructorType(i),
        states[k - 1].stage == Stage::ConstructorInputs(i),
        answers[k - 2] is ConstructorType,
        answers[k - 1] is Inputs,
        answers[k] is This,
        states[k - 1].constructor_type == answers[k - 2]->ConstructorType_name@,
        states[k].constructor_type == answers[k - 2]->ConstructorType_name@,
        states[k].inputs == Some(answers[k - 1]->Inputs_0@),
        states[k].job == job,
{
    assert(is_step(states[k], answers[k], states[k + 1]));
    lemma_run_advances(job, states, answers, k);
    if k >= 1 {
        lemma_before(job, states, answers, k);
        if k >= 2 {
            lemma_before(job, states, answers, k - 1);
        }
    }
}

/// The step that led to the state number `k`.
proof fn lemma_before(
    job: ClassJob,
    states: Seq<GenerationView>,
    answers: Seq<Answer>,
    k: int,
)
    requires
        is_run(job, states, answers),
        1 <= k <= answers.len(),
    ensures
        is_step(states[k - 1], answers[k - 1], states[k]),
        states[k - 1].job == job,
        states[k].stage is StaticInputs ==> states[k - 1].stage == Stage::StaticOutput(
            states[k].stage->StaticInputs_0,
        ),
        states[k].stage is MethodOutput ==> states[k - 1].stage == Stage::MethodInputs(
            states[k].stage->MethodOutput_0,
        ),
        states[k].stage is MethodThis ==> states[k - 1].stage == Stage::MethodOutput(
            states[k].stage->MethodThis_0,
        ),
        states[k].stage is ConstructorInputs ==> states[k - 1].stage == Stage::ConstructorType(
            states[k].stage->ConstructorInputs_0,
        ),
        states[k].stage is ConstructorThis ==> states[k - 1].stage == Stage::ConstructorInputs(
            states[k].stage->ConstructorThis_0,
        ),
        states[k - 1].stage is UnitType ==> k == 1,
{
    let before = states[k - 1];
    assert(is_step(before, answers[k - 1], states[k]));
    lemma_run_advances(job, states, answers, k - 1);
    assert(job.class.methods@.len() == job.class.methods.len());
    match before.stage {
        Stage::UnitType | Stage::ThisType => {
            lemma_stage_from(job, 0);
        },
        Stage::StaticInputs(i) | Stage::MethodThis(i) | Stage::ConstructorThis(i) => {
            lemma_stage_from(job, i + 1);
        },
        _ => {},
    }
}

/// Each answer that completes code puts it, and what it depends on, behind the code that was
/// there. Other answers leave the code alone.
pub proof fn law_code_only_grows(before: GenerationView, answer: Answer, after: GenerationView)
    requires
        is_step(before, answer, after),
    ensures
        after.job == before.job,
        match before.completed(answer) {
            Some(code) => {
                &&& after.code.len() == before.code.len() + code.deps.len() + 1
                &&& after.code.take(before.code.len() as int) == before.code
                &&& after.code.skip(before.code.len() as int).drop_last() == code.deps
                &&& parsed_tokens(code.text) == Some(token_text(after.code.last()))
            },
            None => after.code == before.code,
        },
{
    if before.completed(answer) is Some {
        let n = before.code.len() as int;
        assert(after.code.take(n) =~= before.code);
        assert(after.code.skip(n).last() == after.code.last());
    }
}

/// Behind the types and behind each method, a generation goes on with the first method that
/// has a Rust function; with the destructor, where there is none and the class has a
/// constructor; and else it is done.
pub proof fn law_next_method_is_asked_about(
    before: GenerationView,
    answer: Answer,
    after: GenerationView,
    from: int,
)
    requires
        is_step(before, answer, after),
        before.stage.of(before.job),
        (before.stage is UnitType && !before.job.class.has_constructor_ret_type || before.stage
            is ThisType) && from == 0 || before.stage is StaticInputs && from
            == before.stage->StaticInputs_0 + 1 || before.stage is MethodThis && from
            == before.stage->MethodThis_0 + 1 || before.stage is ConstructorThis && from
            == before.stage->ConstructorThis_0 + 1,
    ensures
        ({
            let job = before.job;
            match after.stage {
                Stage::StaticOutput(i) => next_is(job, from, i as int)
                    && job.class.methods@[i as int].variant is StaticMethod,
                Stage::MethodInputs(i) => next_is(job, from, i as int)
                    && job.class.methods@[i as int].variant is Method,
                Stage::ConstructorType(i) => next_is(job, from, i as int)
                    && job.class.methods@[i as int].variant is Constructor,
                Stage::Destructor => {
                    &&& next_is(job, from, job.paired() as int)
                    &&& exists|i: int|
                        0 <= i < job.paired()
                            && #[trigger] job.class.methods@[i].variant is Constructor
                },
                Stage::Done => {
                    &&& next_is(job, from, job.paired() as int)
                    &&& forall|i: int|
                        0 <= i < job.paired() ==> #[trigger] job.class.methods@[i].variant
                            !is Constructor
                },
                _ => false,
            }
        }),
{
    lemma_stage_from(before.job, from);
}

/// Whether `i` is the first number from `from` on of a method with a Rust function, or the
/// number of the methods that are written.
pub open spec fn next_is(job: ClassJob, from: int, i: int) -> bool {
    &&& from <= i <= job.paired()
    &&& forall|j: int|
        from <= j < i ==> (#[trigger] job.class.methods@[j]).variant is Constructor
            && job.class.methods@[j].dummy_constructor
    &&& i < job.paired() ==> !(job.class.methods@[i].variant is Constructor
        && job.class.methods@[i].dummy_constructor)
}

/// Whether all argument lists of a signature could be written.
pub open spec fn all_written(sign: RenderedSignature) -> bool {
    &&& sign.c_args_with_types is Ok
    &&& sign.cpp_args_with_types is Ok
    &&& sign.cpp_args_for_c is Ok
    &&& sign.rust_args_with_types is Ok
}

/// Whether `reason` is why the first argument list that could not be written could not: of
/// the lists of C, of C++, of the call from C++ to C, and of Rust.
pub open spec fn is_first_reason(sign: RenderedSignature, reason: Seq<char>) -> bool {
    ||| sign.c_args_with_types matches Err(e) && reason == e@
    ||| sign.c_args_with_types is Ok && (sign.cpp_args_with_types matches Err(e) && reason == e@)
    ||| sign.c_args_with_types is Ok && sign.cpp_args_with_types is Ok && (
        sign.cpp_args_for_c matches Err(e) && reason == e@)
    ||| sign.c_args_with_types is Ok && sign.cpp_args_with_types is Ok && sign.cpp_args_for_c is Ok
        && (sign.rust_args_with_types matches Err(e) && reason == e@)
}

/// The first list that could not be written is found exactly where one could not be
/// written; and a class has a destructor exactly where one of its methods is a constructor.
pub proof fn law_unwritten_lists_are_found(job: ClassJob, sign: RenderedSignature)
    ensures
        unwritten_list(sign) is None <==> all_written(sign),
        unwritten_list(sign) matches Some(reason) ==> is_first_reason(sign, reason),
        job.has_destructor() <==> exists|i: int|
            0 <= i < job.paired() && #[trigger] job.class.methods@[i].variant is Constructor,
{
}

/// Whether the method number `j` is why a class is refused with `failure`: one of its lists
/// could not be written, or it is a constructor and the class does not tell its type. Behind
/// the last method it is the destructor that lacks the type.
pub open spec fn offends(job: ClassJob, j: int, failure: Failure) -> bool {
    let no_type = failure == Failure::Diagnostic(
        "Class "@ + job.class.name@ + " (namespace "@ + job.namespace_name@
            + ") has methods, but there is no constructor\n\nMay be you need to use `private constructor = empty;` syntax?"@,
    ) && !job.class.has_constructor_ret_type;
    if j < job.paired() {
        ||| failure is Diagnostic && is_first_reason(job.methods_sign@[j], failure->Diagnostic_0)
        ||| {
            &&& all_written(job.methods_sign@[j])
            &&& job.class.methods@[j].variant is Constructor
            &&& !job.class.methods@[j].dummy_constructor
            &&& no_type
        }
    } else {
        &&& no_type
        &&& exists|i: int|
            0 <= i < job.paired() && #[trigger] job.class.methods@[i].variant is Constructor
    }
}

/// A class is refused because of the first method that offends: what stands between the
/// method at hand and that one are constructors without a Rust function, all lists of which
/// could be written.
pub proof fn law_first_offender_is_named(job: ClassJob, from: int)
    requires
        0 <= from <= job.paired(),
        stage_from(job, from) is Err,
    ensures
        exists|j: int|
            {
                &&& from <= j <= job.paired()
                &&& #[trigger] offends(job, j, stage_from(job, from)->Err_0)
                &&& forall|m: int|
                    from <= m < j ==> is_dummy(#[trigger] job.class.methods@[m]) && all_written(
                        job.methods_sign@[m],
                    )
            },
    decreases job.paired() - from,
{
    let failure = stage_from(job, from)->Err_0;
    if from < job.paired() && all_written(job.methods_sign@[from]) && is_dummy(
        job.class.methods@[from],
    ) {
        law_first_offender_is_named(job, from + 1);
        let j = choose|j: int|
            {
                &&& from + 1 <= j <= job.paired()
                &&& #[trigger] offends(job, j, failure)
                &&& forall|m: int|
                    from + 1 <= m < j ==> is_dummy(#[trigger] job.class.methods@[m])
                        && all_written(job.methods_sign@[m])
            };
        assert(offends(job, j, failure));
    } else {
        assert(offends(job, from, failure));
    }
}

/// An answer ends a generation only where the code that it completes cannot be parsed, which
/// is reported with that code, or where the methods behind it are refused.
pub proof fn law_failures_have_a_cause(state: GenerationView, answer: Answer)
    ensures
        state.completed(answer) matches Some(code) && parsed_tokens(code.text) is None
            ==> state.failure(answer) == Some(
            Failure::Unparsable {
                what: state.completed(answer)->0.what,
                code: state.completed(answer)->0.text,
            },
        ),
        !(state.completed(answer) matches Some(code) && parsed_tokens(code.text) is None) ==> (
        match state.stage {
            Stage::UnitType => !state.job.class.has_constructor_ret_type && stage_from(
                state.job,
                0,
            ) is Err,
            Stage::ThisType => stage_from(state.job, 0) is Err,
            Stage::StaticInputs(i) | Stage::MethodThis(i) | Stage::ConstructorThis(i) => stage_from(
                state.job,
                i + 1,
            ) is Err,
            _ => false,
        }) == (state.failure(answer) is Some),
        state.failure(answer) matches Some(Failure::Diagnostic(_)) ==> match state.stage {
            Stage::UnitType | Stage::ThisType => stage_from(state.job, 0) == Err::<Stage, Failure>(
                state.failure(answer)->0,
            ),
            Stage::StaticInputs(i) | Stage::MethodThis(i) | Stage::ConstructorThis(i) => stage_from(
                state.job,
                i + 1,
            ) == Err::<Stage, Failure>(state.failure(answer)->0),
            _ => false,
        },
{
}

/// An answer goes on exactly where nothing ends the generation, and a refusal tells what
/// does.
pub proof fn law_answers_go_on_or_are_refused<E>(
    state: GenerationView,
    answer: Answer,
    outcome: Outcome<E>,
)
    requires
        state.reacts(Ok::<Answer, E>(answer), outcome),
    ensures
        outcome is GoesOn <==> state.failure(answer) is None,
        outcome matches Outcome::GoesOn(after) ==> state.leads_to(answer, after),
        outcome matches Outcome::Refused(failure) ==> state.failure(answer) == Some(failure),
        outcome !is Unanswered,
{
}

/// The questions about the result and the arguments of a method name the variables of its
/// exported function: `ret`, and one variable for each argument but the object. They come
/// with the type that the function returns, which is the type of the new object where the
/// method is a constructor.
pub proof fn law_conversions_are_asked_for(state: GenerationView, i: usize)
    requires
        state.stage == Stage::StaticOutput(i) || state.stage == Stage::StaticInputs(i)
            || state.stage == Stage::MethodOutput(i) || state.stage == Stage::MethodInputs(i)
            || state.stage == Stage::ConstructorInputs(i),
    ensures
        state.question() is Conversion,
        state.question()->Conversion_method == i,
        state.question()->ret_type == (if state.stage is ConstructorInputs {
            state.constructor_type
        } else {
            state.job.methods_sign@[i as int].c_ret_type@
        }),
        state.stage is StaticOutput || state.stage is MethodOutput ==> {
            &&& state.question()->kind is Output
            &&& state.question()->vars == seq!["ret"@]
        },
        !(state.stage is StaticOutput || state.stage is MethodOutput) ==> {
            &&& state.question()->kind is Inputs
            &&& state.question()->vars == argument_names(
                state.job.methods_sign@[i as int].signature.input@.len(),
            )
        },
{
}

/// The object `this` of a method is converted from the type behind the pointer to the type
/// that the class gives for its objects; the object that a constructor returns keeps its
/// type.
pub proof fn law_objects_are_converted(state: GenerationView, i: usize)
    requires
        state.stage == Stage::MethodThis(i) || state.stage == Stage::ConstructorThis(i),
    ensures
        state.question() is Conversion,
        state.question()->Conversion_method == i,
        state.question()->vars == seq!["this"@],
        state.stage is MethodThis ==> {
            &&& state.question()->kind == (ConversionKind::This {
                from: ObjectType::Held,
                to: ObjectType::Own,
            })
            &&& state.question()->ret_type == state.job.methods_sign@[i as int].c_ret_type@
        },
        state.stage is ConstructorThis ==> {
            &&& state.question()->kind == (ConversionKind::This {
                from: ObjectType::Constructed,
                to: ObjectType::Constructed,
            })
            &&& state.question()->ret_type == state.constructor_type
        },
{
}

/// The class is unboxed under the place-holder, down to the object itself; the destructor
/// takes `this` out of its pointer and keeps the box.
pub proof fn law_objects_are_unpacked(state: GenerationView)
    ensures
        state.stage is ThisType ==> state.question() == (QuestionView::ThisType {
            class_trait: "SwigForeignClass"@,
            box_var: "this"@,
            unpack_var: state.job.to_var_template@,
            unbox: true,
        }),
        state.stage is Destructor ==> state.question() == (QuestionView::Destructor {
            unpack_var: "this"@,
            unbox: false,
        }),
        state.stage is UnitType ==> state.question() is UnitType,
        state.stage is Done <==> state.question() is Nothing,
        state.stage matches Stage::ConstructorType(i) ==> state.question() == (
        QuestionView::ConstructorType { method: i }),
{
}

} // verus!
