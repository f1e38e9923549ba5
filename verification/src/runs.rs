//! What holds of every generation from its start to its end.

use crate::class_text::unwritten_list;
use crate::generation::{stage_from, start, Answer, GenerationView, Outcome, Stage};
use crate::glue::holds_code;
use crate::tokens::{parsed_tokens, token_text};
use crate::types::{ClassJob, ForeignerMethod, MethodVariant};
use proc_macro2::TokenStream;
use vstd::prelude::*;

verus! {

/// Whether `answer` takes a generation from `before` to `after`.
pub open spec fn is_step(before: GenerationView, answer: Answer, after: GenerationView) -> bool {
    &&& before.stage.asks_for(answer)
    &&& before.failure(answer) is None
    &&& before.leads_to(answer, after)
}

/// Whether a generation of `job` goes through `states` when it gets `answers`.
pub open spec fn is_run(
    job: ClassJob,
    states: Seq<GenerationView>,
    answers: Seq<Answer>,
) -> bool {
    &&& states.len() == answers.len() + 1
    &&& states[0] == start(job)
    &&& forall|k: int|
        0 <= k < answers.len() ==> is_step(states[k], #[trigger] answers[k], states[k + 1])
}

/// Whether a generation of `job` goes through `states` when it gets `replies`, one for
/// each state, and ends with `outcome`.
pub open spec fn is_ended_run<E>(
    job: ClassJob,
    states: Seq<GenerationView>,
    replies: Seq<Result<Answer, E>>,
    outcome: Outcome<E>,
) -> bool {
    &&& states.len() == replies.len() > 0
    &&& states[0] == start(job)
    &&& forall|k: int|
        0 <= k < states.len() ==> {
            &&& (#[trigger] states[k]).stage !is Done
            &&& replies[k] matches Ok(answer) ==> states[k].stage.asks_for(answer)
            &&& states[k].reacts(
                replies[k],
                if k + 1 < states.len() {
                    Outcome::GoesOn(states[k + 1])
                } else {
                    outcome
                },
            )
        }
}

/// Whether `method` is a constructor without a Rust function behind it.
pub open spec fn is_dummy(method: ForeignerMethod) -> bool {
    method.variant is Constructor && method.dummy_constructor
}

/// The stage that completes the code of the method number `i`.
pub open spec fn code_stage(job: ClassJob, i: int) -> Stage {
    match job.class.methods@[i].variant {
        MethodVariant::StaticMethod => Stage::StaticInputs(i as usize),
        MethodVariant::Method { .. } => Stage::MethodThis(i as usize),
        MethodVariant::Constructor => Stage::ConstructorThis(i as usize),
    }
}

/// How far a generation of `job` at `stage` has come.
pub open spec fn rank(job: ClassJob, stage: Stage) -> int {
    match stage {
        Stage::UnitType => 0,
        Stage::ThisType => 1,
        Stage::StaticOutput(i) | Stage::MethodInputs(i) | Stage::ConstructorType(i) => 2 + 3 * i,
        Stage::StaticInputs(i) | Stage::MethodOutput(i) | Stage::ConstructorInputs(i) => 3 + 3 * i,
        Stage::MethodThis(i) | Stage::ConstructorThis(i) => 4 + 3 * i,
        Stage::Destructor => 2 + 3 * job.paired() as int,
        Stage::Done => 3 + 3 * job.paired() as int,
    }
}

/// Whether nothing in the description of a class keeps it from being generated: all
/// argument lists could be written, and constructors tell their type.
pub open spec fn is_sound(job: ClassJob) -> bool {
    &&& forall|i: int|
        0 <= i < job.paired() ==> unwritten_list(#[trigger] job.methods_sign@[i]) is None
    &&& job.has_destructor() ==> job.class.has_constructor_ret_type
}

/// The tokens of the streams, printed.
pub open spec fn token_texts(streams: Seq<TokenStream>) -> Seq<Seq<char>> {
    streams.map_values(|s: TokenStream| token_text(s))
}

/// The code that the first `k` answers of a run complete: for each piece what it
/// depends on, then its own tokens.
pub open spec fn completed_code(
    states: Seq<GenerationView>,
    answers: Seq<Answer>,
    k: int,
) -> Seq<Seq<char>>
    decreases k,
{
    if k <= 0 {
        seq![]
    } else {
        completed_code(states, answers, k - 1) + match states[k - 1].completed(answers[k - 1]) {
            Some(code) => token_texts(code.deps).push(parsed_tokens(code.text)->0),
            None => seq![],
        }
    }
}

/// Every answer brings a generation closer to its end.
pub proof fn law_answers_advance(before: GenerationView, answer: Answer, after: GenerationView)
    requires
        before.stage.of(before.job),
        is_step(before, answer, after),
    ensures
        after.stage.of(after.job),
        rank(before.job, before.stage) < rank(after.job, after.stage),
{
    let job = before.job;
    lemma_indices(job);
    match before.stage {
        Stage::UnitType | Stage::ThisType => {
            lemma_stage_from(job, 0);
        },
        Stage::StaticInputs(i) | Stage::MethodThis(i) | Stage::ConstructorThis(i) => {
            lemma_stage_from(job, i + 1);
        },
        _ => {},
    }
}

/// A generation ends: it takes at most three answers for each method and three more.
pub proof fn law_runs_end(job: ClassJob, states: Seq<GenerationView>, answers: Seq<Answer>)
    requires
        is_run(job, states, answers),
    ensures
        answers.len() <= 3 * job.paired() + 3,
{
    lemma_run_advances(job, states, answers, answers.len() as int);
}

/// No stage is passed twice.
pub proof fn law_stages_do_not_repeat(
    job: ClassJob,
    states: Seq<GenerationView>,
    answers: Seq<Answer>,
    k: int,
    l: int,
)
    requires
        is_run(job, states, answers),
        0 <= k < l <= answers.len(),
    ensures
        states[k].stage != states[l].stage,
{
    lemma_run_ranks(job, states, answers, k, l);
}

/// A finished generation has completed the code of every method that has a Rust
/// function behind it, and that of the destructor where the class has one.
pub proof fn law_finished_runs_are_complete(
    job: ClassJob,
    states: Seq<GenerationView>,
    answers: Seq<Answer>,
)
    requires
        is_run(job, states, answers),
        states.last().stage is Done,
    ensures
        forall|i: int|
            0 <= i < job.paired() && !is_dummy(#[trigger] job.class.methods@[i])
                ==> passes(states, answers.len() as int, code_stage(job, i)),
        job.has_destructor() ==> passes(states, answers.len() as int, Stage::Destructor),
        job.class.has_constructor_ret_type ==> passes(
            states,
            answers.len() as int,
            Stage::ThisType,
        ),
{
    let n = answers.len() as int;
    lemma_run_covers(job, states, answers, n);
    assert forall|i: int|
        0 <= i < job.paired() && !is_dummy(#[trigger] job.class.methods@[i]) implies passes(
        states,
        n,
        code_stage(job, i),
    ) by {
        assert(passes(states, n + 1, code_stage(job, i)));
        lemma_not_last(states, n, code_stage(job, i));
    }
    if job.has_destructor() {
        lemma_not_last(states, n, Stage::Destructor);
    }
    if job.class.has_constructor_ret_type {
        lemma_not_last(states, n, Stage::ThisType);
    }
}

/// Whether one of the first `k` states stands at `stage`.
pub open spec fn passes(states: Seq<GenerationView>, k: int, stage: Stage) -> bool {
    exists|l: int| 0 <= l < k && (#[trigger] states[l]).stage == stage
}

/// The code of a generation is exactly the code that its answers completed, in their
/// order.
pub proof fn law_code_is_what_answers_completed(
    job: ClassJob,
    states: Seq<GenerationView>,
    answers: Seq<Answer>,
)
    requires
        is_run(job, states, answers),
    ensures
        token_texts(states.last().code) == completed_code(states, answers, answers.len() as int),
{
    lemma_code_so_far(job, states, answers, answers.len() as int);
}

/// Only a sound class is generated to the end.
pub proof fn law_finished_classes_are_sound(
    job: ClassJob,
    states: Seq<GenerationView>,
    answers: Seq<Answer>,
)
    requires
        is_run(job, states, answers),
        states.last().stage is Done,
    ensures
        is_sound(job),
{
    lemma_run_covers(job, states, answers, answers.len() as int);
}

/// A sound class is never refused: no answer whose code can be parsed ends its
/// generation.
pub proof fn law_sound_classes_are_not_refused(state: GenerationView, answer: Answer)
    requires
        is_sound(state.job),
        state.stage.of(state.job),
        state.stage.asks_for(answer),
        state.completed(answer) matches Some(code) ==> parsed_tokens(code.text) is Some,
    ensures
        state.failure(answer) is None,
{
    let job = state.job;
    match state.stage {
        Stage::UnitType | Stage::ThisType => {
            lemma_sound_goes_on(job, 0);
        },
        Stage::StaticInputs(i) | Stage::MethodThis(i) | Stage::ConstructorThis(i) => {
            lemma_sound_goes_on(job, i + 1);
        },
        _ => {},
    }
}

/// The first question without an answer ends a generation: nothing is asked after it,
/// and its reason comes out unchanged. No other reason comes out.
pub proof fn law_first_unanswered_question_ends_the_run<E>(
    job: ClassJob,
    states: Seq<GenerationView>,
    replies: Seq<Result<Answer, E>>,
    outcome: Outcome<E>,
)
    requires
        is_ended_run(job, states, replies, outcome),
    ensures
        forall|k: int|
            0 <= k < replies.len() && (#[trigger] replies[k]) is Err ==> {
                &&& k == replies.len() - 1
                &&& outcome == Outcome::Unanswered(replies[k]->Err_0)
            },
        outcome matches Outcome::Unanswered(e) ==> replies.last() == Err::<Answer, E>(e),
{
    assert forall|k: int| 0 <= k < replies.len() && (#[trigger] replies[k]) is Err implies {
        &&& k == replies.len() - 1
        &&& outcome == Outcome::Unanswered(replies[k]->Err_0)
    } by {
        assert(states[k].stage !is Done);
    }
    assert(states[replies.len() - 1].stage !is Done);
}

proof fn lemma_sound_goes_on(job: ClassJob, from: int)
    requires
        is_sound(job),
        0 <= from,
    ensures
        stage_from(job, from) is Ok,
    decreases job.paired() - from,
{
    if from < job.paired() {
        assert(unwritten_list(job.methods_sign@[from]) is None);
        if job.class.methods@[from].variant is Constructor {
            assert(job.constructs(job.paired() as int)) by {
                assert(job.class.methods@[from].variant is Constructor);
            }
            if job.class.methods@[from].dummy_constructor {
                lemma_sound_goes_on(job, from + 1);
            }
        }
    }
}

/// The numbers of the methods fit into `usize`.
proof fn lemma_indices(job: ClassJob)
    ensures
        job.paired() <= usize::MAX,
{
    assert(job.class.methods@.len() == job.class.methods.len());
}

/// A generation that goes on stops at the next method with a Rust function behind
/// it, or else at the destructor or the end.
pub proof fn lemma_stage_from(job: ClassJob, from: int)
    requires
        0 <= from <= job.paired(),
    ensures
        stage_from(job, from) matches Ok(stage) ==> {
            &&& stage.of(job)
            &&& rank(job, stage) >= 2 + 3 * from
            &&& match stage {
                Stage::StaticOutput(i) | Stage::MethodInputs(i) | Stage::ConstructorType(i) => {
                    &&& from <= i < job.paired()
                    &&& unwritten_list(job.methods_sign@[i as int]) is None
                    &&& forall|j: int| from <= j < i ==> is_dummy(#[trigger] job.class.methods@[j])
                    &&& forall|j: int|
                        from <= j < i ==> unwritten_list(#[trigger] job.methods_sign@[j]) is None
                },
                Stage::Destructor | Stage::Done => {
                    &&& stage is Destructor <==> job.has_destructor()
                    &&& forall|j: int|
                        from <= j < job.paired() ==> is_dummy(#[trigger] job.class.methods@[j])
                    &&& forall|j: int|
                        from <= j < job.paired() ==> unwritten_list(
                            #[trigger] job.methods_sign@[j],
                        ) is None
                },
                _ => false,
            }
        },
    decreases job.paired() - from,
{
    lemma_indices(job);
    if from < job.paired() && is_dummy(job.class.methods@[from]) {
        lemma_stage_from(job, from + 1);
    }
}

/// The state number `k` of a run belongs to its job and to one of its stages, and
/// stands no lower than its number.
pub proof fn lemma_run_advances(
    job: ClassJob,
    states: Seq<GenerationView>,
    answers: Seq<Answer>,
    k: int,
)
    requires
        is_run(job, states, answers),
        0 <= k <= answers.len(),
    ensures
        states[k].job == job,
        states[k].stage.of(job),
        rank(job, states[k].stage) >= k,
        rank(job, states[k].stage) <= 3 * job.paired() + 3,
    decreases k,
{
    if k > 0 {
        lemma_run_advances(job, states, answers, k - 1);
        assert(is_step(states[k - 1], answers[k - 1], states[k]));
        law_answers_advance(states[k - 1], answers[k - 1], states[k]);
    }
}

proof fn lemma_run_ranks(
    job: ClassJob,
    states: Seq<GenerationView>,
    answers: Seq<Answer>,
    k: int,
    l: int,
)
    requires
        is_run(job, states, answers),
        0 <= k < l <= answers.len(),
    ensures
        rank(job, states[k].stage) < rank(job, states[l].stage),
    decreases l,
{
    lemma_run_advances(job, states, answers, l - 1);
    assert(is_step(states[l - 1], answers[l - 1], states[l]));
    law_answers_advance(states[l - 1], answers[l - 1], states[l]);
    if k < l - 1 {
        lemma_run_ranks(job, states, answers, k, l - 1);
    }
}

/// Number of methods whose code is completed or asked for at `stage`.
spec fn covered(job: ClassJob, stage: Stage) -> int {
    match stage {
        Stage::UnitType | Stage::ThisType => 0,
        Stage::StaticInputs(i) | Stage::MethodThis(i) | Stage::ConstructorThis(i) => i + 1,
        Stage::StaticOutput(i) | Stage::MethodInputs(i) | Stage::MethodOutput(i)
        | Stage::ConstructorType(i) | Stage::ConstructorInputs(i) => i as int,
        Stage::Destructor | Stage::Done => job.paired() as int,
    }
}

/// Up to state `k`, a run has left out no method, and every argument list that it
/// came by could be written.
proof fn lemma_run_covers(
    job: ClassJob,
    states: Seq<GenerationView>,
    answers: Seq<Answer>,
    k: int,
)
    requires
        is_run(job, states, answers),
        0 <= k <= answers.len(),
    ensures
        states[k].job == job,
        states[k].stage.of(job),
        forall|i: int|
            0 <= i < covered(job, states[k].stage) && !is_dummy(#[trigger] job.class.methods@[i])
                ==> passes(states, k + 1, code_stage(job, i)),
        forall|i: int|
            0 <= i < states[k].stage.written(job) ==> unwritten_list(
                #[trigger] job.methods_sign@[i],
            ) is None,
        states[k].stage is Done ==> {
            &&& job.has_destructor() ==> passes(states, k + 1, Stage::Destructor)
            &&& job.has_destructor() ==> job.class.has_constructor_ret_type
        },
        job.class.has_constructor_ret_type && states[k].stage !is UnitType ==> passes(
            states,
            k + 1,
            Stage::ThisType,
        ),
    decreases k,
{
    lemma_run_advances(job, states, answers, k);
    lemma_indices(job);
    if k > 0 {
        let before = states[k - 1];
        let after = states[k];
        lemma_run_covers(job, states, answers, k - 1);
        assert(is_step(before, answers[k - 1], after));
        assert forall|stage: Stage| passes(states, k, stage) implies passes(states, k + 1, stage) by {
            let l = choose|l: int| 0 <= l < k && (#[trigger] states[l]).stage == stage;
            assert(states[l].stage == stage);
        }
        assert(passes(states, k + 1, after.stage)) by {
            assert(states[k].stage == after.stage);
        }
        assert(passes(states, k, before.stage)) by {
            assert(states[k - 1].stage == before.stage);
        }
        match before.stage {
            Stage::UnitType | Stage::ThisType => {
                lemma_stage_from(job, 0);
            },
            Stage::StaticInputs(i) | Stage::MethodThis(i) | Stage::ConstructorThis(i) => {
                lemma_stage_from(job, i + 1);
            },
            _ => {},
        }
        assert forall|i: int|
            0 <= i < covered(job, after.stage) && !is_dummy(
                #[trigger] job.class.methods@[i],
            ) implies passes(states, k + 1, code_stage(job, i)) by {
            if i < covered(job, before.stage) {
                assert(passes(states, k, code_stage(job, i)));
            } else {
                assert(after.stage == code_stage(job, i));
            }
        }
    }
}

/// A finished run did not stand at `stage` last.
proof fn lemma_not_last(states: Seq<GenerationView>, n: int, stage: Stage)
    requires
        states.len() == n + 1,
        states.last().stage is Done,
        stage !is Done,
        passes(states, n + 1, stage),
    ensures
        passes(states, n, stage),
{
    let l = choose|l: int| 0 <= l < n + 1 && (#[trigger] states[l]).stage == stage;
    assert(states[l].stage == stage);
    assert(l != n);
}

proof fn lemma_code_so_far(
    job: ClassJob,
    states: Seq<GenerationView>,
    answers: Seq<Answer>,
    k: int,
)
    requires
        is_run(job, states, answers),
        0 <= k <= answers.len(),
    ensures
        token_texts(states[k].code) == completed_code(states, answers, k),
    decreases k,
{
    if k == 0 {
        assert(token_texts(states[0].code) =~= seq![]);
    } else {
        lemma_code_so_far(job, states, answers, k - 1);
        let before = states[k - 1];
        let after = states[k];
        assert(is_step(before, answers[k - 1], after));
        match before.completed(answers[k - 1]) {
            Some(code) => {
                let n = before.code.len() as int;
                let new_code = after.code.skip(n);
                assert(holds_code(new_code, code.deps, code.text));
                assert(after.code =~= before.code + code.deps + seq![new_code.last()]) by {
                    assert(after.code =~= after.code.take(n) + new_code);
                    assert(new_code =~= new_code.drop_last() + seq![new_code.last()]);
                }
                assert(token_texts(after.code) =~= token_texts(before.code) + token_texts(
                    code.deps,
                ).push(parsed_tokens(code.text)->0));
            },
            None => {
                assert(token_texts(after.code) + seq![] =~= token_texts(after.code));
            },
        }
    }
}

} // verus!
