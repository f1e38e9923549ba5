//! What holds of every search for the types of methods.

use crate::signatures::{
    declares_object, is_signature, method_queries, search_start, Direction, SearchView,
    TypePosition, TypeQuery,
};
use crate::types::{
    CppForeignMethodSignature, CppForeignTypeInfo, ForeignerClassInfo, ForeignerMethod,
};
use vstd::prelude::*;

verus! {

/// What takes a search on.
pub enum Move<E> {
    /// The reply to a question.
    Reply(Result<CppForeignTypeInfo, E>),
    /// The end of the questions about a method.
    Conclude,
}

/// Whether `step` tells that a type cannot be found.
pub open spec fn is_missing<E>(step: Move<E>) -> bool {
    step matches Move::Reply(reply) && reply is Err
}

/// Whether a search can make `step` at `state`.
pub open spec fn can_move<E>(state: SearchView, step: Move<E>) -> bool {
    &&& !state.complete()
    &&& declares_object(state.method())
    &&& match step {
        Move::Reply(_) => state.query() is Some,
        Move::Conclude => state.query() is None,
    }
}

/// Whether `outcome` is what comes of `step`.
pub open spec fn moves_to<E>(
    state: SearchView,
    step: Move<E>,
    outcome: Result<SearchView, E>,
) -> bool {
    match step {
        Move::Reply(reply) => state.reacts(reply, outcome),
        Move::Conclude => outcome matches Ok(after) && state.concludes(after),
    }
}

/// Whether a search for the types of `class` goes through `states` when it makes
/// `steps`, one from each state, and comes to `outcome`.
pub open spec fn is_search<E>(
    class: ForeignerClassInfo,
    unit_type: Seq<char>,
    states: Seq<SearchView>,
    steps: Seq<Move<E>>,
    outcome: Result<SearchView, E>,
) -> bool {
    &&& states.len() == steps.len() > 0
    &&& states[0] == search_start(class, unit_type)
    &&& forall|k: int|
        0 <= k < states.len() ==> {
            &&& can_move(#[trigger] states[k], steps[k])
            &&& moves_to(
                states[k],
                steps[k],
                if k + 1 < states.len() {
                    Ok(states[k + 1])
                } else {
                    outcome
                },
            )
        }
}

/// Whether the signature number `i` was made at the state number `k` out of answers to
/// all questions about its method.
pub open spec fn made_at<E>(
    class: ForeignerClassInfo,
    unit_type: Seq<char>,
    states: Seq<SearchView>,
    steps: Seq<Move<E>>,
    signature: CppForeignMethodSignature,
    i: int,
    k: int,
) -> bool {
    &&& 0 <= k < states.len()
    &&& steps[k] is Conclude
    &&& states[k].found.len() == i
    &&& states[k].answers.len() == method_queries(class.methods@[i], i as usize).len()
    &&& is_signature(signature, class.methods@[i], unit_type, states[k].answers)
}

/// The first type that cannot be found ends a search: nothing is asked after it, and its
/// reason comes out unchanged. No other reason comes out.
pub proof fn law_first_missing_type_ends_the_search<E>(
    class: ForeignerClassInfo,
    unit_type: Seq<char>,
    states: Seq<SearchView>,
    steps: Seq<Move<E>>,
    outcome: Result<SearchView, E>,
)
    requires
        is_search(class, unit_type, states, steps, outcome),
    ensures
        forall|k: int|
            0 <= k < steps.len() && is_missing(#[trigger] steps[k]) ==> {
                &&& k == steps.len() - 1
                &&& outcome == Err::<SearchView, E>(steps[k]->Reply_0->Err_0)
            },
        outcome matches Err(e) ==> steps.last() == Move::Reply(Err::<CppForeignTypeInfo, E>(e)),
{
    assert forall|k: int| 0 <= k < steps.len() && is_missing(#[trigger] steps[k]) implies {
        &&& k == steps.len() - 1
        &&& outcome == Err::<SearchView, E>(steps[k]->Reply_0->Err_0)
    } by {
        assert(can_move(states[k], steps[k]));
    }
    assert(can_move(states[steps.len() - 1], steps[steps.len() - 1]));
}

/// Every signature that a search has found was made out of the answers to all questions
/// about its method, and stands at the place of its method.
pub proof fn law_signatures_are_made_of_answers<E>(
    class: ForeignerClassInfo,
    unit_type: Seq<char>,
    states: Seq<SearchView>,
    steps: Seq<Move<E>>,
    outcome: Result<SearchView, E>,
)
    requires
        is_search(class, unit_type, states, steps, outcome),
    ensures
        outcome matches Ok(after) ==> {
            &&& after.class == class
            &&& after.unit_type == unit_type
            &&& after.found.len() <= class.methods@.len()
            &&& forall|i: int|
                0 <= i < after.found.len() ==> is_made(
                    class,
                    unit_type,
                    states,
                    steps,
                    #[trigger] after.found[i],
                    i,
                )
        },
{
    if outcome is Ok {
        let n = states.len() as int;
        lemma_found_so_far(class, unit_type, states, steps, outcome, n - 1);
        lemma_step_keeps_made(class, unit_type, states, steps, n - 1, outcome->Ok_0);
    }
}

/// Whether the signature number `i` was made at one of the states of a search.
pub open spec fn is_made<E>(
    class: ForeignerClassInfo,
    unit_type: Seq<char>,
    states: Seq<SearchView>,
    steps: Seq<Move<E>>,
    signature: CppForeignMethodSignature,
    i: int,
) -> bool {
    exists|k: int| #[trigger] made_at(class, unit_type, states, steps, signature, i, k)
}

/// What holds of the state `state` of a search.
spec fn sound_state<E>(
    class: ForeignerClassInfo,
    unit_type: Seq<char>,
    states: Seq<SearchView>,
    steps: Seq<Move<E>>,
    state: SearchView,
) -> bool {
    &&& state.class == class
    &&& state.unit_type == unit_type
    &&& state.found.len() <= class.methods@.len()
    &&& !state.complete() ==> state.answers.len() <= state.queries().len()
    &&& forall|i: int|
        0 <= i < state.found.len() ==> is_made(
            class,
            unit_type,
            states,
            steps,
            #[trigger] state.found[i],
            i,
        )
}

proof fn lemma_step_keeps_made<E>(
    class: ForeignerClassInfo,
    unit_type: Seq<char>,
    states: Seq<SearchView>,
    steps: Seq<Move<E>>,
    k: int,
    after: SearchView,
)
    requires
        0 <= k < states.len(),
        states.len() == steps.len(),
        sound_state(class, unit_type, states, steps, states[k]),
        can_move(states[k], steps[k]),
        moves_to(states[k], steps[k], Ok::<SearchView, E>(after)),
    ensures
        sound_state(class, unit_type, states, steps, after),
{
    let before = states[k];
    if steps[k] is Conclude {
        let n = before.found.len() as int;
        assert(class.methods@.len() == class.methods.len());
        assert forall|i: int| 0 <= i < after.found.len() implies is_made(
            class,
            unit_type,
            states,
            steps,
            #[trigger] after.found[i],
            i,
        ) by {
            if i < n {
                assert(after.found.drop_last()[i] == before.found[i]);
            } else {
                assert(made_at(class, unit_type, states, steps, after.found[i], i, k));
            }
        }
    }
}

proof fn lemma_found_so_far<E>(
    class: ForeignerClassInfo,
    unit_type: Seq<char>,
    states: Seq<SearchView>,
    steps: Seq<Move<E>>,
    outcome: Result<SearchView, E>,
    k: int,
)
    requires
        is_search(class, unit_type, states, steps, outcome),
        0 <= k < states.len(),
    ensures
        sound_state(class, unit_type, states, steps, states[k]),
        can_move(states[k], steps[k]),
    decreases k,
{
    if k > 0 {
        lemma_found_so_far(class, unit_type, states, steps, outcome, k - 1);
        assert(can_move(states[k - 1], steps[k - 1]));
        lemma_step_keeps_made(class, unit_type, states, steps, k - 1, states[k]);
    }
    assert(can_move(states[k], steps[k]));
}

/// A search goes through the arguments of a method in their order, past its object, as types
/// that come in; then it asks for the result as a type that goes out, where one is declared
/// and the method is no constructor.
pub proof fn law_types_are_asked_for(state: SearchView)
    requires
        !state.complete(),
        !(state.class.methods@[state.found.len() as int].variant is Method
            && state.class.methods@[state.found.len() as int].inputs == 0),
    ensures
        ({
            let i = state.found.len() as usize;
            let method = state.class.methods@[state.found.len() as int];
            let k = state.answers.len() as int;
            let object: int = if method.variant is Method {
                1
            } else {
                0
            };
            &&& i == state.found.len()
            &&& object + k < method.inputs ==> state.query() == Some(
                TypeQuery {
                    method: i,
                    position: TypePosition::Argument((object + k) as usize),
                    direction: Direction::Incoming,
                },
            )
            &&& object + k == method.inputs ==> state.query() == (if method.variant is Constructor
                || method.output is Default {
                None
            } else {
                Some(
                    TypeQuery {
                        method: i,
                        position: TypePosition::Output,
                        direction: Direction::Outgoing,
                    },
                )
            })
            &&& object + k > method.inputs ==> state.query() is None
        }),
{
    assert(state.class.methods@.len() == state.class.methods.len());
}

/// A method has to declare an argument for its object; other methods need none.
pub proof fn law_methods_declare_their_object(method: ForeignerMethod)
    ensures
        declares_object(method) <==> !(method.variant is Method && method.inputs == 0),
{
}

/// A signature holds the types that were found: for each argument but the object the one
/// that was asked for, and for a declared result the last one. A constructor has a result
/// without a name, another method without a declared result has `void`, both for the unit
/// type and without a converter.
pub proof fn law_signature_is_what_was_found(
    signature: CppForeignMethodSignature,
    method: ForeignerMethod,
    unit_type: Seq<char>,
    answers: Seq<CppForeignTypeInfo>,
)
    requires
        !(method.variant is Method && method.inputs == 0),
        is_signature(signature, method, unit_type, answers),
        answers.len() == method.inputs - (if method.variant is Method {
            1int
        } else {
            0
        }) + (if method.variant is Constructor || method.output is Default {
            0int
        } else {
            1
        }),
    ensures
        signature.input@.len() == method.inputs - (if method.variant is Method {
            1int
        } else {
            0
        }),
        forall|k: int|
            0 <= k < signature.input@.len() ==> #[trigger] signature.input@[k] == answers[k],
        method.variant !is Constructor && method.output is Type ==> signature.output
            == answers.last(),
        method.variant is Constructor ==> signature.output.base.name@.len() == 0,
        method.variant !is Constructor && method.output is Default
            ==> signature.output.base.name@ == "void"@,
        method.variant is Constructor || method.output is Default ==> {
            &&& signature.output.base.rust_type@ == unit_type
            &&& signature.output.cpp_converter is None
        },
{
    reveal_strlit("");
}

/// A type that is found goes behind those that were found before; the end of a method puts
/// its signature behind the others and starts afresh. Nothing else of a search changes.
pub proof fn law_search_keeps_what_it_found<E>(
    state: SearchView,
    answer: CppForeignTypeInfo,
    outcome: Result<SearchView, E>,
    after: SearchView,
)
    ensures
        state.reacts(Ok::<CppForeignTypeInfo, E>(answer), outcome) ==> {
            &&& outcome is Ok
            &&& outcome->Ok_0.class == state.class
            &&& outcome->Ok_0.unit_type == state.unit_type
            &&& outcome->Ok_0.found == state.found
            &&& outcome->Ok_0.answers == state.answers.push(answer)
        },
        state.concludes(after) ==> {
            &&& after.class == state.class
            &&& after.unit_type == state.unit_type
            &&& after.found.len() == state.found.len() + 1
            &&& after.found.take(state.found.len() as int) == state.found
            &&& after.answers.len() == 0
        },
        state.complete() <==> state.found.len() >= state.class.methods@.len(),
{
    if state.concludes(after) {
        assert(after.found.take(state.found.len() as int) =~= after.found.drop_last());
    }
}

} // verus!
