//! What the exported Rust functions do.

use crate::fragments::{group_fragments, made_of, opens};
use crate::generation::{Answer, GenerationView, Stage};
use crate::laws::mentions;
use crate::text::{joined, replaced, texts};
use crate::types::ReturnType;
use vstd::prelude::*;

verus! {

/// The exported function of a static method takes the declared arguments, converts them,
/// calls the Rust function with exactly the names of the arguments, keeps the result under
/// the declared type (the unit type where none is declared), converts it and returns it.
pub proof fn law_static_method_calls_its_function(state: GenerationView, answer: Answer, i: usize)
    requires
        state.stage == Stage::StaticInputs(i),
        answer is Inputs,
    ensures
        ({
            let method = state.job.class.methods@[i as int];
            let sign = state.job.methods_sign@[i as int];
            let inputs = answer->Inputs_0;
            let output = state.output->0;
            let code = state.completed(answer)->0;
            &&& state.completed(answer) is Some
            &&& code.what == "cpp internal static method"@
            &&& code.deps == inputs.deps@ + output.deps
            &&& made_of(
                code.text,
                "\n#[allow(non_snake_case, unused_variables, unused_mut)]\n#[no_mangle]\npub extern \"C\" fn "@
                    + method.c_func_name@ + ("("@ + sign.rust_args_with_types->Ok_0@ + ") -> "@
                    + sign.c_ret_type@ + " {\n"@ + inputs.code@),
                "\n    let mut ret: "@ + (match method.output {
                    ReturnType::Default => "()"@,
                    ReturnType::Type(declared) => declared@,
                }) + " = "@ + method.rust_id.text@ + "("@ + sign.args_names@ + ");\n"@ + output.code
                    + "\n    ret\n}\n"@,
            )
        }),
{
    broadcast use group_fragments;

}

/// The exported function of a method takes a pointer to the type behind which objects of
/// the class stand and then the declared arguments. It converts the arguments, borrows the
/// object, converts it, calls the Rust function with the object and exactly the names of
/// the arguments, keeps the result under the declared type (the unit type where none is
/// declared), converts it and returns it.
pub proof fn law_method_calls_its_function(state: GenerationView, answer: Answer, i: usize)
    requires
        state.stage == Stage::MethodThis(i),
        answer is This,
    ensures
        ({
            let method = state.job.class.methods@[i as int];
            let sign = state.job.methods_sign@[i as int];
            let this = answer->This_0;
            let inputs = state.inputs->0;
            let output = state.output->0;
            let code = state.completed(answer)->0;
            &&& state.completed(answer) is Some
            &&& code.what == "cpp internal method"@
            &&& code.deps == inputs.deps + output.deps + this.deps@
            &&& made_of(
                code.text,
                "\n#[allow(non_snake_case, unused_variables, unused_mut)]\n#[no_mangle]\npub extern \"C\" fn "@
                    + method.c_func_name@ + ("(this: *mut "@ + state.this_type + ", "@
                    + sign.rust_args_with_types->Ok_0@ + ") -> "@ + sign.c_ret_type@ + " {\n"@
                    + inputs.code + "\n    let this: "@ + this.from_type@
                    + " = unsafe {\n        this.as_mut().unwrap()\n    };\n"@ + this.code@),
                "\n    let mut ret: "@ + (match method.output {
                    ReturnType::Default => "()"@,
                    ReturnType::Type(declared) => declared@,
                }) + " = "@ + method.rust_id.text@ + "(this, "@ + sign.args_names@ + ");\n"@
                    + output.code + "\n    ret\n}\n"@,
            )
        }),
{
    broadcast use group_fragments;

}

/// The exported function of a constructor takes the declared arguments, converts them,
/// calls the Rust function with exactly the names of the arguments, converts the new
/// object, moves it behind a pointer and returns the pointer.
pub proof fn law_constructor_calls_its_function(state: GenerationView, answer: Answer, i: usize)
    requires
        state.stage == Stage::ConstructorThis(i),
        answer is This,
    ensures
        ({
            let method = state.job.class.methods@[i as int];
            let sign = state.job.methods_sign@[i as int];
            let this = answer->This_0;
            let inputs = state.inputs->0;
            let code = state.completed(answer)->0;
            &&& state.completed(answer) is Some
            &&& code.what == "cpp internal constructor method"@
            &&& code.deps == inputs.deps + this.deps@
            &&& made_of(
                code.text,
                "\n#[no_mangle]\n#[allow(unused_variables, unused_mut, non_snake_case)]\npub extern \"C\" fn "@
                    + method.c_func_name@ + ("("@ + sign.rust_args_with_types->Ok_0@
                    + ") -> *const ::std::os::raw::c_void {\n"@ + inputs.code),
                "\n    let this: "@ + this.from_type@ + " = "@ + method.rust_id.text@ + "("@
                    + sign.args_names@ + ");\n"@ + this.code@ + "\n"@ + state.box_code
                    + "\n    this as *const ::std::os::raw::c_void\n}\n"@,
            )
        }),
{
    broadcast use group_fragments;

}

/// The result of the Rust function of a method, be it static or not, is kept under the type
/// that the function declares; under the unit type only where it declares none.
pub proof fn law_results_have_their_declared_type(state: GenerationView, answer: Answer, i: usize)
    requires
        state.stage == Stage::StaticInputs(i) && answer is Inputs || state.stage
            == Stage::MethodThis(i) && answer is This,
    ensures
        state.job.class.methods@[i as int].output matches ReturnType::Type(declared) ==> mentions(
            state.completed(answer)->0.text,
            "\n    let mut ret: "@ + declared@ + " = "@
                + state.job.class.methods@[i as int].rust_id.text@ + "("@,
        ),
        state.job.class.methods@[i as int].output is Default ==> mentions(
            state.completed(answer)->0.text,
            "\n    let mut ret: "@ + "()"@ + " = "@
                + state.job.class.methods@[i as int].rust_id.text@ + "("@,
        ),
{
    broadcast use group_fragments;

    assert(opens("(this, "@, "("@)) by {
        reveal_strlit("(this, ");
        reveal_strlit("(");
        assert("(this, "@.subrange(0, 1) =~= "("@);
    }
}

/// The Rust function behind a method is called with exactly the names of the arguments of
/// the exported function, behind the object where there is one.
pub proof fn law_rust_functions_get_their_arguments(
    state: GenerationView,
    answer: Answer,
    i: usize,
)
    requires
        state.stage == Stage::StaticInputs(i) && answer is Inputs || state.stage
            == Stage::ConstructorThis(i) && answer is This || state.stage == Stage::MethodThis(i)
            && answer is This,
    ensures
        state.stage !is MethodThis ==> mentions(
            state.completed(answer)->0.text,
            state.job.class.methods@[i as int].rust_id.text@ + "("@
                + state.job.methods_sign@[i as int].args_names@ + ");\n"@,
        ),
        state.stage is MethodThis ==> mentions(
            state.completed(answer)->0.text,
            state.job.class.methods@[i as int].rust_id.text@ + "(this, "@
                + state.job.methods_sign@[i as int].args_names@ + ");\n"@,
        ),
        mentions(
            state.completed(answer)->0.text,
            state.job.methods_sign@[i as int].rust_args_with_types->Ok_0@ + ") -> "@,
        ),
{
    broadcast use group_fragments;

    assert(opens(") -> *const ::std::os::raw::c_void {\n"@, ") -> "@)) by {
        reveal_strlit(") -> *const ::std::os::raw::c_void {\n");
        reveal_strlit(") -> ");
        assert(") -> *const ::std::os::raw::c_void {\n"@.subrange(0, 5) =~= ") -> "@);
    }
}

/// The exported destructor of a class takes a pointer to the type behind which objects of
/// the class stand, takes the object out and drops it.
pub proof fn law_destructor_drops_the_object(state: GenerationView, answer: Answer)
    requires
        state.stage is Destructor,
        answer is Destructor,
    ensures
        ({
            let code = state.completed(answer)->0;
            &&& state.completed(answer) is Some
            &&& code.what == "internal cpp desctructor code"@
            &&& code.deps.len() == 0
            &&& made_of(
                code.text,
                "\n#[allow(unused_variables, unused_mut, non_snake_case)]\n#[no_mangle]\npub extern \"C\" fn "@
                    + (state.job.class.name@ + "_delete"@) + ("(this: *mut "@ + state.this_type
                    + ") {\n"@),
                answer->unpack_code@ + "\n    drop(this);\n}\n"@,
            )
        }),
{
    broadcast use group_fragments;

}

/// The class implements boxing for the type that its constructors return, under all
/// lifetimes of the type: an object is moved behind a pointer by the code for that, and
/// taken out of a pointer `p` to the heap type by the code for that.
pub proof fn law_class_is_boxed_and_unboxed(state: GenerationView, answer: Answer)
    requires
        state.stage is ThisType,
        answer is ThisType,
    ensures
        ({
            let this_type = answer->ThisType_0;
            let code = state.completed(answer)->0;
            &&& state.completed(answer) is Some
            &&& code.what == "internal foreign class impl code"@
            &&& code.deps.len() == 0
            &&& made_of(
                code.text,
                "impl<"@ + joined(texts(this_type.lifetimes@), ","@) + "> SwigForeignClass for "@
                    + this_type.type_text@
                    + " {\n    fn c_class_name() -> *const ::std::os::raw::c_char {\n        swig_c_str!(\""@
                    + this_type.type_text@
                    + "\")\n    }\n    fn box_object(this: Self) -> *mut ::std::os::raw::c_void {\n"@
                    + this_type.box_code@,
                "\n        this as *mut ::std::os::raw::c_void\n    }\n    fn unbox_object(p: *mut ::std::os::raw::c_void) -> Self {\n        let p = p as *mut "@
                    + this_type.heap_type@ + ";\n"@ + replaced(
                    this_type.unpack_code@,
                    state.job.to_var_template@,
                    "p"@,
                ) + "\n       p\n    }\n}"@,
            )
        }),
{
    broadcast use group_fragments;

}

} // verus!
