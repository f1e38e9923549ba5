//! The generation of the C++ side of one class.
//!
//! The work alternates between writing text, which is done here, and questions
//! about Rust types, which only the owner of the type map can answer. A
//! [`Generation`] stands at a [`Stage`] and asks one [`Question`]; the reply takes
//! it to the next stage or ends it.

use crate::c_header::{render_c_destructor, render_c_epilogue};
use crate::class_text::{
    argument_lists, count_paired, destructor_name, list, render_c_header_name, render_c_opening,
    render_c_part, render_cpp_opening, render_cpp_part, render_destructor_name,
    render_fwd_header_name, render_impl_header_name, render_inline_part, render_wrapper_name,
    unwritten_list,
};
use crate::cpp_header::{
    render_cpp_class_end, render_cpp_destructor, render_cpp_namespace_end,
    render_cpp_no_destructor, render_forward_header, render_impl_prologue, write_methods_impls,
};
use crate::glue::{
    class_impl, holds_code, real_output_typename, render_real_output_typename,
    try_generate_class_impl, try_generate_constructor, try_generate_destructor,
    try_generate_method, try_generate_static_method, Converted, ConvertedThis, ConvertedView,
    MethodContext, ThisType,
};
use crate::rust_code::{constructor_code, destructor_code, method_code, static_method_code};
use crate::text::{argument_names, name_arguments, texts};
use crate::tokens::{parsed_tokens, Failure, GenerateError};
use crate::types::{ClassJob, MethodAccess, MethodVariant};
use proc_macro2::TokenStream;
use vstd::prelude::*;
use vstd::string::StringExecFns;

verus! {

/// The trait that the type of a class with constructors implements.
pub const FOREIGN_CLASS_TRAIT: &'static str = "SwigForeignClass";

/// Name of the variable that holds an object of the class.
pub const THIS_VAR: &'static str = "this";

/// Name of the variable that holds a result.
pub const RET_VAR: &'static str = "ret";

/// Where a generation stands: what it asks for next.
#[derive(Clone, Copy, Debug, PartialEq, Eq, Structural)]
pub enum Stage {
    /// The name of the unit type.
    UnitType,
    /// The type that the constructors return.
    ThisType,
    /// The conversion of the result of the static method with this number.
    StaticOutput(usize),
    /// The conversion of the arguments of the static method with this number.
    StaticInputs(usize),
    /// The conversion of the arguments of the method with this number.
    MethodInputs(usize),
    /// The conversion of the result of the method with this number.
    MethodOutput(usize),
    /// The conversion of the object of the method with this number.
    MethodThis(usize),
    /// The name of the type that the constructor with this number returns.
    ConstructorType(usize),
    /// The conversion of the arguments of the constructor with this number.
    ConstructorInputs(usize),
    /// The conversion of the object that the constructor with this number returns.
    ConstructorThis(usize),
    /// The code that takes an object out of its box.
    Destructor,
    /// Nothing: the headers and the code are complete.
    Done,
}

/// The answer to a stage.
pub enum Answer {
    UnitType { name: String },
    ThisType(ThisType),
    Output(Converted),
    Inputs(Converted),
    This(ConvertedThis),
    ConstructorType { name: String },
    Destructor { unpack_code: String },
}

/// A type of the object of a class.
#[derive(Clone, Copy, Debug, PartialEq, Eq, Structural)]
pub enum ObjectType {
    /// The type behind the pointer that C++ holds, in the way in which the method
    /// takes its object.
    Held,
    /// The type that the class gives for its objects, in the way in which the method
    /// takes its object.
    Own,
    /// The type that the constructors return.
    Constructed,
}

/// What a conversion converts.
#[derive(Clone, Copy, Debug, PartialEq, Eq, Structural)]
pub enum ConversionKind {
    /// The result of the Rust function, for C.
    Output,
    /// The arguments of the C function, for Rust.
    Inputs,
    /// The object, from one type to another.
    This { from: ObjectType, to: ObjectType },
}

/// A conversion that a stage asks for.
pub struct Conversion {
    pub kind: ConversionKind,
    /// Number of the method.
    pub method: usize,
    /// The variables that hold the values.
    pub vars: Vec<String>,
    /// The type that the exported function returns.
    pub ret_type: String,
}

/// How an object is to be taken out of its box.
pub struct Unpacking {
    /// The variable that holds the pointer.
    pub var: String,
    /// Whether the object itself is wanted, and not its box.
    pub unbox: bool,
}

/// What a generation asks.
pub enum Question {
    /// The name of the unit type.
    UnitType,
    /// The type that the constructors return: as one that implements `class_trait`,
    /// with code that moves the object in the variable `box_var` behind a pointer and
    /// code that takes an object out again.
    ThisType { class_trait: String, box_var: String, unpacking: Unpacking },
    /// A conversion.
    Conversion(Conversion),
    /// The name of the type that the constructor with this number returns.
    ConstructorType { method: usize },
    /// The code that takes an object out of its box.
    Destructor(Unpacking),
    /// Nothing.
    Nothing,
}

/// What a [`Question`] tells.
pub enum QuestionView {
    UnitType,
    ThisType { class_trait: Seq<char>, box_var: Seq<char>, unpack_var: Seq<char>, unbox: bool },
    Conversion {
        kind: ConversionKind,
        method: usize,
        vars: Seq<Seq<char>>,
        ret_type: Seq<char>,
    },
    ConstructorType { method: usize },
    Destructor { unpack_var: Seq<char>, unbox: bool },
    Nothing,
}

impl View for Question {
    type V = QuestionView;

    open spec fn view(&self) -> QuestionView {
        match self {
            Question::UnitType => QuestionView::UnitType,
            Question::ThisType { class_trait, box_var, unpacking } => QuestionView::ThisType {
                class_trait: class_trait@,
                box_var: box_var@,
                unpack_var: unpacking.var@,
                unbox: unpacking.unbox,
            },
            Question::Conversion(conversion) => QuestionView::Conversion {
                kind: conversion.kind,
                method: conversion.method,
                vars: texts(conversion.vars@),
                ret_type: conversion.ret_type@,
            },
            Question::ConstructorType { method } => QuestionView::ConstructorType {
                method: *method,
            },
            Question::Destructor(unpacking) => QuestionView::Destructor {
                unpack_var: unpacking.var@,
                unbox: unpacking.unbox,
            },
            Question::Nothing => QuestionView::Nothing,
        }
    }
}

/// Why a generation ended early.
pub enum Stop<E> {
    /// A question could not be answered, for this reason.
    Unanswered(E),
    /// The class was refused.
    Refused(GenerateError),
}

/// What comes of a reply.
pub enum Outcome<E> {
    /// The generation goes on.
    GoesOn(GenerationView),
    /// It is over: the question could not be answered.
    Unanswered(E),
    /// It is over: the class is refused.
    Refused(Failure),
}

/// The outcome that a result stands for.
pub open spec fn outcome<'a, E>(res: Result<Generation<'a>, Stop<E>>) -> Outcome<E> {
    match res {
        Ok(after) => Outcome::GoesOn(after@),
        Err(Stop::Unanswered(e)) => Outcome::Unanswered(e),
        Err(Stop::Refused(e)) => Outcome::Refused(e@),
    }
}

/// A generated file.
pub struct GeneratedFile {
    pub name: String,
    pub text: String,
}

impl View for GeneratedFile {
    type V = (Seq<char>, Seq<char>);

    open spec fn view(&self) -> (Seq<char>, Seq<char>) {
        (self.name@, self.text@)
    }
}

/// The C++ side of a class.
pub struct GeneratedClass {
    /// The files, in the order in which they are brought up to date.
    pub files: Vec<GeneratedFile>,
    /// The Rust functions that C++ calls, with the code that they depend on.
    pub code: Vec<TokenStream>,
}

/// The complaint about a class that asks to be copied but has no `clone`.
pub open spec fn no_clone_message(name: Seq<char>, namespace: Seq<char>) -> Seq<char> {
    "Class "@ + name + " (namespace "@ + namespace
        + ") has derived Copy attribute, but no clone method"@
}

/// The complaint about a class whose constructors do not tell their type.
pub open spec fn no_this_message(name: Seq<char>, namespace: Seq<char>) -> Seq<char> {
    "Class "@ + name + " (namespace "@ + namespace
        + ") has methods, but there is no constructor\n\nMay be you need to use `private constructor = empty;` syntax?"@
}

/// The complaint about a file that could not be written.
pub open spec fn write_failed_message(path: Seq<char>, err: Seq<char>) -> Seq<char> {
    "write to "@ + path + " failed: "@ + err
}

/// Words the complaint about a file that could not be written.
pub fn render_write_failed_message(path: &str, err: &str) -> (message: String)
    ensures
        message@ == write_failed_message(path@, err@),
{
    "write to ".to_string().concat(path).concat(" failed: ").concat(err)
}

/// Words the complaint about a class that asks to be copied but has no `clone`.
fn no_clone_error(job: &ClassJob) -> (e: GenerateError)
    ensures
        e@ == Failure::Diagnostic(no_clone_message(job.class.name@, job.namespace_name@)),
{
    let message = "Class ".to_string().concat(job.class.name.as_str()).concat(
        " (namespace ",
    ).concat(job.namespace_name.as_str()).concat(
        ") has derived Copy attribute, but no clone method",
    );
    GenerateError::Diagnostic { message }
}

/// Words the complaint about a class whose constructors do not tell their type.
fn no_this_error(job: &ClassJob) -> (e: GenerateError)
    ensures
        e@ == Failure::Diagnostic(no_this_message(job.class.name@, job.namespace_name@)),
{
    let message = "Class ".to_string().concat(job.class.name.as_str()).concat(
        " (namespace ",
    ).concat(job.namespace_name.as_str()).concat(
        ") has methods, but there is no constructor\n\nMay be you need to use `private constructor = empty;` syntax?",
    );
    GenerateError::Diagnostic { message }
}

impl Stage {
    /// Number of methods of `job` that are written when this stage is reached.
    pub open spec fn written(self, job: ClassJob) -> int {
        match self {
            Stage::UnitType | Stage::ThisType => 0,
            Stage::StaticOutput(i) | Stage::StaticInputs(i) | Stage::MethodInputs(i)
            | Stage::MethodOutput(i) | Stage::MethodThis(i) | Stage::ConstructorType(i)
            | Stage::ConstructorInputs(i) | Stage::ConstructorThis(i) => i + 1,
            Stage::Destructor | Stage::Done => job.paired() as int,
        }
    }

    /// Whether a generation of `job` can stand at this stage.
    pub open spec fn of(self, job: ClassJob) -> bool {
        match self {
            Stage::UnitType | Stage::Done => true,
            Stage::ThisType => job.class.has_constructor_ret_type,
            Stage::StaticOutput(i) | Stage::StaticInputs(i) => {
                &&& i < job.paired()
                &&& job.class.methods@[i as int].variant is StaticMethod
            },
            Stage::MethodInputs(i) | Stage::MethodOutput(i) | Stage::MethodThis(i) => {
                &&& i < job.paired()
                &&& job.class.methods@[i as int].variant is Method
            },
            Stage::ConstructorType(i) | Stage::ConstructorInputs(i) | Stage::ConstructorThis(i) => {
                &&& i < job.paired()
                &&& job.class.methods@[i as int].variant is Constructor
                &&& !job.class.methods@[i as int].dummy_constructor
                &&& job.class.has_constructor_ret_type
            },
            Stage::Destructor => job.has_destructor() && job.class.has_constructor_ret_type,
        }
    }

    /// Whether `answer` answers this stage.
    pub open spec fn asks_for(self, answer: Answer) -> bool {
        match self {
            Stage::UnitType => answer is UnitType,
            Stage::ThisType => answer is ThisType,
            Stage::StaticOutput(_) | Stage::MethodOutput(_) => answer is Output,
            Stage::StaticInputs(_) | Stage::MethodInputs(_) | Stage::ConstructorInputs(_) => {
                answer is Inputs
            },
            Stage::MethodThis(_) | Stage::ConstructorThis(_) => answer is This,
            Stage::ConstructorType(_) => answer is ConstructorType,
            Stage::Destructor => answer is Destructor,
            Stage::Done => false,
        }
    }
}

/// Where a generation comes to stand that goes on with the method number `from`,
/// or why it cannot go on.
pub open spec fn stage_from(job: ClassJob, from: int) -> Result<Stage, Failure>
    decreases job.paired() - from,
{
    let no_this = Failure::Diagnostic(no_this_message(job.class.name@, job.namespace_name@));
    if from >= job.paired() {
        if !job.has_destructor() {
            Ok(Stage::Done)
        } else if job.class.has_constructor_ret_type {
            Ok(Stage::Destructor)
        } else {
            Err(no_this)
        }
    } else if unwritten_list(job.methods_sign@[from]) is Some {
        Err(Failure::Diagnostic(unwritten_list(job.methods_sign@[from])->0))
    } else {
        match job.class.methods@[from].variant {
            MethodVariant::StaticMethod => Ok(Stage::StaticOutput(from as usize)),
            MethodVariant::Method { .. } => Ok(Stage::MethodInputs(from as usize)),
            MethodVariant::Constructor => if job.class.methods@[from].dummy_constructor {
                stage_from(job, from + 1)
            } else if job.class.has_constructor_ret_type {
                Ok(Stage::ConstructorType(from as usize))
            } else {
                Err(no_this)
            },
        }
    }
}

/// What is to be seen of a [`Generation`].
pub struct GenerationView {
    pub job: ClassJob,
    pub stage: Stage,
    /// Normalized name of the type behind the pointer that C++ holds.
    pub this_type: Seq<char>,
    /// Code that moves an object behind that pointer.
    pub box_code: Seq<char>,
    /// Normalized name of the type that the constructor at hand returns.
    pub constructor_type: Seq<char>,
    /// The conversion of the result of the method at hand, once it is known.
    pub output: Option<ConvertedView>,
    /// The conversion of the arguments of the method at hand, once it is known.
    pub inputs: Option<ConvertedView>,
    /// The code generated so far.
    pub code: Seq<TokenStream>,
}

/// Code that an answer completes: what it depends on, how it is called where it
/// cannot be parsed, and its text.
pub struct CompletedCode {
    pub deps: Seq<TokenStream>,
    pub what: Seq<char>,
    pub text: Seq<char>,
}

impl GenerationView {
    /// The code that `answer` completes.
    pub open spec fn completed(self, answer: Answer) -> Option<CompletedCode> {
        match (self.stage, answer) {
            (Stage::ThisType, Answer::ThisType(this_type)) => Some(
                CompletedCode {
                    deps: seq![],
                    what: "internal foreign class impl code"@,
                    text: class_impl(this_type, self.job.to_var_template@),
                },
            ),
            (Stage::StaticInputs(i), Answer::Inputs(inputs)) => {
                let method = self.job.class.methods@[i as int];
                let sign = self.job.methods_sign@[i as int];
                let output = self.output->0;
                Some(
                    CompletedCode {
                        deps: inputs.deps@ + output.deps,
                        what: "cpp internal static method"@,
                        text: static_method_code(
                            method.c_func_name@,
                            list(sign.rust_args_with_types),
                            sign.c_ret_type@,
                            inputs.code@,
                            real_output_typename(method.output),
                            method.rust_id.text@,
                            sign.args_names@,
                            output.code,
                        ),
                    },
                )
            },
            (Stage::MethodThis(i), Answer::This(this)) => {
                let method = self.job.class.methods@[i as int];
                let sign = self.job.methods_sign@[i as int];
                let inputs = self.inputs->0;
                let output = self.output->0;
                Some(
                    CompletedCode {
                        deps: inputs.deps + output.deps + this.deps@,
                        what: "cpp internal method"@,
                        text: method_code(
                            method.c_func_name@,
                            self.this_type,
                            list(sign.rust_args_with_types),
                            sign.c_ret_type@,
                            inputs.code,
                            this.from_type@,
                            this.code@,
                            real_output_typename(method.output),
                            method.rust_id.text@,
                            sign.args_names@,
                            output.code,
                        ),
                    },
                )
            },
            (Stage::ConstructorThis(i), Answer::This(this)) => {
                let method = self.job.class.methods@[i as int];
                let sign = self.job.methods_sign@[i as int];
                let inputs = self.inputs->0;
                Some(
                    CompletedCode {
                        deps: inputs.deps + this.deps@,
                        what: "cpp internal constructor method"@,
                        text: constructor_code(
                            method.c_func_name@,
                            list(sign.rust_args_with_types),
                            inputs.code,
                            this.from_type@,
                            method.rust_id.text@,
                            sign.args_names@,
                            this.code@,
                            self.box_code,
                        ),
                    },
                )
            },
            (Stage::Destructor, Answer::Destructor { unpack_code }) => Some(
                CompletedCode {
                    deps: seq![],
                    what: "internal cpp desctructor code"@,
                    text: destructor_code(
                        destructor_name(self.job.class.name@),
                        self.this_type,
                        unpack_code@,
                    ),
                },
            ),
            _ => None,
        }
    }

    /// Where an answered generation comes to stand, or why it cannot go on.
    pub open spec fn next_stage(self) -> Result<Stage, Failure> {
        match self.stage {
            Stage::UnitType => if self.job.class.has_constructor_ret_type {
                Ok(Stage::ThisType)
            } else {
                stage_from(self.job, 0)
            },
            Stage::ThisType => stage_from(self.job, 0),
            Stage::StaticOutput(i) => Ok(Stage::StaticInputs(i)),
            Stage::MethodInputs(i) => Ok(Stage::MethodOutput(i)),
            Stage::MethodOutput(i) => Ok(Stage::MethodThis(i)),
            Stage::ConstructorType(i) => Ok(Stage::ConstructorInputs(i)),
            Stage::ConstructorInputs(i) => Ok(Stage::ConstructorThis(i)),
            Stage::StaticInputs(i) | Stage::MethodThis(i) | Stage::ConstructorThis(i) => {
                stage_from(self.job, i + 1)
            },
            Stage::Destructor | Stage::Done => Ok(Stage::Done),
        }
    }

    /// Why the generation ends with `answer`, if it does: the completed code cannot
    /// be parsed or, failing that, the rest of the class cannot be written.
    pub open spec fn failure(self, answer: Answer) -> Option<Failure> {
        let unparsable = match self.completed(answer) {
            Some(code) => parsed_tokens(code.text) is None,
            None => false,
        };
        if unparsable {
            let code = self.completed(answer)->0;
            Some(Failure::Unparsable { what: code.what, code: code.text })
        } else {
            match self.next_stage() {
                Ok(_) => None,
                Err(failure) => Some(failure),
            }
        }
    }

    /// Whether `answer` leads from here to `after`.
    pub open spec fn leads_to(self, answer: Answer, after: GenerationView) -> bool {
        &&& after.job == self.job
        &&& self.next_stage() == Ok::<Stage, Failure>(after.stage)
        &&& after.this_type == match answer {
            Answer::UnitType { name } => name@,
            Answer::ThisType(this_type) => this_type.heap_type@,
            _ => self.this_type,
        }
        &&& after.box_code == match answer {
            Answer::ThisType(this_type) => this_type.box_code@,
            _ => self.box_code,
        }
        &&& after.constructor_type == match answer {
            Answer::ConstructorType { name } => name@,
            _ => self.constructor_type,
        }
        &&& match self.completed(answer) {
            Some(code) => {
                &&& self.code.is_prefix_of(after.code)
                &&& holds_code(after.code.skip(self.code.len() as int), code.deps, code.text)
                &&& after.output is None
                &&& after.inputs is None
            },
            None => {
                &&& after.code == self.code
                &&& after.output == match answer {
                    Answer::Output(converted) => Some(converted@),
                    _ => self.output,
                }
                &&& after.inputs == match answer {
                    Answer::Inputs(converted) => Some(converted@),
                    _ => self.inputs,
                }
            },
        }
    }

    /// Whether `outcome` is what comes of `reply`.
    ///
    /// A question that could not be answered ends the generation, and the reason comes
    /// out as it came in.
    pub open spec fn reacts<E>(self, reply: Result<Answer, E>, outcome: Outcome<E>) -> bool {
        match (reply, outcome) {
            (Err(reason), Outcome::Unanswered(e)) => e == reason,
            (Ok(answer), Outcome::GoesOn(after)) => {
                &&& self.failure(answer) is None
                &&& self.leads_to(answer, after)
            },
            (Ok(answer), Outcome::Refused(failure)) => self.failure(answer) == Some(failure),
            _ => false,
        }
    }

    /// What the stage asks.
    pub open spec fn question(self) -> QuestionView {
        match self.stage {
            Stage::UnitType => QuestionView::UnitType,
            Stage::ThisType => QuestionView::ThisType {
                class_trait: FOREIGN_CLASS_TRAIT@,
                box_var: THIS_VAR@,
                unpack_var: self.job.to_var_template@,
                unbox: true,
            },
            Stage::StaticOutput(i) | Stage::MethodOutput(i) => QuestionView::Conversion {
                kind: ConversionKind::Output,
                method: i,
                vars: seq![RET_VAR@],
                ret_type: self.job.methods_sign@[i as int].c_ret_type@,
            },
            Stage::StaticInputs(i) | Stage::MethodInputs(i) => QuestionView::Conversion {
                kind: ConversionKind::Inputs,
                method: i,
                vars: argument_names(self.job.methods_sign@[i as int].signature.input@.len()),
                ret_type: self.job.methods_sign@[i as int].c_ret_type@,
            },
            Stage::MethodThis(i) => QuestionView::Conversion {
                kind: ConversionKind::This { from: ObjectType::Held, to: ObjectType::Own },
                method: i,
                vars: seq![THIS_VAR@],
                ret_type: self.job.methods_sign@[i as int].c_ret_type@,
            },
            Stage::ConstructorType(i) => QuestionView::ConstructorType { method: i },
            Stage::ConstructorInputs(i) => QuestionView::Conversion {
                kind: ConversionKind::Inputs,
                method: i,
                vars: argument_names(self.job.methods_sign@[i as int].signature.input@.len()),
                ret_type: self.constructor_type,
            },
            Stage::ConstructorThis(i) => QuestionView::Conversion {
                kind: ConversionKind::This {
                    from: ObjectType::Constructed,
                    to: ObjectType::Constructed,
                },
                method: i,
                vars: seq![THIS_VAR@],
                ret_type: self.constructor_type,
            },
            Stage::Destructor => QuestionView::Destructor { unpack_var: THIS_VAR@, unbox: false },
            Stage::Done => QuestionView::Nothing,
        }
    }
}

/// The state in which the generation of `job` starts.
pub open spec fn start(job: ClassJob) -> GenerationView {
    GenerationView {
        job,
        stage: Stage::UnitType,
        this_type: seq![],
        box_code: seq![],
        constructor_type: seq![],
        output: None,
        inputs: None,
        code: seq![],
    }
}

/// What an optional conversion holds.
spec fn converted_view(converted: Option<Converted>) -> Option<ConvertedView> {
    match converted {
        Some(converted) => Some(converted@),
        None => None,
    }
}

/// A generation of the C++ side of one class, at work.
pub struct Generation<'a> {
    job: &'a ClassJob,
    stage: Stage,
    c_header: String,
    cpp_header: String,
    /// The C++ definitions stand behind the whole class, because VC++ has problems
    /// with types that refer to each other.
    inline_impl: String,
    last_cpp_access: MethodAccess,
    need_destructor: bool,
    /// Rust arguments of the method at hand.
    decl_func_args: String,
    this_type: String,
    box_code: String,
    constructor_type: String,
    output: Option<Converted>,
    inputs: Option<Converted>,
    code: Vec<TokenStream>,
}

impl<'a> View for Generation<'a> {
    type V = GenerationView;

    closed spec fn view(&self) -> GenerationView {
        GenerationView {
            job: *self.job,
            stage: self.stage,
            this_type: self.this_type@,
            box_code: self.box_code@,
            constructor_type: self.constructor_type@,
            output: converted_view(self.output),
            inputs: converted_view(self.inputs),
            code: self.code@,
        }
    }
}

impl<'a> Generation<'a> {
    /// Whether the text of the first `k` methods is written.
    spec fn has_written(self, k: int) -> bool {
        &&& 0 <= k <= self.job.paired()
        &&& self.job.class.copy_is_possible()
        &&& self.c_header@ == self.job.c_text(k)
        &&& self.cpp_header@ == self.job.cpp_text(k)
        &&& self.inline_impl@ == self.job.inline_text(k)
        &&& self.last_cpp_access == self.job.access_before(k)
        &&& self.need_destructor == self.job.constructs(k)
    }

    /// Whether the text written and the conversions known so far are those that belong
    /// to the stage.
    pub closed spec fn well_formed(self) -> bool {
        &&& self.stage.of(*self.job)
        &&& self.has_written(self.stage.written(*self.job))
        &&& match self.stage {
            Stage::StaticOutput(i) | Stage::StaticInputs(i) | Stage::MethodInputs(i)
            | Stage::MethodOutput(i) | Stage::MethodThis(i) | Stage::ConstructorType(i)
            | Stage::ConstructorInputs(i) | Stage::ConstructorThis(i) => {
                self.decl_func_args@ == list(self.job.methods_sign@[i as int].rust_args_with_types)
            },
            _ => true,
        }
        &&& self.output is Some == (self.stage is StaticInputs || self.stage is MethodThis)
        &&& self.inputs is Some == (self.stage is MethodOutput || self.stage is MethodThis
            || self.stage is ConstructorThis)
    }

    /// Where this generation stands.
    pub fn stage(&self) -> (stage: Stage)
        ensures
            stage == self@.stage,
    {
        self.stage
    }

    /// Writes the method number `i`, or tells why it cannot be written.
    fn write_method(&mut self, i: usize) -> (res: Result<(), GenerateError>)
        requires
            old(self).has_written(i as int),
            i < old(self).job.paired(),
        ensures
            match res {
                Ok(_) => {
                    &&& unwritten_list(old(self).job.methods_sign@[i as int]) is None
                    &&& final(self).has_written(i + 1)
                    &&& final(self).decl_func_args@ == list(
                        old(self).job.methods_sign@[i as int].rust_args_with_types,
                    )
                    &&& final(self)@ == old(self)@
                },
                Err(e) => {
                    &&& unwritten_list(old(self).job.methods_sign@[i as int]) is Some
                    &&& e@ == Failure::Diagnostic(
                        unwritten_list(old(self).job.methods_sign@[i as int])->0,
                    )
                },
            },
    {
        let job = self.job;
        let lists = match argument_lists(&job.methods_sign[i]) {
            Ok(lists) => lists,
            Err(reason) => {
                return Err(GenerateError::Diagnostic { message: reason.to_string() });
            },
        };
        let method = &job.class.methods[i];
        let c_part = render_c_part(job, i, &lists);
        let cpp_part = render_cpp_part(job, i, self.last_cpp_access, &lists);
        let inline_part = render_inline_part(job, i, &lists);
        self.c_header.append(c_part.as_str());
        self.cpp_header.append(cpp_part.as_str());
        self.inline_impl.append(inline_part.as_str());
        self.last_cpp_access = method.access;
        self.decl_func_args = lists.rust_args_with_types.to_string();
        let constructor = match method.variant {
            MethodVariant::Constructor => true,
            _ => false,
        };
        let ghost before = self.need_destructor;
        self.need_destructor = self.need_destructor || constructor;
        proof {
            assert(job.constructs(i + 1) == (before || constructor)) by {
                if before {
                    let j = choose|j: int|
                        0 <= j < i && #[trigger] job.class.methods@[j].variant is Constructor;
                    assert(job.class.methods@[j].variant is Constructor);
                }
                if constructor {
                    assert(job.class.methods@[i as int].variant is Constructor);
                }
            }
        }
        Ok(())
    }

    /// Writes the methods from number `from` on, up to the first one that asks for
    /// something.
    fn proceed(self, from: usize) -> (res: Result<Generation<'a>, GenerateError>)
        requires
            self.has_written(from as int),
            self.output is None,
            self.inputs is None,
        ensures
            match res {
                Ok(after) => {
                    &&& after.well_formed()
                    &&& stage_from(*self.job, from as int) == Ok::<Stage, Failure>(after.stage)
                    &&& after@ == (GenerationView { stage: after.stage, ..self@ })
                },
                Err(e) => stage_from(*self.job, from as int) == Err::<Stage, Failure>(e@),
            },
    {
        let mut g = self;
        let job = g.job;
        let n = count_paired(job);
        let mut i: usize = from;
        while i < n
            invariant
                n == job.paired(),
                i <= n,
                g.job == job,
                self.job == job,
                g.has_written(i as int),
                g@ == self@,
                g.output is None,
                g.inputs is None,
                stage_from(*job, from as int) == stage_from(*job, i as int),
            decreases n - i,
        {
            match g.write_method(i) {
                Ok(_) => {},
                Err(e) => {
                    return Err(e);
                },
            }
            match job.class.methods[i].variant {
                MethodVariant::StaticMethod => {
                    g.stage = Stage::StaticOutput(i);
                    return Ok(g);
                },
                MethodVariant::Method { .. } => {
                    g.stage = Stage::MethodInputs(i);
                    return Ok(g);
                },
                MethodVariant::Constructor => {
                    if !job.class.methods[i].dummy_constructor {
                        if !job.class.has_constructor_ret_type {
                            return Err(no_this_error(job));
                        }
                        g.stage = Stage::ConstructorType(i);
                        return Ok(g);
                    }
                },
            }
            i = i + 1;
        }
        if !g.need_destructor {
            g.stage = Stage::Done;
            Ok(g)
        } else if job.class.has_constructor_ret_type {
            g.stage = Stage::Destructor;
            Ok(g)
        } else {
            Err(no_this_error(job))
        }
    }

    /// Takes the code that an answer completed and proceeds with the method number
    /// `from`.
    fn proceed_with(
        self,
        tokens: Result<Vec<TokenStream>, GenerateError>,
        from: usize,
    ) -> (res: Result<Generation<'a>, GenerateError>)
        requires
            self.has_written(from as int),
            self.output is None,
            self.inputs is None,
        ensures
            match (tokens, res) {
                (Err(e), _) => res matches Err(same) && same == e,
                (Ok(tokens), Ok(after)) => {
                    &&& after.well_formed()
                    &&& stage_from(*self.job, from as int) == Ok::<Stage, Failure>(after@.stage)
                    &&& after@ == (GenerationView {
                        stage: after@.stage,
                        code: self@.code + tokens@,
                        ..self@
                    })
                },
                (Ok(_), Err(e)) => stage_from(*self.job, from as int) == Err::<Stage, Failure>(e@),
            },
    {
        match tokens {
            Ok(tokens) => {
                let mut g = self;
                let mut new_code = tokens;
                g.code.append(&mut new_code);
                g.proceed(from)
            },
            Err(e) => Err(e),
        }
    }

    /// Whether `res` is what comes of `answer`.
    spec fn answered(self, answer: Answer, res: Result<Generation<'a>, GenerateError>) -> bool {
        match res {
            Ok(after) => {
                &&& self@.failure(answer) is None
                &&& after.well_formed()
                &&& self@.leads_to(answer, after@)
            },
            Err(e) => self@.failure(answer) == Some(e@),
        }
    }

    /// Takes the reply to the question of the stage: an answer, with which the
    /// generation goes on to the next stage, or the reason why there is none, which
    /// ends it and comes out unchanged.
    pub fn answer<E>(self, reply: Result<Answer, E>) -> (res: Result<Generation<'a>, Stop<E>>)
        requires
            self.well_formed(),
            self@.stage !is Done,
            reply matches Ok(answer) ==> self@.stage.asks_for(answer),
        ensures
            self@.reacts(reply, outcome(res)),
            res matches Ok(after) ==> after.well_formed(),
    {
        match reply {
            Ok(answer) => match self.take_answer(answer) {
                Ok(after) => Ok(after),
                Err(e) => Err(Stop::Refused(e)),
            },
            Err(reason) => Err(Stop::Unanswered(reason)),
        }
    }

    /// Takes the answer to the stage and goes on to the next stage.
    fn take_answer(self, answer: Answer) -> (res: Result<Generation<'a>, GenerateError>)
        requires
            self.well_formed(),
            self@.stage.asks_for(answer),
        ensures
            self.answered(answer, res),
    {
        match answer {
            Answer::UnitType { name } => self.answer_unit_type(name),
            Answer::ThisType(this_type) => self.answer_this_type(this_type),
            Answer::Output(output) => self.answer_output(output),
            Answer::Inputs(inputs) => match self.stage {
                Stage::StaticInputs(i) => self.answer_static_inputs(i, inputs),
                _ => self.answer_inputs(inputs),
            },
            Answer::This(this) => match self.stage {
                Stage::MethodThis(i) => self.answer_method_this(i, this),
                _ => self.answer_constructor_this(this),
            },
            Answer::ConstructorType { name } => self.answer_constructor_type(name),
            Answer::Destructor { unpack_code } => self.answer_destructor(unpack_code),
        }
    }

    /// Takes the name of the unit type.
    fn answer_unit_type(self, name: String) -> (res: Result<Generation<'a>, GenerateError>)
        requires
            self.well_formed(),
            self@.stage.asks_for((Answer::UnitType { name })),
        ensures
            self.answered((Answer::UnitType { name }), res),
    {
        let mut g = self;
        g.this_type = name;
        if g.job.class.has_constructor_ret_type {
            g.stage = Stage::ThisType;
            Ok(g)
        } else {
            g.proceed(0)
        }
    }

    /// Takes the type that the constructors return.
    fn answer_this_type(self, this_type: ThisType) -> (res: Result<
        Generation<'a>,
        GenerateError,
    >)
        requires
            self.well_formed(),
            self@.stage.asks_for((Answer::ThisType(this_type))),
        ensures
            self.answered((Answer::ThisType(this_type)), res),
    {
        let mut g = self;
        let tokens = try_generate_class_impl(&this_type, g.job.to_var_template.as_str());
        g.this_type = this_type.heap_type;
        g.box_code = this_type.box_code;
        let res = g.proceed_with(tokens, 0);
        proof {
            lemma_code_grows(self@.code, tokens, res);
        }
        res
    }

    /// Takes the conversion of a result.
    fn answer_output(self, output: Converted) -> (res: Result<
        Generation<'a>,
        GenerateError,
    >)
        requires
            self.well_formed(),
            self@.stage.asks_for(Answer::Output(output)),
        ensures
            self.answered(Answer::Output(output), res),
    {
        let mut g = self;
        g.stage = match g.stage {
            Stage::StaticOutput(i) => Stage::StaticInputs(i),
            Stage::MethodOutput(i) => Stage::MethodThis(i),
            stage => stage,
        };
        g.output = Some(output);
        Ok(g)
    }

    /// Takes the conversion of the arguments of a method or a constructor.
    fn answer_inputs(self, inputs: Converted) -> (res: Result<
        Generation<'a>,
        GenerateError,
    >)
        requires
            self.well_formed(),
            self@.stage.asks_for(Answer::Inputs(inputs)),
            self@.stage !is StaticInputs,
        ensures
            self.answered(Answer::Inputs(inputs), res),
    {
        let mut g = self;
        g.stage = match g.stage {
            Stage::MethodInputs(i) => Stage::MethodOutput(i),
            Stage::ConstructorInputs(i) => Stage::ConstructorThis(i),
            stage => stage,
        };
        g.inputs = Some(inputs);
        Ok(g)
    }

    /// Takes the conversion of the arguments of the static method number `i`, which
    /// completes its code.
    fn answer_static_inputs(self, i: usize, inputs: Converted) -> (res: Result<
        Generation<'a>,
        GenerateError,
    >)
        requires
            self.well_formed(),
            self@.stage == Stage::StaticInputs(i),
        ensures
            self.answered(Answer::Inputs(inputs), res),
    {
        let mut g = self;
        let job = g.job;
        assert(job.class.methods@.len() == job.class.methods.len());
        let output = g.output.take().unwrap();
        let decl_func_args = g.decl_func_args.clone();
        let mc = MethodContext {
            method: &job.class.methods[i],
            f_method: &job.methods_sign[i],
            decl_func_args: decl_func_args.as_str(),
            real_output_typename: render_real_output_typename(&job.class.methods[i].output),
        };
        let tokens = try_generate_static_method(&mc, output, inputs);
        let res = g.proceed_with(tokens, i + 1);
        proof {
            lemma_code_grows(self@.code, tokens, res);
        }
        res
    }

    /// Takes the conversion of the object of the method number `i`, which completes its
    /// code.
    fn answer_method_this(self, i: usize, this: ConvertedThis) -> (res: Result<
        Generation<'a>,
        GenerateError,
    >)
        requires
            self.well_formed(),
            self@.stage == Stage::MethodThis(i),
        ensures
            self.answered(Answer::This(this), res),
    {
        let mut g = self;
        let job = g.job;
        assert(job.class.methods@.len() == job.class.methods.len());
        let inputs = g.inputs.take().unwrap();
        let output = g.output.take().unwrap();
        let decl_func_args = g.decl_func_args.clone();
        let mc = MethodContext {
            method: &job.class.methods[i],
            f_method: &job.methods_sign[i],
            decl_func_args: decl_func_args.as_str(),
            real_output_typename: render_real_output_typename(&job.class.methods[i].output),
        };
        let tokens = try_generate_method(&mc, inputs, output, this, g.this_type.as_str());
        let res = g.proceed_with(tokens, i + 1);
        proof {
            lemma_code_grows(self@.code, tokens, res);
        }
        res
    }

    /// Takes the name of the type that a constructor returns.
    fn answer_constructor_type(self, name: String) -> (res: Result<
        Generation<'a>,
        GenerateError,
    >)
        requires
            self.well_formed(),
            self@.stage.asks_for((Answer::ConstructorType { name })),
        ensures
            self.answered((Answer::ConstructorType { name }), res),
    {
        let mut g = self;
        g.constructor_type = name;
        g.stage = match g.stage {
            Stage::ConstructorType(i) => Stage::ConstructorInputs(i),
            stage => stage,
        };
        Ok(g)
    }

    /// Takes the conversion of the object that a constructor returns, which completes
    /// its code.
    fn answer_constructor_this(self, this: ConvertedThis) -> (res: Result<
        Generation<'a>,
        GenerateError,
    >)
        requires
            self.well_formed(),
            self@.stage is ConstructorThis,
        ensures
            self.answered(Answer::This(this), res),
    {
        let mut g = self;
        let job = g.job;
        let i = match g.stage {
            Stage::ConstructorThis(i) => i,
            _ => 0,
        };
        assert(job.class.methods@.len() == job.class.methods.len());
        let inputs = g.inputs.take().unwrap();
        let decl_func_args = g.decl_func_args.clone();
        let mc = MethodContext {
            method: &job.class.methods[i],
            f_method: &job.methods_sign[i],
            decl_func_args: decl_func_args.as_str(),
            real_output_typename: render_real_output_typename(&job.class.methods[i].output),
        };
        let tokens = try_generate_constructor(&mc, inputs, this, g.box_code.as_str());
        let res = g.proceed_with(tokens, i + 1);
        proof {
            lemma_code_grows(self@.code, tokens, res);
        }
        res
    }

    /// Takes the code that takes an object out of its box.
    fn answer_destructor(self, unpack_code: String) -> (res: Result<
        Generation<'a>,
        GenerateError,
    >)
        requires
            self.well_formed(),
            self@.stage.asks_for((Answer::Destructor { unpack_code })),
        ensures
            self.answered((Answer::Destructor { unpack_code }), res),
    {
        let mut g = self;
        match try_generate_destructor(
            g.job.class.name.as_str(),
            g.this_type.as_str(),
            unpack_code.as_str(),
        ) {
            Ok(tokens) => {
                let mut new_code = tokens;
                g.code.append(&mut new_code);
                g.stage = Stage::Done;
                proof {
                    assert(self@.code =~= g.code@.subrange(0, self@.code.len() as int));
                    assert(g.code@.skip(self@.code.len() as int) =~= tokens@);
                }
                Ok(g)
            },
            Err(e) => Err(e),
        }
    }

    /// Asks the question of the stage.
    pub fn question(&self) -> (question: Question)
        requires
            self.well_formed(),
        ensures
            question@ == self@.question(),
    {
        match self.stage {
            Stage::UnitType => Question::UnitType,
            Stage::ThisType => Question::ThisType {
                class_trait: FOREIGN_CLASS_TRAIT.to_string(),
                box_var: THIS_VAR.to_string(),
                unpacking: Unpacking {
                    var: self.job.to_var_template.as_str().to_string(),
                    unbox: true,
                },
            },
            Stage::StaticOutput(i) | Stage::MethodOutput(i) => {
                let ret_type = self.job.methods_sign[i].c_ret_type.as_str();
                ask_conversion(ConversionKind::Output, i, one_variable(RET_VAR), ret_type)
            },
            Stage::StaticInputs(i) | Stage::MethodInputs(i) => {
                let sign = &self.job.methods_sign[i];
                let vars = name_arguments(sign.signature.input.len());
                ask_conversion(ConversionKind::Inputs, i, vars, sign.c_ret_type.as_str())
            },
            Stage::MethodThis(i) => {
                let kind = ConversionKind::This { from: ObjectType::Held, to: ObjectType::Own };
                let ret_type = self.job.methods_sign[i].c_ret_type.as_str();
                ask_conversion(kind, i, one_variable(THIS_VAR), ret_type)
            },
            Stage::ConstructorType(i) => Question::ConstructorType { method: i },
            Stage::ConstructorInputs(i) => {
                let vars = name_arguments(self.job.methods_sign[i].signature.input.len());
                let ret_type = self.constructor_type.as_str();
                ask_conversion(ConversionKind::Inputs, i, vars, ret_type)
            },
            Stage::ConstructorThis(i) => {
                let kind = ConversionKind::This {
                    from: ObjectType::Constructed,
                    to: ObjectType::Constructed,
                };
                let ret_type = self.constructor_type.as_str();
                ask_conversion(kind, i, one_variable(THIS_VAR), ret_type)
            },
            Stage::Destructor => Question::Destructor(
                Unpacking { var: THIS_VAR.to_string(), unbox: false },
            ),
            Stage::Done => Question::Nothing,
        }
    }

    /// Completes the headers and hands out the C++ side of the class.
    pub fn finish(self) -> (generated: GeneratedClass)
        requires
            self.well_formed(),
            self@.stage is Done,
        ensures
            generated.files@.map_values(|file: GeneratedFile| file@) == self@.job.files(),
            generated.code@ == self@.code,
    {
        let job = self.job;
        let name = job.class.name.as_str();
        let namespace = job.namespace_name.as_str();
        let class_name = render_wrapper_name(name);
        let mut c_header = self.c_header;
        let mut cpp_header = self.cpp_header;
        if self.need_destructor {
            let c_destructor_name = render_destructor_name(name);
            c_header.append(
                render_c_destructor(
                    c_destructor_name.as_str(),
                    job.class.c_class_type.as_str(),
                ).as_str(),
            );
            cpp_header.append(
                render_cpp_destructor(c_destructor_name.as_str(), class_name.as_str()).as_str(),
            );
        } else {
            cpp_header.append(render_cpp_no_destructor().as_str());
        }
        c_header.append(render_c_epilogue().as_str());
        cpp_header.append(render_cpp_class_end(job.class.foreigner_code.as_str()).as_str());
        let mut files: Vec<GeneratedFile> = Vec::new();
        if job.separate_impl_headers {
            cpp_header.append(render_cpp_namespace_end(namespace).as_str());
            let mut impl_header = render_impl_prologue(name, namespace);
            write_methods_impls(&mut impl_header, namespace, self.inline_impl.as_str());
            files.push(GeneratedFile { name: render_impl_header_name(name), text: impl_header });
        } else {
            write_methods_impls(&mut cpp_header, namespace, self.inline_impl.as_str());
        }
        let fwd_header = render_forward_header(namespace, class_name.as_str(), name);
        files.push(GeneratedFile { name: render_fwd_header_name(name), text: fwd_header });
        files.push(GeneratedFile { name: render_c_header_name(name), text: c_header });
        files.push(GeneratedFile { name: job.class.cpp_header_name.clone(), text: cpp_header });
        assert(files@.map_values(|file: GeneratedFile| file@) =~= job.files());
        GeneratedClass { files, code: self.code }
    }
}

/// Starts the generation of the C++ side of a class.
pub fn generate<'a>(job: &'a ClassJob) -> (res: Result<Generation<'a>, GenerateError>)
    ensures
        match res {
            Ok(g) => {
                &&& job.class.copy_is_possible()
                &&& g.well_formed()
                &&& g@ == start(*job)
            },
            Err(e) => {
                &&& !job.class.copy_is_possible()
                &&& e@ == Failure::Diagnostic(
                    no_clone_message(job.class.name@, job.namespace_name@),
                )
            },
        },
{
    let cpp_header = match render_cpp_opening(job) {
        Some(text) => text,
        None => {
            return Err(no_clone_error(job));
        },
    };
    Ok(
        Generation {
            job,
            stage: Stage::UnitType,
            c_header: render_c_opening(job),
            cpp_header,
            inline_impl: String::new(),
            last_cpp_access: MethodAccess::Public,
            need_destructor: false,
            decl_func_args: String::new(),
            this_type: String::new(),
            box_code: String::new(),
            constructor_type: String::new(),
            output: None,
            inputs: None,
            code: Vec::new(),
        },
    )
}

/// The variable `name` alone.
fn one_variable(name: &str) -> (vars: Vec<String>)
    ensures
        texts(vars@) == seq![name@],
{
    let mut vars: Vec<String> = Vec::new();
    vars.push(name.to_string());
    assert(texts(vars@) =~= seq![name@]);
    vars
}

/// Asks for a conversion.
fn ask_conversion(
    kind: ConversionKind,
    method: usize,
    vars: Vec<String>,
    ret_type: &str,
) -> (question: Question)
    ensures
        question@ == (QuestionView::Conversion {
            kind,
            method,
            vars: texts(vars@),
            ret_type: ret_type@,
        }),
{
    Question::Conversion(Conversion { kind, method, vars, ret_type: ret_type.to_string() })
}

/// New code stands behind the code that was there.
proof fn lemma_code_grows<'a>(
    before: Seq<TokenStream>,
    tokens: Result<Vec<TokenStream>, GenerateError>,
    res: Result<Generation<'a>, GenerateError>,
)
    ensures
        (tokens is Ok && res is Ok && res->Ok_0@.code == before + tokens->Ok_0@) ==> {
            &&& before.is_prefix_of(res->Ok_0@.code)
            &&& res->Ok_0@.code.skip(before.len() as int) == tokens->Ok_0@
        },
{
    if tokens is Ok && res is Ok && res->Ok_0@.code == before + tokens->Ok_0@ {
        assert(before =~= res->Ok_0@.code.subrange(0, before.len() as int));
        assert(res->Ok_0@.code.skip(before.len() as int) =~= tokens->Ok_0@);
    }
}

} // verus!
