//! The search for the C and C++ types of the methods of a class.
//!
//! A [`SignatureSearch`] asks for one type at a time, method by method; only the
//! owner of the type map can answer. A type that cannot be found ends the search.

use crate::types::{
    CppForeignMethodSignature, CppForeignTypeInfo, ForeignTypeInfo, ForeignerClassInfo,
    ForeignerMethod, MethodVariant, ReturnType,
};
use vstd::prelude::*;

verus! {

/// Which way the values of a type go.
#[derive(Clone, Copy, Debug, PartialEq, Eq, Structural)]
pub enum Direction {
    /// From C++ to Rust.
    Incoming,
    /// From Rust to C++.
    Outgoing,
}

/// Where a type stands in the declaration of a method.
#[derive(Clone, Copy, Debug, PartialEq, Eq, Structural)]
pub enum TypePosition {
    /// The argument with this number, the object itself counted.
    Argument(usize),
    /// The result.
    Output,
}

/// A question: what is the foreign type for the Rust type at this place?
#[derive(Clone, Copy, Debug, PartialEq, Eq, Structural)]
pub struct TypeQuery {
    /// Number of the method.
    pub method: usize,
    pub position: TypePosition,
    pub direction: Direction,
}

/// Number of arguments that stand for the object itself.
pub open spec fn own_arguments(variant: MethodVariant) -> nat {
    if variant is Method {
        1
    } else {
        0
    }
}

/// Whether the declaration of `method` has an argument for its object, if it
/// needs one.
pub open spec fn declares_object(method: ForeignerMethod) -> bool {
    method.inputs >= own_arguments(method.variant)
}

/// Number of arguments of `method` but the object itself.
pub open spec fn foreign_arguments(method: ForeignerMethod) -> nat {
    (method.inputs - own_arguments(method.variant)) as nat
}

/// Whether the result of `method` has a foreign type of its own.
pub open spec fn maps_output(method: ForeignerMethod) -> bool {
    method.variant !is Constructor && method.output is Type
}

/// The questions about the method number `i`: its arguments in their order, then
/// its result.
pub open spec fn method_queries(method: ForeignerMethod, i: usize) -> Seq<TypeQuery> {
    Seq::new(
        foreign_arguments(method),
        |k: int|
            TypeQuery {
                method: i,
                position: TypePosition::Argument((own_arguments(method.variant) + k) as usize),
                direction: Direction::Incoming,
            },
    ) + if maps_output(method) {
        seq![
            TypeQuery {
                method: i,
                position: TypePosition::Output,
                direction: Direction::Outgoing,
            },
        ]
    } else {
        seq![]
    }
}

/// Whether `output` is the result of `method`, whose result has no foreign type of
/// its own.
///
/// A constructor has a result without a name, another method has the result `void`;
/// both correspond to the unit type.
pub open spec fn is_unmapped_output(
    output: CppForeignTypeInfo,
    method: ForeignerMethod,
    unit_type: Seq<char>,
) -> bool {
    &&& output.cpp_converter is None
    &&& output.base.rust_type@ == unit_type
    &&& output.base.name@ == if method.variant is Constructor {
        ""@
    } else {
        "void"@
    }
}

/// Whether `signature` is the one of `method` when its questions have `answers`.
pub open spec fn is_signature(
    signature: CppForeignMethodSignature,
    method: ForeignerMethod,
    unit_type: Seq<char>,
    answers: Seq<CppForeignTypeInfo>,
) -> bool {
    &&& signature.input@ == answers.take(foreign_arguments(method) as int)
    &&& if maps_output(method) {
        signature.output == answers[foreign_arguments(method) as int]
    } else {
        is_unmapped_output(signature.output, method, unit_type)
    }
}

/// Whether `signature` can be the one of `method`, whatever the answers are.
pub open spec fn fits(
    signature: CppForeignMethodSignature,
    method: ForeignerMethod,
    unit_type: Seq<char>,
) -> bool {
    &&& signature.input@.len() == foreign_arguments(method)
    &&& !maps_output(method) ==> is_unmapped_output(signature.output, method, unit_type)
}

/// What is to be seen of a [`SignatureSearch`].
pub struct SearchView {
    pub class: ForeignerClassInfo,
    /// Normalized name of the unit type.
    pub unit_type: Seq<char>,
    /// The signatures found so far, in the order of the methods.
    pub found: Seq<CppForeignMethodSignature>,
    /// The types found so far for the method at hand, in the order of its questions.
    pub answers: Seq<CppForeignTypeInfo>,
}

impl SearchView {
    /// Whether the search is over.
    pub open spec fn complete(self) -> bool {
        self.found.len() >= self.class.methods@.len()
    }

    /// The method that is asked about.
    pub open spec fn method(self) -> ForeignerMethod {
        self.class.methods@[self.found.len() as int]
    }

    /// All questions about that method.
    pub open spec fn queries(self) -> Seq<TypeQuery> {
        method_queries(self.method(), self.found.len() as usize)
    }

    /// The question that is asked next; none when all questions about the method are
    /// answered.
    pub open spec fn query(self) -> Option<TypeQuery> {
        if self.answers.len() < self.queries().len() {
            Some(self.queries()[self.answers.len() as int])
        } else {
            None
        }
    }

    /// Whether `outcome` is what comes of `reply`: a type goes behind the others, and
    /// the reason why there is none ends the search and comes out as it came in.
    pub open spec fn reacts<E>(
        self,
        reply: Result<CppForeignTypeInfo, E>,
        outcome: Result<SearchView, E>,
    ) -> bool {
        match reply {
            Ok(answer) => outcome == Ok::<SearchView, E>(
                SearchView { answers: self.answers.push(answer), ..self },
            ),
            Err(reason) => outcome == Err::<SearchView, E>(reason),
        }
    }

    /// Whether `after` is the search with the signature of the method at hand found.
    pub open spec fn concludes(self, after: SearchView) -> bool {
        &&& after.class == self.class
        &&& after.unit_type == self.unit_type
        &&& after.found.len() == self.found.len() + 1
        &&& after.found.drop_last() == self.found
        &&& is_signature(after.found.last(), self.method(), self.unit_type, self.answers)
        &&& after.answers.len() == 0
    }
}

/// The state in which the search for the types of `class` starts.
pub open spec fn search_start(class: ForeignerClassInfo, unit_type: Seq<char>) -> SearchView {
    SearchView { class, unit_type, found: seq![], answers: seq![] }
}

/// A search for the foreign types of the methods of a class, at work.
pub struct SignatureSearch<'a> {
    class: &'a ForeignerClassInfo,
    unit_type: String,
    found: Vec<CppForeignMethodSignature>,
    answers: Vec<CppForeignTypeInfo>,
}

impl<'a> View for SignatureSearch<'a> {
    type V = SearchView;

    closed spec fn view(&self) -> SearchView {
        SearchView {
            class: *self.class,
            unit_type: self.unit_type@,
            found: self.found@,
            answers: self.answers@,
        }
    }
}

/// Tells whether the declaration of `method` has an argument for its object, if
/// it needs one.
pub fn method_declares_object(method: &ForeignerMethod) -> (res: bool)
    ensures
        res == declares_object(*method),
{
    match method.variant {
        MethodVariant::Method { .. } => method.inputs >= 1,
        _ => true,
    }
}

/// Starts the search for the foreign types of the methods of `class`.
pub fn find_suitable_foreign_types_for_methods<'a>(
    class: &'a ForeignerClassInfo,
    unit_type: String,
) -> (search: SignatureSearch<'a>)
    ensures
        search.well_formed(),
        search@ == search_start(*class, unit_type@),
{
    SignatureSearch { class, unit_type, found: Vec::new(), answers: Vec::new() }
}

impl<'a> SignatureSearch<'a> {
    /// Whether no more signatures were found than there are methods, each fits its
    /// method, and there are no more answers than questions.
    pub closed spec fn well_formed(self) -> bool {
        &&& self.found@.len() <= self.class.methods@.len()
        &&& forall|i: int|
            0 <= i < self.found@.len() ==> fits(
                #[trigger] self.found@[i],
                self.class.methods@[i],
                self.unit_type@,
            )
        &&& self.found@.len() == self.class.methods@.len() ==> self.answers@.len() == 0
        &&& self.found@.len() < self.class.methods@.len() ==> self.answers@.len()
            <= self@.queries().len()
    }

    /// The method that is asked about; none when the search is over.
    pub fn method(&self) -> (method: Option<&'a ForeignerMethod>)
        requires
            self.well_formed(),
        ensures
            match method {
                Some(m) => !self@.complete() && *m == self@.method(),
                None => self@.complete(),
            },
    {
        if self.found.len() < self.class.methods.len() {
            Some(&self.class.methods[self.found.len()])
        } else {
            None
        }
    }

    /// The question that is asked next; none when all questions about the method at hand
    /// are answered.
    pub fn query(&self) -> (query: Option<TypeQuery>)
        requires
            self.well_formed(),
            !self@.complete(),
            declares_object(self@.method()),
        ensures
            query == self@.query(),
    {
        let i = self.found.len();
        let method = &self.class.methods[i];
        let skip_n: usize = match method.variant {
            MethodVariant::Method { .. } => 1,
            _ => 0,
        };
        let k = self.answers.len();
        let n = method.inputs - skip_n;
        let position = if k < n {
            Some((TypePosition::Argument(skip_n + k), Direction::Incoming))
        } else if k == n {
            match (&method.variant, &method.output) {
                (MethodVariant::Constructor, _) => None,
                (_, ReturnType::Default) => None,
                (_, ReturnType::Type(_)) => Some((TypePosition::Output, Direction::Outgoing)),
            }
        } else {
            None
        };
        match position {
            Some((position, direction)) => Some(TypeQuery { method: i, position, direction }),
            None => None,
        }
    }

    /// Takes the reply to the question: a type, or the reason why there is none, which
    /// ends the search and comes out unchanged.
    pub fn supply<E>(self, reply: Result<CppForeignTypeInfo, E>) -> (res: Result<
        SignatureSearch<'a>,
        E,
    >)
        requires
            self.well_formed(),
            !self@.complete(),
            declares_object(self@.method()),
            self@.query() is Some,
        ensures
            self@.reacts(
                reply,
                match res {
                    Ok(after) => Ok(after@),
                    Err(e) => Err(e),
                },
            ),
            res matches Ok(after) ==> after.well_formed(),
    {
        match reply {
            Ok(answer) => {
                let mut search = self;
                search.answers.push(answer);
                Ok(search)
            },
            Err(reason) => Err(reason),
        }
    }

    /// Makes the signature of the method at hand out of the answers, and goes on to the
    /// next method.
    pub fn conclude(&mut self)
        requires
            old(self).well_formed(),
            !old(self)@.complete(),
            declares_object(old(self)@.method()),
            old(self)@.query() is None,
        ensures
            final(self).well_formed(),
            old(self)@.concludes(final(self)@),
    {
        let method = &self.class.methods[self.found.len()];
        let mut input: Vec<CppForeignTypeInfo> = Vec::new();
        let ghost answers = self.answers@;
        input.append(&mut self.answers);
        assert(input@ =~= answers);
        let name = match (&method.variant, &method.output) {
            (MethodVariant::Constructor, _) => Some(""),
            (_, ReturnType::Default) => Some("void"),
            (_, ReturnType::Type(_)) => None,
        };
        let output = match name {
            Some(name) => CppForeignTypeInfo {
                base: ForeignTypeInfo { name: name.to_string(), rust_type: self.unit_type.clone() },
                cpp_converter: None,
            },
            None => input.pop().unwrap(),
        };
        assert(input@ =~= answers.take(foreign_arguments(*method) as int));
        let ghost before = self.found@;
        self.found.push(CppForeignMethodSignature { output, input });
        assert(self.found@.drop_last() =~= before);
    }

    /// Hands out the signatures, one for each method and fit for it.
    pub fn finish(self) -> (found: Vec<CppForeignMethodSignature>)
        requires
            self.well_formed(),
            self@.complete(),
        ensures
            found@ == self@.found,
            found@.len() == self@.class.methods@.len(),
            forall|i: int|
                0 <= i < found@.len() ==> fits(
                    #[trigger] found@[i],
                    self@.class.methods@[i],
                    self@.unit_type,
                ),
    {
        self.found
    }
}

} // verus!
