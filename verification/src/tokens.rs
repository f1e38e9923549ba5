//! Rust code as a stream of tokens.

use proc_macro2::TokenStream;
use vstd::prelude::*;

verus! {

/// A sequence of Rust tokens.
#[verifier::external_type_specification]
#[verifier::external_body]
pub struct ExTokenStream(proc_macro2::TokenStream);

/// The reason why some text is no sequence of Rust tokens.
#[verifier::external_type_specification]
#[verifier::external_body]
pub struct ExSynError(syn::Error);

/// The tokens of `stream`, as its `Display` prints them.
pub uninterp spec fn token_text(stream: TokenStream) -> Seq<char>;

/// The tokens that `syn::parse_str` finds in `code`, printed; `None` where
/// `code` is no sequence of Rust tokens.
pub uninterp spec fn parsed_tokens(code: Seq<char>) -> Option<Seq<char>>;

/// Whether `c` can stand in a name.
pub open spec fn is_name_char(c: char) -> bool {
    'a' <= c <= 'z' || 'A' <= c <= 'Z' || '0' <= c <= '9' || c == '_'
}

/// Whether `s` is an identifier of ASCII characters.
pub open spec fn is_name(s: Seq<char>) -> bool {
    &&& s.len() > 0
    &&& !('0' <= s[0] <= '9')
    &&& forall|k: int| 0 <= k < s.len() ==> is_name_char(#[trigger] s[k])
}

/// `name` between `opening` and `rest`.
pub open spec fn with_name(opening: Seq<char>, name: Seq<char>, rest: Seq<char>) -> Seq<char> {
    opening + name + rest
}

/// Whether a name between `opening` and `rest` stands alone: behind a space and in
/// front of a parenthesis.
pub open spec fn sets_name_apart(opening: Seq<char>, rest: Seq<char>) -> bool {
    &&& opening.len() > 0
    &&& opening.last() == ' '
    &&& rest.len() > 0
    &&& rest[0] == '('
}

/// Whether `x` and `y` are the same, but that `y` may hold `other` at one place where
/// `x` holds `name`.
pub open spec fn same_but_name(
    x: Seq<char>,
    y: Seq<char>,
    name: Seq<char>,
    other: Seq<char>,
) -> bool {
    ||| x == y
    ||| exists|before: Seq<char>, after: Seq<char>|
        #![trigger with_name(before, name, after), with_name(before, other, after)]
        x == with_name(before, name, after) && y == with_name(before, other, after)
}

/// Whether a name in `code` can be any other: where one stands alone, the code with
/// another name in its place is a sequence of tokens too, the same but for the name.
pub open spec fn takes_any_name(code: Seq<char>) -> bool {
    forall|opening: Seq<char>, name: Seq<char>, other: Seq<char>, rest: Seq<char>|
        #![trigger with_name(opening, name, rest), with_name(opening, other, rest)]
        code == with_name(opening, name, rest) && sets_name_apart(opening, rest) && is_name(name)
            && is_name(other) ==> {
            &&& parsed_tokens(with_name(opening, other, rest)) is Some
            &&& same_but_name(
                parsed_tokens(code)->0,
                parsed_tokens(with_name(opening, other, rest))->0,
                name,
                other,
            )
        }
}

/// Calls `syn::parse_str` for a `TokenStream`.
///
/// What is claimed of it: whether it succeeds, and the tokens that it returns
/// then, depend on the characters of `code` alone. The crates are built without
/// their `proc-macro` feature, so the lexer is always the one of `proc_macro2`
/// and never that of a running compiler. Nothing is claimed of the text inside
/// the error. The lexer calls itself for each nested bracket; code nested deep
/// enough exhausts the stack.
///
/// And: in code that it accepts, a name that stands behind a space and in front of
/// a parenthesis can be exchanged for another name. Such a name is an identifier,
/// or it stands inside of a literal or a comment. The lexer looks at no character
/// behind a space before it has come there, it takes every identifier alike, and a
/// name holds no character that ends or escapes anything in a literal or a comment.
/// An identifier and a literal are printed as they were read; of a comment, either
/// nothing is left, or it is printed inside of a literal.
#[verifier::external_body]
fn parse_str(code: &str) -> (res: Result<TokenStream, syn::Error>)
    ensures
        res matches Ok(stream) ==> parsed_tokens(code@) == Some(token_text(stream)),
        res is Err ==> parsed_tokens(code@) is None,
        res is Ok ==> takes_any_name(code@),
{
    syn::parse_str(code)
}

/// Why no code was generated for a class.
pub enum GenerateError {
    /// The description of the class is at fault.
    Diagnostic { message: String },
    /// A generated piece of code is no sequence of Rust tokens.
    Unparsable { what: String, code: String, error: syn::Error },
}

/// What a [`GenerateError`] tells.
pub enum Failure {
    Diagnostic(Seq<char>),
    Unparsable { what: Seq<char>, code: Seq<char> },
}

impl View for GenerateError {
    type V = Failure;

    open spec fn view(&self) -> Failure {
        match self {
            GenerateError::Diagnostic { message } => Failure::Diagnostic(message@),
            GenerateError::Unparsable { what, code, error: _ } => Failure::Unparsable {
                what: what@,
                code: code@,
            },
        }
    }
}

/// Turns generated code into tokens; `what` says which piece of code it is.
pub fn parse_code(what: &str, code: String) -> (res: Result<TokenStream, GenerateError>)
    ensures
        match res {
            Ok(stream) => {
                &&& parsed_tokens(code@) == Some(token_text(stream))
                &&& takes_any_name(code@)
            },
            Err(e) => parsed_tokens(code@) is None && e@ == (Failure::Unparsable {
                what: what@,
                code: code@,
            }),
        },
{
    match parse_str(code.as_str()) {
        Ok(stream) => Ok(stream),
        Err(error) => Err(GenerateError::Unparsable { what: what.to_string(), code, error }),
    }
}

} // verus!
