# cpp_class

Generates the C++ side of a Rust class: a C header with the exported functions,
a C++ header with a wrapper class around them, forward declarations, and the
Rust functions that C++ calls. The library is written in Verus. Its contracts
say what the generated text is, character by character, and when a class is
refused and with which message.

The type map, which knows how a Rust type is seen from C++, lives outside. The
library asks it one question at a time: `generation::Generation` and
`signatures::SignatureSearch` are states that say what they need next, and end
with the reason where a question has no answer.

## Layout

- `src/types.rs`: the description of a class
- `src/text.rs`: text operations (decimal numbers, joining, replacing)
- `src/tokens.rs`: Rust code as tokens; everything that is trusted stands here
- `src/c_header.rs`, `src/cpp_header.rs`, `src/rust_code.rs`: the pieces of text
- `src/class_text.rs`: what a class and its methods add to each file
- `src/glue.rs`: the exported Rust functions, as tokens
- `src/generation.rs`: the run of one class
- `src/signatures.rs`: the search for the types of the methods
- `src/laws.rs`, `src/linkage.rs`, `src/renaming.rs`, `src/runs.rs`,
  `src/searches.rs`: what holds of every class
- `app/`: file output, the type map behind a trait, conversions to syntax trees
- `tests/`: whole classes and single pieces against expected text

## Trusted

`syn::parse_str` for a `TokenStream` is called through one wrapper. It is taken
to depend on the text alone, which holds while `syn` and `proc-macro2` are built
without their `proc-macro` feature; keep `default-features = false`. It is also
taken to accept one name of a function as well as another.
