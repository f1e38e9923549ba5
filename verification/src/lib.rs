//! Generation of C++ bindings for Rust classes.
//!
//! A class that Rust code offers to C++ is described by a `types::ClassJob`.
//! From it the library writes four kinds of text:
//!
//! - the C header, which declares the functions that Rust exports (`c_header`);
//! - the C++ header with a wrapper class around them, the definitions of its
//!   methods and the header that only declares the class (`cpp_header`);
//! - the Rust functions behind the C header (`rust_code`, `glue`);
//! - the files of a whole class, put together from these pieces
//!   (`class_text`).
//!
//! How a Rust type crosses the border is known to a type map outside of this
//! library. Where the work needs it, the library asks: `generation` is the run
//! of one class, a state with the next question and the reply that it takes,
//! and `signatures` is the search for the types of the methods.
//!
//! The other modules state what holds of every class: `c_declarations`,
//! `cpp_frame`, `cpp_members` and `wrappers` of what the headers and the Rust
//! functions say, `asking`, `runs` and `searches` of questions and replies,
//! `linkage` and `renaming` of the names that all sides share, `laws` and
//! `text_laws` of the text on its own, and `fragments` of pieces of text.

pub mod asking;
pub mod c_declarations;
pub mod c_header;
pub mod class_text;
pub mod cpp_frame;
pub mod cpp_header;
pub mod cpp_members;
pub mod fragments;
pub mod generation;
pub mod glue;
pub mod laws;
pub mod linkage;
pub mod renaming;
pub mod runs;
pub mod rust_code;
pub mod searches;
pub mod signatures;
pub mod text;
pub mod text_laws;
pub mod tokens;
pub mod types;
pub mod wrappers;
