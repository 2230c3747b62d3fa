//! A compile-time template compiler for an XML-like markup syntax: it
//! turns `document => { <div class="x"> ... </div> }` into an explicit
//! plan of DOM-construction operations — create element, set attribute,
//! append child — validated against a schema of the known tags.
//!
//! The pipeline has three stages, each specified and verified against a
//! mathematical model of its behavior: the parser ([`parse`]) turns a
//! token sequence into a markup tree; the code generator ([`gen`])
//! validates tag and attribute names against the schema table
//! ([`schema`], [`tags`]) and lowers the tree into construction code;
//! and embedded values are converted to DOM content by the fixed
//! priority order of [`specialization_hack`]. A separate pass
//! ([`component`]) lowers annotated function declarations into
//! construction-callable objects, consumed wherever the markup names a
//! capitalized tag. The [`dom`] and [`eval`] modules carry a model of
//! the DOM and an evaluator for the generated plans, so that what a
//! plan builds can be proved and tested without a browser.
//!
//! Tokenizing host source and rendering the construction plan back into
//! host code are the front end's job, outside this crate.

pub mod ast;
pub mod bytes;
pub mod component;
pub mod dom;
pub mod error;
pub mod eval;
pub mod gen;
pub mod jsx;
pub mod laws;
pub mod parse;
pub mod schema;
pub mod specialization_hack;
pub mod tags;
pub mod tok;

pub use dom::Component;
