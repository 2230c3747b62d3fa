//! The whole markup expansion, end to end: invocation form, parse,
//! validate, generate.
//!
//! The input is the token sequence of one invocation,
//! `document => { markup }`. The output carries the document handle's
//! name, the root construction expression, and the optional narrowing
//! cast. The first error anywhere aborts the expansion; no partial
//! output exists.
//!
//! `sp_compile` is a function of the token sequence and the schema alone,
//! and the executable compiler returns exactly its value: running the
//! compiler twice over the same input and the same schema gives the same
//! output.

use vstd::prelude::*;

use crate::error::{Error, ErrorView};
use crate::gen::{Code, CodeView, GenOut, gen, opt_bytes_view, sp_gen};
use crate::parse::{parse, parse_invocation, sp_invocation, sp_parse};
use crate::schema::{Schema, SchemaView};
use crate::tok::{Tok, TokView, toks_view};

verus! {

/// The mathematical model of one finished expansion.
pub struct JsxOutputView {
    pub document: Seq<u8>,
    pub code: CodeView,
    pub cast: Option<Seq<u8>>,
}

/// One finished expansion: the document handle's name, the root
/// construction expression, and the node type to narrow the result to,
/// present exactly when the root is a schema-known element.
#[derive(Debug)]
pub struct JsxOutput {
    pub document: Vec<u8>,
    pub code: Code,
    pub cast: Option<Vec<u8>>,
}

impl View for JsxOutput {
    type V = JsxOutputView;

    open spec fn view(&self) -> JsxOutputView {
        JsxOutputView {
            document: self.document@,
            code: self.code@,
            cast: opt_bytes_view(self.cast),
        }
    }
}

/// Compiles a root markup item (already free of the invocation form).
pub open spec fn sp_expand(toks: Seq<TokView>, sch: SchemaView) -> Result<
    crate::gen::GenOutView,
    ErrorView,
> {
    match sp_parse(toks) {
        Err(e) => Err(e),
        Ok(root) => sp_gen(root, sch),
    }
}

/// Compiles one whole invocation: invocation form, then markup, then
/// code generation.
pub open spec fn sp_compile(toks: Seq<TokView>, sch: SchemaView) -> Result<
    JsxOutputView,
    ErrorView,
> {
    match sp_invocation(toks) {
        Err(e) => Err(e),
        Ok((doc, body)) => {
            match sp_expand(body, sch) {
                Err(e) => Err(e),
                Ok(g) => Ok(JsxOutputView { document: doc, code: g.code, cast: g.cast }),
            }
        },
    }
}

/// Parses and lowers a root markup item against the schema.
pub fn expand(toks: &Vec<Tok>, sch: &Schema) -> (r: Result<GenOut, Error>)
    requires
        sch.wf(),
    ensures
        match r {
            Ok(g) => sp_expand(toks_view(toks@), sch@) == Ok::<_, ErrorView>(g@),
            Err(e) => sp_expand(toks_view(toks@), sch@) == Err::<crate::gen::GenOutView, _>(e@),
        },
{
    match parse(toks) {
        Err(e) => Err(e),
        Ok(root) => gen(&root, sch),
    }
}

/// Compiles one whole invocation against the schema.
pub fn compile(toks: Vec<Tok>, sch: &Schema) -> (r: Result<JsxOutput, Error>)
    requires
        sch.wf(),
    ensures
        match r {
            Ok(o) => sp_compile(toks_view(toks@), sch@) == Ok::<_, ErrorView>(o@),
            Err(e) => sp_compile(toks_view(toks@), sch@) == Err::<JsxOutputView, _>(e@),
        },
{
    match parse_invocation(toks) {
        Err(e) => Err(e),
        Ok((document, body)) => {
            match expand(&body, sch) {
                Err(e) => Err(e),
                Ok(g) => Ok(JsxOutput { document, code: g.code, cast: g.cast }),
            }
        },
    }
}

} // verus!
