//! The compiler's diagnostics.
//!
//! Every failure of the whole pipeline is one of these values; the first
//! error aborts the expansion and no partial output is produced. Each
//! variant carries the data a front end needs to render a message: the
//! offending name where there is one, and a source position wherever the
//! offending construct is separately locatable.

use vstd::prelude::*;

verus! {

/// The execution modifiers that a component's function must not carry.
#[derive(Clone, Copy, Debug, PartialEq, Eq, Structural)]
pub enum FnModifier {
    Asynchronous,
    UnsafeMarked,
    ForeignAbi,
    Variadic,
}

/// The mathematical model of a diagnostic.
pub enum ErrorView {
    UnexpectedEnd,
    UnexpectedToken { pos: int },
    UnexpectedItem { pos: int },
    UnknownTag { name: Seq<u8>, pos: int },
    InvalidAttr { attr: Seq<u8>, tag: Seq<u8>, pos: int },
    MissingComponentName,
    ExpectedComponentName { pos: int },
    ExtraComponentToken { pos: int },
    MissingReturnType,
    UnsupportedModifier { which: FnModifier, pos: int },
    ReceiverParam { pos: int },
    PatternParam { pos: int },
    DuplicateChildrenMarker { pos: int },
    UnknownMarker { name: Seq<u8>, pos: int },
}

/// A compile-time diagnostic.
///
/// The first three variants classify parse errors: the input ended inside
/// a construct, a token was out of place, or a whole item was out of place
/// (a stray closing tag, or trailing input after the root). `UnknownTag`
/// reports a lowercase-leading tag name absent from the schema table, and
/// `InvalidAttr` an attribute that the named tag does not allow. The
/// remaining variants report a malformed component declaration.
#[derive(Debug)]
pub enum Error {
    UnexpectedEnd,
    UnexpectedToken { pos: usize },
    UnexpectedItem { pos: usize },
    UnknownTag { name: Vec<u8>, pos: usize },
    InvalidAttr { attr: Vec<u8>, tag: Vec<u8>, pos: usize },
    MissingComponentName,
    ExpectedComponentName { pos: usize },
    ExtraComponentToken { pos: usize },
    MissingReturnType,
    UnsupportedModifier { which: FnModifier, pos: usize },
    ReceiverParam { pos: usize },
    PatternParam { pos: usize },
    DuplicateChildrenMarker { pos: usize },
    UnknownMarker { name: Vec<u8>, pos: usize },
}

impl View for Error {
    type V = ErrorView;

    open spec fn view(&self) -> ErrorView {
        match self {
            Error::UnexpectedEnd => ErrorView::UnexpectedEnd,
            Error::UnexpectedToken { pos } => ErrorView::UnexpectedToken { pos: *pos as int },
            Error::UnexpectedItem { pos } => ErrorView::UnexpectedItem { pos: *pos as int },
            Error::UnknownTag { name, pos } => ErrorView::UnknownTag {
                name: name@,
                pos: *pos as int,
            },
            Error::InvalidAttr { attr, tag, pos } => ErrorView::InvalidAttr {
                attr: attr@,
                tag: tag@,
                pos: *pos as int,
            },
            Error::MissingComponentName => ErrorView::MissingComponentName,
            Error::ExpectedComponentName { pos } => ErrorView::ExpectedComponentName {
                pos: *pos as int,
            },
            Error::ExtraComponentToken { pos } => ErrorView::ExtraComponentToken {
                pos: *pos as int,
            },
            Error::MissingReturnType => ErrorView::MissingReturnType,
            Error::UnsupportedModifier { which, pos } => ErrorView::UnsupportedModifier {
                which: *which,
                pos: *pos as int,
            },
            Error::ReceiverParam { pos } => ErrorView::ReceiverParam { pos: *pos as int },
            Error::PatternParam { pos } => ErrorView::PatternParam { pos: *pos as int },
            Error::DuplicateChildrenMarker { pos } => ErrorView::DuplicateChildrenMarker {
                pos: *pos as int,
            },
            Error::UnknownMarker { name, pos } => ErrorView::UnknownMarker {
                name: name@,
                pos: *pos as int,
            },
        }
    }
}

} // verus!
