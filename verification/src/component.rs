//! Component lowering: an annotated function declaration becomes a
//! construction object.
//!
//! The input is the declaration's shape: the function's name, its
//! declared result type, its execution modifiers, and its parameters,
//! each a binding pattern, a type, and the markers attached to it. The
//! output names the data-object type to define — one field per parameter
//! that is not the children sink — and gives the argument list of the
//! construction method's call back into the original function: each
//! field's value in its parameter's position, and the supplied child
//! sequence in the children sink's position. The construction method's
//! result type is exactly the declared result type, so a component
//! construction never needs a narrowing cast.
//!
//! Rejected shapes, first error wins: a malformed annotation argument
//! (the annotation takes exactly one identifier, the object's name); a
//! missing result type; an asynchronous, unsafe-marked, foreign-ABI or
//! variadic function; a receiver parameter; a parameter bound by
//! anything but a plain name; a second children marker; a marker other
//! than `children`.

use vstd::prelude::*;

use crate::bytes::bytes_eq;
use crate::error::{Error, ErrorView, FnModifier};
use crate::tok::{Tok, TokView, lemma_toks_view, spec_tok_pos, toks_view};

verus! {

/// The mathematical model of a parameter's binding pattern.
pub enum ParamPatView {
    Plain { name: Seq<u8> },
    Receiver { pos: int },
    Other { pos: int },
}

/// How a parameter is bound: a plain name, a receiver (`self`), or some
/// other pattern, with its position.
#[derive(Debug)]
pub enum ParamPat {
    Plain { name: Vec<u8> },
    Receiver { pos: usize },
    Other { pos: usize },
}

impl View for ParamPat {
    type V = ParamPatView;

    open spec fn view(&self) -> ParamPatView {
        match self {
            ParamPat::Plain { name } => ParamPatView::Plain { name: name@ },
            ParamPat::Receiver { pos } => ParamPatView::Receiver { pos: *pos as int },
            ParamPat::Other { pos } => ParamPatView::Other { pos: *pos as int },
        }
    }
}

/// The mathematical model of one marker on a parameter.
pub struct MarkerView {
    pub name: Seq<u8>,
    pub pos: int,
}

/// One marker attached to a parameter by this compiler's annotation.
#[derive(Debug)]
pub struct Marker {
    pub name: Vec<u8>,
    pub pos: usize,
}

impl View for Marker {
    type V = MarkerView;

    open spec fn view(&self) -> MarkerView {
        MarkerView { name: self.name@, pos: self.pos as int }
    }
}

/// The views of a marker list.
pub open spec fn markers_view(s: Seq<Marker>) -> Seq<MarkerView> {
    s.map_values(|m: Marker| m@)
}

/// The mathematical model of one parameter declaration.
pub struct ParamDeclView {
    pub pat: ParamPatView,
    pub ty: Seq<u8>,
    pub markers: Seq<MarkerView>,
}

/// One parameter of the annotated function: its binding pattern, its
/// type's text, and the markers attached to it.
#[derive(Debug)]
pub struct ParamDecl {
    pub pat: ParamPat,
    pub ty: Vec<u8>,
    pub markers: Vec<Marker>,
}

impl View for ParamDecl {
    type V = ParamDeclView;

    open spec fn view(&self) -> ParamDeclView {
        ParamDeclView { pat: self.pat@, ty: self.ty@, markers: markers_view(self.markers@) }
    }
}

/// The views of a parameter list.
pub open spec fn params_view(s: Seq<ParamDecl>) -> Seq<ParamDeclView> {
    s.map_values(|p: ParamDecl| p@)
}

/// The view of an optional byte string.
pub open spec fn opt_view(o: Option<Vec<u8>>) -> Option<Seq<u8>> {
    match o {
        Some(v) => Some(v@),
        None => None,
    }
}

/// The view of an optional position.
pub open spec fn opt_pos_view(o: Option<usize>) -> Option<int> {
    match o {
        Some(p) => Some(p as int),
        None => None,
    }
}

/// The mathematical model of an annotated function declaration.
pub struct ComponentFnView {
    pub name: Seq<u8>,
    pub ret: Option<Seq<u8>>,
    pub asyncness: Option<int>,
    pub unsafety: Option<int>,
    pub abi: Option<int>,
    pub variadic: Option<int>,
    pub params: Seq<ParamDeclView>,
}

/// The shape of the annotated function declaration: its name, its
/// declared result type's text if any, the position of each unsupported
/// execution modifier it carries, and its parameters in order.
#[derive(Debug)]
pub struct ComponentFn {
    pub name: Vec<u8>,
    pub ret: Option<Vec<u8>>,
    pub asyncness: Option<usize>,
    pub unsafety: Option<usize>,
    pub abi: Option<usize>,
    pub variadic: Option<usize>,
    pub params: Vec<ParamDecl>,
}

impl View for ComponentFn {
    type V = ComponentFnView;

    open spec fn view(&self) -> ComponentFnView {
        ComponentFnView {
            name: self.name@,
            ret: opt_view(self.ret),
            asyncness: opt_pos_view(self.asyncness),
            unsafety: opt_pos_view(self.unsafety),
            abi: opt_pos_view(self.abi),
            variadic: opt_pos_view(self.variadic),
            params: params_view(self.params@),
        }
    }
}

/// The mathematical model of one field of the data object.
pub struct NameAndTypeView {
    pub name: Seq<u8>,
    pub ty: Seq<u8>,
}

/// One field of the generated data object: a name and its type's text.
#[derive(Debug)]
pub struct NameAndType {
    pub name: Vec<u8>,
    pub ty: Vec<u8>,
}

impl View for NameAndType {
    type V = NameAndTypeView;

    open spec fn view(&self) -> NameAndTypeView {
        NameAndTypeView { name: self.name@, ty: self.ty@ }
    }
}

/// The views of a field list.
pub open spec fn fields_view(s: Seq<NameAndType>) -> Seq<NameAndTypeView> {
    s.map_values(|f: NameAndType| f@)
}

/// The mathematical model of one construction-call argument.
pub enum CallArgView {
    Field { name: Seq<u8> },
    Children,
}

/// One argument of the construction method's call back into the original
/// function: a field's value, or the supplied children sequence.
#[derive(Debug)]
pub enum CallArg {
    Field { name: Vec<u8> },
    Children,
}

impl View for CallArg {
    type V = CallArgView;

    open spec fn view(&self) -> CallArgView {
        match self {
            CallArg::Field { name } => CallArgView::Field { name: name@ },
            CallArg::Children => CallArgView::Children,
        }
    }
}

/// The views of a call-argument list.
pub open spec fn args_view(s: Seq<CallArg>) -> Seq<CallArgView> {
    s.map_values(|a: CallArg| a@)
}

/// The mathematical model of a lowered component.
pub struct LoweredView {
    pub component_name: Seq<u8>,
    pub fields: Seq<NameAndTypeView>,
    pub call_args: Seq<CallArgView>,
    pub fn_name: Seq<u8>,
    pub ret: Seq<u8>,
}

/// A lowered component: the data-object type's name and fields, the
/// construction method's call arguments in parameter order, and the name
/// and declared result type of the function it calls.
#[derive(Debug)]
pub struct Lowered {
    pub component_name: Vec<u8>,
    pub fields: Vec<NameAndType>,
    pub call_args: Vec<CallArg>,
    pub fn_name: Vec<u8>,
    pub ret: Vec<u8>,
}

impl View for Lowered {
    type V = LoweredView;

    open spec fn view(&self) -> LoweredView {
        LoweredView {
            component_name: self.component_name@,
            fields: fields_view(self.fields@),
            call_args: args_view(self.call_args@),
            fn_name: self.fn_name@,
            ret: self.ret@,
        }
    }
}

/// The marker name `children`, as its byte values.
pub open spec fn spec_children_marker() -> Seq<u8> {
    seq![99u8, 104u8, 105u8, 108u8, 100u8, 114u8, 101u8, 110u8]
}

/// The marker name `children`.
pub fn children_marker() -> (r: Vec<u8>)
    ensures
        r@ == spec_children_marker(),
{
    let r = vec![99u8, 104u8, 105u8, 108u8, 100u8, 114u8, 101u8, 110u8];
    proof {
        assert(r@ =~= spec_children_marker());
    }
    r
}

/// Reads the annotation's argument: exactly one identifier, the name of
/// the data-object type to generate.
pub open spec fn sp_parse_name(toks: Seq<TokView>) -> Result<Seq<u8>, ErrorView> {
    if toks.len() == 0 {
        Err(ErrorView::MissingComponentName)
    } else {
        match toks[0] {
            TokView::Ident { text, .. } => {
                if toks.len() == 1 {
                    Ok(text)
                } else {
                    Err(ErrorView::ExtraComponentToken { pos: spec_tok_pos(toks[1]) })
                }
            },
            _ => Err(ErrorView::ExpectedComponentName { pos: spec_tok_pos(toks[0]) }),
        }
    }
}

/// Processes one parameter's markers in order. `seen` carries whether a
/// children marker occurred on an earlier parameter; the result says
/// whether this parameter is the children sink, and passes `seen` on. A
/// second children marker anywhere is an error, as is any marker with
/// another name.
pub open spec fn sp_markers(markers: Seq<MarkerView>, seen: bool) -> Result<
    (bool, bool),
    ErrorView,
>
    decreases markers.len(),
{
    if markers.len() == 0 {
        Ok((false, seen))
    } else {
        let m = markers[0];
        if m.name == spec_children_marker() {
            if seen {
                Err(ErrorView::DuplicateChildrenMarker { pos: m.pos })
            } else {
                match sp_markers(markers.drop_first(), true) {
                    Err(e) => Err(e),
                    Ok((_, seen2)) => Ok((true, seen2)),
                }
            }
        } else {
            Err(ErrorView::UnknownMarker { name: m.name, pos: m.pos })
        }
    }
}

/// Processes the parameters in order: a receiver or a non-plain pattern
/// is an error; every other parameter contributes a call argument, and a
/// field too unless it is the children sink.
pub open spec fn sp_params(params: Seq<ParamDeclView>, seen: bool) -> Result<
    (Seq<NameAndTypeView>, Seq<CallArgView>, bool),
    ErrorView,
>
    decreases params.len(),
{
    if params.len() == 0 {
        Ok((Seq::empty(), Seq::empty(), seen))
    } else {
        let p = params[0];
        match p.pat {
            ParamPatView::Receiver { pos } => Err(ErrorView::ReceiverParam { pos }),
            ParamPatView::Other { pos } => Err(ErrorView::PatternParam { pos }),
            ParamPatView::Plain { name } => {
                match sp_markers(p.markers, seen) {
                    Err(e) => Err(e),
                    Ok((is_children, seen2)) => {
                        match sp_params(params.drop_first(), seen2) {
                            Err(e) => Err(e),
                            Ok((fields, args, seen3)) => {
                                if is_children {
                                    Ok((fields, seq![CallArgView::Children] + args, seen3))
                                } else {
                                    Ok(
                                        (
                                            seq![NameAndTypeView { name, ty: p.ty }] + fields,
                                            seq![CallArgView::Field { name }] + args,
                                            seen3,
                                        ),
                                    )
                                }
                            },
                        }
                    },
                }
            },
        }
    }
}

/// Lowers one annotated function declaration: the annotation's argument,
/// then the result type, then the execution modifiers in a fixed order,
/// then the parameters.
pub open spec fn sp_run(attr: Seq<TokView>, f: ComponentFnView) -> Result<LoweredView, ErrorView> {
    match sp_parse_name(attr) {
        Err(e) => Err(e),
        Ok(cname) => {
            match f.ret {
                None => Err(ErrorView::MissingReturnType),
                Some(ret) => {
                    if f.asyncness is Some {
                        Err(
                            ErrorView::UnsupportedModifier {
                                which: FnModifier::Asynchronous,
                                pos: f.asyncness->0,
                            },
                        )
                    } else if f.unsafety is Some {
                        Err(
                            ErrorView::UnsupportedModifier {
                                which: FnModifier::UnsafeMarked,
                                pos: f.unsafety->0,
                            },
                        )
                    } else if f.abi is Some {
                        Err(
                            ErrorView::UnsupportedModifier {
                                which: FnModifier::ForeignAbi,
                                pos: f.abi->0,
                            },
                        )
                    } else if f.variadic is Some {
                        Err(
                            ErrorView::UnsupportedModifier {
                                which: FnModifier::Variadic,
                                pos: f.variadic->0,
                            },
                        )
                    } else {
                        match sp_params(f.params, false) {
                            Err(e) => Err(e),
                            Ok((fields, args, _)) => Ok(
                                LoweredView {
                                    component_name: cname,
                                    fields,
                                    call_args: args,
                                    fn_name: f.name,
                                    ret,
                                },
                            ),
                        }
                    }
                },
            }
        },
    }
}

/// Reads the annotation's argument tokens.
pub fn parse_name(toks: &Vec<Tok>) -> (r: Result<Vec<u8>, Error>)
    ensures
        match r {
            Ok(name) => sp_parse_name(toks_view(toks@)) == Ok::<_, ErrorView>(name@),
            Err(e) => sp_parse_name(toks_view(toks@)) == Err::<Seq<u8>, _>(e@),
        },
{
    proof {
        lemma_toks_view(toks@);
    }
    if toks.len() == 0 {
        return Err(Error::MissingComponentName);
    }
    match &toks[0] {
        Tok::Ident { text, .. } => {
            if toks.len() == 1 {
                Ok(text.clone())
            } else {
                Err(Error::ExtraComponentToken { pos: toks[1].pos() })
            }
        },
        t => Err(Error::ExpectedComponentName { pos: t.pos() }),
    }
}

/// Processes one parameter's markers.
fn run_markers(markers: &Vec<Marker>, i: usize, seen: bool) -> (r: Result<(bool, bool), Error>)
    requires
        i <= markers@.len(),
    ensures
        match r {
            Ok((is_children, seen2)) => sp_markers(markers_view(markers@).skip(i as int), seen)
                == Ok::<_, ErrorView>((is_children, seen2)),
            Err(e) => sp_markers(markers_view(markers@).skip(i as int), seen) == Err::<
                (bool, bool),
                _,
            >(e@),
        },
    decreases markers@.len() - i,
{
    let ghost mv = markers_view(markers@);
    if i == markers.len() {
        proof {
            assert(mv.skip(i as int) =~= Seq::empty());
        }
        return Ok((false, seen));
    }
    proof {
        assert(mv.skip(i as int)[0] == mv[i as int]);
        assert(mv[i as int] == markers@[i as int]@);
        assert(mv.skip(i as int).drop_first() =~= mv.skip(i + 1));
    }
    let m = &markers[i];
    let cm = children_marker();
    if bytes_eq(&m.name, &cm) {
        if seen {
            Err(Error::DuplicateChildrenMarker { pos: m.pos })
        } else {
            match run_markers(markers, i + 1, true) {
                Err(e) => Err(e),
                Ok((_, seen2)) => Ok((true, seen2)),
            }
        }
    } else {
        Err(Error::UnknownMarker { name: m.name.clone(), pos: m.pos })
    }
}

/// Processes the parameters from index `i` on.
fn run_params(params: &Vec<ParamDecl>, i: usize, seen: bool) -> (r: Result<
    (Vec<NameAndType>, Vec<CallArg>, bool),
    Error,
>)
    requires
        i <= params@.len(),
    ensures
        match r {
            Ok((fields, args, seen3)) => sp_params(params_view(params@).skip(i as int), seen)
                == Ok::<_, ErrorView>((fields_view(fields@), args_view(args@), seen3)),
            Err(e) => sp_params(params_view(params@).skip(i as int), seen) == Err::<
                (Seq<NameAndTypeView>, Seq<CallArgView>, bool),
                _,
            >(e@),
        },
    decreases params@.len() - i,
{
    let ghost pv = params_view(params@);
    if i == params.len() {
        let fields: Vec<NameAndType> = Vec::new();
        let args: Vec<CallArg> = Vec::new();
        proof {
            assert(pv.skip(i as int) =~= Seq::empty());
            assert(fields_view(fields@) =~= Seq::empty());
            assert(args_view(args@) =~= Seq::empty());
        }
        return Ok((fields, args, seen));
    }
    proof {
        assert(pv.skip(i as int)[0] == pv[i as int]);
        assert(pv[i as int] == params@[i as int]@);
        assert(pv.skip(i as int).drop_first() =~= pv.skip(i + 1));
    }
    let p = &params[i];
    let name: Vec<u8> = match &p.pat {
        ParamPat::Receiver { pos } => {
            return Err(Error::ReceiverParam { pos: *pos });
        },
        ParamPat::Other { pos } => {
            return Err(Error::PatternParam { pos: *pos });
        },
        ParamPat::Plain { name } => name.clone(),
    };
    proof {
        assert(markers_view(p.markers@).skip(0) =~= markers_view(p.markers@));
    }
    match run_markers(&p.markers, 0, seen) {
        Err(e) => Err(e),
        Ok((is_children, seen2)) => {
            match run_params(params, i + 1, seen2) {
                Err(e) => Err(e),
                Ok((fields, args, seen3)) => {
                    if is_children {
                        let ghost av = args_view(args@);
                        let mut args = args;
                        args.insert(0, CallArg::Children);
                        proof {
                            assert(args_view(args@) =~= seq![CallArgView::Children] + av);
                        }
                        Ok((fields, args, seen3))
                    } else {
                        let ghost fv = fields_view(fields@);
                        let ghost av = args_view(args@);
                        let field = NameAndType { name: name.clone(), ty: p.ty.clone() };
                        let ghost fdv = field@;
                        let arg = CallArg::Field { name };
                        let ghost agv = arg@;
                        let mut fields = fields;
                        let mut args = args;
                        fields.insert(0, field);
                        args.insert(0, arg);
                        proof {
                            assert(fields_view(fields@) =~= seq![fdv] + fv);
                            assert(args_view(args@) =~= seq![agv] + av);
                        }
                        Ok((fields, args, seen3))
                    }
                },
            }
        },
    }
}

/// Lowers one annotated function declaration into a component.
pub fn run(attr: &Vec<Tok>, f: &ComponentFn) -> (r: Result<Lowered, Error>)
    ensures
        match r {
            Ok(l) => sp_run(toks_view(attr@), f@) == Ok::<_, ErrorView>(l@),
            Err(e) => sp_run(toks_view(attr@), f@) == Err::<LoweredView, _>(e@),
        },
{
    let component_name = match parse_name(attr) {
        Err(e) => {
            return Err(e);
        },
        Ok(n) => n,
    };
    let ret: Vec<u8> = match &f.ret {
        None => {
            return Err(Error::MissingReturnType);
        },
        Some(t) => t.clone(),
    };
    match &f.asyncness {
        Some(pos) => {
            return Err(
                Error::UnsupportedModifier { which: FnModifier::Asynchronous, pos: *pos },
            );
        },
        None => {},
    }
    match &f.unsafety {
        Some(pos) => {
            return Err(Error::UnsupportedModifier { which: FnModifier::UnsafeMarked, pos: *pos });
        },
        None => {},
    }
    match &f.abi {
        Some(pos) => {
            return Err(Error::UnsupportedModifier { which: FnModifier::ForeignAbi, pos: *pos });
        },
        None => {},
    }
    match &f.variadic {
        Some(pos) => {
            return Err(Error::UnsupportedModifier { which: FnModifier::Variadic, pos: *pos });
        },
        None => {},
    }
    proof {
        assert(params_view(f.params@).skip(0) =~= params_view(f.params@));
    }
    match run_params(&f.params, 0, false) {
        Err(e) => Err(e),
        Ok((fields, call_args, _)) => Ok(
            Lowered { component_name, fields, call_args, fn_name: f.name.clone(), ret },
        ),
    }
}

/// Whether a parameter carries a children marker.
pub open spec fn sp_is_children_param(p: ParamDeclView) -> bool {
    exists|i: int| 0 <= i < p.markers.len() && (#[trigger] p.markers[i].name)
        == spec_children_marker()
}

/// The fields that lowering keeps: the non-sink parameters' names and
/// types, in parameter order.
pub open spec fn sp_fields_of(params: Seq<ParamDeclView>) -> Seq<NameAndTypeView>
    decreases params.len(),
{
    if params.len() == 0 {
        Seq::empty()
    } else {
        let rest = sp_fields_of(params.drop_first());
        if sp_is_children_param(params[0]) {
            rest
        } else {
            match params[0].pat {
                ParamPatView::Plain { name } => seq![
                    NameAndTypeView { name, ty: params[0].ty },
                ] + rest,
                _ => rest,
            }
        }
    }
}

/// The call arguments that lowering emits: one per parameter, in
/// parameter order, the children sequence in the sink's position and the
/// field's value everywhere else.
pub open spec fn sp_args_of(params: Seq<ParamDeclView>) -> Seq<CallArgView>
    decreases params.len(),
{
    if params.len() == 0 {
        Seq::empty()
    } else {
        let rest = sp_args_of(params.drop_first());
        let head: CallArgView = if sp_is_children_param(params[0]) {
            CallArgView::Children
        } else {
            match params[0].pat {
                ParamPatView::Plain { name } => CallArgView::Field { name },
                _ => CallArgView::Children,
            }
        };
        seq![head] + rest
    }
}

proof fn lemma_markers_children(markers: Seq<MarkerView>, seen: bool, b: bool, seen2: bool)
    requires
        sp_markers(markers, seen) == Ok::<_, ErrorView>((b, seen2)),
    ensures
        b == exists|i: int|
            0 <= i < markers.len() && (#[trigger] markers[i].name) == spec_children_marker(),
    decreases markers.len(),
{
    if markers.len() == 0 {
        assert(!b);
    } else {
        assert(markers[0].name == spec_children_marker());
        assert(b);
    }
}

/// What lowering produces, parameter by parameter: when it succeeds, the
/// call arguments align with the parameters one to one — the children
/// sequence exactly in the marked parameter's position, a field's value
/// everywhere else — and the kept fields are the unmarked parameters'
/// names and types in their original order.
pub proof fn lemma_lowering_shape(
    params: Seq<ParamDeclView>,
    seen: bool,
    fields: Seq<NameAndTypeView>,
    args: Seq<CallArgView>,
    seen3: bool,
)
    requires
        sp_params(params, seen) == Ok::<_, ErrorView>((fields, args, seen3)),
    ensures
        fields == sp_fields_of(params),
        args == sp_args_of(params),
        args.len() == params.len(),
    decreases params.len(),
{
    if params.len() > 0 {
        let p = params[0];
        match p.pat {
            ParamPatView::Plain { name } => {
                match sp_markers(p.markers, seen) {
                    Ok((is_children, seen2)) => {
                        lemma_markers_children(p.markers, seen, is_children, seen2);
                        assert(is_children == sp_is_children_param(p));
                        match sp_params(params.drop_first(), seen2) {
                            Ok((f2, a2, s3)) => {
                                lemma_lowering_shape(params.drop_first(), seen2, f2, a2, s3);
                            },
                            Err(_) => {
                                assert(false);
                            },
                        }
                    },
                    Err(_) => {
                        assert(false);
                    },
                }
            },
            _ => {
                assert(false);
            },
        }
    }
}

} // verus!
