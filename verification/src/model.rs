//! The data model: the structured description of a function with a
//! hand-written assembly body, as the parser hands it over, and the error
//! taxonomy of the generation pipeline.
//!
//! Every entity is plain value data. Each exec type has a mathematical view
//! (`...View`) over character sequences, and the contracts of the whole
//! pipeline are stated over those views.

use vstd::prelude::*;

verus! {

// ---------------------------------------------------------------------------
// Decorations (attributes)
// ---------------------------------------------------------------------------

/// Whether a decoration was written in outer (`#[...]`) or inner (`#![...]`)
/// position.
#[derive(Clone, Copy, Debug, PartialEq, Eq, Structural)]
pub enum AttrStyle {
    Outer,
    Inner,
}

/// The argument shape of a decoration: a bare path, a `name = value` pair
/// (the value kept as raw expression text), or a parenthesized token list
/// (kept as raw text).
#[derive(Clone, Debug, PartialEq, Eq)]
pub enum AttrArgs {
    Empty,
    Value(String),
    Tokens(String),
}

/// Mathematical view of [`AttrArgs`].
pub enum AttrArgsView {
    Empty,
    Value(Seq<char>),
    Tokens(Seq<char>),
}

impl View for AttrArgs {
    type V = AttrArgsView;

    open spec fn view(&self) -> AttrArgsView {
        match self {
            AttrArgs::Empty => AttrArgsView::Empty,
            AttrArgs::Value(s) => AttrArgsView::Value(s@),
            AttrArgs::Tokens(s) => AttrArgsView::Tokens(s@),
        }
    }
}

/// One decoration on the function: a path (its segments, in order) and its
/// arguments.
#[derive(Clone, Debug, PartialEq, Eq)]
pub struct Attr {
    pub style: AttrStyle,
    pub path: Vec<String>,
    pub args: AttrArgs,
}

/// Mathematical view of [`Attr`].
pub struct AttrView {
    pub style: AttrStyle,
    pub path: Seq<Seq<char>>,
    pub args: AttrArgsView,
}

impl View for Attr {
    type V = AttrView;

    open spec fn view(&self) -> AttrView {
        AttrView { style: self.style, path: self.path.deep_view(), args: self.args@ }
    }
}

impl DeepView for Attr {
    type V = AttrView;

    open spec fn deep_view(&self) -> AttrView {
        self.view()
    }
}

// ---------------------------------------------------------------------------
// Signatures
// ---------------------------------------------------------------------------

/// The calling-convention tag of a signature: absent, a bare `extern`, or
/// `extern` with a named ABI.
#[derive(Clone, Debug, PartialEq, Eq)]
pub enum AbiTag {
    Missing,
    Unnamed,
    Named(String),
}

/// Mathematical view of [`AbiTag`].
pub enum AbiTagView {
    Missing,
    Unnamed,
    Named(Seq<char>),
}

impl View for AbiTag {
    type V = AbiTagView;

    open spec fn view(&self) -> AbiTagView {
        match self {
            AbiTag::Missing => AbiTagView::Missing,
            AbiTag::Unnamed => AbiTagView::Unnamed,
            AbiTag::Named(s) => AbiTagView::Named(s@),
        }
    }
}

/// A function signature as the parser describes it. Parameter and return
/// types are carried as raw text: they are forwarded verbatim into the
/// generated declaration and never interpreted.
#[derive(Clone, Debug, PartialEq, Eq)]
pub struct Signature {
    pub constness: bool,
    pub asyncness: bool,
    pub unsafety: bool,
    pub abi: AbiTag,
    pub ident: String,
    pub generics: Vec<String>,
    pub inputs: Vec<String>,
    pub output: String,
}

/// Mathematical view of [`Signature`].
pub struct SignatureView {
    pub constness: bool,
    pub asyncness: bool,
    pub unsafety: bool,
    pub abi: AbiTagView,
    pub ident: Seq<char>,
    pub generics: Seq<Seq<char>>,
    pub inputs: Seq<Seq<char>>,
    pub output: Seq<char>,
}

impl View for Signature {
    type V = SignatureView;

    open spec fn view(&self) -> SignatureView {
        SignatureView {
            constness: self.constness,
            asyncness: self.asyncness,
            unsafety: self.unsafety,
            abi: self.abi@,
            ident: self.ident@,
            generics: self.generics.deep_view(),
            inputs: self.inputs.deep_view(),
            output: self.output@,
        }
    }
}

// ---------------------------------------------------------------------------
// Raw assembly operands and function bodies
// ---------------------------------------------------------------------------

/// The lexical kind of one raw operand of the assembly invocation, as the
/// parser saw it: an `options(...)` clause, a `const` or `sym` operand, one
/// of the register-binding kinds, the ABI-clobber directive, or any other
/// expression (a template-text candidate).
#[derive(Clone, Debug, PartialEq, Eq)]
pub enum RawOperandKind {
    Options(Vec<String>),
    Const(String),
    Sym(String),
    In,
    Out,
    LateOut,
    InOut,
    InLateOut,
    ClobberAbi,
    Expr(String),
}

/// Mathematical view of [`RawOperandKind`].
pub enum RawOperandKindView {
    Options(Seq<Seq<char>>),
    Const(Seq<char>),
    Sym(Seq<char>),
    In,
    Out,
    LateOut,
    InOut,
    InLateOut,
    ClobberAbi,
    Expr(Seq<char>),
}

impl View for RawOperandKind {
    type V = RawOperandKindView;

    open spec fn view(&self) -> RawOperandKindView {
        match self {
            RawOperandKind::Options(o) => RawOperandKindView::Options(o.deep_view()),
            RawOperandKind::Const(e) => RawOperandKindView::Const(e@),
            RawOperandKind::Sym(e) => RawOperandKindView::Sym(e@),
            RawOperandKind::In => RawOperandKindView::In,
            RawOperandKind::Out => RawOperandKindView::Out,
            RawOperandKind::LateOut => RawOperandKindView::LateOut,
            RawOperandKind::InOut => RawOperandKindView::InOut,
            RawOperandKind::InLateOut => RawOperandKindView::InLateOut,
            RawOperandKind::ClobberAbi => RawOperandKindView::ClobberAbi,
            RawOperandKind::Expr(e) => RawOperandKindView::Expr(e@),
        }
    }
}

/// One raw operand: an optional `name =` prefix and the operand itself.
#[derive(Clone, Debug, PartialEq, Eq)]
pub struct RawOperand {
    pub name: Option<String>,
    pub kind: RawOperandKind,
}

/// Mathematical view of [`RawOperand`].
pub struct RawOperandView {
    pub name: Option<Seq<char>>,
    pub kind: RawOperandKindView,
}

impl View for RawOperand {
    type V = RawOperandView;

    open spec fn view(&self) -> RawOperandView {
        RawOperandView { name: self.name.deep_view(), kind: self.kind@ }
    }
}

impl DeepView for RawOperand {
    type V = RawOperandView;

    open spec fn deep_view(&self) -> RawOperandView {
        self.view()
    }
}

/// One statement of the function body: an (attributed) macro invocation with
/// its raw operands, or anything else, kept as raw text.
#[derive(Clone, Debug, PartialEq, Eq)]
pub enum Stmt {
    MacroCall { path: Vec<String>, attrs: Vec<Attr>, args: Vec<RawOperand> },
    Other(String),
}

/// Mathematical view of [`Stmt`].
pub enum StmtView {
    MacroCall { path: Seq<Seq<char>>, attrs: Seq<AttrView>, args: Seq<RawOperandView> },
    Other(Seq<char>),
}

impl View for Stmt {
    type V = StmtView;

    open spec fn view(&self) -> StmtView {
        match self {
            Stmt::MacroCall { path, attrs, args } => StmtView::MacroCall {
                path: path.deep_view(),
                attrs: attrs.deep_view(),
                args: args.deep_view(),
            },
            Stmt::Other(s) => StmtView::Other(s@),
        }
    }
}

impl DeepView for Stmt {
    type V = StmtView;

    open spec fn deep_view(&self) -> StmtView {
        self.view()
    }
}

/// A whole decorated function: its decorations, visibility text, signature
/// and body statements.
#[derive(Clone, Debug, PartialEq, Eq)]
pub struct Func {
    pub attrs: Vec<Attr>,
    pub vis: String,
    pub sig: Signature,
    pub body: Vec<Stmt>,
}

/// Mathematical view of [`Func`].
pub struct FuncView {
    pub attrs: Seq<AttrView>,
    pub vis: Seq<char>,
    pub sig: SignatureView,
    pub body: Seq<StmtView>,
}

impl View for Func {
    type V = FuncView;

    open spec fn view(&self) -> FuncView {
        FuncView {
            attrs: self.attrs.deep_view(),
            vis: self.vis@,
            sig: self.sig@,
            body: self.body.deep_view(),
        }
    }
}

// ---------------------------------------------------------------------------
// Errors
// ---------------------------------------------------------------------------

/// A structural precondition on the function shape was violated. Each rule of
/// the signature validator fails with its own variant.
#[derive(Clone, Debug, PartialEq, Eq)]
pub enum SigError {
    ConstFn,
    AsyncFn,
    MissingUnsafe,
    BadAbi(AbiTag),
    Generics,
}

/// Mathematical view of [`SigError`].
pub enum SigErrorView {
    ConstFn,
    AsyncFn,
    MissingUnsafe,
    BadAbi(AbiTagView),
    Generics,
}

impl View for SigError {
    type V = SigErrorView;

    open spec fn view(&self) -> SigErrorView {
        match self {
            SigError::ConstFn => SigErrorView::ConstFn,
            SigError::AsyncFn => SigErrorView::AsyncFn,
            SigError::MissingUnsafe => SigErrorView::MissingUnsafe,
            SigError::BadAbi(abi) => SigErrorView::BadAbi(abi@),
            SigError::Generics => SigErrorView::Generics,
        }
    }
}

/// A decoration outside the whitelist, a malformed argument to a recognized
/// decoration, or an inner-style decoration.
#[derive(Clone, Debug, PartialEq, Eq)]
pub enum AttrError {
    InnerAttribute,
    NoMangleArgs,
    ExportNameArgs,
    LinkSectionArgs,
    Unsupported(Vec<String>),
}

/// Mathematical view of [`AttrError`].
pub enum AttrErrorView {
    InnerAttribute,
    NoMangleArgs,
    ExportNameArgs,
    LinkSectionArgs,
    Unsupported(Seq<Seq<char>>),
}

impl View for AttrError {
    type V = AttrErrorView;

    open spec fn view(&self) -> AttrErrorView {
        match self {
            AttrError::InnerAttribute => AttrErrorView::InnerAttribute,
            AttrError::NoMangleArgs => AttrErrorView::NoMangleArgs,
            AttrError::ExportNameArgs => AttrErrorView::ExportNameArgs,
            AttrError::LinkSectionArgs => AttrErrorView::LinkSectionArgs,
            AttrError::Unsupported(p) => AttrErrorView::Unsupported(p.deep_view()),
        }
    }
}

/// A body shape violation or a forbidden operand kind. These carry no text:
/// each rule has its own variant.
#[derive(Clone, Copy, Debug, PartialEq, Eq, Structural)]
pub enum OperandError {
    BodyShape,
    RegisterBinding,
    ClobberAbi,
    MisplacedName,
    NoTemplate,
}

/// The error taxonomy of the pipeline: one class per component.
#[derive(Clone, Debug, PartialEq, Eq)]
pub enum Error {
    Signature(SigError),
    Attribute(AttrError),
    Operand(OperandError),
}

/// Mathematical view of [`Error`].
pub enum ErrorView {
    Signature(SigErrorView),
    Attribute(AttrErrorView),
    Operand(OperandError),
}

impl View for Error {
    type V = ErrorView;

    open spec fn view(&self) -> ErrorView {
        match self {
            Error::Signature(e) => ErrorView::Signature(e@),
            Error::Attribute(e) => ErrorView::Attribute(e@),
            Error::Operand(e) => ErrorView::Operand(*e),
        }
    }
}

/// The view of a `Result` whose sides both have views.
pub open spec fn res_view<T: View, E: View>(r: Result<T, E>) -> Result<T::V, E::V> {
    match r {
        Ok(t) => Ok(t@),
        Err(e) => Err(e@),
    }
}

// ---------------------------------------------------------------------------
// Verified duplication (the contracts need value-exact copies)
// ---------------------------------------------------------------------------

/// Copies a vector of strings; the copy has the same view.
pub fn dup_strings(v: &Vec<String>) -> (r: Vec<String>)
    ensures
        r@ == v@,
{
    let mut r: Vec<String> = Vec::new();
    let mut i: usize = 0;
    while i < v.len()
        invariant
            i <= v.len(),
            r@ == v@.take(i as int),
        decreases v.len() - i,
    {
        r.push(v[i].clone());
        proof {
            assert(v@.take(i + 1 as int) =~= v@.take(i as int).push(v@[i as int]));
        }
        i += 1;
    }
    proof {
        assert(v@.take(v@.len() as int) =~= v@);
    }
    r
}

/// Copies an optional string; the copy has the same view.
pub fn dup_opt_string(v: &Option<String>) -> (r: Option<String>)
    ensures
        r == *v,
{
    match v {
        Option::None => Option::None,
        Option::Some(s) => Option::Some(s.clone()),
    }
}

impl AttrArgs {
    /// A copy with the same view.
    pub fn duplicate(&self) -> (r: AttrArgs)
        ensures
            r@ == self@,
            r == *self,
    {
        match self {
            AttrArgs::Empty => AttrArgs::Empty,
            AttrArgs::Value(s) => AttrArgs::Value(s.clone()),
            AttrArgs::Tokens(s) => AttrArgs::Tokens(s.clone()),
        }
    }
}

impl Attr {
    /// A copy with the same view.
    pub fn duplicate(&self) -> (r: Attr)
        ensures
            r@ == self@,
            r.deep_view() == self.deep_view(),
    {
        Attr { style: self.style, path: dup_strings(&self.path), args: self.args.duplicate() }
    }
}

impl AbiTag {
    /// A copy with the same view.
    pub fn duplicate(&self) -> (r: AbiTag)
        ensures
            r == *self,
    {
        match self {
            AbiTag::Missing => AbiTag::Missing,
            AbiTag::Unnamed => AbiTag::Unnamed,
            AbiTag::Named(s) => AbiTag::Named(s.clone()),
        }
    }
}

/// Copies a vector of decorations; the copy has the same deep view.
pub fn dup_attrs(v: &Vec<Attr>) -> (r: Vec<Attr>)
    ensures
        r.deep_view() == v.deep_view(),
{
    let mut r: Vec<Attr> = Vec::new();
    let mut i: usize = 0;
    while i < v.len()
        invariant
            i <= v.len(),
            r@.len() == i,
            forall|j: int| 0 <= j < i ==> r@[j].deep_view() == v@[j].deep_view(),
        decreases v.len() - i,
    {
        r.push(v[i].duplicate());
        i += 1;
    }
    proof {
        assert(r.deep_view() =~= v.deep_view());
    }
    r
}

} // verus!
