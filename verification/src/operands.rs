//! The operand validator: checks that the function body is exactly one
//! invocation of the raw-assembly macro, and partitions its operands into
//! template fragments, compile-time constants, named external symbols and
//! option sets. Register-binding operands and the ABI-clobber directive are
//! categorically rejected: they need compiler-managed register allocation,
//! which a bodiless function does not have.

use vstd::prelude::*;

use crate::model::{dup_opt_string, dup_strings, res_view, Error, ErrorView, Func, FuncView,
    OperandError, RawOperand, RawOperandKind, RawOperandKindView, RawOperandView, Stmt, StmtView};
use crate::attrs::path_is_ident;

verus! {

/// One validated operand of the assembly invocation.
#[derive(Clone, Debug, PartialEq, Eq)]
pub enum AsmOperand {
    Template(String),
    Const { name: Option<String>, expr: String },
    Sym { name: Option<String>, expr: String },
    Options(Vec<String>),
}

/// Mathematical view of [`AsmOperand`].
pub enum AsmOperandView {
    Template(Seq<char>),
    Const { name: Option<Seq<char>>, expr: Seq<char> },
    Sym { name: Option<Seq<char>>, expr: Seq<char> },
    Options(Seq<Seq<char>>),
}

impl View for AsmOperand {
    type V = AsmOperandView;

    open spec fn view(&self) -> AsmOperandView {
        match self {
            AsmOperand::Template(t) => AsmOperandView::Template(t@),
            AsmOperand::Const { name, expr } => AsmOperandView::Const {
                name: name.deep_view(),
                expr: expr@,
            },
            AsmOperand::Sym { name, expr } => AsmOperandView::Sym {
                name: name.deep_view(),
                expr: expr@,
            },
            AsmOperand::Options(o) => AsmOperandView::Options(o.deep_view()),
        }
    }
}

impl DeepView for AsmOperand {
    type V = AsmOperandView;

    open spec fn deep_view(&self) -> AsmOperandView {
        self.view()
    }
}

impl AsmOperand {
    /// A copy with the same view.
    pub fn duplicate(&self) -> (r: AsmOperand)
        ensures
            r@ == self@,
    {
        match self {
            AsmOperand::Template(t) => AsmOperand::Template(t.clone()),
            AsmOperand::Const { name, expr } => AsmOperand::Const {
                name: dup_opt_string(name),
                expr: expr.clone(),
            },
            AsmOperand::Sym { name, expr } => AsmOperand::Sym {
                name: dup_opt_string(name),
                expr: expr.clone(),
            },
            AsmOperand::Options(o) => AsmOperand::Options(dup_strings(o)),
        }
    }
}

/// Classifies one raw operand: `options`, `const` and `sym` pass through; a
/// register-binding kind and the ABI-clobber directive are hard errors; any
/// other expression is a template fragment, which may not carry a name.
pub open spec fn spec_classify_operand(op: RawOperandView) -> Result<AsmOperandView, ErrorView> {
    match op.kind {
        RawOperandKindView::Options(o) => match op.name {
            Some(_) => Err(ErrorView::Operand(OperandError::MisplacedName)),
            None => Ok(AsmOperandView::Options(o)),
        },
        RawOperandKindView::Const(e) => Ok(AsmOperandView::Const { name: op.name, expr: e }),
        RawOperandKindView::Sym(e) => Ok(AsmOperandView::Sym { name: op.name, expr: e }),
        RawOperandKindView::In => Err(ErrorView::Operand(OperandError::RegisterBinding)),
        RawOperandKindView::Out => Err(ErrorView::Operand(OperandError::RegisterBinding)),
        RawOperandKindView::LateOut => Err(ErrorView::Operand(OperandError::RegisterBinding)),
        RawOperandKindView::InOut => Err(ErrorView::Operand(OperandError::RegisterBinding)),
        RawOperandKindView::InLateOut => Err(ErrorView::Operand(OperandError::RegisterBinding)),
        RawOperandKindView::ClobberAbi => Err(ErrorView::Operand(OperandError::ClobberAbi)),
        RawOperandKindView::Expr(t) => match op.name {
            Some(_) => Err(ErrorView::Operand(OperandError::MisplacedName)),
            None => Ok(AsmOperandView::Template(t)),
        },
    }
}

/// Classifies a sequence of raw operands left to right, failing at the first
/// violation.
pub open spec fn spec_classify_operands(ops: Seq<RawOperandView>) -> Result<
    Seq<AsmOperandView>,
    ErrorView,
>
    decreases ops.len(),
{
    if ops.len() == 0 {
        Ok(Seq::empty())
    } else {
        match spec_classify_operand(ops[0]) {
            Err(e) => Err(e),
            Ok(a) => match spec_classify_operands(ops.drop_first()) {
                Err(e) => Err(e),
                Ok(rest) => Ok(seq![a] + rest),
            },
        }
    }
}

/// The body is exactly one raw-assembly invocation: a single statement that
/// is a macro call named `asm`, with no decorations of its own.
pub open spec fn spec_single_asm(f: FuncView) -> Option<Seq<RawOperandView>> {
    if f.body.len() != 1 {
        None
    } else {
        match f.body[0] {
            StmtView::MacroCall { path, attrs, args } => {
                if attrs.len() == 0 && path_is_ident(path, "asm"@) {
                    Some(args)
                } else {
                    None
                }
            },
            StmtView::Other(_) => None,
        }
    }
}

/// What operand extraction returns for a whole function: a body shape error,
/// the first operand violation, or the validated operand sequence.
pub open spec fn spec_extract_asm(f: FuncView) -> Result<Seq<AsmOperandView>, ErrorView> {
    match spec_single_asm(f) {
        None => Err(ErrorView::Operand(OperandError::BodyShape)),
        Some(args) => spec_classify_operands(args),
    }
}

/// One step of operand classification, phrased over a suffix.
proof fn lemma_classify_step(ops: Seq<RawOperandView>, i: int)
    requires
        0 <= i < ops.len(),
    ensures
        spec_classify_operands(ops.skip(i)) == (match spec_classify_operand(ops[i]) {
            Err(e) => Err(e),
            Ok(a) => match spec_classify_operands(ops.skip(i + 1)) {
                Err(e) => Err::<Seq<AsmOperandView>, ErrorView>(e),
                Ok(rest) => Ok(seq![a] + rest),
            },
        }),
{
    assert(ops.skip(i)[0] == ops[i]);
    assert(ops.skip(i).drop_first() =~= ops.skip(i + 1));
}

/// Classification distributes over the elements: the result of a successful
/// scan is the classification of each operand in order.
pub proof fn lemma_classify_all(ops: Seq<RawOperandView>, res: Seq<AsmOperandView>)
    requires
        spec_classify_operands(ops) == Ok::<Seq<AsmOperandView>, ErrorView>(res),
    ensures
        res.len() == ops.len(),
        forall|j: int|
            0 <= j < ops.len() ==> spec_classify_operand(ops[j]) == Ok::<
                AsmOperandView,
                ErrorView,
            >(res[j]),
    decreases ops.len(),
{
    if ops.len() > 0 {
        let tail = ops.drop_first();
        match spec_classify_operand(ops[0]) {
            Err(_) => {},
            Ok(a) => {
                match spec_classify_operands(tail) {
                    Err(_) => {},
                    Ok(rest) => {
                        lemma_classify_all(tail, rest);
                        assert(forall|j: int|
                            0 <= j < tail.len() ==> tail[j] == ops[j + 1]);
                    },
                }
            },
        }
    }
}

/// Appends a validated operand; the deep view grows by its view.
pub(crate) fn push_op(v: &mut Vec<AsmOperand>, a: AsmOperand)
    ensures
        final(v).deep_view() == old(v).deep_view().push(a@),
{
    let ghost prev = v.deep_view();
    let ghost av = a@;
    v.push(a);
    proof {
        let vd = v.deep_view();
        assert forall|j: int| 0 <= j < vd.len() implies vd[j] == prev.push(av)[j] by {
            assert(vd[j] == v@[j].deep_view());
            if j < prev.len() {
                assert(v@[j] == old(v)@[j]);
                assert(prev[j] == old(v)@[j].deep_view());
            }
        }
        assert(vd =~= prev.push(av));
    }
}

/// Classifies one raw operand, exactly as [`spec_classify_operand`] states.
fn classify_operand(op: &RawOperand) -> (r: Result<AsmOperand, Error>)
    ensures
        res_view(r) == spec_classify_operand(op@),
{
    match &op.kind {
        RawOperandKind::Options(o) => {
            if matches!(&op.name, Option::Some(_)) {
                Err(Error::Operand(OperandError::MisplacedName))
            } else {
                Ok(AsmOperand::Options(dup_strings(o)))
            }
        },
        RawOperandKind::Const(e) => Ok(
            AsmOperand::Const { name: dup_opt_string(&op.name), expr: e.clone() },
        ),
        RawOperandKind::Sym(e) => Ok(
            AsmOperand::Sym { name: dup_opt_string(&op.name), expr: e.clone() },
        ),
        RawOperandKind::In => Err(Error::Operand(OperandError::RegisterBinding)),
        RawOperandKind::Out => Err(Error::Operand(OperandError::RegisterBinding)),
        RawOperandKind::LateOut => Err(Error::Operand(OperandError::RegisterBinding)),
        RawOperandKind::InOut => Err(Error::Operand(OperandError::RegisterBinding)),
        RawOperandKind::InLateOut => Err(Error::Operand(OperandError::RegisterBinding)),
        RawOperandKind::ClobberAbi => Err(Error::Operand(OperandError::ClobberAbi)),
        RawOperandKind::Expr(t) => {
            if matches!(&op.name, Option::Some(_)) {
                Err(Error::Operand(OperandError::MisplacedName))
            } else {
                Ok(AsmOperand::Template(t.clone()))
            }
        },
    }
}

/// Extracts and validates the operands of the raw-assembly invocation in the
/// body of `f`, exactly as [`spec_extract_asm`] states.
pub fn extract_asm(f: &Func) -> (r: Result<Vec<AsmOperand>, Error>)
    ensures
        match r {
            Ok(ops) => spec_extract_asm(f@) == Ok::<Seq<AsmOperandView>, ErrorView>(
                ops.deep_view(),
            ),
            Err(e) => spec_extract_asm(f@) == Err::<Seq<AsmOperandView>, ErrorView>(e@),
        },
{
    if f.body.len() != 1 {
        return Err(Error::Operand(OperandError::BodyShape));
    }
    proof {
        assert(f@.body[0] == f.body@[0].deep_view());
    }
    let args: &Vec<RawOperand> = match &f.body[0] {
        Stmt::MacroCall { path, attrs, args } => {
            if attrs.len() != 0 {
                return Err(Error::Operand(OperandError::BodyShape));
            }
            let is_asm = crate::attrs::path_is(path, "asm");
            if !is_asm {
                return Err(Error::Operand(OperandError::BodyShape));
            }
            args
        },
        Stmt::Other(_) => {
            return Err(Error::Operand(OperandError::BodyShape));
        },
    };
    let ghost raw = args.deep_view();
    proof {
        assert(spec_single_asm(f@) == Some(raw));
        assert(raw.skip(0) =~= raw);
        match spec_classify_operands(raw) {
            Ok(rest) => {
                assert(Seq::<AsmOperandView>::empty() + rest =~= rest);
            },
            Err(_) => {},
        }
    }
    let mut out: Vec<AsmOperand> = Vec::new();
    let mut i: usize = 0;
    proof {
        assert(out.deep_view() =~= Seq::<AsmOperandView>::empty());
    }
    while i < args.len()
        invariant
            i <= args.len(),
            raw == args.deep_view(),
            raw.len() == args@.len(),
            spec_single_asm(f@) == Some(raw),
            spec_classify_operands(raw) == (match spec_classify_operands(raw.skip(i as int)) {
                Err(e) => Err::<Seq<AsmOperandView>, ErrorView>(e),
                Ok(rest) => Ok(out.deep_view() + rest),
            }),
        decreases args.len() - i,
    {
        proof {
            lemma_classify_step(raw, i as int);
            assert(raw[i as int] == args@[i as int].deep_view());
        }
        let ghost pre = out.deep_view();
        match classify_operand(&args[i]) {
            Err(e) => {
                return Err(e);
            },
            Ok(a) => {
                let ghost av = a@;
                push_op(&mut out, a);
                proof {
                    match spec_classify_operands(raw.skip(i + 1 as int)) {
                        Err(_) => {},
                        Ok(rest) => {
                            assert(pre.push(av) + rest =~= pre + (seq![av] + rest));
                        },
                    }
                }
            },
        }
        i += 1;
    }
    proof {
        assert(raw.skip(i as int) =~= Seq::<RawOperandView>::empty());
        assert(out.deep_view() + Seq::<AsmOperandView>::empty() =~= out.deep_view());
    }
    Ok(out)
}

} // verus!
