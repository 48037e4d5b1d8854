//! The artifact assembler and the generation pipeline: wraps the validated
//! signature into a linkage-only declaration, and wires the synthesized
//! prologue and epilogue around the validated operand sequence of the
//! assembler compilation unit.

use vstd::prelude::*;

use crate::attrs::{parse_attrs, spec_parse_attrs, ParsedAttrs, ParsedAttrsView, SectionSpec,
    SectionSpecView};
use crate::model::{dup_strings, Attr, AttrView, AbiTag, AbiTagView, Error, ErrorView, Func,
    FuncView, OperandError, Signature, SignatureView};
use crate::operands::{extract_asm, spec_extract_asm, AsmOperand, AsmOperandView};
use crate::platform::{default_section, function_begin, function_end, spec_default_section,
    spec_function_begin, spec_function_end, PlatformProfile};
use crate::sig::{spec_validate_sig, validate_sig};

verus! {

// ---------------------------------------------------------------------------
// The two output artifacts
// ---------------------------------------------------------------------------

/// The linkage-only declaration: the signature with the ABI and unsafety
/// markers stripped, the preserved visibility, and the resolved attribute
/// set (forwarded attributes, the synthesized linkage name if any, and the
/// conditional-inclusion guards).
#[derive(Clone, Debug, PartialEq, Eq)]
pub struct Declaration {
    pub attrs: Vec<Attr>,
    pub vis: String,
    pub sig: Signature,
}

/// Mathematical view of [`Declaration`].
pub struct DeclarationView {
    pub attrs: Seq<AttrView>,
    pub vis: Seq<char>,
    pub sig: SignatureView,
}

impl View for Declaration {
    type V = DeclarationView;

    open spec fn view(&self) -> DeclarationView {
        DeclarationView {
            attrs: self.attrs.deep_view(),
            vis: self.vis@,
            sig: self.sig@,
        }
    }
}

/// The assembler compilation unit: the wrapped operand sequence, carrying
/// the same conditional-inclusion guards as the declaration.
#[derive(Clone, Debug, PartialEq, Eq)]
pub struct AssemblyUnit {
    pub attrs: Vec<Attr>,
    pub operands: Vec<AsmOperand>,
}

/// Mathematical view of [`AssemblyUnit`].
pub struct AssemblyUnitView {
    pub attrs: Seq<AttrView>,
    pub operands: Seq<AsmOperandView>,
}

impl View for AssemblyUnit {
    type V = AssemblyUnitView;

    open spec fn view(&self) -> AssemblyUnitView {
        AssemblyUnitView {
            attrs: self.attrs.deep_view(),
            operands: self.operands.deep_view(),
        }
    }
}

// ---------------------------------------------------------------------------
// The declaration artifact
// ---------------------------------------------------------------------------

/// The signature of the declaration: as written, minus the ABI tag and the
/// unsafety marker.
pub open spec fn spec_stripped_sig(s: SignatureView) -> SignatureView {
    SignatureView { abi: AbiTagView::Missing, unsafety: false, ..s }
}

/// What the declaration artifact holds: the stripped signature, the
/// preserved visibility, and the forwarded attributes followed by the
/// guards.
pub open spec fn spec_emit_foreign_mod(f: FuncView, pa: ParsedAttrsView) -> DeclarationView {
    DeclarationView {
        attrs: pa.foreign_attrs + pa.cfg,
        vis: f.vis,
        sig: spec_stripped_sig(f.sig),
    }
}

/// Concatenates two attribute vectors into a fresh copy.
fn concat_attrs(a: &Vec<Attr>, b: &Vec<Attr>) -> (r: Vec<Attr>)
    ensures
        r.deep_view() == a.deep_view() + b.deep_view(),
{
    let mut r = crate::model::dup_attrs(a);
    let mut j: usize = 0;
    proof {
        assert(r.deep_view() =~= a.deep_view() + b.deep_view().take(0));
    }
    while j < b.len()
        invariant
            j <= b.len(),
            b.deep_view().len() == b@.len(),
            r.deep_view() == a.deep_view() + b.deep_view().take(j as int),
        decreases b.len() - j,
    {
        let ghost pre = r.deep_view();
        crate::attrs::push_attr(&mut r, &b[j]);
        proof {
            assert(b.deep_view()[j as int] == b@[j as int].deep_view());
            assert(pre.push(b@[j as int].deep_view()) =~= a.deep_view() + b.deep_view().take(
                j + 1 as int,
            ));
        }
        j += 1;
    }
    proof {
        assert(b.deep_view().take(b@.len() as int) =~= b.deep_view());
    }
    r
}

/// Builds the linkage-only declaration, exactly as [`spec_emit_foreign_mod`]
/// states.
pub fn emit_foreign_mod(func: &Func, pa: &ParsedAttrs) -> (r: Declaration)
    ensures
        r@ == spec_emit_foreign_mod(func@, pa@),
{
    let attrs = concat_attrs(&pa.foreign_attrs, &pa.cfg);
    let sig = Signature {
        constness: func.sig.constness,
        asyncness: func.sig.asyncness,
        unsafety: false,
        abi: AbiTag::Missing,
        ident: func.sig.ident.clone(),
        generics: dup_strings(&func.sig.generics),
        inputs: dup_strings(&func.sig.inputs),
        output: func.sig.output.clone(),
    };
    Declaration { attrs, vis: func.vis.clone(), sig }
}

// ---------------------------------------------------------------------------
// The assembly artifact
// ---------------------------------------------------------------------------

/// The index of the last template fragment in the sequence, or `-1` when
/// there is none.
pub open spec fn spec_last_template(ops: Seq<AsmOperandView>) -> int
    decreases ops.len(),
{
    if ops.len() == 0 {
        -1
    } else if ops.last() is Template {
        ops.len() - 1
    } else {
        spec_last_template(ops.drop_last())
    }
}

/// A sequence without template fragments has no last template.
proof fn lemma_no_template(ops: Seq<AsmOperandView>)
    requires
        forall|j: int| 0 <= j < ops.len() ==> !(ops[j] is Template),
    ensures
        spec_last_template(ops) == -1,
    decreases ops.len(),
{
    if ops.len() > 0 {
        lemma_no_template(ops.drop_last());
    }
}

/// A template at `k` with none after it is the last template.
proof fn lemma_last_template_at(ops: Seq<AsmOperandView>, k: int)
    requires
        0 <= k < ops.len(),
        ops[k] is Template,
        forall|j: int| k < j < ops.len() ==> !(ops[j] is Template),
    ensures
        spec_last_template(ops) == k,
    decreases ops.len(),
{
    if k == ops.len() - 1 {
    } else {
        lemma_last_template_at(ops.drop_last(), k);
    }
}

/// The section the assembly unit is placed in: the explicit override, or the
/// platform default for the symbol.
pub open spec fn spec_resolved_section(
    symbol: Seq<char>,
    section: SectionSpecView,
    p: PlatformProfile,
) -> Seq<char> {
    match section {
        SectionSpecView::Explicit(s) => s,
        SectionSpecView::Default => spec_default_section(symbol, p),
    }
}

/// What the assembly artifact holds: the operand sequence with a prologue
/// template prepended and the epilogue template inserted immediately after
/// the last original template fragment, so that trailing constant and
/// symbol operands keep their position relative to the fragments that
/// reference them. A sequence with no template fragment at all is a hard
/// error: there is no insertion point, and a naked body with no assembly
/// text is meaningless.
pub open spec fn spec_emit_global_asm(
    pa: ParsedAttrsView,
    ops: Seq<AsmOperandView>,
    p: PlatformProfile,
) -> Result<AssemblyUnitView, ErrorView> {
    let k = spec_last_template(ops);
    if k < 0 {
        Err(ErrorView::Operand(OperandError::NoTemplate))
    } else {
        let section = spec_resolved_section(pa.symbol, pa.link_section, p);
        let prologue = AsmOperandView::Template(spec_function_begin(pa.symbol, section, p));
        let epilogue = AsmOperandView::Template(spec_function_end(pa.symbol, p));
        Ok(
            AssemblyUnitView {
                attrs: pa.cfg,
                operands: seq![prologue] + ops.take(k + 1) + seq![epilogue] + ops.skip(k + 1),
            },
        )
    }
}

/// Builds the assembly artifact, exactly as [`spec_emit_global_asm`] states.
pub fn emit_global_asm(pa: &ParsedAttrs, ops: Vec<AsmOperand>, p: PlatformProfile) -> (r: Result<
    AssemblyUnit,
    Error,
>)
    ensures
        crate::model::res_view(r) == spec_emit_global_asm(pa@, ops.deep_view(), p),
{
    let ghost dv = ops.deep_view();
    let mut found = false;
    let mut k: usize = 0;
    let mut i: usize = 0;
    while i < ops.len()
        invariant
            dv == ops.deep_view(),
            dv.len() == ops@.len(),
            i <= ops.len(),
            found ==> k < i && dv[k as int] is Template && (forall|j: int|
                k < j < i ==> !(dv[j] is Template)),
            !found ==> forall|j: int| 0 <= j < i ==> !(dv[j] is Template),
        decreases ops.len() - i,
    {
        proof {
            assert(dv[i as int] == ops@[i as int].deep_view());
        }
        if matches!(&ops[i], AsmOperand::Template(_)) {
            found = true;
            k = i;
        }
        i += 1;
    }
    if !found {
        proof {
            lemma_no_template(dv);
        }
        return Err(Error::Operand(OperandError::NoTemplate));
    }
    proof {
        lemma_last_template_at(dv, k as int);
    }
    let section: String = match &pa.link_section {
        SectionSpec::Explicit(s) => s.clone(),
        SectionSpec::Default => default_section(pa.symbol.as_str(), p),
    };
    proof {
        assert(section@ == spec_resolved_section(pa.symbol@, pa.link_section@, p));
    }
    let prologue = AsmOperand::Template(function_begin(pa.symbol.as_str(), section.as_str(), p));
    let epilogue = AsmOperand::Template(function_end(pa.symbol.as_str(), p));
    let ghost pv = prologue@;
    let ghost ev = epilogue@;
    let ghost goal = seq![pv] + dv.take(k + 1) + seq![ev] + dv.skip(k + 1);
    let mut out: Vec<AsmOperand> = Vec::new();
    crate::operands::push_op(&mut out, prologue);
    proof {
        assert(out.deep_view() =~= seq![pv] + dv.take(0));
    }
    let end1: usize = k + 1;
    let mut j: usize = 0;
    while j < end1
        invariant
            end1 == k + 1,
            dv == ops.deep_view(),
            dv.len() == ops@.len(),
            k < ops@.len(),
            j <= k + 1,
            out.deep_view() == seq![pv] + dv.take(j as int),
        decreases k + 1 - j,
    {
        let ghost pre = out.deep_view();
        proof {
            assert(dv[j as int] == ops@[j as int].deep_view());
        }
        crate::operands::push_op(&mut out, ops[j].duplicate());
        proof {
            assert(pre.push(dv[j as int]) =~= seq![pv] + dv.take(j + 1 as int));
        }
        j += 1;
    }
    let ghost mid = out.deep_view();
    crate::operands::push_op(&mut out, epilogue);
    proof {
        assert(mid.push(ev) =~= seq![pv] + dv.take(k + 1 as int) + seq![ev] + dv.skip(k + 1 as int).take(0));
    }
    let mut j2: usize = k + 1;
    while j2 < ops.len()
        invariant
            dv == ops.deep_view(),
            dv.len() == ops@.len(),
            k < ops@.len(),
            k + 1 <= j2 <= ops@.len(),
            out.deep_view() == seq![pv] + dv.take(k + 1 as int) + seq![ev] + dv.skip(
                k + 1 as int,
            ).take(j2 - (k + 1 as int)),
        decreases ops.len() - j2,
    {
        let ghost pre = out.deep_view();
        proof {
            assert(dv[j2 as int] == ops@[j2 as int].deep_view());
            assert(dv.skip(k + 1 as int)[j2 - (k + 1 as int)] == dv[j2 as int]);
        }
        crate::operands::push_op(&mut out, ops[j2].duplicate());
        proof {
            assert(pre.push(dv[j2 as int]) =~= seq![pv] + dv.take(k + 1 as int) + seq![ev]
                + dv.skip(k + 1 as int).take(j2 + 1 - (k + 1 as int)));
        }
        j2 += 1;
    }
    proof {
        assert(dv.skip(k + 1 as int).take(dv.skip(k + 1 as int).len() as int) =~= dv.skip(
            k + 1 as int,
        ));
        assert(out.deep_view() =~= goal);
    }
    let attrs = crate::model::dup_attrs(&pa.cfg);
    Ok(AssemblyUnit { attrs, operands: out })
}

// ---------------------------------------------------------------------------
// The whole pipeline
// ---------------------------------------------------------------------------

/// What generation returns for a whole decorated function on a platform:
/// the first error of the signature validator, the attribute classifier,
/// the operand validator or the assembler, in that order, or the two
/// artifacts.
pub open spec fn spec_naked_attribute(f: FuncView, p: PlatformProfile) -> Result<
    (DeclarationView, AssemblyUnitView),
    ErrorView,
> {
    match spec_validate_sig(f.sig) {
        Err(e) => Err(e),
        Ok(_) => match spec_parse_attrs(f.sig.ident, f.attrs) {
            Err(e) => Err(e),
            Ok(pa) => match spec_extract_asm(f) {
                Err(e) => Err(e),
                Ok(ops) => match spec_emit_global_asm(pa, ops, p) {
                    Err(e) => Err(e),
                    Ok(au) => Ok((spec_emit_foreign_mod(f, pa), au)),
                },
            },
        },
    }
}

/// Entry point of generation: validates the signature, classifies the
/// decorations, validates the operands, and assembles the two artifacts,
/// exactly as [`spec_naked_attribute`] states. Generation is deterministic:
/// the result is a function of the input views alone.
pub fn naked_attribute(func: &Func, profile: PlatformProfile) -> (r: Result<
    (Declaration, AssemblyUnit),
    Error,
>)
    ensures
        match r {
            Ok(pair) => spec_naked_attribute(func@, profile) == Ok::<
                (DeclarationView, AssemblyUnitView),
                ErrorView,
            >((pair.0@, pair.1@)),
            Err(e) => spec_naked_attribute(func@, profile) == Err::<
                (DeclarationView, AssemblyUnitView),
                ErrorView,
            >(e@),
        },
{
    match validate_sig(&func.sig) {
        Err(e) => {
            return Err(e);
        },
        Ok(_) => {},
    }
    let pa = match parse_attrs(func.sig.ident.as_str(), &func.attrs) {
        Ok(pa) => pa,
        Err(e) => {
            return Err(e);
        },
    };
    let ops = match extract_asm(func) {
        Ok(o) => o,
        Err(e) => {
            return Err(e);
        },
    };
    let decl = emit_foreign_mod(func, &pa);
    let au = match emit_global_asm(&pa, ops, profile) {
        Ok(a) => a,
        Err(e) => {
            return Err(e);
        },
    };
    Ok((decl, au))
}

} // verus!
