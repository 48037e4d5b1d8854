//! The laws of the generation pipeline, stated and proved over the
//! specification functions that the executable functions are tied to.

use vstd::prelude::*;

use crate::attrs::{init_scan, is_forwarded_path, is_rustfmt_path, path_is_ident, scan_attrs,
    scan_one, spec_parse_attrs, spec_symbol, symbol_prefix, AttrScan};
use crate::model::{AttrView, ErrorView, FuncView, RawOperandView};
use crate::naked::{spec_naked_attribute, AssemblyUnitView, DeclarationView};
use crate::operands::{lemma_classify_all, spec_classify_operand, spec_classify_operands,
    spec_single_asm, AsmOperandView};
use crate::platform::{spec_function_begin, spec_function_end, spec_mangled, spec_type_glyph,
    ObjectFormat, PlatformProfile};
use crate::sig::{spec_abi_ok, spec_validate_sig};
use crate::text::{lemma_occurs_at_boundary, occurs_at};

verus! {

// ---------------------------------------------------------------------------
// Signature laws
// ---------------------------------------------------------------------------

/// A signature without the unsafety marker never generates: the pipeline
/// fails with a signature error, whatever the decorations, the body and the
/// platform.
pub proof fn lemma_missing_unsafe_fails(f: FuncView, p: PlatformProfile)
    requires
        !f.sig.unsafety,
    ensures
        spec_naked_attribute(f, p) matches Err(ErrorView::Signature(_)),
{
}

/// A signature whose ABI tag is not one of the two whitelisted names never
/// generates: the pipeline fails with a signature error, and when no earlier
/// signature rule is violated the error carries the offending ABI tag.
pub proof fn lemma_bad_abi_fails(f: FuncView, p: PlatformProfile)
    requires
        !spec_abi_ok(f.sig.abi),
    ensures
        spec_naked_attribute(f, p) matches Err(ErrorView::Signature(_)),
        (!f.sig.constness && !f.sig.asyncness && f.sig.unsafety) ==> spec_naked_attribute(f, p)
            == Err::<(DeclarationView, AssemblyUnitView), ErrorView>(
            ErrorView::Signature(crate::model::SigErrorView::BadAbi(f.sig.abi)),
        ),
{
}

// ---------------------------------------------------------------------------
// Operand laws
// ---------------------------------------------------------------------------

/// A register-binding operand: one of the kinds that require
/// compiler-managed register allocation.
pub open spec fn is_register_kind(op: RawOperandView) -> bool {
    ||| op.kind is In
    ||| op.kind is Out
    ||| op.kind is LateOut
    ||| op.kind is InOut
    ||| op.kind is InLateOut
}

/// Every error of operand classification belongs to the operand class.
proof fn lemma_classify_err_class(ops: Seq<RawOperandView>)
    requires
        spec_classify_operands(ops) is Err,
    ensures
        spec_classify_operands(ops) matches Err(ErrorView::Operand(_)),
    decreases ops.len(),
{
    if ops.len() > 0 {
        match spec_classify_operand(ops[0]) {
            Err(_) => {},
            Ok(_) => {
                lemma_classify_err_class(ops.drop_first());
            },
        }
    }
}

/// A body whose assembly invocation holds a register-binding operand never
/// classifies: the scan fails.
proof fn lemma_register_classify_fails(ops: Seq<RawOperandView>, i: int)
    requires
        0 <= i < ops.len(),
        is_register_kind(ops[i]),
    ensures
        spec_classify_operands(ops) is Err,
{
    if spec_classify_operands(ops) is Ok {
        let res = spec_classify_operands(ops)->Ok_0;
        lemma_classify_all(ops, res);
        assert(spec_classify_operand(ops[i]) is Err);
    }
}

/// When the signature and the decorations are accepted and the body is a
/// single raw-assembly invocation holding a register-binding operand,
/// generation fails with an operand error, no matter how many other
/// operands stand beside it.
pub proof fn lemma_register_operand_fails(f: FuncView, p: PlatformProfile, i: int)
    requires
        spec_validate_sig(f.sig) is Ok,
        spec_parse_attrs(f.sig.ident, f.attrs) is Ok,
        spec_single_asm(f) is Some,
        0 <= i < spec_single_asm(f).unwrap().len(),
        is_register_kind(spec_single_asm(f).unwrap()[i]),
    ensures
        spec_naked_attribute(f, p) matches Err(ErrorView::Operand(_)),
{
    let ops = spec_single_asm(f).unwrap();
    lemma_register_classify_fails(ops, i);
    lemma_classify_err_class(ops);
}

// ---------------------------------------------------------------------------
// Determinism
// ---------------------------------------------------------------------------

/// Generation is deterministic: on equal inputs the specification yields
/// equal artifacts. Together with the contract of the executable pipeline,
/// whose result view equals this specification of its input view, two runs
/// on identical input yield identical declaration and assembly text.
pub proof fn lemma_generation_deterministic(
    f1: FuncView,
    f2: FuncView,
    p1: PlatformProfile,
    p2: PlatformProfile,
)
    requires
        f1 == f2,
        p1 == p2,
    ensures
        spec_naked_attribute(f1, p1) == spec_naked_attribute(f2, p2),
{
}

// ---------------------------------------------------------------------------
// Guard replication
// ---------------------------------------------------------------------------

/// The conditional-inclusion guards are replicated onto both artifacts:
/// the declaration carries the forwarded attributes followed by the guards,
/// and the assembly unit carries exactly the guards.
pub proof fn lemma_guards_replicated(f: FuncView, p: PlatformProfile)
    requires
        spec_naked_attribute(f, p) is Ok,
    ensures
        spec_parse_attrs(f.sig.ident, f.attrs) is Ok,
        ({
            let pa = spec_parse_attrs(f.sig.ident, f.attrs)->Ok_0;
            let (d, au) = spec_naked_attribute(f, p)->Ok_0;
            d.attrs == pa.foreign_attrs + pa.cfg && au.attrs == pa.cfg
        }),
{
}

// ---------------------------------------------------------------------------
// Symbol computation laws
// ---------------------------------------------------------------------------

/// A successful scan never clears the no-mangle flag.
proof fn lemma_scan_no_mangle_monotone(st: AttrScan, attrs: Seq<AttrView>)
    requires
        scan_attrs(st, attrs) is Ok,
        st.no_mangle,
    ensures
        scan_attrs(st, attrs)->Ok_0.no_mangle,
    decreases attrs.len(),
{
    if attrs.len() > 0 {
        match scan_one(st, attrs[0]) {
            Err(_) => {},
            Ok(st2) => {
                lemma_scan_no_mangle_monotone(st2, attrs.drop_first());
            },
        }
    }
}

/// Without a linkage-name override among the decorations, a successful scan
/// keeps the override it started with.
proof fn lemma_scan_export_stable(st: AttrScan, attrs: Seq<AttrView>)
    requires
        scan_attrs(st, attrs) is Ok,
        forall|j: int| 0 <= j < attrs.len() ==> !path_is_ident(#[trigger] attrs[j].path,
            "export_name"@),
    ensures
        scan_attrs(st, attrs)->Ok_0.export_name == st.export_name,
    decreases attrs.len(),
{
    if attrs.len() > 0 {
        match scan_one(st, attrs[0]) {
            Err(_) => {},
            Ok(st2) => {
                assert(st2.export_name == st.export_name);
                let tail = attrs.drop_first();
                assert(forall|j: int|
                    0 <= j < tail.len() ==> tail[j] == attrs[j + 1]);
                lemma_scan_export_stable(st2, tail);
            },
        }
    }
}

/// Without a no-mangle marker among the decorations, a successful scan keeps
/// the flag it started with.
proof fn lemma_scan_no_mangle_stable(st: AttrScan, attrs: Seq<AttrView>)
    requires
        scan_attrs(st, attrs) is Ok,
        forall|j: int| 0 <= j < attrs.len() ==> !path_is_ident(#[trigger] attrs[j].path,
            "no_mangle"@),
    ensures
        scan_attrs(st, attrs)->Ok_0.no_mangle == st.no_mangle,
    decreases attrs.len(),
{
    if attrs.len() > 0 {
        match scan_one(st, attrs[0]) {
            Err(_) => {},
            Ok(st2) => {
                assert(st2.no_mangle == st.no_mangle);
                let tail = attrs.drop_first();
                assert(forall|j: int|
                    0 <= j < tail.len() ==> tail[j] == attrs[j + 1]);
                lemma_scan_no_mangle_stable(st2, tail);
            },
        }
    }
}

/// A no-mangle marker among the decorations sets the flag for good.
proof fn lemma_scan_no_mangle_set(st: AttrScan, attrs: Seq<AttrView>, j: int)
    requires
        scan_attrs(st, attrs) is Ok,
        0 <= j < attrs.len(),
        path_is_ident(attrs[j].path, "no_mangle"@),
    ensures
        scan_attrs(st, attrs)->Ok_0.no_mangle,
    decreases attrs.len(),
{
    reveal_strlit("no_mangle");
    reveal_strlit("doc");
    reveal_strlit("allow");
    reveal_strlit("warn");
    reveal_strlit("deny");
    reveal_strlit("forbid");
    reveal_strlit("deprecated");
    reveal_strlit("must_use");
    reveal_strlit("rustfmt");
    match scan_one(st, attrs[0]) {
        Err(_) => {},
        Ok(st2) => {
            let tail = attrs.drop_first();
            if j == 0 {
                let a = attrs[0];
                assert(a.path.len() == 1 && a.path[0] == "no_mangle"@);
                assert("no_mangle"@.len() == 9);
                assert("doc"@.len() == 3);
                assert(!path_is_ident(a.path, "doc"@));
                assert(!is_forwarded_path(a.path));
                assert(!is_rustfmt_path(a.path));
                assert(st2.no_mangle);
                lemma_scan_no_mangle_monotone(st2, tail);
            } else {
                assert(tail[j - 1] == attrs[j]);
                lemma_scan_no_mangle_set(st2, tail, j - 1);
            }
        },
    }
}

/// Under `no_mangle` and without a linkage-name override, the computed
/// symbol is exactly the bare identifier.
pub proof fn lemma_no_mangle_bare_symbol(ident: Seq<char>, attrs: Seq<AttrView>, j: int)
    requires
        spec_parse_attrs(ident, attrs) is Ok,
        forall|k: int| 0 <= k < attrs.len() ==> !path_is_ident(#[trigger] attrs[k].path,
            "export_name"@),
        0 <= j < attrs.len(),
        path_is_ident(attrs[j].path, "no_mangle"@),
    ensures
        spec_parse_attrs(ident, attrs)->Ok_0.symbol == ident,
{
    let st = scan_attrs(init_scan(), attrs)->Ok_0;
    lemma_scan_export_stable(init_scan(), attrs);
    lemma_scan_no_mangle_set(init_scan(), attrs, j);
    assert(spec_symbol(ident, st) == ident);
}

/// Without `no_mangle` and without a linkage-name override, the computed
/// symbol is the fixed prefix in front of the identifier — never the bare
/// identifier.
pub proof fn lemma_default_symbol_prefixed(ident: Seq<char>, attrs: Seq<AttrView>)
    requires
        spec_parse_attrs(ident, attrs) is Ok,
        forall|k: int| 0 <= k < attrs.len() ==> !path_is_ident(#[trigger] attrs[k].path,
            "export_name"@),
        forall|k: int| 0 <= k < attrs.len() ==> !path_is_ident(#[trigger] attrs[k].path,
            "no_mangle"@),
    ensures
        spec_parse_attrs(ident, attrs)->Ok_0.symbol == symbol_prefix() + ident,
        spec_parse_attrs(ident, attrs)->Ok_0.symbol != ident,
{
    let st = scan_attrs(init_scan(), attrs)->Ok_0;
    lemma_scan_export_stable(init_scan(), attrs);
    lemma_scan_no_mangle_stable(init_scan(), attrs);
    assert(spec_symbol(ident, st) == symbol_prefix() + ident);
    reveal_strlit("rust_naked_function_");
    assert((symbol_prefix() + ident).len() != ident.len());
}

// ---------------------------------------------------------------------------
// Directive round-trip laws
// ---------------------------------------------------------------------------

/// On ELF, the synthesized prologue carries the symbol at three
/// non-overlapping places: the global marker, the hidden marker and the
/// type marker (the label makes a fourth).
pub proof fn lemma_elf_prologue_symbol_occurrences(
    symbol: Seq<char>,
    section: Seq<char>,
    p: PlatformProfile,
)
    requires
        p.format == ObjectFormat::Elf,
    ensures
        exists|i1: int, i2: int, i3: int|
            {
                &&& 0 <= i1
                &&& i1 + symbol.len() <= i2
                &&& i2 + symbol.len() <= i3
                &&& #[trigger] occurs_at(spec_function_begin(symbol, section, p), symbol, i1)
                &&& #[trigger] occurs_at(spec_function_begin(symbol, section, p), symbol, i2)
                &&& #[trigger] occurs_at(spec_function_begin(symbol, section, p), symbol, i3)
            },
{
    let g = spec_type_glyph(p);
    let m = spec_mangled(symbol, p);
    assert(m == symbol);
    let pro = spec_function_begin(symbol, section, p);
    let a1 = ".pushsection "@ + section + ",\"ax\", "@ + g + "progbits\n.balign 4\n.globl "@;
    let c1 = "\n.hidden "@ + m + "\n.type "@ + m + ", "@ + g + "function\n"@ + m + ":\n"@;
    assert(pro =~= a1 + m + c1);
    lemma_occurs_at_boundary(a1, m, c1);
    let i1 = a1.len() as int;
    let a2 = a1 + m + "\n.hidden "@;
    let c2 = "\n.type "@ + m + ", "@ + g + "function\n"@ + m + ":\n"@;
    assert(pro =~= a2 + m + c2);
    lemma_occurs_at_boundary(a2, m, c2);
    let i2 = a2.len() as int;
    let a3 = a2 + m + "\n.type "@;
    let c3 = ", "@ + g + "function\n"@ + m + ":\n"@;
    assert(pro =~= a3 + m + c3);
    lemma_occurs_at_boundary(a3, m, c3);
    let i3 = a3.len() as int;
    assert(occurs_at(pro, symbol, i1));
    assert(occurs_at(pro, symbol, i2));
    assert(occurs_at(pro, symbol, i3));
    assert(i1 + symbol.len() <= i2);
    assert(i2 + symbol.len() <= i3);
}

/// On ELF, the epilogue is exactly the size directive computing
/// `. - symbol`, followed by the section pop; it references the symbol at
/// the directive's head and inside the computation.
pub proof fn lemma_elf_epilogue_references_symbol(symbol: Seq<char>, p: PlatformProfile)
    requires
        p.format == ObjectFormat::Elf,
    ensures
        spec_function_end(symbol, p) == ".size "@ + symbol + ", . - "@ + symbol
            + "\n.popsection"@,
        occurs_at(spec_function_end(symbol, p), symbol, ".size "@.len() as int),
        occurs_at(
            spec_function_end(symbol, p),
            symbol,
            (".size "@.len() + symbol.len() + ", . - "@.len()) as int,
        ),
{
    let epi = spec_function_end(symbol, p);
    assert(spec_mangled(symbol, p) == symbol);
    let a1 = ".size "@;
    let c1 = ", . - "@ + symbol + "\n.popsection"@;
    assert(epi =~= a1 + symbol + c1);
    lemma_occurs_at_boundary(a1, symbol, c1);
    assert(occurs_at(epi, symbol, a1.len() as int));
    let a2 = ".size "@ + symbol + ", . - "@;
    let c2 = "\n.popsection"@;
    assert(epi =~= a2 + symbol + c2);
    lemma_occurs_at_boundary(a2, symbol, c2);
    assert(occurs_at(epi, symbol, a2.len() as int));
}

/// On ELF, for a symbol whose name is free of dots, the epilogue holds the
/// size directive exactly once: it occurs at the head and nowhere else.
pub proof fn lemma_elf_size_directive_once(symbol: Seq<char>, p: PlatformProfile)
    requires
        p.format == ObjectFormat::Elf,
        forall|j: int| 0 <= j < symbol.len() ==> #[trigger] symbol[j] != '.',
    ensures
        occurs_at(spec_function_end(symbol, p), ".size"@, 0),
        forall|i: int| #[trigger] occurs_at(spec_function_end(symbol, p), ".size"@, i) ==> i
            == 0,
{
    reveal_strlit(".size");
    reveal_strlit(".size ");
    reveal_strlit(", . - ");
    reveal_strlit("\n.popsection");
    let d = ".size"@;
    let epi = spec_function_end(symbol, p);
    assert(spec_mangled(symbol, p) == symbol);
    let l = symbol.len() as int;
    assert(epi.len() == 24 + 2 * l);
    assert forall|x: int| 0 <= x < 6 implies epi[x] == ".size "@[x] by {}
    assert forall|x: int| 6 <= x < 6 + l implies epi[x] == symbol[x - 6] by {}
    assert forall|x: int| 6 + l <= x < 12 + l implies epi[x] == ", . - "@[x - 6 - l] by {}
    assert forall|x: int| 12 + l <= x < 12 + 2 * l implies epi[x] == symbol[x - 12 - l] by {}
    assert forall|x: int| 12 + 2 * l <= x < 24 + 2 * l implies epi[x] == "\n.popsection"@[x - 12
        - 2 * l] by {}
    assert(epi.subrange(0, 5) =~= d);
    assert(occurs_at(epi, d, 0));
    assert forall|i: int| occurs_at(epi, d, i) implies i == 0 by {
        assert(epi.subrange(i, i + 5)[0] == epi[i]);
        assert(epi.subrange(i, i + 5)[1] == epi[i + 1]);
        assert(epi[i] == '.');
        assert(epi[i + 1] == 's');
        if 1 <= i < 6 {
            assert(false);
        } else if 6 <= i < 6 + l {
            assert(epi[i] == symbol[i - 6]);
            assert(false);
        } else if 6 + l <= i < 12 + l {
            assert(epi[i] == ", . - "@[i - 6 - l]);
            assert(i == 8 + l);
            assert(epi[i + 1] == ", . - "@[3]);
            assert(false);
        } else if 12 + l <= i < 12 + 2 * l {
            assert(epi[i] == symbol[i - 12 - l]);
            assert(false);
        } else if 12 + 2 * l <= i {
            assert(epi[i] == "\n.popsection"@[i - 12 - 2 * l]);
            assert(i == 13 + 2 * l);
            assert(epi[i + 1] == "\n.popsection"@[2]);
            assert(false);
        }
    }
}

/// Off ELF, the epilogue is the bare section pop and holds no size
/// directive at all.
pub proof fn lemma_no_size_directive_off_elf(symbol: Seq<char>, p: PlatformProfile)
    requires
        p.format != ObjectFormat::Elf,
    ensures
        spec_function_end(symbol, p) == ".popsection"@,
        forall|i: int| !(#[trigger] occurs_at(spec_function_end(symbol, p), ".size"@, i)),
{
    reveal_strlit(".size");
    reveal_strlit(".popsection");
    let d = ".size"@;
    let epi = spec_function_end(symbol, p);
    assert(epi.len() == 11);
    assert forall|i: int| !occurs_at(epi, d, i) by {
        if occurs_at(epi, d, i) {
            assert(epi.subrange(i, i + 5)[0] == epi[i]);
            assert(epi.subrange(i, i + 5)[1] == epi[i + 1]);
            assert(epi[i] == '.');
            assert(epi[i + 1] == 's');
            assert(i == 0);
            assert(false);
        }
    }
}


} // verus!
