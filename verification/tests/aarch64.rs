//! Generation scenarios for an ELF aarch64 target.

use naked_function::model::{AbiTag, Attr, AttrArgs, AttrStyle, Func, RawOperand, RawOperandKind,
    Signature, Stmt};
use naked_function::naked::naked_attribute;
use naked_function::operands::AsmOperand;
use naked_function::platform::{Arch, ObjectFormat, PlatformProfile};

fn c_sig(ident: &str) -> Signature {
    Signature {
        constness: false,
        asyncness: false,
        unsafety: true,
        abi: AbiTag::Named("C".to_string()),
        ident: ident.to_string(),
        generics: vec![],
        inputs: vec![],
        output: "i32".to_string(),
    }
}

fn template(t: &str) -> RawOperand {
    RawOperand { name: None, kind: RawOperandKind::Expr(t.to_string()) }
}

fn asm_body(args: Vec<RawOperand>) -> Vec<Stmt> {
    vec![Stmt::MacroCall { path: vec!["asm".to_string()], attrs: vec![], args }]
}

fn func(attrs: Vec<Attr>, sig: Signature, body: Vec<Stmt>) -> Func {
    Func { attrs, vis: "pub".to_string(), sig, body }
}

fn aarch64() -> PlatformProfile {
    PlatformProfile { format: ObjectFormat::Elf, arch: Arch::Aarch64 }
}

#[test]
fn aarch64_test_add() {
    let f = func(
        vec![],
        c_sig("add"),
        asm_body(vec![template("add w0, w0, w1"), template("ret")]),
    );
    let (decl, unit) = naked_attribute(&f, aarch64()).unwrap();
    assert_eq!(
        unit.operands,
        vec![
            AsmOperand::Template(
                ".pushsection .text.rust_naked_function_add,\"ax\", @progbits\n\
                 .balign 4\n\
                 .globl rust_naked_function_add\n\
                 .hidden rust_naked_function_add\n\
                 .type rust_naked_function_add, @function\n\
                 rust_naked_function_add:\n"
                    .to_string()
            ),
            AsmOperand::Template("add w0, w0, w1".to_string()),
            AsmOperand::Template("ret".to_string()),
            AsmOperand::Template(
                ".size rust_naked_function_add, . - rust_naked_function_add\n.popsection"
                    .to_string()
            ),
        ]
    );
    assert_eq!(decl.sig.abi, AbiTag::Missing);
    assert!(!decl.sig.unsafety);
}

#[test]
fn aarch64_test_const() {
    let f = func(
        vec![],
        c_sig("add_5"),
        asm_body(vec![
            template("add w0, w0, {}"),
            template("ret"),
            RawOperand { name: None, kind: RawOperandKind::Const("5".to_string()) },
        ]),
    );
    let (_decl, unit) = naked_attribute(&f, aarch64()).unwrap();
    assert_eq!(unit.operands.len(), 5);
    // the epilogue lands right after the last template, before the constant
    assert!(matches!(&unit.operands[3], AsmOperand::Template(t) if t.starts_with(".size ")));
    assert_eq!(
        unit.operands[4],
        AsmOperand::Const { name: None, expr: "5".to_string() }
    );
}

#[test]
fn aarch64_test_sym() {
    let allow = Attr {
        style: AttrStyle::Outer,
        path: vec!["allow".to_string()],
        args: AttrArgs::Tokens("improper_ctypes".to_string()),
    };
    let f = func(
        vec![allow.clone()],
        c_sig("call_sym"),
        asm_body(vec![
            template("str lr, [sp, #-16]!"),
            template("bl {}"),
            template("ldr lr, [sp], #16"),
            template("ret"),
            RawOperand { name: None, kind: RawOperandKind::Sym("mutate_string".to_string()) },
        ]),
    );
    let (decl, unit) = naked_attribute(&f, aarch64()).unwrap();
    // the lint attribute is forwarded to the declaration, before the
    // synthesized link name
    assert_eq!(decl.attrs[0], allow);
    assert_eq!(decl.attrs.len(), 2);
    assert_eq!(unit.operands.len(), 7);
    assert_eq!(
        unit.operands[6],
        AsmOperand::Sym { name: None, expr: "mutate_string".to_string() }
    );
}

#[test]
fn aarch64_test_export_name() {
    let export = Attr {
        style: AttrStyle::Outer,
        path: vec!["export_name".to_string()],
        args: AttrArgs::Value("exported_symbol_name".to_string()),
    };
    let f = func(
        vec![export],
        c_sig("export_name"),
        asm_body(vec![template("mov x0, 3"), template("ret")]),
    );
    let (decl, unit) = naked_attribute(&f, aarch64()).unwrap();
    // the override is forwarded as the declaration's linkage name, and no
    // second link-name decoration is synthesized
    assert_eq!(
        decl.attrs,
        vec![Attr {
            style: AttrStyle::Outer,
            path: vec!["link_name".to_string()],
            args: AttrArgs::Value("exported_symbol_name".to_string()),
        }]
    );
    assert!(matches!(
        &unit.operands[0],
        AsmOperand::Template(t) if t.contains(".globl exported_symbol_name\n")
    ));
}

#[test]
fn aarch64_test_mangled() {
    let f = func(
        vec![],
        c_sig("mangled"),
        asm_body(vec![template("mov x0, 4"), template("ret")]),
    );
    let (decl, _unit) = naked_attribute(&f, aarch64()).unwrap();
    // the emitted symbol never collides with the bare identifier unless
    // no_mangle was requested
    assert_eq!(
        decl.attrs,
        vec![Attr {
            style: AttrStyle::Outer,
            path: vec!["link_name".to_string()],
            args: AttrArgs::Value("rust_naked_function_mangled".to_string()),
        }]
    );
}

#[test]
fn aarch64_test_no_mangle() {
    let no_mangle = Attr {
        style: AttrStyle::Outer,
        path: vec!["no_mangle".to_string()],
        args: AttrArgs::Empty,
    };
    let f = func(
        vec![no_mangle],
        c_sig("mangled"),
        asm_body(vec![template("mov x0, 4"), template("ret")]),
    );
    let (decl, _unit) = naked_attribute(&f, aarch64()).unwrap();
    assert_eq!(
        decl.attrs,
        vec![Attr {
            style: AttrStyle::Outer,
            path: vec!["link_name".to_string()],
            args: AttrArgs::Value("mangled".to_string()),
        }]
    );
}

#[test]
fn aarch64_test_explicit_section() {
    let section = Attr {
        style: AttrStyle::Outer,
        path: vec!["link_section".to_string()],
        args: AttrArgs::Value(".text.boot".to_string()),
    };
    let f = func(
        vec![section],
        c_sig("start"),
        asm_body(vec![template("ret")]),
    );
    let (_decl, unit) = naked_attribute(&f, aarch64()).unwrap();
    assert!(matches!(
        &unit.operands[0],
        AsmOperand::Template(t) if t.starts_with(".pushsection .text.boot,\"ax\", @progbits\n")
    ));
}
