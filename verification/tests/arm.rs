//! Generation scenarios for an ELF 32-bit ARM target, where the assembler
//! type-directive glyph is `%` instead of `@`.

use naked_function::model::{AbiTag, Attr, AttrArgs, AttrError, AttrStyle, Error, Func, RawOperand,
    RawOperandKind, Signature, Stmt};
use naked_function::naked::naked_attribute;
use naked_function::operands::AsmOperand;
use naked_function::platform::{Arch, ObjectFormat, PlatformProfile};

fn c_sig(ident: &str) -> Signature {
    Signature {
        constness: false,
        asyncness: false,
        unsafety: true,
        abi: AbiTag::Named("C".to_string()),
        ident: ident.to_string(),
        generics: vec![],
        inputs: vec![],
        output: "i32".to_string(),
    }
}

fn template(t: &str) -> RawOperand {
    RawOperand { name: None, kind: RawOperandKind::Expr(t.to_string()) }
}

fn asm_body(args: Vec<RawOperand>) -> Vec<Stmt> {
    vec![Stmt::MacroCall { path: vec!["asm".to_string()], attrs: vec![], args }]
}

fn func(attrs: Vec<Attr>, sig: Signature, body: Vec<Stmt>) -> Func {
    Func { attrs, vis: "pub".to_string(), sig, body }
}

fn arm() -> PlatformProfile {
    PlatformProfile { format: ObjectFormat::Elf, arch: Arch::Arm }
}

fn instruction_set(tokens: &str) -> Attr {
    Attr {
        style: AttrStyle::Outer,
        path: vec!["instruction_set".to_string()],
        args: AttrArgs::Tokens(tokens.to_string()),
    }
}

#[test]
fn arm_test_add() {
    let f = func(
        vec![],
        c_sig("add"),
        asm_body(vec![template("add r0, r0, r1"), template("bx lr")]),
    );
    let (decl, unit) = naked_attribute(&f, arm()).unwrap();
    assert_eq!(
        unit.operands,
        vec![
            AsmOperand::Template(
                ".pushsection .text.rust_naked_function_add,\"ax\", %progbits\n\
                 .balign 4\n\
                 .globl rust_naked_function_add\n\
                 .hidden rust_naked_function_add\n\
                 .type rust_naked_function_add, %function\n\
                 rust_naked_function_add:\n"
                    .to_string()
            ),
            AsmOperand::Template("add r0, r0, r1".to_string()),
            AsmOperand::Template("bx lr".to_string()),
            AsmOperand::Template(
                ".size rust_naked_function_add, . - rust_naked_function_add\n.popsection"
                    .to_string()
            ),
        ]
    );
    assert_eq!(decl.sig.abi, AbiTag::Missing);
}

#[test]
fn arm_test_const() {
    let f = func(
        vec![],
        c_sig("add_5"),
        asm_body(vec![
            template("add r0, r0, #{}"),
            template("bx lr"),
            RawOperand { name: None, kind: RawOperandKind::Const("5".to_string()) },
        ]),
    );
    let (_decl, unit) = naked_attribute(&f, arm()).unwrap();
    assert_eq!(unit.operands.len(), 5);
    assert!(matches!(&unit.operands[3], AsmOperand::Template(t) if t.starts_with(".size ")));
    assert_eq!(
        unit.operands[4],
        AsmOperand::Const { name: None, expr: "5".to_string() }
    );
}

#[test]
fn arm_test_sym() {
    let allow = Attr {
        style: AttrStyle::Outer,
        path: vec!["allow".to_string()],
        args: AttrArgs::Tokens("improper_ctypes".to_string()),
    };
    let f = func(
        vec![allow.clone()],
        c_sig("call_sym"),
        asm_body(vec![
            template("str lr, [sp, #-8]!"),
            template("bl {}"),
            template("ldr pc, [sp], #8"),
            RawOperand { name: None, kind: RawOperandKind::Sym("mutate_string".to_string()) },
        ]),
    );
    let (decl, unit) = naked_attribute(&f, arm()).unwrap();
    assert_eq!(decl.attrs[0], allow);
    assert_eq!(unit.operands.len(), 6);
    assert_eq!(
        unit.operands[5],
        AsmOperand::Sym { name: None, expr: "mutate_string".to_string() }
    );
}

#[test]
fn arm_test_export_name() {
    let export = Attr {
        style: AttrStyle::Outer,
        path: vec!["export_name".to_string()],
        args: AttrArgs::Value("exported_symbol_name".to_string()),
    };
    let f = func(
        vec![export],
        c_sig("export_name"),
        asm_body(vec![template("mov r0, #3"), template("bx lr")]),
    );
    let (decl, unit) = naked_attribute(&f, arm()).unwrap();
    assert_eq!(
        decl.attrs,
        vec![Attr {
            style: AttrStyle::Outer,
            path: vec!["link_name".to_string()],
            args: AttrArgs::Value("exported_symbol_name".to_string()),
        }]
    );
    assert!(matches!(
        &unit.operands[0],
        AsmOperand::Template(t) if t.contains(".globl exported_symbol_name\n")
    ));
}

#[test]
fn arm_test_mangled() {
    let f = func(
        vec![],
        c_sig("mangled"),
        asm_body(vec![template("mov r0, #4"), template("bx lr")]),
    );
    let (decl, _unit) = naked_attribute(&f, arm()).unwrap();
    assert_eq!(
        decl.attrs,
        vec![Attr {
            style: AttrStyle::Outer,
            path: vec!["link_name".to_string()],
            args: AttrArgs::Value("rust_naked_function_mangled".to_string()),
        }]
    );
}

#[test]
fn test_arm() {
    // an instruction-set selector is not one of the accepted decorations:
    // generation rejects it rather than emitting code for the wrong mode
    let f = func(
        vec![instruction_set("arm::a32")],
        c_sig("add_arm"),
        asm_body(vec![template("add r0, r0, r1"), template("bx lr")]),
    );
    let err = naked_attribute(&f, arm()).unwrap_err();
    assert!(matches!(&err, Error::Attribute(AttrError::Unsupported(_))));
    assert_eq!(
        err,
        Error::Attribute(AttrError::Unsupported(vec!["instruction_set".to_string()]))
    );
}

#[test]
fn test_thumb() {
    let f = func(
        vec![instruction_set("arm::t32")],
        c_sig("add_thumb"),
        asm_body(vec![template("add r0, r0, r1"), template("bx lr")]),
    );
    let err = naked_attribute(&f, arm()).unwrap_err();
    assert!(matches!(&err, Error::Attribute(AttrError::Unsupported(_))));
    assert_eq!(
        err,
        Error::Attribute(AttrError::Unsupported(vec!["instruction_set".to_string()]))
    );
}
