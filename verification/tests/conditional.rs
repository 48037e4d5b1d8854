//! Conditional-inclusion guards: two definitions of one logical symbol under
//! disjoint guards, each carrying its guards on both generated artifacts.

use naked_function::model::{AbiTag, Attr, AttrArgs, AttrStyle, Func, RawOperand, RawOperandKind,
    Signature, Stmt};
use naked_function::naked::naked_attribute;
use naked_function::platform::{Arch, ObjectFormat, PlatformProfile};

fn c_sig(ident: &str) -> Signature {
    Signature {
        constness: false,
        asyncness: false,
        unsafety: true,
        abi: AbiTag::Named("C".to_string()),
        ident: ident.to_string(),
        generics: vec![],
        inputs: vec![],
        output: "i32".to_string(),
    }
}

fn template(t: &str) -> RawOperand {
    RawOperand { name: None, kind: RawOperandKind::Expr(t.to_string()) }
}

fn asm_body(args: Vec<RawOperand>) -> Vec<Stmt> {
    vec![Stmt::MacroCall { path: vec!["asm".to_string()], attrs: vec![], args }]
}

fn cfg(tokens: &str) -> Attr {
    Attr {
        style: AttrStyle::Outer,
        path: vec!["cfg".to_string()],
        args: AttrArgs::Tokens(tokens.to_string()),
    }
}

#[test]
fn test_conditional() {
    let guards_x86 = vec![cfg("target_os = \"linux\""), cfg("target_arch = \"x86_64\"")];
    let f_x86 = Func {
        attrs: guards_x86.clone(),
        vis: "pub".to_string(),
        sig: c_sig("ret"),
        body: asm_body(vec![template("mov rax, 1"), template("ret")]),
    };
    let p_x86 = PlatformProfile { format: ObjectFormat::Elf, arch: Arch::X86_64 };
    let (decl_x86, unit_x86) = naked_attribute(&f_x86, p_x86).unwrap();
    // the guards land verbatim on both artifacts, after the forwarded set
    assert_eq!(unit_x86.attrs, guards_x86);
    assert_eq!(decl_x86.attrs[decl_x86.attrs.len() - 2..], guards_x86[..]);

    let guards_a64 = vec![cfg("target_arch = \"aarch64\""), cfg("target_os = \"linux\"")];
    let f_a64 = Func {
        attrs: guards_a64.clone(),
        vis: "pub".to_string(),
        sig: c_sig("ret"),
        body: asm_body(vec![template("mov x0, 2"), template("ret")]),
    };
    let p_a64 = PlatformProfile { format: ObjectFormat::Elf, arch: Arch::Aarch64 };
    let (decl_a64, unit_a64) = naked_attribute(&f_a64, p_a64).unwrap();
    assert_eq!(unit_a64.attrs, guards_a64);
    assert_eq!(decl_a64.attrs[decl_a64.attrs.len() - 2..], guards_a64[..]);
}
