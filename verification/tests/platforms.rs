//! The platform knowledge base: exact directive text for every object-format
//! family, the mangling rule, and the default sections.

use naked_function::platform::{default_section, function_begin, function_end, mangled_symbol,
    Arch, ObjectFormat, PlatformProfile};

fn coff_x86() -> PlatformProfile {
    PlatformProfile { format: ObjectFormat::Coff, arch: Arch::X86 }
}

fn coff_x64() -> PlatformProfile {
    PlatformProfile { format: ObjectFormat::Coff, arch: Arch::X86_64 }
}

fn macho_a64() -> PlatformProfile {
    PlatformProfile { format: ObjectFormat::MachO, arch: Arch::Aarch64 }
}

fn elf_x64() -> PlatformProfile {
    PlatformProfile { format: ObjectFormat::Elf, arch: Arch::X86_64 }
}

fn elf_arm() -> PlatformProfile {
    PlatformProfile { format: ObjectFormat::Elf, arch: Arch::Arm }
}

#[test]
fn test_mangling_rules() {
    // COFF prepends an underscore only on 32-bit x86
    assert_eq!(mangled_symbol("f", coff_x86()), "_f");
    assert_eq!(mangled_symbol("f", coff_x64()), "f");
    // Mach-O always prepends one
    assert_eq!(mangled_symbol("f", macho_a64()), "_f");
    // ELF never does
    assert_eq!(mangled_symbol("f", elf_x64()), "f");
    assert_eq!(mangled_symbol("f", elf_arm()), "f");
}

#[test]
fn test_default_sections() {
    assert_eq!(default_section("f", elf_x64()), ".text.f");
    assert_eq!(default_section("f", coff_x86()), ".text.f");
    // Mach-O has no per-symbol sections
    assert_eq!(default_section("f", macho_a64()), "__TEXT,__text");
}

#[test]
fn test_coff_directives() {
    assert_eq!(
        function_begin("f", ".text.f", coff_x86()),
        ".pushsection .text.f,\"xr\"\n\
         .balign 4\n\
         .globl _f\n\
         .def _f\n\
         .scl 2\n\
         .type 32\n\
         .endef _f\n\
         _f:\n"
    );
    assert_eq!(function_end("f", coff_x86()), ".popsection");
    assert_eq!(function_end("f", coff_x64()), ".popsection");
}

#[test]
fn test_macho_directives() {
    assert_eq!(
        function_begin("f", "__TEXT,__text", macho_a64()),
        ".pushsection __TEXT,__text,regular,pure_instructions\n\
         .balign 4\n\
         .globl _f\n\
         .private_extern _f\n\
         _f:\n"
    );
    // no size directive on Mach-O
    assert_eq!(function_end("f", macho_a64()), ".popsection");
}

#[test]
fn test_elf_directives() {
    assert_eq!(
        function_begin("f", ".text.f", elf_x64()),
        ".pushsection .text.f,\"ax\", @progbits\n\
         .balign 4\n\
         .globl f\n\
         .hidden f\n\
         .type f, @function\n\
         f:\n"
    );
    assert_eq!(function_end("f", elf_x64()), ".size f, . - f\n.popsection");
}

#[test]
fn test_elf_arm_uses_percent_glyph() {
    assert_eq!(
        function_begin("f", ".text.f", elf_arm()),
        ".pushsection .text.f,\"ax\", %progbits\n\
         .balign 4\n\
         .globl f\n\
         .hidden f\n\
         .type f, %function\n\
         f:\n"
    );
    assert_eq!(function_end("f", elf_arm()), ".size f, . - f\n.popsection");
}

#[test]
fn test_elf_prologue_mentions_symbol_thrice() {
    let pro = function_begin("my_symbol", ".text.my_symbol", elf_x64());
    assert_eq!(pro.matches("my_symbol").count(), 5);
    let epi = function_end("my_symbol", elf_x64());
    assert_eq!(epi.matches("my_symbol").count(), 2);
    assert_eq!(epi.matches(".size").count(), 1);
    assert_eq!(function_end("my_symbol", macho_a64()).matches(".size").count(), 0);
}
