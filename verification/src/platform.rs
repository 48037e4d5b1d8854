//! The platform knowledge base: given a symbol name and a section, produce
//! the exact prologue and epilogue directive text for the target's
//! object-file format (ELF, Mach-O or COFF) and architecture, together with
//! the symbol-mangling rule and the per-platform default section.

use vstd::prelude::*;

verus! {

/// The structural convention of the compiled output file.
#[derive(Clone, Copy, Debug, PartialEq, Eq, Structural)]
pub enum ObjectFormat {
    Elf,
    MachO,
    Coff,
}

/// The architecture family, as far as directive text depends on it: 32-bit
/// x86 decides COFF mangling, and ARM decides the ELF type-directive glyph.
#[derive(Clone, Copy, Debug, PartialEq, Eq, Structural)]
pub enum Arch {
    X86,
    X86_64,
    Arm,
    Aarch64,
}

/// The resolved target: computed once per invocation from the build
/// environment, immutable thereafter.
#[derive(Clone, Copy, Debug, PartialEq, Eq, Structural)]
pub struct PlatformProfile {
    pub format: ObjectFormat,
    pub arch: Arch,
}

/// Whether the platform prepends an underscore to every emitted symbol:
/// always on Mach-O, and on COFF only for 32-bit x86.
pub open spec fn spec_underscore(p: PlatformProfile) -> bool {
    p.format == ObjectFormat::MachO || (p.format == ObjectFormat::Coff && p.arch == Arch::X86)
}

/// The linker-visible name of a symbol on the platform.
pub open spec fn spec_mangled(symbol: Seq<char>, p: PlatformProfile) -> Seq<char> {
    if spec_underscore(p) {
        "_"@ + symbol
    } else {
        symbol
    }
}

/// The assembler type-directive glyph: `%` on ARM, `@` elsewhere.
pub open spec fn spec_type_glyph(p: PlatformProfile) -> Seq<char> {
    if p.arch == Arch::Arm {
        "%"@
    } else {
        "@"@
    }
}

/// The default section for a symbol: `.text.<symbol>` on ELF and COFF; the
/// fixed `__TEXT,__text` on Mach-O, which has no per-symbol sections.
pub open spec fn spec_default_section(symbol: Seq<char>, p: PlatformProfile) -> Seq<char> {
    if p.format == ObjectFormat::MachO {
        "__TEXT,__text"@
    } else {
        ".text."@ + symbol
    }
}

/// The prologue directive text that opens a function definition.
pub open spec fn spec_function_begin(
    symbol: Seq<char>,
    section: Seq<char>,
    p: PlatformProfile,
) -> Seq<char> {
    let m = spec_mangled(symbol, p);
    match p.format {
        ObjectFormat::Coff => ".pushsection "@ + section + ",\"xr\"\n.balign 4\n.globl "@ + m
            + "\n.def "@ + m + "\n.scl 2\n.type 32\n.endef "@ + m + "\n"@ + m + ":\n"@,
        ObjectFormat::MachO => ".pushsection "@ + section
            + ",regular,pure_instructions\n.balign 4\n.globl "@ + m + "\n.private_extern "@ + m
            + "\n"@ + m + ":\n"@,
        ObjectFormat::Elf => ".pushsection "@ + section + ",\"ax\", "@ + spec_type_glyph(p)
            + "progbits\n.balign 4\n.globl "@ + m + "\n.hidden "@ + m + "\n.type "@ + m + ", "@
            + spec_type_glyph(p) + "function\n"@ + m + ":\n"@,
    }
}

/// The epilogue directive text that closes a function definition. Only ELF
/// carries a size directive; Mach-O and COFF close the section and nothing
/// more.
pub open spec fn spec_function_end(symbol: Seq<char>, p: PlatformProfile) -> Seq<char> {
    let m = spec_mangled(symbol, p);
    match p.format {
        ObjectFormat::Elf => ".size "@ + m + ", . - "@ + m + "\n.popsection"@,
        _ => ".popsection"@,
    }
}

impl PlatformProfile {
    /// Whether this platform mangles with a leading underscore.
    pub fn underscore(self) -> (r: bool)
        ensures
            r == spec_underscore(self),
    {
        match self.format {
            ObjectFormat::MachO => true,
            ObjectFormat::Coff => matches!(self.arch, Arch::X86),
            ObjectFormat::Elf => false,
        }
    }
}

/// The linker-visible name of `symbol` on the platform.
pub fn mangled_symbol(symbol: &str, p: PlatformProfile) -> (r: String)
    ensures
        r@ == spec_mangled(symbol@, p),
{
    let mut r = String::new();
    if p.underscore() {
        r.append("_");
    }
    r.append(symbol);
    proof {
        assert(r@ =~= spec_mangled(symbol@, p));
    }
    r
}

/// The default section expression for `symbol` on the platform.
pub fn default_section(symbol: &str, p: PlatformProfile) -> (r: String)
    ensures
        r@ == spec_default_section(symbol@, p),
{
    let mut r = String::new();
    if matches!(p.format, ObjectFormat::MachO) {
        r.append("__TEXT,__text");
    } else {
        r.append(".text.");
        r.append(symbol);
    }
    proof {
        assert(r@ =~= spec_default_section(symbol@, p));
    }
    r
}

/// Builds the prologue directive text for a function named `symbol` placed
/// in `section`.
pub fn function_begin(symbol: &str, section: &str, p: PlatformProfile) -> (r: String)
    ensures
        r@ == spec_function_begin(symbol@, section@, p),
{
    let m = mangled_symbol(symbol, p);
    let mut r = String::new();
    match p.format {
        ObjectFormat::Coff => {
            r.append(".pushsection ");
            r.append(section);
            r.append(",\"xr\"\n.balign 4\n.globl ");
            r.append(m.as_str());
            r.append("\n.def ");
            r.append(m.as_str());
            r.append("\n.scl 2\n.type 32\n.endef ");
            r.append(m.as_str());
            r.append("\n");
            r.append(m.as_str());
            r.append(":\n");
        },
        ObjectFormat::MachO => {
            r.append(".pushsection ");
            r.append(section);
            r.append(",regular,pure_instructions\n.balign 4\n.globl ");
            r.append(m.as_str());
            r.append("\n.private_extern ");
            r.append(m.as_str());
            r.append("\n");
            r.append(m.as_str());
            r.append(":\n");
        },
        ObjectFormat::Elf => {
            let glyph: &str = if matches!(p.arch, Arch::Arm) {
                "%"
            } else {
                "@"
            };
            proof {
                assert(glyph@ == spec_type_glyph(p));
            }
            r.append(".pushsection ");
            r.append(section);
            r.append(",\"ax\", ");
            r.append(glyph);
            r.append("progbits\n.balign 4\n.globl ");
            r.append(m.as_str());
            r.append("\n.hidden ");
            r.append(m.as_str());
            r.append("\n.type ");
            r.append(m.as_str());
            r.append(", ");
            r.append(glyph);
            r.append("function\n");
            r.append(m.as_str());
            r.append(":\n");
        },
    }
    proof {
        assert(r@ =~= spec_function_begin(symbol@, section@, p));
    }
    r
}

/// Builds the epilogue directive text that closes the definition of
/// `symbol`.
pub fn function_end(symbol: &str, p: PlatformProfile) -> (r: String)
    ensures
        r@ == spec_function_end(symbol@, p),
{
    let mut r = String::new();
    match p.format {
        ObjectFormat::Elf => {
            let m = mangled_symbol(symbol, p);
            r.append(".size ");
            r.append(m.as_str());
            r.append(", . - ");
            r.append(m.as_str());
            r.append("\n.popsection");
        },
        _ => {
            r.append(".popsection");
        },
    }
    proof {
        assert(r@ =~= spec_function_end(symbol@, p));
    }
    r
}

} // verus!
