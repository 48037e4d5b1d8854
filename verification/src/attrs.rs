//! The attribute classifier: partitions the decorations on the function into
//! forwarded attributes, conditional-inclusion guards, the linkage-name
//! override, the explicit-section override and the no-mangle marker, and
//! rejects everything else. Computes the canonical symbol name and the
//! section choice.

use vstd::prelude::*;

use crate::model::{res_view, Attr, AttrArgs, AttrArgsView, AttrError, AttrErrorView, AttrStyle,
    AttrView, Error, ErrorView};
use crate::text::str_eq;

verus! {

// ---------------------------------------------------------------------------
// The scan, in specification form
// ---------------------------------------------------------------------------

/// The running state of the decoration scan.
pub struct AttrScan {
    pub foreign: Seq<AttrView>,
    pub cfg: Seq<AttrView>,
    pub no_mangle: bool,
    pub export_name: Option<Seq<char>>,
    pub link_section: Option<Seq<char>>,
}

/// The state before any decoration is seen.
pub open spec fn init_scan() -> AttrScan {
    AttrScan {
        foreign: Seq::empty(),
        cfg: Seq::empty(),
        no_mangle: false,
        export_name: None,
        link_section: None,
    }
}

/// The path consists of the single segment `name`.
pub open spec fn path_is_ident(path: Seq<Seq<char>>, name: Seq<char>) -> bool {
    path.len() == 1 && path[0] == name
}

/// The path is one of the forwarding whitelist names.
pub open spec fn is_forwarded_path(path: Seq<Seq<char>>) -> bool {
    ||| path_is_ident(path, "doc"@)
    ||| path_is_ident(path, "allow"@)
    ||| path_is_ident(path, "warn"@)
    ||| path_is_ident(path, "deny"@)
    ||| path_is_ident(path, "forbid"@)
    ||| path_is_ident(path, "deprecated"@)
    ||| path_is_ident(path, "must_use"@)
}

/// The path belongs to the formatting-tool-skip family (first segment
/// `rustfmt`).
pub open spec fn is_rustfmt_path(path: Seq<Seq<char>>) -> bool {
    path.len() >= 1 && path[0] == "rustfmt"@
}

/// The synthesized linkage-name decoration pointing at `value`.
pub open spec fn link_name_attr(value: Seq<char>) -> AttrView {
    AttrView {
        style: AttrStyle::Outer,
        path: seq!["link_name"@],
        args: AttrArgsView::Value(value),
    }
}

/// Classifies one decoration, updating the scan state or failing.
pub open spec fn scan_one(st: AttrScan, a: AttrView) -> Result<AttrScan, ErrorView> {
    if a.style == AttrStyle::Inner {
        Err(ErrorView::Attribute(AttrErrorView::InnerAttribute))
    } else if is_forwarded_path(a.path) {
        Ok(AttrScan { foreign: st.foreign.push(a), ..st })
    } else if is_rustfmt_path(a.path) {
        Ok(st)
    } else if path_is_ident(a.path, "no_mangle"@) {
        match a.args {
            AttrArgsView::Empty => Ok(AttrScan { no_mangle: true, ..st }),
            _ => Err(ErrorView::Attribute(AttrErrorView::NoMangleArgs)),
        }
    } else if path_is_ident(a.path, "export_name"@) {
        match a.args {
            AttrArgsView::Value(v) => Ok(
                AttrScan {
                    export_name: Some(v),
                    foreign: st.foreign.push(link_name_attr(v)),
                    ..st
                },
            ),
            _ => Err(ErrorView::Attribute(AttrErrorView::ExportNameArgs)),
        }
    } else if path_is_ident(a.path, "link_section"@) {
        match a.args {
            AttrArgsView::Value(v) => Ok(AttrScan { link_section: Some(v), ..st }),
            _ => Err(ErrorView::Attribute(AttrErrorView::LinkSectionArgs)),
        }
    } else if path_is_ident(a.path, "cfg"@) {
        Ok(AttrScan { cfg: st.cfg.push(a), ..st })
    } else {
        Err(ErrorView::Attribute(AttrErrorView::Unsupported(a.path)))
    }
}

/// Scans the decorations left to right, failing at the first violation.
pub open spec fn scan_attrs(st: AttrScan, attrs: Seq<AttrView>) -> Result<AttrScan, ErrorView>
    decreases attrs.len(),
{
    if attrs.len() == 0 {
        Ok(st)
    } else {
        match scan_one(st, attrs[0]) {
            Err(e) => Err(e),
            Ok(st2) => scan_attrs(st2, attrs.drop_first()),
        }
    }
}

/// One step of the scan, phrased over a suffix of the decoration sequence.
pub proof fn lemma_scan_step(st: AttrScan, s: Seq<AttrView>, i: int)
    requires
        0 <= i < s.len(),
    ensures
        scan_attrs(st, s.skip(i)) == (match scan_one(st, s[i]) {
            Err(e) => Err(e),
            Ok(st2) => scan_attrs(st2, s.skip(i + 1)),
        }),
{
    assert(s.skip(i)[0] == s[i]);
    assert(s.skip(i).drop_first() =~= s.skip(i + 1));
}

// ---------------------------------------------------------------------------
// Symbol and section computation
// ---------------------------------------------------------------------------

/// The fixed prefix that keeps a mangled symbol distinct from the bare
/// identifier of the logical function.
pub open spec fn symbol_prefix() -> Seq<char> {
    "rust_naked_function_"@
}

/// The canonical symbol: the override if one was given, else the bare
/// identifier under `no_mangle`, else the prefixed identifier.
pub open spec fn spec_symbol(ident: Seq<char>, st: AttrScan) -> Seq<char> {
    match st.export_name {
        Some(e) => e,
        None => if st.no_mangle {
            ident
        } else {
            symbol_prefix() + ident
        },
    }
}

/// The section choice: an explicit override expression, or the platform
/// default, resolved later by the directive synthesizer.
#[derive(Clone, Debug, PartialEq, Eq)]
pub enum SectionSpec {
    Explicit(String),
    Default,
}

/// Mathematical view of [`SectionSpec`].
pub enum SectionSpecView {
    Explicit(Seq<char>),
    Default,
}

impl View for SectionSpec {
    type V = SectionSpecView;

    open spec fn view(&self) -> SectionSpecView {
        match self {
            SectionSpec::Explicit(s) => SectionSpecView::Explicit(s@),
            SectionSpec::Default => SectionSpecView::Default,
        }
    }
}

/// What the classifier hands to the assembler: the attribute sets, the
/// canonical symbol and the section choice.
#[derive(Clone, Debug, PartialEq, Eq)]
pub struct ParsedAttrs {
    pub foreign_attrs: Vec<Attr>,
    pub cfg: Vec<Attr>,
    pub symbol: String,
    pub link_section: SectionSpec,
}

/// Mathematical view of [`ParsedAttrs`].
pub struct ParsedAttrsView {
    pub foreign_attrs: Seq<AttrView>,
    pub cfg: Seq<AttrView>,
    pub symbol: Seq<char>,
    pub link_section: SectionSpecView,
}

impl View for ParsedAttrs {
    type V = ParsedAttrsView;

    open spec fn view(&self) -> ParsedAttrsView {
        ParsedAttrsView {
            foreign_attrs: self.foreign_attrs.deep_view(),
            cfg: self.cfg.deep_view(),
            symbol: self.symbol@,
            link_section: self.link_section@,
        }
    }
}

/// What the whole classifier returns for a function named `ident` with the
/// given decorations: the scan's first error, or the resolved attribute sets
/// with the canonical symbol, the synthesized linkage-name decoration added
/// exactly when no override was given.
pub open spec fn spec_parse_attrs(ident: Seq<char>, attrs: Seq<AttrView>) -> Result<
    ParsedAttrsView,
    ErrorView,
> {
    match scan_attrs(init_scan(), attrs) {
        Err(e) => Err(e),
        Ok(st) => {
            let symbol = spec_symbol(ident, st);
            let foreign = match st.export_name {
                Some(_) => st.foreign,
                None => st.foreign.push(link_name_attr(symbol)),
            };
            Ok(
                ParsedAttrsView {
                    foreign_attrs: foreign,
                    cfg: st.cfg,
                    symbol,
                    link_section: match st.link_section {
                        Some(s) => SectionSpecView::Explicit(s),
                        None => SectionSpecView::Default,
                    },
                },
            )
        },
    }
}

// ---------------------------------------------------------------------------
// Executable classifier
// ---------------------------------------------------------------------------

/// The path consists of the single segment `name`.
pub fn path_is(path: &Vec<String>, name: &str) -> (r: bool)
    ensures
        r == path_is_ident(path.deep_view(), name@),
{
    if path.len() == 1 {
        let r = str_eq(path[0].as_str(), name);
        proof {
            assert(path.deep_view()[0] == path@[0]@);
        }
        r
    } else {
        false
    }
}

/// The path is one of the forwarding whitelist names.
fn path_is_forwarded(path: &Vec<String>) -> (r: bool)
    ensures
        r == is_forwarded_path(path.deep_view()),
{
    path_is(path, "doc") || path_is(path, "allow") || path_is(path, "warn") || path_is(
        path,
        "deny",
    ) || path_is(path, "forbid") || path_is(path, "deprecated") || path_is(path, "must_use")
}

/// The path's first segment is `rustfmt`.
fn path_is_rustfmt(path: &Vec<String>) -> (r: bool)
    ensures
        r == is_rustfmt_path(path.deep_view()),
{
    if path.len() >= 1 {
        let r = str_eq(path[0].as_str(), "rustfmt");
        proof {
            assert(path.deep_view()[0] == path@[0]@);
        }
        r
    } else {
        false
    }
}

/// Appends a copy of `a`; the deep view grows by `a`'s view.
pub(crate) fn push_attr(v: &mut Vec<Attr>, a: &Attr)
    ensures
        final(v).deep_view() == old(v).deep_view().push(a.deep_view()),
{
    let ghost prev = v.deep_view();
    v.push(a.duplicate());
    proof {
        let vd = v.deep_view();
        assert forall|j: int| 0 <= j < vd.len() implies vd[j] == prev.push(a.deep_view())[j] by {
            assert(vd[j] == v@[j].deep_view());
            if j < prev.len() {
                assert(v@[j] == old(v)@[j]);
                assert(prev[j] == old(v)@[j].deep_view());
            }
        }
        assert(vd =~= prev.push(a.deep_view()));
    }
}

/// Builds the synthesized linkage-name decoration for `value`.
fn make_link_name(value: &String) -> (r: Attr)
    ensures
        r@ == link_name_attr(value@),
{
    let mut path: Vec<String> = Vec::new();
    path.push(String::from_str("link_name"));
    let r = Attr { style: AttrStyle::Outer, path, args: AttrArgs::Value(value.clone()) };
    proof {
        assert(r.path.deep_view() =~= seq!["link_name"@]);
    }
    r
}

/// The scan state the executable loop has reached.
pub open spec fn state_of(
    foreign: Seq<AttrView>,
    cfg: Seq<AttrView>,
    no_mangle: bool,
    export_name: Option<Seq<char>>,
    link_section: Option<Seq<char>>,
) -> AttrScan {
    AttrScan { foreign, cfg, no_mangle, export_name, link_section }
}

/// Classifies the decorations on the function named `ident` and computes the
/// canonical symbol and section choice, exactly as [`spec_parse_attrs`]
/// states.
pub fn parse_attrs(ident: &str, attrs: &Vec<Attr>) -> (r: Result<ParsedAttrs, Error>)
    ensures
        res_view(r) == spec_parse_attrs(ident@, attrs.deep_view()),
{
    let ghost s = attrs.deep_view();
    let mut foreign: Vec<Attr> = Vec::new();
    let mut cfg: Vec<Attr> = Vec::new();
    let mut no_mangle: bool = false;
    let mut export_name: Option<String> = None;
    let mut link_section: Option<String> = None;
    let mut i: usize = 0;
    proof {
        assert(s.skip(0) =~= s);
        assert(foreign.deep_view() =~= Seq::<AttrView>::empty());
        assert(cfg.deep_view() =~= Seq::<AttrView>::empty());
    }
    while i < attrs.len()
        invariant
            i <= attrs.len(),
            s == attrs.deep_view(),
            s.len() == attrs@.len(),
            scan_attrs(init_scan(), s) == scan_attrs(
                state_of(
                    foreign.deep_view(),
                    cfg.deep_view(),
                    no_mangle,
                    export_name.deep_view(),
                    link_section.deep_view(),
                ),
                s.skip(i as int),
            ),
        decreases attrs.len() - i,
    {
        let ghost pre = state_of(
            foreign.deep_view(),
            cfg.deep_view(),
            no_mangle,
            export_name.deep_view(),
            link_section.deep_view(),
        );
        proof {
            lemma_scan_step(pre, s, i as int);
            assert(s[i as int] == attrs@[i as int].deep_view());
        }
        let a = &attrs[i];
        if matches!(a.style, AttrStyle::Inner) {
            return Err(Error::Attribute(AttrError::InnerAttribute));
        }
        if path_is_forwarded(&a.path) {
            push_attr(&mut foreign, a);
        } else if path_is_rustfmt(&a.path) {
            // formatting-tool decorations are silently dropped
        } else if path_is(&a.path, "no_mangle") {
            if !matches!(&a.args, AttrArgs::Empty) {
                return Err(Error::Attribute(AttrError::NoMangleArgs));
            }
            no_mangle = true;
        } else if path_is(&a.path, "export_name") {
            match &a.args {
                AttrArgs::Value(v) => {
                    export_name = Some(v.clone());
                    let ln = make_link_name(v);
                    push_attr(&mut foreign, &ln);
                },
                _ => {
                    return Err(Error::Attribute(AttrError::ExportNameArgs));
                },
            }
        } else if path_is(&a.path, "link_section") {
            match &a.args {
                AttrArgs::Value(v) => {
                    link_section = Some(v.clone());
                },
                _ => {
                    return Err(Error::Attribute(AttrError::LinkSectionArgs));
                },
            }
        } else if path_is(&a.path, "cfg") {
            push_attr(&mut cfg, a);
        } else {
            return Err(Error::Attribute(AttrError::Unsupported(crate::model::dup_strings(&a.path))));
        }
        i += 1;
    }
    let ghost st = state_of(
        foreign.deep_view(),
        cfg.deep_view(),
        no_mangle,
        export_name.deep_view(),
        link_section.deep_view(),
    );
    proof {
        assert(s.skip(i as int) =~= Seq::<AttrView>::empty());
        assert(scan_attrs(init_scan(), s) == Ok::<AttrScan, ErrorView>(st));
    }
    let symbol: String = match &export_name {
        Some(e) => e.clone(),
        None => {
            if no_mangle {
                String::from_str(ident)
            } else {
                let mut sym = String::new();
                sym.append("rust_naked_function_");
                sym.append(ident);
                proof {
                    assert(sym@ =~= symbol_prefix() + ident@);
                }
                sym
            }
        },
    };
    proof {
        assert(symbol@ == spec_symbol(ident@, st));
    }
    if matches!(&export_name, Option::None) {
        let ln = make_link_name(&symbol);
        push_attr(&mut foreign, &ln);
    }
    let section = match link_section {
        Some(sect) => SectionSpec::Explicit(sect),
        None => SectionSpec::Default,
    };
    Ok(ParsedAttrs { foreign_attrs: foreign, cfg, symbol, link_section: section })
}

} // verus!
