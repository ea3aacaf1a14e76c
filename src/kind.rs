//! The kinds of procedural macro, and the texts generated for each.
use vstd::prelude::*;

use crate::naming::{camel_case_of, snake_name, snake_name_of, struct_name};
use crate::template::{bind, covers, fill, pieces, slot_free, text_of, Placeholder, Substitutions};
use crate::templates::{
    segments, template, Document, DERIVE_PREFIX, DOC_HEAD, IMPL_BODY, IMPL_USES, ITEM_IMPL_PARAMS,
    LINE_END, MACRO_PATH, REEXPORT_HEAD,
};

verus! {

/// The flavour of macro entry point being scaffolded.
#[derive(Clone, Copy, Debug, PartialEq, Eq, Structural)]
pub enum ProcMacroKind {
    /// `#[proc_macro_attribute]`
    Attr,
    /// `#[proc_macro_derive]`
    Derive,
    /// `#[proc_macro]`
    Function,
}

/// The kind that a command-line value names, if any.
pub open spec fn kind_named(s: Seq<char>) -> Option<ProcMacroKind> {
    if s == "a"@ || s == "attr"@ || s == "attribute"@ {
        Some(ProcMacroKind::Attr)
    } else if s == "d"@ || s == "derive"@ {
        Some(ProcMacroKind::Derive)
    } else if s == "f"@ || s == "function"@ {
        Some(ProcMacroKind::Function)
    } else {
        None
    }
}

/// Whether filling `doc` for macros of `kind` binds placeholder `p`.
pub open spec fn bound(kind: ProcMacroKind, doc: Document, p: Placeholder) -> bool {
    match doc {
        Document::Facade | Document::MacroShim => kind == ProcMacroKind::Derive || p
            == Placeholder::SnakeName,
        Document::MacroImpl => p == Placeholder::SnakeName,
        Document::UsageHeader | Document::UsageFooter => p == Placeholder::Name,
        Document::UsageExample => kind == ProcMacroKind::Derive || p != Placeholder::StructName,
    }
}

/// The value of placeholder `p` for the base name `name`.
pub open spec fn value_of(name: Seq<char>, p: Placeholder) -> Seq<char> {
    match p {
        Placeholder::Name => name,
        Placeholder::SnakeName => snake_name_of(name),
        Placeholder::StructName => camel_case_of(name),
    }
}

/// The values that filling `doc` for macros of `kind` binds.
pub open spec fn bindings(kind: ProcMacroKind, doc: Document, name: Seq<char>) -> Map<
    Placeholder,
    Seq<char>,
> {
    Map::new(|p: Placeholder| bound(kind, doc, p), |p: Placeholder| value_of(name, p))
}

/// The text generated for `doc`, for macros of `kind` and the base name
/// `name`.
pub open spec fn generated(kind: ProcMacroKind, doc: Document, name: Seq<char>) -> Seq<char> {
    text_of(bind(pieces(template(kind, doc)), bindings(kind, doc, name)))
}

fn binds(kind: ProcMacroKind, doc: Document, p: Placeholder) -> (r: bool)
    ensures
        r == bound(kind, doc, p),
{
    match doc {
        Document::Facade | Document::MacroShim => kind == ProcMacroKind::Derive || p
            == Placeholder::SnakeName,
        Document::MacroImpl => p == Placeholder::SnakeName,
        Document::UsageHeader | Document::UsageFooter => p == Placeholder::Name,
        Document::UsageExample => kind == ProcMacroKind::Derive || p != Placeholder::StructName,
    }
}

fn copy_str(s: &str) -> (r: String)
    ensures
        r@ == s@,
{
    let mut r = String::new();
    r.append(s);
    r
}

/// The text of `doc` for macros of `kind`, filled for the base name `name`.
/// Only the values that the template needs are computed.
pub fn generate(kind: ProcMacroKind, doc: Document, name: &str) -> (r: String)
    ensures
        r@ == generated(kind, doc, name@),
{
    let subs = Substitutions {
        name: if binds(kind, doc, Placeholder::Name) {
            Some(copy_str(name))
        } else {
            None
        },
        snake_name: if binds(kind, doc, Placeholder::SnakeName) {
            Some(snake_name(name))
        } else {
            None
        },
        struct_name: if binds(kind, doc, Placeholder::StructName) {
            Some(struct_name(name))
        } else {
            None
        },
    };
    assert(subs@ =~= bindings(kind, doc, name@));
    let t = segments(kind, doc);
    fill(&t, &subs)
}

impl ProcMacroKind {
    /// The kind named by a command-line value: `a`, `attr` or `attribute`;
    /// `d` or `derive`; `f` or `function`. Any other value is refused, and
    /// the error quotes it in backticks.
    pub fn parse(kind: &str) -> (r: Result<ProcMacroKind, String>)
        ensures
            kind_named(kind@) is Some ==> r == Ok::<ProcMacroKind, String>(
                kind_named(kind@)->Some_0,
            ),
            kind_named(kind@) is None ==> r is Err && r->Err_0@ == "`"@ + kind@ + "`"@,
    {
        if crate::text::str_eq(kind, "a") || crate::text::str_eq(kind, "attr")
            || crate::text::str_eq(kind, "attribute") {
            Ok(ProcMacroKind::Attr)
        } else if crate::text::str_eq(kind, "d") || crate::text::str_eq(kind, "derive") {
            Ok(ProcMacroKind::Derive)
        } else if crate::text::str_eq(kind, "f") || crate::text::str_eq(kind, "function") {
            Ok(ProcMacroKind::Function)
        } else {
            let mut e = String::new();
            e.append("`");
            e.append(kind);
            e.append("`");
            Err(e)
        }
    }

    /// `src/lib.rs` of the facade package.
    pub fn lib_impl(&self, name: &str) -> (r: String)
        ensures
            r@ == generated(*self, Document::Facade, name@),
    {
        generate(*self, Document::Facade, name)
    }

    /// `src/lib.rs` of the proc-macro package.
    pub fn macro_shim(&self, name: &str) -> (r: String)
        ensures
            r@ == generated(*self, Document::MacroShim, name@),
    {
        generate(*self, Document::MacroShim, name)
    }

    /// `src/lib.rs` of the package that holds the macro's logic.
    pub fn macro_impl(&self, name: &str) -> (r: String)
        ensures
            r@ == generated(*self, Document::MacroImpl, name@),
    {
        generate(*self, Document::MacroImpl, name)
    }

    /// The example code of the usage hint.
    pub fn usage_example(&self, name: &str) -> (r: String)
        ensures
            r@ == generated(*self, Document::UsageExample, name@),
    {
        generate(*self, Document::UsageExample, name)
    }
}

/// The first line of the usage hint; its template is the same for every
/// kind.
pub fn usage_header(name: &str) -> (r: String)
    ensures
        r@ == generated(ProcMacroKind::Attr, Document::UsageHeader, name@),
{
    generate(ProcMacroKind::Attr, Document::UsageHeader, name)
}

/// The last lines of the usage hint; its template is the same for every
/// kind.
pub fn usage_footer(name: &str) -> (r: String)
    ensures
        r@ == generated(ProcMacroKind::Attr, Document::UsageFooter, name@),
{
    generate(ProcMacroKind::Attr, Document::UsageFooter, name)
}

impl std::str::FromStr for ProcMacroKind {
    type Err = String;

    fn from_str(kind: &str) -> Result<ProcMacroKind, String> {
        ProcMacroKind::parse(kind)
    }
}

/// For every kind of macro and every generated text, the values bound are
/// those of every placeholder that has a slot in the template: filling
/// leaves no slot, hence no token, in the text.
pub proof fn lemma_fill_leaves_no_token(kind: ProcMacroKind, doc: Document, name: Seq<char>)
    ensures
        covers(bindings(kind, doc, name), pieces(template(kind, doc))),
        slot_free(bind(pieces(template(kind, doc)), bindings(kind, doc, name))),
{
    let t = pieces(template(kind, doc));
    let b = bindings(kind, doc, name);
    assert forall|i: int| 0 <= i < t.len() && t[i] is Slot implies b.contains_key(
        #[trigger] t[i]->Slot_0,
    ) by {
        assert(t[i] == template(kind, doc)[i]@);
    }
    crate::template::lemma_bind_covering(t, b);
}

/// For a derive macro, the facade re-exports the macro under the camel-case
/// form of the name, and the `impl` package defines `derive_` followed by the
/// snake-case form of the name.
pub proof fn lemma_derive_names(name: Seq<char>)
    ensures
        generated(ProcMacroKind::Derive, Document::Facade, name) == REEXPORT_HEAD@ + snake_name_of(
            name,
        ) + MACRO_PATH@ + camel_case_of(name) + LINE_END@,
        generated(ProcMacroKind::Derive, Document::MacroImpl, name) == DOC_HEAD@ + snake_name_of(
            name,
        ) + IMPL_USES@ + DERIVE_PREFIX@ + snake_name_of(name) + ITEM_IMPL_PARAMS@ + IMPL_BODY@,
{
    reveal_with_fuel(text_of, 8);
    let f = bind(
        pieces(template(ProcMacroKind::Derive, Document::Facade)),
        bindings(ProcMacroKind::Derive, Document::Facade, name),
    );
    assert(f.drop_last().drop_last().drop_last().drop_last().drop_last() =~= Seq::<
        crate::template::Piece,
    >::empty());
    let m = bind(
        pieces(template(ProcMacroKind::Derive, Document::MacroImpl)),
        bindings(ProcMacroKind::Derive, Document::MacroImpl, name),
    );
    assert(m.drop_last().drop_last().drop_last().drop_last().drop_last().drop_last().drop_last()
        =~= Seq::<crate::template::Piece>::empty());
}

} // verus!
