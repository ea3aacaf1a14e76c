//! The templates of the generated files and of the usage hint, cut at
//! their placeholders.
use vstd::prelude::*;

use crate::kind::ProcMacroKind;
use crate::template::{Placeholder, Segment};

verus! {
pub const DOC_HEAD: &'static str = "//! This crate implements the macro for `";
pub const REEXPORT_HEAD: &'static str = "#[doc(inline)]
pub use ";
pub const MACRO_PATH: &'static str = "_macro::";
pub const LINE_END: &'static str = ";
";
pub const ATTR_SHIM_USES: &'static str = "` and should not be used directly.
extern crate proc_macro;

use proc_macro::TokenStream;
use syn::parse_macro_input;

#[proc_macro_attribute]
/// Document your macro here.
pub fn ";
pub const ATTR_SHIM_BODY: &'static str = "(attr: TokenStream, item: TokenStream) -> TokenStream {
    let attr = parse_macro_input!(attr as proc_macro2::TokenStream);
    let item = parse_macro_input!(item as proc_macro2::TokenStream);

    match ";
pub const IMPL_PATH: &'static str = "_impl::";
pub const ATTR_SHIM_CALL: &'static str = "(attr, item) {
";
pub const MATCH_ARMS: &'static str = "        Ok(tokens) => tokens.into(),
        Err(err) => TokenStream::from(err.to_compile_error()),
    }
}
";
pub const SHIM_USES: &'static str = "` and should not be used directly.

extern crate proc_macro;

use proc_macro::TokenStream;
use syn::parse_macro_input;

";
pub const DERIVE_SHIM_ATTR: &'static str = "#[proc_macro_derive(";
pub const DERIVE_SHIM_SIG: &'static str = ")]
/// Document your macro here.
pub fn derive_";
pub const FUNCTION_SHIM_SIG: &'static str = "#[proc_macro]
/// Document your macro here.
pub fn ";
pub const ITEM_SHIM_BODY: &'static str = "(item: TokenStream) -> TokenStream {
    let item = parse_macro_input!(item as proc_macro2::TokenStream);

    match ";
pub const DERIVE_IMPL_PATH: &'static str = "_impl::derive_";
pub const ITEM_SHIM_CALL: &'static str = "(item) {
";
pub const IMPL_USES: &'static str = "` and should not be used directly.

use proc_macro2::TokenStream;
use quote::quote;

#[doc(hidden)]
pub fn ";
pub const ATTR_IMPL_PARAMS: &'static str = "(_attr: TokenStream, _item: TokenStream)";
pub const ITEM_IMPL_PARAMS: &'static str = "(_item: TokenStream)";
pub const IMPL_BODY: &'static str = " -> Result<TokenStream, syn::Error> {
    // Implement your proc-macro logic here. :)
    Ok(quote! {
        \"Hello world!\"
    })
}
";
pub const ATTR_IMPL_TEST: &'static str = "
#[cfg(test)]
mod tests {
    use super::*;

    #[test]
    fn example() {
        assert!(";
pub const ATTR_IMPL_TEST_END: &'static str = "(quote! {}, quote! {}).is_ok());
    }
}
";
pub const DERIVE_PREFIX: &'static str = "derive_";
pub const USAGE_HEAD: &'static str = "`";
pub const USAGE_HEAD_END: &'static str = "` is the crate you should use in Rust projects. For example:";
pub const USAGE_FOOT: &'static str = "The testable logic for your macro lives in `impl`. The proc-macro itself is
implemented in the `macro` directory, and is a dependency of `";
pub const USAGE_FOOT_END: &'static str = "`.";
pub const EXAMPLE_USE: &'static str = "
use ";
pub const PATH_SEP: &'static str = "::";
pub const ATTR_EXAMPLE_ATTR: &'static str = ";

#[";
pub const ATTR_EXAMPLE_ITEM: &'static str = "]
fn some_compatible_element() { ... }
";
pub const DERIVE_EXAMPLE_ATTR: &'static str = ";

#[derive(";
pub const DERIVE_EXAMPLE_ITEM: &'static str = ")]
struct SomeStruct;
";
pub const FUNCTION_EXAMPLE_FN: &'static str = ";

fn some_fn() {
    ";
pub const FUNCTION_EXAMPLE_END: &'static str = "!(...);
}
";

/// A text that the generator fills from a template.
#[derive(Clone, Copy, Debug, PartialEq, Eq, Structural)]
pub enum Document {
    /// `src/lib.rs` of the facade package, which re-exports the macro.
    Facade,
    /// `src/lib.rs` of the `macro` package, the proc-macro entry point.
    MacroShim,
    /// `src/lib.rs` of the `impl` package, which holds the macro's logic.
    MacroImpl,
    /// First line of the usage hint.
    UsageHeader,
    /// Example code of the usage hint.
    UsageExample,
    /// Last lines of the usage hint.
    UsageFooter,
}

/// The template of `doc` for macros of `kind`.
pub open spec fn template(kind: ProcMacroKind, doc: Document) -> Seq<Segment> {
    match doc {
        Document::Facade => match kind {
            ProcMacroKind::Attr | ProcMacroKind::Function => seq![
                Segment::Text(REEXPORT_HEAD),
                Segment::Slot(Placeholder::SnakeName),
                Segment::Text(MACRO_PATH),
                Segment::Slot(Placeholder::SnakeName),
                Segment::Text(LINE_END),
            ],
            ProcMacroKind::Derive => seq![
                Segment::Text(REEXPORT_HEAD),
                Segment::Slot(Placeholder::SnakeName),
                Segment::Text(MACRO_PATH),
                Segment::Slot(Placeholder::StructName),
                Segment::Text(LINE_END),
            ],
        },
        Document::MacroShim => match kind {
            ProcMacroKind::Attr => seq![
                Segment::Text(DOC_HEAD),
                Segment::Slot(Placeholder::SnakeName),
                Segment::Text(ATTR_SHIM_USES),
                Segment::Slot(Placeholder::SnakeName),
                Segment::Text(ATTR_SHIM_BODY),
                Segment::Slot(Placeholder::SnakeName),
                Segment::Text(IMPL_PATH),
                Segment::Slot(Placeholder::SnakeName),
                Segment::Text(ATTR_SHIM_CALL),
                Segment::Text(MATCH_ARMS),
            ],
            ProcMacroKind::Derive => seq![
                Segment::Text(DOC_HEAD),
                Segment::Slot(Placeholder::SnakeName),
                Segment::Text(SHIM_USES),
                Segment::Text(DERIVE_SHIM_ATTR),
                Segment::Slot(Placeholder::StructName),
                Segment::Text(DERIVE_SHIM_SIG),
                Segment::Slot(Placeholder::SnakeName),
                Segment::Text(ITEM_SHIM_BODY),
                Segment::Slot(Placeholder::SnakeName),
                Segment::Text(DERIVE_IMPL_PATH),
                Segment::Slot(Placeholder::SnakeName),
                Segment::Text(ITEM_SHIM_CALL),
                Segment::Text(MATCH_ARMS),
            ],
            ProcMacroKind::Function => seq![
                Segment::Text(DOC_HEAD),
                Segment::Slot(Placeholder::SnakeName),
                Segment::Text(SHIM_USES),
                Segment::Text(FUNCTION_SHIM_SIG),
                Segment::Slot(Placeholder::SnakeName),
                Segment::Text(ITEM_SHIM_BODY),
                Segment::Slot(Placeholder::SnakeName),
                Segment::Text(IMPL_PATH),
                Segment::Slot(Placeholder::SnakeName),
                Segment::Text(ITEM_SHIM_CALL),
                Segment::Text(MATCH_ARMS),
            ],
        },
        Document::MacroImpl => match kind {
            ProcMacroKind::Attr => seq![
                Segment::Text(DOC_HEAD),
                Segment::Slot(Placeholder::SnakeName),
                Segment::Text(IMPL_USES),
                Segment::Slot(Placeholder::SnakeName),
                Segment::Text(ATTR_IMPL_PARAMS),
                Segment::Text(IMPL_BODY),
                Segment::Text(ATTR_IMPL_TEST),
                Segment::Slot(Placeholder::SnakeName),
                Segment::Text(ATTR_IMPL_TEST_END),
            ],
            ProcMacroKind::Derive => seq![
                Segment::Text(DOC_HEAD),
                Segment::Slot(Placeholder::SnakeName),
                Segment::Text(IMPL_USES),
                Segment::Text(DERIVE_PREFIX),
                Segment::Slot(Placeholder::SnakeName),
                Segment::Text(ITEM_IMPL_PARAMS),
                Segment::Text(IMPL_BODY),
            ],
            ProcMacroKind::Function => seq![
                Segment::Text(DOC_HEAD),
                Segment::Slot(Placeholder::SnakeName),
                Segment::Text(IMPL_USES),
                Segment::Slot(Placeholder::SnakeName),
                Segment::Text(ITEM_IMPL_PARAMS),
                Segment::Text(IMPL_BODY),
            ],
        },
        Document::UsageHeader => seq![
            Segment::Text(USAGE_HEAD),
            Segment::Slot(Placeholder::Name),
            Segment::Text(USAGE_HEAD_END),
        ],
        Document::UsageExample => match kind {
            ProcMacroKind::Attr => seq![
                Segment::Text(EXAMPLE_USE),
                Segment::Slot(Placeholder::SnakeName),
                Segment::Text(PATH_SEP),
                Segment::Slot(Placeholder::SnakeName),
                Segment::Text(ATTR_EXAMPLE_ATTR),
                Segment::Slot(Placeholder::SnakeName),
                Segment::Text(ATTR_EXAMPLE_ITEM),
            ],
            ProcMacroKind::Derive => seq![
                Segment::Text(EXAMPLE_USE),
                Segment::Slot(Placeholder::SnakeName),
                Segment::Text(PATH_SEP),
                Segment::Slot(Placeholder::StructName),
                Segment::Text(DERIVE_EXAMPLE_ATTR),
                Segment::Slot(Placeholder::StructName),
                Segment::Text(DERIVE_EXAMPLE_ITEM),
            ],
            ProcMacroKind::Function => seq![
                Segment::Text(EXAMPLE_USE),
                Segment::Slot(Placeholder::SnakeName),
                Segment::Text(PATH_SEP),
                Segment::Slot(Placeholder::SnakeName),
                Segment::Text(FUNCTION_EXAMPLE_FN),
                Segment::Slot(Placeholder::SnakeName),
                Segment::Text(FUNCTION_EXAMPLE_END),
            ],
        },
        Document::UsageFooter => seq![
            Segment::Text(USAGE_FOOT),
            Segment::Slot(Placeholder::Name),
            Segment::Text(USAGE_FOOT_END),
        ],
    }
}

/// The segments of `template(kind, doc)`.
pub fn segments(kind: ProcMacroKind, doc: Document) -> (r: Vec<Segment>)
    ensures
        r@ == template(kind, doc),
{
    let r = match doc {
        Document::Facade => match kind {
            ProcMacroKind::Attr | ProcMacroKind::Function => vec![
                Segment::Text(REEXPORT_HEAD),
                Segment::Slot(Placeholder::SnakeName),
                Segment::Text(MACRO_PATH),
                Segment::Slot(Placeholder::SnakeName),
                Segment::Text(LINE_END),
            ],
            ProcMacroKind::Derive => vec![
                Segment::Text(REEXPORT_HEAD),
                Segment::Slot(Placeholder::SnakeName),
                Segment::Text(MACRO_PATH),
                Segment::Slot(Placeholder::StructName),
                Segment::Text(LINE_END),
            ],
        },
        Document::MacroShim => match kind {
            ProcMacroKind::Attr => vec![
                Segment::Text(DOC_HEAD),
                Segment::Slot(Placeholder::SnakeName),
                Segment::Text(ATTR_SHIM_USES),
                Segment::Slot(Placeholder::SnakeName),
                Segment::Text(ATTR_SHIM_BODY),
                Segment::Slot(Placeholder::SnakeName),
                Segment::Text(IMPL_PATH),
                Segment::Slot(Placeholder::SnakeName),
                Segment::Text(ATTR_SHIM_CALL),
                Segment::Text(MATCH_ARMS),
            ],
            ProcMacroKind::Derive => vec![
                Segment::Text(DOC_HEAD),
                Segment::Slot(Placeholder::SnakeName),
                Segment::Text(SHIM_USES),
                Segment::Text(DERIVE_SHIM_ATTR),
                Segment::Slot(Placeholder::StructName),
                Segment::Text(DERIVE_SHIM_SIG),
                Segment::Slot(Placeholder::SnakeName),
                Segment::Text(ITEM_SHIM_BODY),
                Segment::Slot(Placeholder::SnakeName),
                Segment::Text(DERIVE_IMPL_PATH),
                Segment::Slot(Placeholder::SnakeName),
                Segment::Text(ITEM_SHIM_CALL),
                Segment::Text(MATCH_ARMS),
            ],
            ProcMacroKind::Function => vec![
                Segment::Text(DOC_HEAD),
                Segment::Slot(Placeholder::SnakeName),
                Segment::Text(SHIM_USES),
                Segment::Text(FUNCTION_SHIM_SIG),
                Segment::Slot(Placeholder::SnakeName),
                Segment::Text(ITEM_SHIM_BODY),
                Segment::Slot(Placeholder::SnakeName),
                Segment::Text(IMPL_PATH),
                Segment::Slot(Placeholder::SnakeName),
                Segment::Text(ITEM_SHIM_CALL),
                Segment::Text(MATCH_ARMS),
            ],
        },
        Document::MacroImpl => match kind {
            ProcMacroKind::Attr => vec![
                Segment::Text(DOC_HEAD),
                Segment::Slot(Placeholder::SnakeName),
                Segment::Text(IMPL_USES),
                Segment::Slot(Placeholder::SnakeName),
                Segment::Text(ATTR_IMPL_PARAMS),
                Segment::Text(IMPL_BODY),
                Segment::Text(ATTR_IMPL_TEST),
                Segment::Slot(Placeholder::SnakeName),
                Segment::Text(ATTR_IMPL_TEST_END),
            ],
            ProcMacroKind::Derive => vec![
                Segment::Text(DOC_HEAD),
                Segment::Slot(Placeholder::SnakeName),
                Segment::Text(IMPL_USES),
                Segment::Text(DERIVE_PREFIX),
                Segment::Slot(Placeholder::SnakeName),
                Segment::Text(ITEM_IMPL_PARAMS),
                Segment::Text(IMPL_BODY),
            ],
            ProcMacroKind::Function => vec![
                Segment::Text(DOC_HEAD),
                Segment::Slot(Placeholder::SnakeName),
                Segment::Text(IMPL_USES),
                Segment::Slot(Placeholder::SnakeName),
                Segment::Text(ITEM_IMPL_PARAMS),
                Segment::Text(IMPL_BODY),
            ],
        },
        Document::UsageHeader => vec![
            Segment::Text(USAGE_HEAD),
            Segment::Slot(Placeholder::Name),
            Segment::Text(USAGE_HEAD_END),
        ],
        Document::UsageExample => match kind {
            ProcMacroKind::Attr => vec![
                Segment::Text(EXAMPLE_USE),
                Segment::Slot(Placeholder::SnakeName),
                Segment::Text(PATH_SEP),
                Segment::Slot(Placeholder::SnakeName),
                Segment::Text(ATTR_EXAMPLE_ATTR),
                Segment::Slot(Placeholder::SnakeName),
                Segment::Text(ATTR_EXAMPLE_ITEM),
            ],
            ProcMacroKind::Derive => vec![
                Segment::Text(EXAMPLE_USE),
                Segment::Slot(Placeholder::SnakeName),
                Segment::Text(PATH_SEP),
                Segment::Slot(Placeholder::StructName),
                Segment::Text(DERIVE_EXAMPLE_ATTR),
                Segment::Slot(Placeholder::StructName),
                Segment::Text(DERIVE_EXAMPLE_ITEM),
            ],
            ProcMacroKind::Function => vec![
                Segment::Text(EXAMPLE_USE),
                Segment::Slot(Placeholder::SnakeName),
                Segment::Text(PATH_SEP),
                Segment::Slot(Placeholder::SnakeName),
                Segment::Text(FUNCTION_EXAMPLE_FN),
                Segment::Slot(Placeholder::SnakeName),
                Segment::Text(FUNCTION_EXAMPLE_END),
            ],
        },
        Document::UsageFooter => vec![
            Segment::Text(USAGE_FOOT),
            Segment::Slot(Placeholder::Name),
            Segment::Text(USAGE_FOOT_END),
        ],
    };
    assert(r@ =~= template(kind, doc));
    r
}

} // verus!
