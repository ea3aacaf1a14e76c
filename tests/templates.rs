use cargo_proc_macro::kind::{usage_footer, usage_header, ProcMacroKind};

#[test]
fn attr_lib_impl_fills_every_placeholder() {
    let expected = "#[doc(inline)]\npub use my_thing_macro::my_thing;\n";
    assert_eq!(ProcMacroKind::Attr.lib_impl("my-thing"), expected);
}

#[test]
fn derive_lib_impl_fills_every_placeholder() {
    let expected = "#[doc(inline)]\npub use my_thing_macro::MyThing;\n";
    assert_eq!(ProcMacroKind::Derive.lib_impl("my-thing"), expected);
}

#[test]
fn function_lib_impl_fills_every_placeholder() {
    let expected = "#[doc(inline)]\npub use my_thing_macro::my_thing;\n";
    assert_eq!(ProcMacroKind::Function.lib_impl("my-thing"), expected);
}

#[test]
fn attr_macro_shim_fills_every_placeholder() {
    let expected = "//! This crate implements the macro for `my_thing` and should not be used directly.\nextern crate proc_macro;\n\nuse proc_macro::TokenStream;\nuse syn::parse_macro_input;\n\n#[proc_macro_attribute]\n/// Document your macro here.\npub fn my_thing(attr: TokenStream, item: TokenStream) -> TokenStream {\n    let attr = parse_macro_input!(attr as proc_macro2::TokenStream);\n    let item = parse_macro_input!(item as proc_macro2::TokenStream);\n\n    match my_thing_impl::my_thing(attr, item) {\n        Ok(tokens) => tokens.into(),\n        Err(err) => TokenStream::from(err.to_compile_error()),\n    }\n}\n";
    assert_eq!(ProcMacroKind::Attr.macro_shim("my-thing"), expected);
}

#[test]
fn derive_macro_shim_fills_every_placeholder() {
    let expected = "//! This crate implements the macro for `my_thing` and should not be used directly.\n\nextern crate proc_macro;\n\nuse proc_macro::TokenStream;\nuse syn::parse_macro_input;\n\n#[proc_macro_derive(MyThing)]\n/// Document your macro here.\npub fn derive_my_thing(item: TokenStream) -> TokenStream {\n    let item = parse_macro_input!(item as proc_macro2::TokenStream);\n\n    match my_thing_impl::derive_my_thing(item) {\n        Ok(tokens) => tokens.into(),\n        Err(err) => TokenStream::from(err.to_compile_error()),\n    }\n}\n";
    assert_eq!(ProcMacroKind::Derive.macro_shim("my-thing"), expected);
}

#[test]
fn function_macro_shim_fills_every_placeholder() {
    let expected = "//! This crate implements the macro for `my_thing` and should not be used directly.\n\nextern crate proc_macro;\n\nuse proc_macro::TokenStream;\nuse syn::parse_macro_input;\n\n#[proc_macro]\n/// Document your macro here.\npub fn my_thing(item: TokenStream) -> TokenStream {\n    let item = parse_macro_input!(item as proc_macro2::TokenStream);\n\n    match my_thing_impl::my_thing(item) {\n        Ok(tokens) => tokens.into(),\n        Err(err) => TokenStream::from(err.to_compile_error()),\n    }\n}\n";
    assert_eq!(ProcMacroKind::Function.macro_shim("my-thing"), expected);
}

#[test]
fn attr_macro_impl_fills_every_placeholder() {
    let expected = "//! This crate implements the macro for `my_thing` and should not be used directly.\n\nuse proc_macro2::TokenStream;\nuse quote::quote;\n\n#[doc(hidden)]\npub fn my_thing(_attr: TokenStream, _item: TokenStream) -> Result<TokenStream, syn::Error> {\n    // Implement your proc-macro logic here. :)\n    Ok(quote! {\n        \"Hello world!\"\n    })\n}\n\n#[cfg(test)]\nmod tests {\n    use super::*;\n\n    #[test]\n    fn example() {\n        assert!(my_thing(quote! {}, quote! {}).is_ok());\n    }\n}\n";
    assert_eq!(ProcMacroKind::Attr.macro_impl("my-thing"), expected);
}

#[test]
fn derive_macro_impl_fills_every_placeholder() {
    let expected = "//! This crate implements the macro for `my_thing` and should not be used directly.\n\nuse proc_macro2::TokenStream;\nuse quote::quote;\n\n#[doc(hidden)]\npub fn derive_my_thing(_item: TokenStream) -> Result<TokenStream, syn::Error> {\n    // Implement your proc-macro logic here. :)\n    Ok(quote! {\n        \"Hello world!\"\n    })\n}\n";
    assert_eq!(ProcMacroKind::Derive.macro_impl("my-thing"), expected);
}

#[test]
fn function_macro_impl_fills_every_placeholder() {
    let expected = "//! This crate implements the macro for `my_thing` and should not be used directly.\n\nuse proc_macro2::TokenStream;\nuse quote::quote;\n\n#[doc(hidden)]\npub fn my_thing(_item: TokenStream) -> Result<TokenStream, syn::Error> {\n    // Implement your proc-macro logic here. :)\n    Ok(quote! {\n        \"Hello world!\"\n    })\n}\n";
    assert_eq!(ProcMacroKind::Function.macro_impl("my-thing"), expected);
}

#[test]
fn attr_usage_example_fills_every_placeholder() {
    let expected = "\nuse my_thing::my_thing;\n\n#[my_thing]\nfn some_compatible_element() { ... }\n";
    assert_eq!(ProcMacroKind::Attr.usage_example("my-thing"), expected);
}

#[test]
fn derive_usage_example_fills_every_placeholder() {
    let expected = "\nuse my_thing::MyThing;\n\n#[derive(MyThing)]\nstruct SomeStruct;\n";
    assert_eq!(ProcMacroKind::Derive.usage_example("my-thing"), expected);
}

#[test]
fn function_usage_example_fills_every_placeholder() {
    let expected = "\nuse my_thing::my_thing;\n\nfn some_fn() {\n    my_thing!(...);\n}\n";
    assert_eq!(ProcMacroKind::Function.usage_example("my-thing"), expected);
}

#[test]
fn usage_header_names_the_package() {
    assert_eq!(usage_header("my-thing"), "`my-thing` is the crate you should use in Rust projects. For example:");
}

#[test]
fn usage_footer_names_the_package() {
    assert_eq!(usage_footer("my-thing"), "The testable logic for your macro lives in `impl`. The proc-macro itself is\nimplemented in the `macro` directory, and is a dependency of `my-thing`.");
}
