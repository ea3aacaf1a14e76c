use cargo_proc_macro::kind::ProcMacroKind;
use cargo_proc_macro::naming::resolve_name;
use cargo_proc_macro::template::{fill, Placeholder, Segment, Substitutions};

#[test]
fn every_spelling_of_a_kind_parses() {
    for s in ["a", "attr", "attribute"] {
        assert_eq!(ProcMacroKind::parse(s), Ok(ProcMacroKind::Attr));
    }
    for s in ["d", "derive"] {
        assert_eq!(ProcMacroKind::parse(s), Ok(ProcMacroKind::Derive));
    }
    for s in ["f", "function"] {
        assert_eq!(ProcMacroKind::parse(s), Ok(ProcMacroKind::Function));
    }
}

#[test]
fn unknown_kind_is_quoted_in_the_error() {
    assert_eq!(ProcMacroKind::parse("bang"), Err("`bang`".to_string()));
    assert_eq!(ProcMacroKind::parse(""), Err("``".to_string()));
    assert_eq!(ProcMacroKind::parse("Derive"), Err("`Derive`".to_string()));
    assert_eq!(ProcMacroKind::parse("attributes"), Err("`attributes`".to_string()));
}

#[test]
fn from_str_agrees_with_parse() {
    assert_eq!("derive".parse::<ProcMacroKind>(), Ok(ProcMacroKind::Derive));
    assert_eq!("x".parse::<ProcMacroKind>(), Err("`x`".to_string()));
}

#[test]
fn no_token_is_left_for_any_kind() {
    let tokens = ["@NAME@", "@SNAKE_NAME@", "@STRUCT_NAME@"];
    for kind in [ProcMacroKind::Attr, ProcMacroKind::Derive, ProcMacroKind::Function] {
        let texts = [
            kind.lib_impl("my-thing"),
            kind.macro_shim("my-thing"),
            kind.macro_impl("my-thing"),
            kind.usage_example("my-thing"),
        ];
        for text in texts.iter() {
            for token in tokens.iter() {
                assert!(!text.contains(token), "{:?} left {} in {}", kind, token, text);
            }
            assert!(!text.contains('@'));
        }
    }
}

#[test]
fn filling_is_deterministic() {
    for kind in [ProcMacroKind::Attr, ProcMacroKind::Derive, ProcMacroKind::Function] {
        assert_eq!(kind.macro_shim("some-name"), kind.macro_shim("some-name"));
        assert_eq!(kind.lib_impl("SomeName"), kind.lib_impl("SomeName"));
    }
}

#[test]
fn derive_workspace_for_my_thing() {
    let name = resolve_name(None, Some("my-thing".to_string())).unwrap();
    assert_eq!(name, "my-thing");
    let facade = ProcMacroKind::Derive.lib_impl(&name);
    assert!(facade.contains("pub use my_thing_macro::MyThing;"));
    let implementation = ProcMacroKind::Derive.macro_impl(&name);
    assert!(implementation.contains("pub fn derive_my_thing(_item: TokenStream)"));
    let shim = ProcMacroKind::Derive.macro_shim(&name);
    assert!(shim.contains("#[proc_macro_derive(MyThing)]"));
    assert!(shim.contains("my_thing_impl::derive_my_thing(item)"));
}

#[test]
fn unbound_placeholder_keeps_its_token() {
    let t = vec![
        Segment::Text("a "),
        Segment::Slot(Placeholder::Name),
        Segment::Text(" b "),
        Segment::Slot(Placeholder::SnakeName),
        Segment::Slot(Placeholder::StructName),
    ];
    let subs = Substitutions {
        name: Some("x-y".to_string()),
        snake_name: None,
        struct_name: Some("XY".to_string()),
    };
    assert_eq!(fill(&t, &subs), "a x-y b @SNAKE_NAME@XY");
    let none = Substitutions { name: None, snake_name: None, struct_name: None };
    assert_eq!(fill(&t, &none), "a @NAME@ b @SNAKE_NAME@@STRUCT_NAME@");
}

#[test]
fn value_holding_a_token_is_not_filled_again() {
    let t = vec![Segment::Slot(Placeholder::Name), Segment::Slot(Placeholder::SnakeName)];
    let subs = Substitutions {
        name: Some("@SNAKE_NAME@".to_string()),
        snake_name: Some("s".to_string()),
        struct_name: None,
    };
    assert_eq!(fill(&t, &subs), "@SNAKE_NAME@s");
}
