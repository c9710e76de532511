use default_builder_gen::analyze::{analyze, select_named, syntax_error};
use default_builder_gen::derive_builder;
use default_builder_gen::emit::emit;
use default_builder_gen::model::{DeriveError, RawField};
use default_builder_gen::plan::{is_ident_continue, is_option_type, plan};

fn squeeze(s: &str) -> String {
    s.chars().filter(|c| !c.is_whitespace()).collect()
}

fn impl_fn_names(text: &str) -> Vec<String> {
    let file = syn::parse_str::<syn::File>(text).expect("items");
    match &file.items[2] {
        syn::Item::Impl(i) => i
            .items
            .iter()
            .map(|item| match item {
                syn::ImplItem::Fn(f) => f.sig.ident.to_string(),
                _ => String::new(),
            })
            .collect(),
        _ => Vec::new(),
    }
}

#[test]
fn analyze_reads_name_visibility_and_fields() {
    let record = analyze("pub struct Point { x: i32, pub y: Option<String> }").expect("a record");
    assert_eq!(record.name, "Point");
    assert_eq!(record.vis, "pub");
    assert_eq!(record.generics.decl, "");
    assert_eq!(record.generics.for_impl, "");
    assert_eq!(record.generics.for_type, "");
    assert_eq!(record.generics.where_clause, "");
    assert_eq!(record.fields.len(), 2);
    assert_eq!(record.fields[0].name, "x");
    assert_eq!(record.fields[0].ty, "i32");
    assert_eq!(record.fields[1].name, "y");
    assert_eq!(squeeze(&record.fields[1].ty), "Option<String>");
}

#[test]
fn analyze_reads_private_visibility_as_empty() {
    let record = analyze("struct Greeting { msg: String }").expect("a record");
    assert_eq!(record.vis, "");
    assert_eq!(record.fields.len(), 1);
    assert_eq!(record.fields[0].name, "msg");
    assert_eq!(record.fields[0].ty, "String");
}

#[test]
fn analyze_reads_generics_in_their_forms() {
    let record =
        analyze("struct Gen<T: Clone = u8> where T: Default { v: T }").expect("a record");
    assert_eq!(squeeze(&record.generics.decl), "<T:Clone=u8>");
    assert_eq!(squeeze(&record.generics.for_impl), "<T:Clone>");
    assert_eq!(squeeze(&record.generics.for_type), "<T>");
    assert_eq!(squeeze(&record.generics.where_clause), "whereT:Default");
    assert_eq!(record.fields.len(), 1);
    assert_eq!(record.fields[0].ty, "T");
}

#[test]
fn analyze_rejects_an_enum() {
    assert_eq!(analyze("enum E { A, B }").err(), Some(DeriveError::NotRecord));
}

#[test]
fn analyze_rejects_a_union() {
    assert_eq!(analyze("union U { a: u8, b: u16 }").err(), Some(DeriveError::NotRecord));
}

#[test]
fn analyze_rejects_what_is_no_declaration() {
    assert!(matches!(analyze("fn main() {}").err(), Some(DeriveError::Syntax(_))));
    assert!(matches!(analyze("").err(), Some(DeriveError::Syntax(_))));
    assert!(matches!(analyze("struct {").err(), Some(DeriveError::Syntax(_))));
}

#[test]
fn error_messages_are_exact() {
    assert_eq!(DeriveError::NotRecord.message(), "must derive on struct");
    assert_eq!(DeriveError::Syntax("unexpected token".to_owned()).message(), "unexpected token");
}

#[test]
fn analyze_skips_unnamed_positions() {
    let record = analyze("struct Pair(i32, String);").expect("a record");
    assert_eq!(record.name, "Pair");
    assert!(record.fields.is_empty());
    let unit = analyze("struct Unit;").expect("a record");
    assert!(unit.fields.is_empty());
}

#[test]
fn select_named_keeps_order_and_drops_unnamed() {
    let raw = vec![
        RawField { name: Some("a".to_owned()), ty: "u8".to_owned() },
        RawField { name: None, ty: "u16".to_owned() },
        RawField { name: Some("b".to_owned()), ty: "u32".to_owned() },
    ];
    let fields = select_named(&raw);
    assert_eq!(fields.len(), 2);
    assert_eq!(fields[0].name, "a");
    assert_eq!(fields[0].ty, "u8");
    assert_eq!(fields[1].name, "b");
    assert_eq!(fields[1].ty, "u32");
    assert!(select_named(&Vec::new()).is_empty());
}

#[test]
fn option_is_told_by_the_head_identifier() {
    assert!(is_option_type("Option<String>"));
    assert!(is_option_type("Option < String >"));
    assert!(is_option_type("Option"));
    assert!(!is_option_type("Optional<u8>"));
    assert!(!is_option_type("Option_<u8>"));
    assert!(!is_option_type("Option9"));
    assert!(!is_option_type("std::option::Option<u8>"));
    assert!(!is_option_type("Vec<Option<u8>>"));
    assert!(!is_option_type("Optio"));
    assert!(!is_option_type("option<u8>"));
    assert!(!is_option_type(""));
    assert!(!is_option_type("i32"));
}

#[test]
fn option_ends_where_the_identifier_ends() {
    assert!(!is_option_type("Option\u{e9}"));
    assert!(!is_option_type("Option\u{e9}<u8>"));
    assert!(!is_option_type("Option\u{3b1}"));
    assert!(is_option_type("Option\u{2028}<u8>"));
    assert!(is_option_type("Option\u{a0}<u8>"));
    assert!(is_ident_continue('a'));
    assert!(is_ident_continue('Z'));
    assert!(is_ident_continue('7'));
    assert!(is_ident_continue('_'));
    assert!(is_ident_continue('\u{e9}'));
    assert!(!is_ident_continue('<'));
    assert!(!is_ident_continue(' '));
    assert!(!is_ident_continue('\u{7f}'));
    assert!(!is_ident_continue('\u{2028}'));
}

#[test]
fn derive_builder_names_the_setter_of_a_raw_identifier() {
    let text = derive_builder("struct Kind { r#type: u8, r#ref: Option<u8> }").expect("a record");
    assert_eq!(
        impl_fn_names(&text),
        vec!["build".to_owned(), "set_type".to_owned(), "set_ref".to_owned()]
    );
    let file = syn::parse_str::<syn::File>(&text).expect("items");
    match &file.items[0] {
        syn::Item::Struct(s) => {
            let names: Vec<String> =
                s.fields.iter().map(|f| f.ident.as_ref().expect("named").to_string()).collect();
            assert_eq!(names, vec!["r#type".to_owned(), "r#ref".to_owned()]);
        }
        _ => panic!("the first item is the builder record"),
    }
}

#[test]
fn plan_names_the_builder_and_keeps_the_fields() {
    let record = analyze("pub(crate) struct Maybe { name: Option<String>, age: u8 }")
        .expect("a record");
    let p = plan(&record);
    assert_eq!(p.record_name, "Maybe");
    assert_eq!(p.builder_name, "MaybeBuilder");
    assert_eq!(squeeze(&p.vis), "pub(crate)");
    assert_eq!(p.fields.len(), 2);
    assert_eq!(p.fields[0].name, "name");
    assert!(p.fields[0].is_option);
    assert_eq!(p.fields[1].name, "age");
    assert_eq!(p.fields[1].ty, "u8");
    assert!(!p.fields[1].is_option);
}

#[test]
fn derive_builder_runs_the_whole_pipeline() {
    let src = "pub struct Point { x: i32, y: i32 }";
    let text = derive_builder(src).expect("a record");
    let record = analyze(src).expect("a record");
    assert_eq!(text, emit(&plan(&record)));
    assert_ne!(text, src);
    assert_eq!(impl_fn_names(&text), vec!["build".to_owned(), "set_x".to_owned(), "set_y".to_owned()]);
}

#[test]
fn derive_builder_is_deterministic() {
    let src = "struct Gen<T> { v: T }";
    assert_eq!(derive_builder(src), derive_builder(src));
}

#[test]
fn derive_builder_on_empty_record() {
    let text = derive_builder("struct Empty {}").expect("a record");
    assert_eq!(impl_fn_names(&text), vec!["build".to_owned()]);
    let file = syn::parse_str::<syn::File>(&text).expect("items");
    match &file.items[0] {
        syn::Item::Struct(s) => {
            assert_eq!(s.ident.to_string(), "EmptyBuilder");
            assert_eq!(s.fields.len(), 0);
        }
        _ => panic!("the first item is the builder record"),
    }
}

#[test]
fn derive_builder_threads_generics() {
    let text = derive_builder("pub struct Gen<T: Clone> where T: Default { v: T }")
        .expect("a record");
    let file = syn::parse_str::<syn::File>(&text).expect("items");
    assert_eq!(file.items.len(), 3);
    match &file.items[0] {
        syn::Item::Struct(s) => {
            assert_eq!(s.ident.to_string(), "GenBuilder");
            assert_eq!(s.generics.params.len(), 1);
            assert!(s.generics.where_clause.is_none());
        }
        _ => panic!("the first item is the builder record"),
    }
    match &file.items[1] {
        syn::Item::Impl(i) => {
            assert_eq!(i.generics.params.len(), 1);
            assert!(i.generics.where_clause.is_none());
        }
        _ => panic!("the second item is the default construction"),
    }
    match &file.items[2] {
        syn::Item::Impl(i) => {
            assert_eq!(i.generics.params.len(), 1);
            assert!(i.generics.where_clause.is_some());
        }
        _ => panic!("the third item carries the finalizer and the setters"),
    }
    let squeezed = squeeze(&text);
    assert!(squeezed.contains("pubstructGenBuilder<T:Clone>{"));
    assert!(squeezed.contains("impl<T:Clone>DefaultforGenBuilder<T>{"));
    assert!(squeezed.contains("impl<T:Clone>GenBuilder<T>whereT:Default{"));
    assert!(squeezed.contains("pubfnbuild(self)->Gen<T>{"));
    assert!(squeezed.contains("pubfnset_v(mutself,v:implInto<T>)->GenBuilder<T>{"));
}

#[test]
fn derive_builder_rejects_an_enum() {
    let e = derive_builder("enum E { A, B }").expect_err("no record");
    assert_eq!(e, DeriveError::NotRecord);
    assert_eq!(e.message(), "must derive on struct");
}

#[test]
fn derive_builder_rejects_what_is_no_declaration() {
    let src = "fn main() {}";
    let said = syn::parse_str::<syn::DeriveInput>(src).err().expect("no declaration").to_string();
    assert!(!said.is_empty());
    assert_ne!(said, src);
    assert_eq!(derive_builder(src), Err(DeriveError::Syntax(said.clone())));
    assert_eq!(derive_builder(src).expect_err("no declaration").message(), said);
    assert_eq!(syntax_error(None), DeriveError::Syntax(String::new()));
    assert_eq!(syntax_error(Some("x".to_owned())), DeriveError::Syntax("x".to_owned()));
}

#[test]
fn analyze_passes_over_attributes_and_comments() {
    let src = "/// A record.\n#[derive(Debug)]\npub struct Tagged {\n    /// Its label.\n    #[allow(dead_code)]\n    label: String,\n    count: u64,\n}";
    let record = analyze(src).expect("a record");
    assert_eq!(record.name, "Tagged");
    assert_eq!(record.fields.len(), 2);
    assert_eq!(record.fields[0].name, "label");
    assert_eq!(record.fields[0].ty, "String");
    assert_eq!(record.fields[1].name, "count");
    assert_eq!(record.fields[1].ty, "u64");
}

#[test]
fn analyze_reads_lifetimes_and_const_generics() {
    let record = analyze("struct Window<'a, T, const N: usize> { items: &'a [T; N] }")
        .expect("a record");
    assert_eq!(squeeze(&record.generics.decl), "<'a,T,constN:usize>");
    assert_eq!(squeeze(&record.generics.for_impl), "<'a,T,constN:usize>");
    assert_eq!(squeeze(&record.generics.for_type), "<'a,T,N>");
    assert_eq!(record.generics.where_clause, "");
    assert_eq!(squeeze(&record.fields[0].ty), "&'a[T;N]");
}

#[test]
fn derive_builder_keeps_field_order() {
    let text = derive_builder("struct Three { c: u8, a: u8, b: u8 }").expect("a record");
    assert_eq!(
        impl_fn_names(&text),
        vec!["build".to_owned(), "set_c".to_owned(), "set_a".to_owned(), "set_b".to_owned()]
    );
    let c = text.find("c: derive_default_builder::make_option!(u8)").expect("c");
    let a = text.find("a: derive_default_builder::make_option!(u8)").expect("a");
    let b = text.find("b: derive_default_builder::make_option!(u8)").expect("b");
    assert!(c < a && a < b);
}
