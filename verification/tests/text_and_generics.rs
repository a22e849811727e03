use serde_state_derive::generics::{add_state_param, generics_tokens, quote_where_clause, state_bound_clause};
use serde_state_derive::model::{resolve_mode, GenericParam, Generics, ItemMode, WherePredicate};
use serde_state_derive::de::enum_items;
use serde_state_derive::expand::{key_texts, quote_keys, KeyTable};
use serde_state_derive::text::decimal_string;

fn lifetime(name: &str) -> GenericParam {
    GenericParam::Lifetime { name: name.to_string(), bounds: String::new() }
}

fn type_param(name: &str, bounds: &str) -> GenericParam {
    GenericParam::Type { name: name.to_string(), bounds: bounds.to_string() }
}

#[test]
fn decimal_numerals() {
    assert_eq!(decimal_string(0), "0");
    assert_eq!(decimal_string(7), "7");
    assert_eq!(decimal_string(10), "10");
    assert_eq!(decimal_string(120), "120");
    assert_eq!(decimal_string(4096), "4096");
}

fn literal(text: &str) -> String {
    let table = KeyTable { fields: vec![text.to_string()], variants: Vec::new(), variant_fields: Vec::new() };
    quote_keys(&table).fields[0].clone()
}

#[test]
fn string_literals_escape_quotes_and_controls() {
    assert_eq!(literal("first"), "\"first\"");
    assert_eq!(literal(""), "\"\"");
    assert_eq!(literal("a\"b\\c"), "\"a\\\"b\\\\c\"");
    assert_eq!(literal("x\ny\tz\r\0"), "\"x\\ny\\tz\\r\\0\"");
    assert_eq!(literal("it's"), "\"it's\"");
    assert_eq!(literal("\u{1}"), "\"\\u{1}\"");
    assert_eq!(literal("\u{0}1"), "\"\\x001\"");
    assert_eq!(literal("é"), "\"é\"");
}

#[test]
fn quoting_keeps_the_shape_of_the_table() {
    let table = KeyTable {
        fields: vec!["a".to_string(), "b".to_string()],
        variants: vec!["Idle".to_string()],
        variant_fields: vec![vec!["x".to_string(), "y".to_string(), "z".to_string()], Vec::new()],
    };
    let quoted = quote_keys(&table);
    assert_eq!(quoted.fields, vec!["\"a\"".to_string(), "\"b\"".to_string()]);
    assert_eq!(quoted.variants, vec!["\"Idle\"".to_string()]);
    assert_eq!(quoted.variant_fields.len(), 2);
    assert_eq!(quoted.variant_fields[0], vec!["\"x\"", "\"y\"", "\"z\""]);
    assert!(quoted.variant_fields[1].is_empty());
}

#[test]
fn literal_lists_are_separated_by_commas() {
    let names = vec!["\"Idle\"".to_string(), "\"Reset\"".to_string(), "\"Combine\"".to_string()];
    assert_eq!(enum_items(&names), "\"Idle\", \"Reset\", \"Combine\"");
    assert_eq!(enum_items(&Vec::new()), "");
}

#[test]
fn string_literal_reads_back_as_the_text() {
    for text in ["external", "with \"quotes\"", "back\\slash", "tab\tand\nline", "\u{7f}bell\u{0}9"] {
        let written = literal(text);
        let parsed: syn::LitStr = syn::parse_str(&written).expect("a string literal");
        assert_eq!(parsed.value(), text);
    }
}

#[test]
fn field_mode_wins_over_variant_and_container() {
    let (stateful, stateless) = (ItemMode::Stateful, ItemMode::Stateless);
    assert_eq!(resolve_mode(stateful, None, None), stateful);
    assert_eq!(resolve_mode(stateless, None, None), stateless);
    assert_eq!(resolve_mode(stateful, Some(stateless), None), stateless);
    assert_eq!(resolve_mode(stateless, Some(stateless), Some(stateful)), stateful);
    assert_eq!(resolve_mode(stateful, None, Some(stateless)), stateless);
}

#[test]
fn lifetimes_are_written_first() {
    let params = vec![
        type_param("T", "Clone + Send"),
        lifetime("'a"),
        GenericParam::Const { name: "N".to_string(), ty: "usize".to_string() },
        GenericParam::Lifetime { name: "'b".to_string(), bounds: "'a".to_string() },
    ];
    assert_eq!(
        generics_tokens(&params, true),
        "<'a, 'b: 'a, T: Clone + Send, const N: usize>"
    );
    assert_eq!(generics_tokens(&params, false), "<'a, 'b, T, N>");
    assert_eq!(generics_tokens(&Vec::new(), true), "");
}

#[test]
fn impl_parameters_start_with_de_and_end_with_state() {
    let generics = Generics { params: vec![type_param("T", ""), lifetime("'a")], where_clause: Vec::new() };
    let bound = "RecorderLike".to_string();
    let with_state = add_state_param(&generics, true, Some(&bound));
    assert_eq!(
        generics_tokens(&with_state, true),
        "<'de, 'a, T, __State: ?Sized + RecorderLike>"
    );
    let without_state = add_state_param(&generics, false, None);
    assert_eq!(generics_tokens(&without_state, true), "<'de, 'a, T>");
    assert_eq!(state_bound_clause(Some(&bound)), " + RecorderLike");
    assert_eq!(state_bound_clause(None), "");
}

#[test]
fn where_clauses_are_written_in_order() {
    let clause = vec![
        WherePredicate::Verbatim("T: Clone".to_string()),
        WherePredicate::DeserializeState { ty: "T".to_string(), state: "__State".to_string() },
        WherePredicate::Deserialize { ty: "u8".to_string() },
        WherePredicate::Default { ty: "Cache".to_string() },
    ];
    assert_eq!(
        quote_where_clause(&clause),
        "where T: Clone, T: _serde_state::DeserializeState<'de, __State>, u8: _serde::Deserialize<'de>, Cache: ::core::default::Default"
    );
    assert_eq!(quote_where_clause(&Vec::new()), "");
}
