//! Each test writes the code derived for one declaration and checks its
//! text (and that it parses).  Running that code needs the `serde_state`
//! runtime and a data format, which these tests do not link, so what the code
//! does at run time is read from the text.

use serde_state_derive::expand::{
    default_deserialize_impl, derived_code, enum_where_clause, expand_derive_deserialize,
    expand_derive_deserialize_text, key_texts, quote_keys, struct_where_clause,
};
use serde_state_derive::generics::quote_where_clause;
use serde_state_derive::model::{
    resolve_mode, ContainerAttrs, DeriveError, EnumDecl, FieldAttrs, FieldDecl, FieldsDecl, FieldsStyle,
    GenericParam, Generics, ItemMode, StructDecl, TypeData, TypeDecl, VariantDecl, WherePredicate,
};

fn attrs() -> ContainerAttrs {
    ContainerAttrs {
        state: None,
        state_bound: None,
        mode: ItemMode::Stateful,
        transparent: false,
        default_state: None,
    }
}

fn plain_field_attrs() -> FieldAttrs {
    FieldAttrs { skip: false, with: None, rename: None }
}

fn named(name: &str, ty: &str, mode: ItemMode) -> FieldDecl {
    FieldDecl {
        ident: Some(name.to_string()),
        ty: ty.to_string(),
        attrs: plain_field_attrs(),
        mode,
    }
}

fn unnamed(ty: &str, mode: ItemMode) -> FieldDecl {
    FieldDecl { ident: None, ty: ty.to_string(), attrs: plain_field_attrs(), mode }
}

fn no_generics() -> Generics {
    Generics { params: Vec::new(), where_clause: Vec::new() }
}

fn struct_decl(ident: &str, style: FieldsStyle, fields: Vec<FieldDecl>) -> TypeDecl {
    TypeDecl {
        ident: ident.to_string(),
        generics: no_generics(),
        attrs: attrs(),
        data: TypeData::Struct(StructDecl { fields: FieldsDecl { style, fields } }),
    }
}

fn variant(ident: &str, style: FieldsStyle, fields: Vec<FieldDecl>) -> VariantDecl {
    VariantDecl { ident: ident.to_string(), fields: FieldsDecl { style, fields } }
}

fn enum_decl(ident: &str, variants: Vec<VariantDecl>) -> TypeDecl {
    TypeDecl {
        ident: ident.to_string(),
        generics: no_generics(),
        attrs: attrs(),
        data: TypeData::Enum(EnumDecl { variants }),
    }
}

fn derive_text(decl: &TypeDecl) -> Result<String, DeriveError> {
    derived_code(decl)
}

#[test]
fn derived_code_uses_the_quoted_keys() {
    let decl = example();
    let keys = quote_keys(&key_texts(&decl));
    assert_eq!(keys.fields, vec!["\"first\"".to_string(), "\"second\"".to_string()]);
    assert_eq!(expand_derive_deserialize_text(&decl, &keys), derived_code(&decl));
}

fn derive(decl: &TypeDecl) -> String {
    derive_text(decl).expect("the declaration is derivable")
}

fn where_text(decl: &TypeDecl) -> String {
    match &decl.data {
        TypeData::Struct(s) => quote_where_clause(&struct_where_clause(decl, s)),
        TypeData::Enum(e) => quote_where_clause(&enum_where_clause(decl, e)),
        TypeData::Union => String::new(),
    }
}

fn assert_parses(text: &str) {
    if let Err(e) = syn::parse_file(text) {
        panic!("derived code does not parse: {e}\n{text}");
    }
}

const STATEFUL_COUNTER: &str = "CounterValue: _serde_state::DeserializeState<'de, __State>";

fn example() -> TypeDecl {
    struct_decl(
        "Example",
        FieldsStyle::Named,
        vec![
            named("first", "CounterValue", ItemMode::Stateful),
            named("second", "CounterValue", ItemMode::Stateful),
        ],
    )
}

#[test]
fn deserialize_named_struct_threads_state() {
    let decl = example();
    let text = derive(&decl);
    assert!(text.starts_with(
        "#[automatically_derived]\nimpl<'de, __State: ?Sized> _serde_state::DeserializeState<'de, __State> for Example "
    ));
    assert_eq!(
        where_text(&decl),
        format!("where {STATEFUL_COUNTER}, {STATEFUL_COUNTER}")
    );
    assert!(text.contains(&format!("for Example where {STATEFUL_COUNTER}, {STATEFUL_COUNTER} {{")));
    assert!(text.contains("fn deserialize_state<__D>(\n__state: &__State,\n__deserializer: __D,\n)"));
    assert!(text.contains("const __FIELDS: &'static [&'static str] = &[\"first\", \"second\"];"));
    assert!(text.contains("__Ignore }\nstruct __FieldVisitor;\n"));
    assert!(text.contains("\nstruct __Visitor<'state, __State: ?Sized> {\nstate: &'state __State,\n"));
    assert!(text.contains(
        "while let ::core::option::Option::Some(__key) = _serde::de::MapAccess::next_key::<__Field>(&mut __map)? {\nmatch __key {\n"
    ));
    assert!(text.contains(concat_lines(&[
        "__Field::__field_first => {",
        "if first.is_some() {",
        "return ::core::result::Result::Err(_serde::de::Error::duplicate_field(\"first\"));",
        "}",
        "let __seed = _serde_state::__private::wrap_deserialize_seed::<CounterValue, __State>(state);",
        "first = ::core::option::Option::Some(_serde::de::MapAccess::next_value_seed(&mut __map, __seed)?,);",
        "}",
    ]).as_str()));
    assert!(text.contains("_serde::Deserializer::deserialize_struct(\n__deserializer,\nstringify!(Example),\n__FIELDS,"));
    assert_eq!(
        text.matches("_serde_state::__private::wrap_deserialize_seed::<CounterValue, __State>(").count(),
        4
    );
    assert!(!text.contains("_serde::Deserialize<'de> for Example"));
    assert_parses(&text);
}

fn concat_lines(lines: &[&str]) -> String {
    let mut out = String::new();
    for line in lines {
        out.push_str(line);
        out.push('\n');
    }
    out
}

#[test]
fn transparent_struct_behaves_like_inner_value() {
    let mut decl = struct_decl(
        "Wrapper",
        FieldsStyle::Named,
        vec![named("inner", "CounterValue", ItemMode::Stateful)],
    );
    decl.attrs.transparent = true;
    let text = derive(&decl);
    assert!(text.contains(
        "let __seed = _serde_state::__private::wrap_deserialize_seed::<CounterValue, __State>(__state);\n"
    ));
    assert!(text.contains("let inner = _serde::de::DeserializeSeed::deserialize(__seed, __deserializer)?;"));
    assert!(text.contains("::core::result::Result::Ok(Wrapper { inner: inner })"));
    assert!(!text.contains("__FIELDS"));
    assert_parses(&text);
}

#[test]
fn transparent_tuple_struct_reads_with_plain_serde() {
    let mut tuple = struct_decl(
        "Plain",
        FieldsStyle::Unnamed,
        vec![unnamed("u32", ItemMode::Stateless)],
    );
    tuple.attrs.transparent = true;
    let text = derive(&tuple);
    assert!(text.contains("let __value: u32 = _serde::Deserialize::deserialize(__deserializer)?;"));
    assert!(text.contains("Plain(__value)"));
    assert_parses(&text);
}

#[test]
fn plain_struct_does_not_need_state_attribute() {
    let numbers = struct_decl(
        "PlainNumbers",
        FieldsStyle::Named,
        vec![named("value", "u32", ItemMode::Stateless)],
    );
    assert_eq!(where_text(&numbers), "where u32: _serde::Deserialize<'de>");
    let text = derive(&numbers);
    assert!(text.contains("let value = match _serde::de::SeqAccess::next_element::<u32>(&mut __seq)? {"));
    assert!(text.contains("value = ::core::option::Option::Some(_serde::de::MapAccess::next_value::<u32>(&mut __map)?,);"));
    assert!(!text.contains("wrap_deserialize_seed::<u32"));
    assert_parses(&text);
}

#[test]
fn tuple_and_unit_structs_thread_state() {
    let pair = struct_decl(
        "Pair",
        FieldsStyle::Unnamed,
        vec![
            unnamed("CounterValue", ItemMode::Stateful),
            unnamed("CounterValue", ItemMode::Stateful),
        ],
    );
    let text = derive(&pair);
    assert!(text.contains("fn visit_seq<__A>(self, mut __seq: __A,) -> "));
    assert!(text.contains(
        "let __field_0 = match _serde::de::SeqAccess::next_element_seed(&mut __seq, _serde_state::__private::wrap_deserialize_seed::<CounterValue, __State>(state),)? {\n"
    ));
    assert!(text.contains("invalid_length(0usize, &self)"));
    assert!(text.contains("invalid_length(1usize, &self)"));
    assert!(!text.contains("let __seed"));
    assert!(text.contains("::core::result::Result::Ok(Pair(__field_0, __field_1))"));
    assert!(text.contains("_serde::Deserializer::deserialize_tuple_struct(\n__deserializer,\nstringify!(Pair),\n2usize,\n"));
    assert_parses(&text);

    let empty = struct_decl("Empty", FieldsStyle::Unit, Vec::new());
    let text = derive(&empty);
    assert!(text.contains("_serde::Deserializer::deserialize_unit_struct(\n__deserializer,\nstringify!(Empty),\n__Visitor,\n)"));
    assert!(text.contains("::core::result::Result::Ok(Empty)"));
    assert_eq!(where_text(&empty), "");
    assert_parses(&text);
}

#[test]
fn newtype_struct_reads_one_element() {
    let single = struct_decl(
        "Single",
        FieldsStyle::Unnamed,
        vec![unnamed("CounterValue", ItemMode::Stateful)],
    );
    let text = derive(&single);
    assert!(text.contains("fn visit_newtype_struct<__E>(self, __deserializer: __E,) -> "));
    assert!(text.contains("let __value = _serde::de::DeserializeSeed::deserialize(__seed, __deserializer)?;"));
    assert!(text.contains("invalid_length(0, &self)"));
    assert!(text.contains("invalid_length(1, &self)"));
    assert!(!text.contains("0usize"));
    assert!(text.contains("_serde::Deserializer::deserialize_newtype_struct(\n__deserializer,\nstringify!(Single),\n"));
    assert_parses(&text);
}

fn action() -> TypeDecl {
    enum_decl(
        "Action",
        vec![
            variant("Idle", FieldsStyle::Unit, Vec::new()),
            variant("Reset", FieldsStyle::Unnamed, vec![unnamed("CounterValue", ItemMode::Stateful)]),
            variant(
                "Combine",
                FieldsStyle::Unnamed,
                vec![
                    unnamed("CounterValue", ItemMode::Stateful),
                    unnamed("CounterValue", ItemMode::Stateful),
                ],
            ),
            variant(
                "Record",
                FieldsStyle::Named,
                vec![
                    named("first", "CounterValue", ItemMode::Stateful),
                    named("second", "CounterValue", ItemMode::Stateful),
                ],
            ),
        ],
    )
}

#[test]
fn enums_thread_state_for_each_variant() {
    let action = action();
    let text = derive(&action);
    assert!(text.contains(
        "const __VARIANTS: &'static [&'static str] = &[\"Idle\", \"Reset\", \"Combine\", \"Record\"];"
    ));
    assert!(text.contains("enum __Variant { Idle, Reset, Combine, Record }\nstruct __VariantVisitor;\n"));
    assert!(text.contains("fn visit_enum<__E>(self, __enum: __E,) -> "));
    assert!(text.contains(
        "(__Variant::Idle, __variant) => {\n_serde::de::VariantAccess::unit_variant(__variant)?;\n::core::result::Result::Ok(Action::Idle)\n}\n"
    ));
    assert!(text.contains(
        "let __value = _serde::de::VariantAccess::newtype_variant_seed(__variant, __seed)?;\n::core::result::Result::Ok(Action::Reset(__value))"
    ));
    assert!(text.contains("#[allow(non_camel_case_types)]\nstruct __Variant2_TupleVisitor<'state, __State: ?Sized> {"));
    assert!(text.contains("_serde::Deserializer::deserialize_enum(\n__deserializer,\nstringify!(Action),\n__VARIANTS,"));
    assert!(text.contains("\nstruct __Visitor<'state, __State: ?Sized> {"));
    assert_eq!(
        where_text(&action),
        format!("where {0}, {0}, {0}, {0}, {0}", STATEFUL_COUNTER)
    );
    assert_parses(&text);
}

#[test]
fn perfect_derive_does_not_require_generic_bounds() {
    let phantom = struct_decl(
        "PhantomWrapper",
        FieldsStyle::Named,
        vec![named("marker", "PhantomData<NeedsNoBounds>", ItemMode::Stateful)],
    );
    assert_eq!(
        where_text(&phantom),
        "where PhantomData<NeedsNoBounds>: _serde_state::DeserializeState<'de, __State>"
    );
    assert_parses(&derive(&phantom));
}

#[test]
fn generic_struct_threads_state() {
    let mut generic = struct_decl(
        "GenericContainer",
        FieldsStyle::Named,
        vec![named("first", "T", ItemMode::Stateful), named("second", "T", ItemMode::Stateful)],
    );
    generic.generics.params.push(GenericParam::Type { name: "T".to_string(), bounds: String::new() });
    let text = derive(&generic);
    assert!(text.starts_with(
        "#[automatically_derived]\nimpl<'de, T, __State: ?Sized> _serde_state::DeserializeState<'de, __State> for GenericContainer<T> where T: _serde_state::DeserializeState<'de, __State>, T: _serde_state::DeserializeState<'de, __State> {"
    ));
    assert!(text.contains("struct __Visitor<'state, __State: ?Sized, T>"));
    assert!(text.contains("impl<'de, 'state, __State: ?Sized, T> _serde::de::Visitor<'de> for __Visitor<'state, __State, T> where "));
    assert_parses(&text);
}

#[test]
fn stateless_fields_use_plain_serde() {
    let mixed = struct_decl(
        "MixedModes",
        FieldsStyle::Named,
        vec![
            named("plain", "PlainValue", ItemMode::Stateless),
            named("stateful", "CounterValue", ItemMode::Stateful),
        ],
    );
    assert_eq!(
        where_text(&mixed),
        format!("where PlainValue: _serde::Deserialize<'de>, {STATEFUL_COUNTER}")
    );
    assert_parses(&derive(&mixed));

    let mut overridden = struct_decl(
        "StatelessContainerWithOverride",
        FieldsStyle::Named,
        vec![
            named("plain", "PlainValue", resolve_mode(ItemMode::Stateless, None, None)),
            named(
                "counter",
                "CounterValue",
                resolve_mode(ItemMode::Stateless, None, Some(ItemMode::Stateful)),
            ),
        ],
    );
    overridden.attrs.mode = ItemMode::Stateless;
    assert_eq!(
        where_text(&overridden),
        format!("where PlainValue: _serde::Deserialize<'de>, {STATEFUL_COUNTER}")
    );
    let text = derive(&overridden);
    assert!(text.contains("_serde::de::SeqAccess::next_element::<PlainValue>(&mut __seq)"));
    assert!(text.contains("wrap_deserialize_seed::<CounterValue, __State>(state)"));
    assert_parses(&text);
}

#[test]
fn stateless_variants_control_state_usage() {
    let stateful = ItemMode::Stateful;
    let stateless = Some(ItemMode::Stateless);
    let modes = enum_decl(
        "VariantModes",
        vec![
            variant(
                "Plain",
                FieldsStyle::Unnamed,
                vec![unnamed("PlainValue", resolve_mode(stateful, stateless, None))],
            ),
            variant(
                "Struct",
                FieldsStyle::Named,
                vec![named("value", "PlainValue", resolve_mode(stateful, stateless, None))],
            ),
            variant(
                "Stateful",
                FieldsStyle::Unnamed,
                vec![unnamed("CounterValue", resolve_mode(stateful, None, None))],
            ),
            variant(
                "WithOverride",
                FieldsStyle::Named,
                vec![named(
                    "counter",
                    "CounterValue",
                    resolve_mode(stateful, stateless, Some(ItemMode::Stateful)),
                )],
            ),
        ],
    );
    assert_eq!(
        where_text(&modes),
        format!(
            "where PlainValue: _serde::Deserialize<'de>, PlainValue: _serde::Deserialize<'de>, {0}, {0}",
            STATEFUL_COUNTER
        )
    );
    let text = derive(&modes);
    assert!(text.contains("let __value: PlainValue = _serde::de::VariantAccess::newtype_variant(__variant)?;"));
    assert_parses(&text);
}

#[test]
fn serde_rename_and_skip_are_respected() {
    let mut skipped = named("skipped", "PlainValue", ItemMode::Stateful);
    skipped.attrs.skip = true;
    let mut renamed = named("renamed", "CounterValue", ItemMode::Stateful);
    renamed.attrs.rename = Some("external".to_string());
    let decl = struct_decl("RenamedAndSkipped", FieldsStyle::Named, vec![renamed, skipped]);
    assert_eq!(
        where_text(&decl),
        format!("where {STATEFUL_COUNTER}, PlainValue: ::core::default::Default")
    );
    let text = derive(&decl);
    assert!(text.contains("const __FIELDS: &'static [&'static str] = &[\"external\"];"));
    assert!(text.contains("\"external\" => ::core::result::Result::Ok(__Field::__field_renamed),"));
    assert!(text.contains("let skipped = ::core::default::Default::default();"));
    assert!(text.contains("missing_field(\"external\")"));
    assert!(!text.contains("\"skipped\""));
    assert_parses(&text);
}

#[test]
fn state_implements_applies_trait_bounds() {
    let mut decl = struct_decl(
        "TraitBoundContainer",
        FieldsStyle::Named,
        vec![named("value", "GenericCounterValue", ItemMode::Stateful)],
    );
    decl.attrs.state_bound = Some("RecorderLike".to_string());
    assert_eq!(where_text(&decl), "");
    let text = derive(&decl);
    assert!(text.starts_with(
        "#[automatically_derived]\nimpl<'de, __State: ?Sized + RecorderLike> _serde_state::DeserializeState<'de, __State> for TraitBoundContainer "
    ));
    assert!(text.contains("struct __Visitor<'state, __State: ?Sized + RecorderLike>"));
    assert_parses(&text);
}

#[test]
fn state_bound_puts_container_mode_bounds_on_type_parameters() {
    let mut generic = struct_decl(
        "Bounded",
        FieldsStyle::Named,
        vec![named("value", "Vec<T>", ItemMode::Stateful)],
    );
    generic.attrs.state_bound = Some("RecorderLike".to_string());
    generic.attrs.mode = ItemMode::Stateless;
    generic.generics.params.push(GenericParam::Lifetime { name: "'a".to_string(), bounds: String::new() });
    generic.generics.params.push(GenericParam::Type { name: "T".to_string(), bounds: "Clone".to_string() });
    assert_eq!(where_text(&generic), "where T: _serde::Deserialize<'de>");
    assert_parses(&derive(&generic));
}

#[test]
fn serde_with_calls_custom_helpers() {
    let mut counter = named("counter", "CounterValue", ItemMode::Stateful);
    counter.attrs.with = Some("counter_passthrough".to_string());
    let mut decl = struct_decl("WithHelperField", FieldsStyle::Named, vec![counter]);
    decl.attrs.state = Some("Recorder".to_string());
    assert_eq!(where_text(&decl), "");
    let text = derive(&decl);
    assert!(text.starts_with(
        "#[automatically_derived]\nimpl<'de> _serde_state::DeserializeState<'de, Recorder> for WithHelperField "
    ));
    assert!(!text.contains("__State"));
    assert!(text.contains("struct __SerdeStateWithSeed<'state> {\nstate: &'state Recorder,\n}"));
    assert!(text.contains("impl<'de, 'state> _serde::de::DeserializeSeed<'de> for __SerdeStateWithSeed<'state> {"));
    assert!(text.contains("fn deserialize<__D>(self, __deserializer: __D,) -> "));
    assert!(text.contains("counter_passthrough::deserialize_state(self.state, __deserializer)"));
    assert!(text.contains("__SerdeStateWithSeed { state }"));
    assert_parses(&text);
}

#[test]
fn serde_with_fields_respect_state_bounds() {
    let mut counter = named("counter", "CounterValue", ItemMode::Stateful);
    counter.attrs.with = Some("counter_passthrough".to_string());
    let mut decl = struct_decl("TraitBoundWithHelper", FieldsStyle::Named, vec![counter]);
    decl.attrs.state_bound = Some("RecorderLike".to_string());
    assert_eq!(where_text(&decl), "");
    let text = derive(&decl);
    assert!(text.contains("struct __SerdeStateWithSeed<'state, State: ?Sized + RecorderLike> {\nstate: &'state State,\n}"));
    assert!(text.contains(
        "impl<'de, 'state, State: ?Sized + RecorderLike> _serde::de::DeserializeSeed<'de> for __SerdeStateWithSeed<'state, State> {"
    ));
    assert!(text.contains("counter_passthrough::deserialize_state(self.state, __deserializer)"));
    assert_parses(&text);
}

#[test]
fn serde_with_vec_fields_infers_bounds() {
    let mut counters = named("counters", "Vec<GenericCounterValue>", ItemMode::Stateful);
    counters.attrs.with = Some("counter_vec_passthrough".to_string());
    let mut decl = struct_decl("VecWithHelpers", FieldsStyle::Named, vec![counters]);
    decl.attrs.state_bound = Some("RecorderLike".to_string());
    assert_eq!(where_text(&decl), "");
    let text = derive(&decl);
    assert!(text.contains("struct __SerdeStateWithSeed<'state, State: ?Sized + RecorderLike> {"));
    assert!(text.contains("type Value = Vec<GenericCounterValue>;"));
    assert!(text.contains("counter_vec_passthrough::deserialize_state(self.state, __deserializer)"));
    assert_parses(&text);
}

#[test]
fn default_state_generates_plain_serde_impls() {
    let mut decl = struct_decl(
        "AutoSerdeContainer",
        FieldsStyle::Named,
        vec![named("value", "GenericCounterValue", ItemMode::Stateful)],
    );
    decl.attrs.state_bound = Some("RecorderLike".to_string());
    decl.attrs.default_state = Some("GlobalRecorder".to_string());
    let plain = default_deserialize_impl(&decl).expect("a default state is named");
    assert!(plain.starts_with(
        "#[automatically_derived]\nimpl<'de> _serde::Deserialize<'de> for AutoSerdeContainer where GlobalRecorder: ::core::default::Default {"
    ));
    assert!(plain.contains("let __default_state = <GlobalRecorder as ::core::default::Default>::default();"));
    assert!(plain.contains("_serde_state::DeserializeState::deserialize_state(\n&__default_state,\n__deserializer,\n)"));
    let text = derive(&decl);
    assert!(text.ends_with(&plain));
    assert_parses(&text);

    decl.attrs.default_state = None;
    assert!(default_deserialize_impl(&decl).is_none());
}

#[test]
fn recursive_enum_threads_state() {
    let mut list = enum_decl(
        "CounterList",
        vec![
            variant("Nil", FieldsStyle::Unit, Vec::new()),
            variant(
                "Cons",
                FieldsStyle::Unnamed,
                vec![
                    unnamed("CounterValue", ItemMode::Stateful),
                    unnamed("Box<CounterList>", ItemMode::Stateful),
                ],
            ),
        ],
    );
    list.attrs.state = Some("Recorder".to_string());
    assert_eq!(where_text(&list), "");
    let text = derive(&list);
    assert!(text.starts_with(
        "#[automatically_derived]\nimpl<'de> _serde_state::DeserializeState<'de, Recorder> for CounterList  {"
    ));
    assert!(text.contains(concat_lines(&[
        "#[allow(non_camel_case_types)]",
        "struct __Variant1_TupleVisitor<'state> {",
        "state: &'state Recorder,",
        "_marker: ::core::marker::PhantomData<CounterList>,",
        "}",
    ]).as_str()));
    assert!(text.contains(
        "let __variant_field_1 = match _serde::de::SeqAccess::next_element_seed(&mut __seq, _serde_state::__private::wrap_deserialize_seed::<Box<CounterList>, Recorder>(state),)? {"
    ));
    assert!(text.contains("::core::result::Result::Ok(CounterList::Cons(__variant_field_0, __variant_field_1))"));
    assert!(text.contains(concat_lines(&[
        "(__Variant::Cons, __variant) => {",
        "_serde::de::VariantAccess::tuple_variant(",
        "__variant,",
        "2usize,",
        "__Variant1_TupleVisitor {",
        "state,",
        "_marker: ::core::marker::PhantomData,",
        "},",
        ")",
        "}",
    ]).as_str()));
    assert!(!text.contains("__State"));
    assert_parses(&text);
}

#[test]
fn postcard_named_struct_deserializes_from_seq_and_threads_state() {
    let text = derive(&example());
    assert!(text.contains(concat_lines(&[
        "fn visit_seq<__A>(self, mut __seq: __A) -> ::core::result::Result<Self::Value, __A::Error>",
        "where",
        "__A: _serde::de::SeqAccess<'de>,",
        "{",
        "let state = self.state;",
        "let __seed = _serde_state::__private::wrap_deserialize_seed::<CounterValue, __State>(state);",
        "let first = match _serde::de::SeqAccess::next_element_seed(&mut __seq, __seed)? {",
        "::core::option::Option::Some(value) => value,",
        "::core::option::Option::None => return ::core::result::Result::Err(_serde::de::Error::invalid_length(0usize, &self)),",
        "};",
    ]).as_str()));
    assert!(text.contains("invalid_length(1usize, &self)"));
    assert!(text.contains(
        "if let ::core::option::Option::Some(_) = _serde::de::SeqAccess::next_element::<_serde::de::IgnoredAny>(&mut __seq)? {\nreturn ::core::result::Result::Err(_serde::de::Error::invalid_length(2usize + 1, &self));\n}\n"
    ));
    assert!(text.contains("::core::result::Result::Ok(Example { first: first, second: second })\n}\n"));
}

#[test]
fn postcard_struct_variant_deserializes_from_seq_and_threads_state() {
    let text = derive(&action());
    assert!(text.contains("const __VARIANT_FIELDS_3: &'static [&'static str] = &[\"first\", \"second\"];"));
    assert!(text.contains("#[allow(non_camel_case_types)]\nenum __VariantFieldEnum_Record { __variant_field_first, __variant_field_second, __Ignore }"));
    assert!(text.contains("#[allow(non_camel_case_types)]\nstruct __VariantFieldVisitor_Record;"));
    assert!(text.contains("#[allow(non_camel_case_types)]\nstruct __Variant3_StructVisitor<'state, __State: ?Sized> {"));
    assert!(text.contains("fn visit_map<__M>(self, mut __map: __M,) -> "));
    assert!(text.contains(
        "while let ::core::option::Option::Some(key) = _serde::de::MapAccess::next_key::<__VariantFieldEnum_Record>(&mut __map)? {\nmatch key {\n"
    ));
    assert!(text.contains(concat_lines(&[
        "let state = self.state;",
        "let __seed = _serde_state::__private::wrap_deserialize_seed::<CounterValue, __State>(state);",
        "let first = match _serde::de::SeqAccess::next_element_seed(&mut __seq, __seed)? {",
    ]).as_str()));
    assert!(text.contains("invalid_length(2usize + 1, &self)"));
    assert!(text.contains("::core::result::Result::Ok(Action::Record { first: first, second: second })"));
    assert!(text.contains(concat_lines(&[
        "_serde::de::VariantAccess::struct_variant(",
        "__variant,",
        "__VARIANT_FIELDS_3,",
        "__Variant3_StructVisitor {",
    ]).as_str()));
}

#[test]
fn postcard_enum_variants_deserialize_from_numeric_tags() {
    let text = derive(&action());
    assert!(text.contains(concat_lines(&[
        "0u64 => ::core::result::Result::Ok(__Variant::Idle),",
        "1u64 => ::core::result::Result::Ok(__Variant::Reset),",
        "2u64 => ::core::result::Result::Ok(__Variant::Combine),",
        "3u64 => ::core::result::Result::Ok(__Variant::Record),",
        "_ => ::core::result::Result::Err(_serde::de::Error::invalid_value(_serde::de::Unexpected::Unsigned(value), &self,)),",
    ]).as_str()));
    assert!(text.contains(
        "if _serde::Deserializer::is_human_readable(&deserializer) {\n_serde::Deserializer::deserialize_identifier(deserializer, __VariantVisitor)\n} else {\n_serde::Deserializer::deserialize_u32(deserializer, __VariantVisitor)\n}"
    ));
    assert!(text.contains("fn visit_u32<E>(self, value: u32) -> ::core::result::Result<Self::Value, E>\nwhere\nE: _serde::de::Error,\n{\nself.visit_u64(value as u64)\n}"));
    assert!(text.contains("0u64 => ::core::result::Result::Ok(__VariantFieldEnum_Record::__variant_field_first),"));
}

#[test]
fn transparent_struct_needs_exactly_one_field() {
    let mut two = example();
    two.attrs.transparent = true;
    assert_eq!(
        derive_text(&two).err(),
        Some(DeriveError::TransparentFieldCount)
    );
    let mut unit = struct_decl("Empty", FieldsStyle::Unit, Vec::new());
    unit.attrs.transparent = true;
    assert_eq!(
        derive_text(&unit).err(),
        Some(DeriveError::TransparentFieldCount)
    );
    assert_eq!(
        expand_derive_deserialize(&two).err(),
        Some(DeriveError::TransparentFieldCount)
    );
    assert_eq!(
        DeriveError::TransparentFieldCount.message(),
        "transparent structs must have exactly one field"
    );
}

#[test]
fn unions_are_refused() {
    let decl = TypeDecl {
        ident: "Bits".to_string(),
        generics: no_generics(),
        attrs: attrs(),
        data: TypeData::Union,
    };
    assert_eq!(
        derive_text(&decl).err(),
        Some(DeriveError::UnionNotSupported)
    );
    assert_eq!(
        expand_derive_deserialize(&decl).err(),
        Some(DeriveError::UnionNotSupported)
    );
    assert_eq!(
        DeriveError::UnionNotSupported.message(),
        "DeserializeState does not support unions"
    );
}

#[test]
fn declared_predicates_come_first() {
    let mut decl = struct_decl(
        "Holder",
        FieldsStyle::Named,
        vec![named("value", "T", ItemMode::Stateless)],
    );
    decl.generics.params.push(GenericParam::Type { name: "T".to_string(), bounds: String::new() });
    decl.generics.where_clause.push(WherePredicate::Verbatim("T: Clone".to_string()));
    assert_eq!(where_text(&decl), "where T: Clone, T: _serde::Deserialize<'de>");
}

#[test]
fn derived_code_lexes_into_tokens() {
    let tokens = expand_derive_deserialize(&example()).expect("derivable and lexable");
    let mut trees = tokens.into_iter();
    match trees.next() {
        Some(proc_macro2::TokenTree::Punct(p)) => assert_eq!(p.as_char(), '#'),
        other => panic!("unexpected first token: {other:?}"),
    }
    assert!(trees.count() > 10);
}

#[test]
fn unit_struct_derives_exactly_this_code() {
    let empty = struct_decl("Empty", FieldsStyle::Unit, Vec::new());
    let expected = [
        "#[automatically_derived]\n",
        "impl<'de, __State: ?Sized> _serde_state::DeserializeState<'de, __State> for Empty  {\n",
        "fn deserialize_state<__D>(\n",
        "__state: &__State,\n",
        "__deserializer: __D,\n",
        ") -> ::core::result::Result<Self, __D::Error>\n",
        "where\n",
        "__D: _serde::Deserializer<'de>,\n",
        "{\n",
        "struct __Visitor;\n",
        "impl<'de> _serde::de::Visitor<'de> for __Visitor {\n",
        "type Value = Empty;\n",
        "fn expecting(&self, formatter: &mut ::core::fmt::Formatter<'_>) -> ::core::fmt::Result {\n",
        "formatter.write_str(\"unit struct \")?;\n",
        "formatter.write_str(stringify!(Empty))\n",
        "}\n",
        "fn visit_unit<E>(self) -> ::core::result::Result<Self::Value, E>\n",
        "where\n",
        "E: _serde::de::Error,\n",
        "{\n",
        "::core::result::Result::Ok(Empty)\n",
        "}\n",
        "}\n",
        "_serde::Deserializer::deserialize_unit_struct(\n",
        "__deserializer,\n",
        "stringify!(Empty),\n",
        "__Visitor,\n",
        ")\n",
        "}\n",
        "}\n",
    ]
    .concat();
    assert_eq!(derive(&empty), expected);
}

#[test]
fn code_that_does_not_lex_is_reported() {
    let broken = struct_decl(
        "Broken",
        FieldsStyle::Named,
        vec![named("value", "(u8", ItemMode::Stateless)],
    );
    assert!(derive_text(&broken).is_ok());
    assert_eq!(expand_derive_deserialize(&broken).err(), Some(DeriveError::Lex));
    assert_eq!(
        DeriveError::Lex.message(),
        "DeserializeState produced code that could not be lexed"
    );
}

#[test]
fn keys_are_renames_or_names() {
    let mut renamed = named("renamed", "CounterValue", ItemMode::Stateful);
    renamed.attrs.rename = Some("external".to_string());
    let decl = struct_decl(
        "RenamedAndSkipped",
        FieldsStyle::Named,
        vec![renamed, named("plain", "u8", ItemMode::Stateless)],
    );
    let texts = key_texts(&decl);
    assert_eq!(texts.fields, vec!["external".to_string(), "plain".to_string()]);
    assert!(texts.variants.is_empty());

    let texts = key_texts(&action());
    assert_eq!(texts.variants, vec!["Idle", "Reset", "Combine", "Record"]);
    assert_eq!(texts.variant_fields[3], vec!["first", "second"]);
    assert_eq!(texts.variant_fields[2], vec!["", ""]);
    assert!(texts.variant_fields[0].is_empty());
}

#[test]
fn raw_variant_names_lose_their_prefix_in_helper_names() {
    let decl = enum_decl(
        "Keywords",
        vec![variant("r#type", FieldsStyle::Named, vec![named("a", "u32", ItemMode::Stateless)])],
    );
    let text = derive(&decl);
    assert!(text.contains("enum __VariantFieldEnum_type { __variant_field_a, __Ignore }"));
    assert!(text.contains("struct __VariantFieldVisitor_type;"));
    assert!(text.contains("(__Variant::r#type, __variant) => {"));
    assert!(text.contains("const __VARIANTS: &'static [&'static str] = &[\"r#type\"];"));
    assert_parses(&text);
}
