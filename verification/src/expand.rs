//! The whole derive: the `where` clause of the impl, the impl around the
//! generated body, the optional plain `Deserialize` impl, and the entry point.

use vstd::prelude::*;
use crate::bounds::{
    add_default_bounds_for_skipped, add_default_state_bound, add_deserialize_bounds_from_type_params,
    add_deserialize_bounds_from_types, collect_field_types_from_enum,
    collect_field_types_from_fields, enum_field_types, field_type_bounds, kept_field_types,
    skipped_default_bounds, type_param_bounds,
};
use crate::de::{
    kept_idents, kept_texts, lemma_field_table_lists_read_fields, deserialize_enum_body, deserialize_struct_body, deserialize_transparent, spec_deserialize_enum_body,
    spec_deserialize_struct_body, spec_deserialize_transparent, tyg, variant_literals_fit, variants_wf,
    wc, Ctx, CtxView,
};
use crate::generics::{
    add_state_param, generics_text, generics_tokens, lifetime_view, opt_view, quote_where_clause,
    spec_add_state_param, where_clause_text,
};
use crate::model::{
    decl_wf, field_key, field_name, DeriveError, EnumDecl, FieldDecl, GenericParam, GenericParamView, ItemMode,
    StructDecl, TypeData, TypeDecl, VariantDecl, WherePredicate, WherePredicateView,
};
use crate::text::{literal_value, string_literal_text};

verus! {

/// The state type as written in the impl: the one named by
/// `#[serde_state(state = ..)]`, else the generic `__State`.
pub open spec fn spec_state_tokens(explicit_state: Option<Seq<char>>) -> Seq<char> {
    match explicit_state {
        Some(s) => s,
        None => "__State"@,
    }
}

pub fn state_type_tokens(decl: &TypeDecl) -> (out: String)
    ensures
        out@ == spec_state_tokens(opt_view(decl.attrs.state)),
{
    match &decl.attrs.state {
        Some(s) => s.clone(),
        None => String::from_str("__State"),
    }
}

/// Bounds are inferred from the field types when the state is generic and
/// unbounded; otherwise every type parameter is bounded in the container's
/// mode.
pub open spec fn infers_bounds(decl: TypeDecl) -> bool {
    decl.attrs.state is None && decl.attrs.state_bound is None
}

/// The read bounds that the impl adds, given the types of the fields that
/// are read.
pub open spec fn read_bounds(decl: TypeDecl, field_types: Seq<crate::bounds::FieldType>) -> Seq<
    WherePredicateView,
> {
    let state = spec_state_tokens(opt_view(decl.attrs.state));
    if infers_bounds(decl) {
        field_type_bounds(field_types, state)
    } else {
        type_param_bounds(decl.generics.params@, state, decl.attrs.mode)
    }
}

/// The `Default` bounds of the skipped fields of every variant, variant
/// after variant.
pub open spec fn enum_skipped_bounds(vs: Seq<VariantDecl>) -> Seq<WherePredicateView>
    decreases vs.len(),
{
    if vs.len() == 0 {
        seq![]
    } else {
        enum_skipped_bounds(vs.drop_last()) + skipped_default_bounds(vs.last().fields.fields@)
    }
}

/// The `where` clause of a struct's impl: the declared predicates, the read
/// bounds, then `Default` for each skipped field.
pub open spec fn spec_struct_where(decl: TypeDecl, data: StructDecl) -> Seq<WherePredicateView> {
    decl.generics.where_clause.deep_view() + read_bounds(
        decl,
        kept_field_types(data.fields.fields@),
    ) + skipped_default_bounds(data.fields.fields@)
}

/// The `where` clause of an enum's impl.
pub open spec fn spec_enum_where(decl: TypeDecl, data: EnumDecl) -> Seq<WherePredicateView> {
    decl.generics.where_clause.deep_view() + read_bounds(decl, enum_field_types(data.variants@))
        + enum_skipped_bounds(data.variants@)
}

/// What the body generators are handed for a declaration and the `where`
/// clause of its impl.
pub open spec fn spec_ctx(decl: TypeDecl, where_clause: Seq<WherePredicateView>) -> CtxView {
    CtxView {
        ident: decl.ident@,
        params: decl.generics.params.deep_view(),
        state_tokens: spec_state_tokens(opt_view(decl.attrs.state)),
        explicit_state: opt_view(decl.attrs.state),
        with_state_param: decl.attrs.state is None,
        state_bound: opt_view(decl.attrs.state_bound),
        where_clause,
    }
}

/// A copy of a list of predicates.
fn duplicate_predicates(ps: &Vec<WherePredicate>) -> (out: Vec<WherePredicate>)
    ensures
        out.deep_view() == ps.deep_view(),
{
    let mut out: Vec<WherePredicate> = Vec::new();
    let mut i: usize = 0;
    while i < ps.len()
        invariant
            i <= ps.len(),
            out.deep_view() == ps.deep_view().take(i as int),
        decreases ps.len() - i,
    {
        let p = ps[i].duplicate();
        let ghost pv = p@;
        let ghost before = out.deep_view();
        out.push(p);
        assert(out.deep_view() =~= before.push(pv));
        assert(ps.deep_view().take(i + 1) =~= ps.deep_view().take(i as int).push(ps[i as int]@));
        i = i + 1;
    }
    assert(ps.deep_view().take(ps.len() as int) =~= ps.deep_view());
    out
}

/// Adds the read bounds of the impl (see [`read_bounds`]).
fn add_read_bounds(
    where_clause: &mut Vec<WherePredicate>,
    decl: &TypeDecl,
    field_types: &Vec<crate::bounds::FieldType>,
    state: &String,
)
    requires
        state@ == spec_state_tokens(opt_view(decl.attrs.state)),
    ensures
        final(where_clause).deep_view() == old(where_clause).deep_view() + read_bounds(
            *decl,
            field_types@,
        ),
{
    if decl.attrs.state.is_none() && decl.attrs.state_bound.is_none() {
        add_deserialize_bounds_from_types(where_clause, field_types, state);
    } else {
        add_deserialize_bounds_from_type_params(where_clause, &decl.generics, state, decl.attrs.mode);
    }
}

/// The `where` clause of a struct's impl.
pub fn struct_where_clause(decl: &TypeDecl, data: &StructDecl) -> (out: Vec<WherePredicate>)
    ensures
        out.deep_view() == spec_struct_where(*decl, *data),
{
    let state = state_type_tokens(decl);
    let mut out = duplicate_predicates(&decl.generics.where_clause);
    let field_types = collect_field_types_from_fields(&data.fields);
    add_read_bounds(&mut out, decl, &field_types, &state);
    add_default_bounds_for_skipped(&data.fields, &mut out);
    out
}

/// The `where` clause of an enum's impl.
pub fn enum_where_clause(decl: &TypeDecl, data: &EnumDecl) -> (out: Vec<WherePredicate>)
    ensures
        out.deep_view() == spec_enum_where(*decl, *data),
{
    let state = state_type_tokens(decl);
    let mut out = duplicate_predicates(&decl.generics.where_clause);
    let field_types = collect_field_types_from_enum(data);
    add_read_bounds(&mut out, decl, &field_types, &state);
    let ghost start = out.deep_view();
    let ghost vs = data.variants@;
    let n = data.variants.len();
    let mut i: usize = 0;
    assert(vs.take(0) =~= Seq::<VariantDecl>::empty());
    assert(start + enum_skipped_bounds(vs.take(0)) =~= start);
    while i < n
        invariant
            n == vs.len(),
            vs == data.variants@,
            i <= n,
            out.deep_view() == start + enum_skipped_bounds(vs.take(i as int)),
        decreases n - i,
    {
        assert(vs.take(i + 1).drop_last() =~= vs.take(i as int));
        add_default_bounds_for_skipped(&data.variants[i].fields, &mut out);
        assert(out.deep_view() =~= start + enum_skipped_bounds(vs.take(i + 1)));
        i = i + 1;
    }
    assert(vs.take(n as int) =~= vs);
    out
}

/// The parameter list of the `DeserializeState` impl.
pub open spec fn impl_generics(c: CtxView) -> Seq<char> {
    generics_text(spec_add_state_param(c.params, c.with_state_param, c.state_bound), true)
}

/// The `DeserializeState` impl around a body.
pub open spec fn spec_impl_block(c: CtxView, body: Seq<char>) -> Seq<char> {
    "#[automatically_derived]\nimpl"@ + impl_generics(c) + " _serde_state::DeserializeState<'de, "@
        + c.state_tokens + "> for "@ + c.ident + tyg(c) + " "@ + wc(c)
        + " {\nfn deserialize_state<__D>(\n__state: &"@ + c.state_tokens
        + ",\n__deserializer: __D,\n) -> ::core::result::Result<Self, __D::Error>\nwhere\n__D: _serde::Deserializer<'de>,\n{\n"@
        + body + "\n}\n}\n"@
}

fn impl_block(c: &Ctx, body: &str) -> (out: String)
    ensures
        out@ == spec_impl_block(c@, body@),
{
    let ps = add_state_param(c.generics, c.with_state_param, c.state_bound);
    let mut out = String::from_str("#[automatically_derived]\nimpl");
    let ig = generics_tokens(&ps, true);
    out.append(ig.as_str());
    out.append(" _serde_state::DeserializeState<'de, ");
    out.append(c.state_tokens.as_str());
    out.append("> for ");
    out.append(c.ident.as_str());
    let tg = crate::de::ctx_tyg(c);
    out.append(tg.as_str());
    out.append(" ");
    let w = crate::de::ctx_wc(c);
    out.append(w.as_str());
    out.append(" {\nfn deserialize_state<__D>(\n__state: &");
    out.append(c.state_tokens.as_str());
    out.append(
        ",\n__deserializer: __D,\n) -> ::core::result::Result<Self, __D::Error>\nwhere\n__D: _serde::Deserializer<'de>,\n{\n",
    );
    out.append(body);
    out.append("\n}\n}\n");
    out
}

/// The plain `Deserialize` impl that `#[serde_state(default_state = S)]`
/// asks for: it makes `S::default()` and reads with it.  `None` when no
/// default state is named.
pub open spec fn spec_default_deserialize_impl(decl: TypeDecl) -> Option<Seq<char>> {
    match decl.attrs.default_state {
        None => None,
        Some(state) => {
            let params = decl.generics.params.deep_view();
            let where_clause = decl.generics.where_clause.deep_view().push(
                WherePredicateView::Default { ty: state@ },
            );
            Some(
                "#[automatically_derived]\nimpl"@ + generics_text(
                    seq![lifetime_view("'de"@)] + params,
                    true,
                ) + " _serde::Deserialize<'de> for "@ + decl.ident@ + generics_text(params, false)
                    + " "@ + where_clause_text(where_clause)
                    + " {\nfn deserialize<__D>(\n__deserializer: __D,\n) -> ::core::result::Result<Self, __D::Error>\nwhere\n__D: _serde::Deserializer<'de>,\n{\nlet __default_state = <"@
                    + state@
                    + " as ::core::default::Default>::default();\n_serde_state::DeserializeState::deserialize_state(\n&__default_state,\n__deserializer,\n)\n}\n}\n"@,
            )
        },
    }
}

pub fn default_deserialize_impl(decl: &TypeDecl) -> (out: Option<String>)
    ensures
        match (out, spec_default_deserialize_impl(*decl)) {
            (Some(t), Some(s)) => t@ == s,
            (None, None) => true,
            _ => false,
        },
{
    let state = match &decl.attrs.default_state {
        Some(s) => s,
        None => return None,
    };
    let mut ps: Vec<GenericParam> = Vec::new();
    ps.push(GenericParam::Lifetime { name: String::from_str("'de"), bounds: String::new() });
    let mut i: usize = 0;
    while i < decl.generics.params.len()
        invariant
            i <= decl.generics.params@.len(),
            ps.deep_view() == seq![lifetime_view("'de"@)] + decl.generics.params.deep_view().take(
                i as int,
            ),
        decreases decl.generics.params@.len() - i,
    {
        let p = decl.generics.params[i].duplicate();
        let ghost pv = p@;
        let ghost before = ps.deep_view();
        ps.push(p);
        assert(ps.deep_view() =~= before.push(pv));
        assert(decl.generics.params.deep_view().take(i + 1) =~= decl.generics.params.deep_view().take(
            i as int,
        ).push(decl.generics.params[i as int]@));
        i = i + 1;
    }
    assert(decl.generics.params.deep_view().take(decl.generics.params@.len() as int)
        =~= decl.generics.params.deep_view());
    let mut where_clause = duplicate_predicates(&decl.generics.where_clause);
    add_default_state_bound(&mut where_clause, state);
    let mut out = String::from_str("#[automatically_derived]\nimpl");
    let ig = generics_tokens(&ps, true);
    out.append(ig.as_str());
    out.append(" _serde::Deserialize<'de> for ");
    out.append(decl.ident.as_str());
    let tg = generics_tokens(&decl.generics.params, false);
    out.append(tg.as_str());
    out.append(" ");
    let w = quote_where_clause(&where_clause);
    out.append(w.as_str());
    out.append(
        " {\nfn deserialize<__D>(\n__deserializer: __D,\n) -> ::core::result::Result<Self, __D::Error>\nwhere\n__D: _serde::Deserializer<'de>,\n{\nlet __default_state = <",
    );
    out.append(state.as_str());
    out.append(
        " as ::core::default::Default>::default();\n_serde_state::DeserializeState::deserialize_state(\n&__default_state,\n__deserializer,\n)\n}\n}\n",
    );
    Some(out)
}

/// The text of the plain `Deserialize` impl, empty when there is none.
pub open spec fn default_impl_text(decl: TypeDecl) -> Seq<char> {
    match spec_default_deserialize_impl(decl) {
        Some(t) => t,
        None => seq![],
    }
}

/// The code derived for a struct; a transparent struct must have exactly one
/// field.
pub open spec fn spec_derive_struct(decl: TypeDecl, data: StructDecl, lits: Seq<Seq<char>>) -> Result<
    Seq<char>,
    DeriveError,
> {
    let c = spec_ctx(decl, spec_struct_where(decl, data));
    let body = if decl.attrs.transparent {
        spec_deserialize_transparent(data.fields, c)
    } else {
        Ok(spec_deserialize_struct_body(data.fields, lits, c))
    };
    match body {
        Ok(b) => Ok(spec_impl_block(c, b) + default_impl_text(decl)),
        Err(e) => Err(e),
    }
}

fn opt_ref(o: &Option<String>) -> (r: Option<&String>)
    ensures
        crate::generics::opt_ref_view(r) == opt_view(*o),
{
    o.as_ref()
}

pub fn derive_struct(decl: &TypeDecl, data: &StructDecl, lits: &Vec<String>) -> (out: Result<
    String,
    DeriveError,
>)
    requires
        crate::model::fields_wf(data.fields),
        lits@.len() == data.fields.fields@.len(),
    ensures
        match (out, spec_derive_struct(*decl, *data, lits.deep_view())) {
            (Ok(t), Ok(s)) => t@ == s,
            (Err(e), Err(d)) => e == d,
            _ => false,
        },
{
    let state = state_type_tokens(decl);
    let where_clause = struct_where_clause(decl, data);
    let c = Ctx {
        ident: &decl.ident,
        generics: &decl.generics,
        state_tokens: &state,
        explicit_state: opt_ref(&decl.attrs.state),
        with_state_param: decl.attrs.state.is_none(),
        state_bound: opt_ref(&decl.attrs.state_bound),
        where_clause: &where_clause,
    };
    assert(c@ == spec_ctx(*decl, spec_struct_where(*decl, *data)));
    let body = if decl.attrs.transparent {
        match deserialize_transparent(&data.fields, &c) {
            Ok(b) => b,
            Err(e) => return Err(e),
        }
    } else {
        deserialize_struct_body(&data.fields, lits, &c)
    };
    let mut out = impl_block(&c, body.as_str());
    match default_deserialize_impl(decl) {
        Some(t) => out.append(t.as_str()),
        None => {
            assert(out@ =~= out@ + default_impl_text(*decl));
        },
    }
    Ok(out)
}

/// The code derived for an enum.
pub open spec fn spec_derive_enum(
    decl: TypeDecl,
    data: EnumDecl,
    name_lits: Seq<Seq<char>>,
    field_lits: Seq<Seq<Seq<char>>>,
) -> Seq<char> {
    let c = spec_ctx(decl, spec_enum_where(decl, data));
    spec_impl_block(c, spec_deserialize_enum_body(data, name_lits, field_lits, c))
        + default_impl_text(decl)
}

pub fn derive_enum(
    decl: &TypeDecl,
    data: &EnumDecl,
    name_lits: &Vec<String>,
    field_lits: &Vec<Vec<String>>,
) -> (out: String)
    requires
        variants_wf(data.variants@),
        name_lits@.len() == data.variants@.len(),
        variant_literals_fit(data.variants@, field_lits.deep_view()),
    ensures
        out@ == spec_derive_enum(*decl, *data, name_lits.deep_view(), field_lits.deep_view()),
{
    let state = state_type_tokens(decl);
    let where_clause = enum_where_clause(decl, data);
    let c = Ctx {
        ident: &decl.ident,
        generics: &decl.generics,
        state_tokens: &state,
        explicit_state: opt_ref(&decl.attrs.state),
        with_state_param: decl.attrs.state.is_none(),
        state_bound: opt_ref(&decl.attrs.state_bound),
        where_clause: &where_clause,
    };
    assert(c@ == spec_ctx(*decl, spec_enum_where(*decl, *data)));
    let body = deserialize_enum_body(data, name_lits, field_lits, &c);
    let mut out = impl_block(&c, body.as_str());
    match default_deserialize_impl(decl) {
        Some(t) => out.append(t.as_str()),
        None => {
            assert(out@ =~= out@ + default_impl_text(*decl));
        },
    }
    out
}

/// The literals of the strings that the derived code quotes: the key of
/// each field of a struct; the name of each variant of an enum and the key of
/// each of its fields.
pub struct KeyTable {
    pub fields: Vec<String>,
    pub variants: Vec<String>,
    pub variant_fields: Vec<Vec<String>>,
}

/// A [`KeyTable`] as text, for contracts.
pub ghost struct KeyTableView {
    pub fields: Seq<Seq<char>>,
    pub variants: Seq<Seq<char>>,
    pub variant_fields: Seq<Seq<Seq<char>>>,
}

impl View for KeyTable {
    type V = KeyTableView;

    open spec fn view(&self) -> KeyTableView {
        KeyTableView {
            fields: self.fields.deep_view(),
            variants: self.variants.deep_view(),
            variant_fields: self.variant_fields.deep_view(),
        }
    }
}

/// A table has one entry for each field of a struct, and for each variant
/// of an enum and each of its fields.
pub open spec fn table_fits(decl: TypeDecl, t: KeyTableView) -> bool {
    match decl.data {
        TypeData::Struct(s) => t.fields.len() == s.fields.fields@.len(),
        TypeData::Enum(e) => t.variants.len() == e.variants@.len() && variant_literals_fit(
            e.variants@,
            t.variant_fields,
        ),
        TypeData::Union => true,
    }
}

/// Two tables with entries in the same places.
pub open spec fn same_shape(a: KeyTableView, b: KeyTableView) -> bool {
    &&& a.fields.len() == b.fields.len()
    &&& a.variants.len() == b.variants.len()
    &&& a.variant_fields.len() == b.variant_fields.len()
    &&& forall|i: int|
        0 <= i < a.variant_fields.len() ==> (#[trigger] a.variant_fields[i]).len()
            == b.variant_fields[i].len()
}

/// The keys of a list of fields, one per field (see [`field_key`]).
pub open spec fn field_keys_of(fs: Seq<FieldDecl>) -> Seq<Seq<char>> {
    Seq::new(fs.len(), |i: int| field_key(fs[i]))
}

/// The strings that the derived code quotes, before they are quoted.
pub open spec fn spec_key_texts(decl: TypeDecl) -> KeyTableView {
    match decl.data {
        TypeData::Struct(s) => KeyTableView {
            fields: field_keys_of(s.fields.fields@),
            variants: seq![],
            variant_fields: seq![],
        },
        TypeData::Enum(e) => KeyTableView {
            fields: seq![],
            variants: Seq::new(e.variants@.len(), |i: int| e.variants@[i].ident@),
            variant_fields: Seq::new(
                e.variants@.len(),
                |i: int| field_keys_of(e.variants@[i].fields.fields@),
            ),
        },
        TypeData::Union => KeyTableView { fields: seq![], variants: seq![], variant_fields: seq![] },
    }
}

/// The key of a field: its rename, else its name (empty for a tuple field).
fn field_key_string(f: &FieldDecl) -> (out: String)
    ensures
        out@ == field_key(*f),
{
    match &f.attrs.rename {
        Some(r) => r.clone(),
        None => match &f.ident {
            Some(n) => n.clone(),
            None => String::new(),
        },
    }
}

fn field_key_strings(fs: &Vec<FieldDecl>) -> (out: Vec<String>)
    ensures
        out.deep_view() == field_keys_of(fs@),
{
    let mut out: Vec<String> = Vec::new();
    let mut i: usize = 0;
    while i < fs.len()
        invariant
            i <= fs@.len(),
            out.deep_view() =~= field_keys_of(fs@).take(i as int),
        decreases fs@.len() - i,
    {
        let k = field_key_string(&fs[i]);
        let ghost kv = k@;
        let ghost before = out.deep_view();
        out.push(k);
        assert(out.deep_view() =~= before.push(kv));
        i = i + 1;
    }
    out
}

/// The strings that the derived code quotes: each field's key (its rename,
/// else its name), or each variant's name and each of its fields' keys.
pub fn key_texts(decl: &TypeDecl) -> (t: KeyTable)
    ensures
        t@ == spec_key_texts(*decl),
{
    match &decl.data {
        TypeData::Struct(s) => {
            let t = KeyTable {
                fields: field_key_strings(&s.fields.fields),
                variants: Vec::new(),
                variant_fields: Vec::new(),
            };
            assert(t@.variants =~= Seq::<Seq<char>>::empty());
            assert(t@.variant_fields =~= Seq::<Seq<Seq<char>>>::empty());
            t
        },
        TypeData::Enum(e) => {
            let mut names: Vec<String> = Vec::new();
            let mut keys: Vec<Vec<String>> = Vec::new();
            let ghost vs = e.variants@;
            let mut i: usize = 0;
            while i < e.variants.len()
                invariant
                    vs == e.variants@,
                    i <= vs.len(),
                    names.deep_view() =~= Seq::new(vs.len(), |j: int| vs[j].ident@).take(i as int),
                    keys.deep_view() =~= Seq::new(
                        vs.len(),
                        |j: int| field_keys_of(vs[j].fields.fields@),
                    ).take(i as int),
                decreases vs.len() - i,
            {
                let n = e.variants[i].ident.clone();
                let k = field_key_strings(&e.variants[i].fields.fields);
                let ghost nv = n@;
                let ghost kv = k.deep_view();
                let ghost nb = names.deep_view();
                let ghost kb = keys.deep_view();
                names.push(n);
                keys.push(k);
                assert(names.deep_view() =~= nb.push(nv));
                assert(keys.deep_view() =~= kb.push(kv));
                i = i + 1;
            }
            assert(Seq::new(vs.len(), |j: int| vs[j].ident@).take(vs.len() as int) =~= Seq::new(
                vs.len(),
                |j: int| vs[j].ident@,
            ));
            assert(Seq::new(vs.len(), |j: int| field_keys_of(vs[j].fields.fields@)).take(
                vs.len() as int,
            ) =~= Seq::new(vs.len(), |j: int| field_keys_of(vs[j].fields.fields@)));
            let t = KeyTable { fields: Vec::new(), variants: names, variant_fields: keys };
            assert(t@.fields =~= Seq::<Seq<char>>::empty());
            t
        },
        TypeData::Union => {
            let t = KeyTable { fields: Vec::new(), variants: Vec::new(), variant_fields: Vec::new() };
            assert(t@.fields =~= Seq::<Seq<char>>::empty());
            assert(t@.variants =~= Seq::<Seq<char>>::empty());
            assert(t@.variant_fields =~= Seq::<Seq<Seq<char>>>::empty());
            t
        },
    }
}

/// Every literal in `lits` is a string literal of the string at the same
/// place in `texts`.
pub open spec fn literals_of(lits: Seq<Seq<char>>, texts: Seq<Seq<char>>) -> bool {
    &&& lits.len() == texts.len()
    &&& forall|i: int| 0 <= i < texts.len() ==> literal_value(#[trigger] lits[i]) == Some(texts[i])
}

/// A table of literals that quote, place by place, the strings of `texts`.
pub open spec fn denotes(lits: KeyTableView, texts: KeyTableView) -> bool {
    &&& literals_of(lits.fields, texts.fields)
    &&& literals_of(lits.variants, texts.variants)
    &&& lits.variant_fields.len() == texts.variant_fields.len()
    &&& forall|i: int|
        0 <= i < texts.variant_fields.len() ==> literals_of(
            #[trigger] lits.variant_fields[i],
            texts.variant_fields[i],
        )
}

fn quote_all(texts: &Vec<String>) -> (out: Vec<String>)
    ensures
        out@.len() == texts@.len(),
        literals_of(out.deep_view(), texts.deep_view()),
{
    let mut out: Vec<String> = Vec::new();
    let mut i: usize = 0;
    while i < texts.len()
        invariant
            i <= texts@.len(),
            out@.len() == i,
            out.deep_view().len() == i,
            forall|j: int|
                0 <= j < i ==> literal_value(#[trigger] out.deep_view()[j])
                    == Some(texts.deep_view()[j]),
        decreases texts@.len() - i,
    {
        let q = string_literal_text(texts[i].as_str());
        let ghost qv = q@;
        let ghost before = out.deep_view();
        out.push(q);
        assert(out.deep_view() =~= before.push(qv));
        i = i + 1;
    }
    out
}

/// Quotes every string of a table with `proc_macro2::Literal::string`, the
/// call that interpolating a `String` into `quote!` makes: each literal is a
/// string literal of the string at its place, however it is spelled.
pub fn quote_keys(texts: &KeyTable) -> (lits: KeyTable)
    ensures
        denotes(lits@, texts@),
{
    let fields = quote_all(&texts.fields);
    let variants = quote_all(&texts.variants);
    let mut variant_fields: Vec<Vec<String>> = Vec::new();
    let mut i: usize = 0;
    while i < texts.variant_fields.len()
        invariant
            i <= texts.variant_fields@.len(),
            variant_fields.deep_view().len() == i,
            forall|j: int|
                0 <= j < i ==> literals_of(
                    #[trigger] variant_fields.deep_view()[j],
                    texts@.variant_fields[j],
                ),
        decreases texts.variant_fields@.len() - i,
    {
        let q = quote_all(&texts.variant_fields[i]);
        assert(texts.variant_fields[i as int].deep_view() == texts@.variant_fields[i as int]);
        let ghost qv = q.deep_view();
        let ghost before = variant_fields.deep_view();
        variant_fields.push(q);
        assert(variant_fields.deep_view() =~= before.push(qv));
        i = i + 1;
    }
    KeyTable { fields, variants, variant_fields }
}

/// The law of quoted keys: when the fields' keys are quoted place by place,
/// the `k`-th entry of the field table is a literal of the key of a field that
/// is read, and the `k`-th identifier variant names that same field; the key
/// of every field that is read has its literal in the table.  So each field
/// is looked up under its own key (its rename, else its name).  (`lits[j]`
/// is the literal of field `j`.)
#[verifier::spinoff_prover]
pub proof fn lemma_field_table_quotes_read_keys(
    fs: Seq<FieldDecl>,
    lits: Seq<Seq<char>>,
    prefix: Seq<char>,
)
    requires
        literals_of(lits, field_keys_of(fs)),
    ensures
        forall|k: int|
            0 <= k < kept_texts(fs, lits).len() ==> exists|j: int|
                0 <= j < fs.len() && !fs[j].attrs.skip && literal_value(
                    #[trigger] kept_texts(fs, lits)[k],
                ) == Some(field_key(fs[j])) && kept_idents(fs, prefix)[k] == prefix + field_name(
                    fs[j],
                ),
        forall|j: int|
            0 <= j < fs.len() && !(#[trigger] fs[j]).attrs.skip ==> kept_texts(fs, lits).contains(
                lits[j],
            ) && literal_value(lits[j]) == Some(field_key(fs[j])),
{
    lemma_field_table_lists_read_fields(fs, lits, prefix);
    let kt = kept_texts(fs, lits);
    let ki = kept_idents(fs, prefix);
    let keys = field_keys_of(fs);
    assert forall|k: int| 0 <= k < kt.len() implies exists|j: int|
        0 <= j < fs.len() && !fs[j].attrs.skip && literal_value(#[trigger] kt[k]) == Some(
            field_key(fs[j]),
        ) && ki[k] == prefix + field_name(fs[j]) by {
        let j = choose|j: int|
            0 <= j < fs.len() && !fs[j].attrs.skip && #[trigger] kt[k] == lits[j] && ki[k] == prefix
                + field_name(fs[j]);
        assert(literal_value(lits[j]) == Some(keys[j]));
        assert(keys[j] == field_key(fs[j]));
    }
    assert forall|j: int| 0 <= j < fs.len() && !(#[trigger] fs[j]).attrs.skip implies kt.contains(
        lits[j],
    ) && literal_value(lits[j]) == Some(field_key(fs[j])) by {
        assert(literal_value(lits[j]) == Some(keys[j]));
        assert(keys[j] == field_key(fs[j]));
    }
}

/// Literals that quote the key strings of a declaration fill a table that
/// fits it.
pub proof fn lemma_denoting_tables_fit(decl: TypeDecl, lits: KeyTableView)
    requires
        denotes(lits, spec_key_texts(decl)),
    ensures
        table_fits(decl, lits),
{
    match decl.data {
        TypeData::Enum(e) => {
            let t = spec_key_texts(decl);
            assert forall|i: int| 0 <= i < e.variants@.len() implies (
            #[trigger] lits.variant_fields[i]).len() == e.variants@[i].fields.fields@.len() by {
                assert(literals_of(lits.variant_fields[i], t.variant_fields[i]));
            }
        },
        _ => {},
    }
}

/// The code derived for a declaration, with `keys` holding the literals of
/// the strings it quotes: unions are refused.
pub open spec fn spec_expand(decl: TypeDecl, keys: KeyTableView) -> Result<Seq<char>, DeriveError> {
    match decl.data {
        TypeData::Struct(s) => spec_derive_struct(decl, s, keys.fields),
        TypeData::Enum(e) => Ok(spec_derive_enum(decl, e, keys.variants, keys.variant_fields)),
        TypeData::Union => Err(DeriveError::UnionNotSupported),
    }
}

/// Writes the code derived for a declaration, quoting its keys and variant
/// names with the literals in `keys`.
pub fn expand_derive_deserialize_text(decl: &TypeDecl, keys: &KeyTable) -> (out: Result<
    String,
    DeriveError,
>)
    requires
        decl_wf(*decl),
        table_fits(*decl, keys@),
    ensures
        match (out, spec_expand(*decl, keys@)) {
            (Ok(t), Ok(s)) => t@ == s,
            (Err(e), Err(d)) => e == d,
            _ => false,
        },
{
    match &decl.data {
        TypeData::Struct(s) => derive_struct(decl, s, &keys.fields),
        TypeData::Enum(e) => Ok(derive_enum(decl, e, &keys.variants, &keys.variant_fields)),
        TypeData::Union => Err(DeriveError::UnionNotSupported),
    }
}

/// A transparent struct that does not have exactly one field.
pub open spec fn transparent_misfit(decl: TypeDecl) -> bool {
    &&& decl.attrs.transparent
    &&& decl.data matches TypeData::Struct(s) && !(s.fields.style != crate::model::FieldsStyle::Unit
        && s.fields.fields@.len() == 1)
}

/// The error a declaration is refused with, if it is refused.
pub open spec fn spec_refusal(decl: TypeDecl) -> Option<DeriveError> {
    if decl.data is Union {
        Some(DeriveError::UnionNotSupported)
    } else if transparent_misfit(decl) {
        Some(DeriveError::TransparentFieldCount)
    } else {
        None
    }
}

/// The law of refusal: the derive fails on a union, and on a transparent
/// struct that does not have exactly one field, with the error that says so
/// and its message; it succeeds on every other declaration, whatever the
/// literals of its keys.
pub proof fn lemma_derive_fails_exactly(decl: TypeDecl, keys: KeyTableView)
    ensures
        match spec_refusal(decl) {
            Some(e) => spec_expand(decl, keys) == Err::<Seq<char>, DeriveError>(e),
            None => spec_expand(decl, keys) is Ok,
        },
        decl.data is Union ==> spec_expand(decl, keys) is Err && crate::model::error_message(
            spec_expand(decl, keys)->Err_0,
        ) == "DeserializeState does not support unions"@,
        transparent_misfit(decl) ==> spec_expand(decl, keys) is Err && crate::model::error_message(
            spec_expand(decl, keys)->Err_0,
        ) == "transparent structs must have exactly one field"@,
        spec_expand(decl, keys) == Err::<Seq<char>, DeriveError>(DeriveError::UnionNotSupported)
            <==> decl.data is Union,
        spec_expand(decl, keys) == Err::<Seq<char>, DeriveError>(DeriveError::TransparentFieldCount)
            <==> transparent_misfit(decl),
        spec_expand(decl, keys) is Ok <==> !(decl.data is Union) && !transparent_misfit(decl),
{
}

/// The law of the declared predicates: the impl's `where` clause starts with
/// the predicates written in the declaration, unchanged and in their order;
/// the derive only appends to them.
pub proof fn lemma_declared_predicates_kept(decl: TypeDecl)
    ensures
        match decl.data {
            TypeData::Struct(s) => spec_struct_where(decl, s).take(
                decl.generics.where_clause@.len() as int,
            ) == decl.generics.where_clause.deep_view(),
            TypeData::Enum(e) => spec_enum_where(decl, e).take(
                decl.generics.where_clause@.len() as int,
            ) == decl.generics.where_clause.deep_view(),
            TypeData::Union => true,
        },
{
    let d = decl.generics.where_clause.deep_view();
    match decl.data {
        TypeData::Struct(s) => {
            let fs = s.fields.fields@;
            assert((d + read_bounds(decl, kept_field_types(fs)) + skipped_default_bounds(fs)).take(
                d.len() as int,
            ) =~= d);
        },
        TypeData::Enum(e) => {
            assert((d + read_bounds(decl, enum_field_types(e.variants@)) + enum_skipped_bounds(
                e.variants@,
            )).take(d.len() as int) =~= d);
        },
        TypeData::Union => {},
    }
}

/// The law of the state parameter: the impl's parameters are `'de`, then
/// the declared ones in their order, then `__State` (unsized allowed, with the
/// `state_implements` bound when there is one) exactly when no state type is
/// named; the impl's state is `__State` then, and the named type otherwise.
/// Written out, the parameter list starts with `<'de`.
pub proof fn lemma_impl_params(decl: TypeDecl, where_clause: Seq<WherePredicateView>)
    ensures
        ({
            let c = spec_ctx(decl, where_clause);
            let declared = decl.generics.params.deep_view();
            let ps = spec_add_state_param(c.params, c.with_state_param, c.state_bound);
            &&& ps[0] == lifetime_view("'de"@)
            &&& ps.subrange(1, declared.len() + 1int) == declared
            &&& ps.len() == declared.len() + 2 <==> decl.attrs.state is None
            &&& ps.len() == declared.len() + 1 <==> decl.attrs.state is Some
            &&& decl.attrs.state is None ==> ps.last() == crate::generics::state_param_view(
                opt_view(decl.attrs.state_bound),
            )
            &&& c.state_tokens == match decl.attrs.state {
                Some(s) => s@,
                None => "__State"@,
            }
            &&& impl_generics(c).take(4) == "<'de"@
        }),
{
    let c = spec_ctx(decl, where_clause);
    let declared = decl.generics.params.deep_view();
    let ps = spec_add_state_param(c.params, c.with_state_param, c.state_bound);
    let base = seq![lifetime_view("'de"@)] + declared;
    assert(ps.subrange(1, declared.len() + 1int) =~= declared);
    let rest = ps.subrange(1, ps.len() as int);
    assert(ps =~= seq![lifetime_view("'de"@)] + rest);
    crate::generics::lemma_generics_text_starts_with_lifetime("'de"@, rest, true);
    reveal_strlit("'de");
    reveal_strlit("<'de");
    assert("<"@ + "'de"@ =~= "<'de"@) by {
        reveal_strlit("<");
    }
}

/// The law of the plain `Deserialize` impl: it is written exactly when a
/// default state is named, and its `where` clause is the declared one with
/// `State: Default` added for that state.
pub proof fn lemma_default_impl_iff_default_state(decl: TypeDecl)
    ensures
        spec_default_deserialize_impl(decl) is Some <==> decl.attrs.default_state is Some,
        decl.attrs.default_state is None ==> default_impl_text(decl) == Seq::<char>::empty(),
        decl.attrs.default_state is Some ==> where_clause_text(
            decl.generics.where_clause.deep_view().push(
                WherePredicateView::Default { ty: decl.attrs.default_state->0@ },
            ),
        ) == "where "@ + crate::text::join(
            crate::generics::predicate_texts(decl.generics.where_clause.deep_view()).push(
                decl.attrs.default_state->0@ + ": ::core::default::Default"@,
            ),
            ", "@,
        ),
{
    let d = decl.generics.where_clause.deep_view();
    match decl.attrs.default_state {
        Some(st) => {
            let p = WherePredicateView::Default { ty: st@ };
            assert(d.push(p).drop_last() =~= d);
        },
        None => {},
    }
}

#[verifier::external_type_specification]
#[verifier::external_body]
pub struct ExTokenStream(proc_macro2::TokenStream);

#[verifier::external_type_specification]
#[verifier::external_body]
pub struct ExLexError(proc_macro2::LexError);

/// Turns Rust source text into tokens with `proc_macro2::TokenStream`'s
/// `FromStr` impl.
///
/// Nothing is claimed of the tokens or of when lexing fails: the tokens carry
/// the call site's spans, which depend on where the derive runs, and what the
/// lexer accepts is Rust's token grammar.  The function returns on every
/// input: in the version used, `proc_macro2` checks the text with its own lexer
/// before it hands it to the compiler and turns a panic of the compiler's lexer
/// into an error.
#[verifier::external_body]
fn lex_tokens(text: &str) -> Result<proc_macro2::TokenStream, proc_macro2::LexError> {
    text.parse::<proc_macro2::TokenStream>()
}

/// The code derived for a declaration, as text.  A refused declaration
/// gives its error; any other gives [`spec_expand`]'s text for a table of
/// literals that quote, place by place, its keys and variant names
/// ([`spec_key_texts`]), as `proc_macro2` writes them.
pub fn derived_code(decl: &TypeDecl) -> (out: Result<String, DeriveError>)
    requires
        decl_wf(*decl),
    ensures
        match spec_refusal(*decl) {
            Some(e) => out matches Err(d) && d == e,
            None => out matches Ok(t) && exists|keys: KeyTableView|
                #[trigger] denotes(keys, spec_key_texts(*decl)) && spec_expand(*decl, keys) == Ok::<
                    Seq<char>,
                    DeriveError,
                >(t@),
        },
{
    let texts = key_texts(decl);
    let keys = quote_keys(&texts);
    proof {
        lemma_denoting_tables_fit(*decl, keys@);
        lemma_derive_fails_exactly(*decl, keys@);
    }
    let out = expand_derive_deserialize_text(decl, &keys);
    proof {
        if spec_refusal(*decl) is None {
            assert(denotes(keys@, spec_key_texts(*decl)));
        }
    }
    out
}

/// Derives `DeserializeState` for a declaration and returns the code as
/// tokens.  Unions and transparent structs without exactly one field are
/// refused (see [`spec_refusal`]).  Otherwise the code is
/// [`derived_code`]'s, turned into tokens by the lexer, whose failure is
/// reported as [`DeriveError::Lex`].
pub fn expand_derive_deserialize(decl: &TypeDecl) -> (out: Result<proc_macro2::TokenStream, DeriveError>)
    requires
        decl_wf(*decl),
    ensures
        match spec_refusal(*decl) {
            Some(e) => out matches Err(d) && d == e,
            None => out is Ok || out matches Err(DeriveError::Lex),
        },
{
    let text = match derived_code(decl) {
        Ok(t) => t,
        Err(e) => return Err(e),
    };
    match lex_tokens(text.as_str()) {
        Ok(tokens) => Ok(tokens),
        Err(_) => Err(DeriveError::Lex),
    }
}

} // verus!
