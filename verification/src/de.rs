//! The bodies of the generated `deserialize_state`: one generator for each
//! shape of struct, and one for enums, with the visitors they need.

use vstd::prelude::*;
use crate::generics::{
    generics_text, generics_tokens, opt_ref_view, phantom_type, quote_where_clause,
    spec_phantom_type, spec_state_bound_clause, spec_visitor_impl_generics,
    spec_visitor_struct_generics, spec_visitor_type_generics, state_bound_clause,
    visitor_impl_generics_tokens, visitor_struct_generics_tokens, where_clause_text,
};
use crate::model::{
    field_ident, field_name, DeriveError, FieldDecl, FieldsDecl, FieldsStyle,
    GenericParamView, Generics, ItemMode, VariantDecl, WherePredicate, WherePredicateView,
    EnumDecl,
};
use crate::text::{
    lemma_occurs_between, lemma_occurs_in_concat, occurs_in, decimal, decimal_string, is_digit, lemma_decimal_digits, lemma_decimal_injective,
    lemma_digits_then_rest,
};

verus! {

/// What the generators share: the declared type, its generics, the state and
/// the `where` clause of the impl.
pub struct Ctx<'a> {
    pub ident: &'a String,
    pub generics: &'a Generics,
    /// The state type as written in the impl (`__State` when it is generic).
    pub state_tokens: &'a String,
    /// The state type named by `#[serde_state(state = ..)]`.
    pub explicit_state: Option<&'a String>,
    /// Whether the impl and the visitors take the generic `__State` parameter.
    pub with_state_param: bool,
    /// The bound named by `#[serde_state(state_implements = ..)]`.
    pub state_bound: Option<&'a String>,
    pub where_clause: &'a Vec<WherePredicate>,
}

/// A [`Ctx`] as text, for contracts.  Of the declaration's generics it keeps
/// the parameters only: the generators write the impl's `where` clause
/// (`where_clause`), never the declared one on its own.
pub ghost struct CtxView {
    pub ident: Seq<char>,
    pub params: Seq<GenericParamView>,
    pub state_tokens: Seq<char>,
    pub explicit_state: Option<Seq<char>>,
    pub with_state_param: bool,
    pub state_bound: Option<Seq<char>>,
    pub where_clause: Seq<WherePredicateView>,
}

impl<'a> View for Ctx<'a> {
    type V = CtxView;

    open spec fn view(&self) -> CtxView {
        CtxView {
            ident: self.ident@,
            params: self.generics.params.deep_view(),
            state_tokens: self.state_tokens@,
            explicit_state: opt_ref_view(self.explicit_state),
            with_state_param: self.with_state_param,
            state_bound: opt_ref_view(self.state_bound),
            where_clause: self.where_clause.deep_view(),
        }
    }
}

/// The parameter list with which a visitor struct is declared.
pub open spec fn vsg(c: CtxView) -> Seq<char> {
    spec_visitor_struct_generics(c.params, c.with_state_param, c.state_bound)
}

/// The visitor's arguments.
pub open spec fn vtg(c: CtxView) -> Seq<char> {
    spec_visitor_type_generics(c.params, c.with_state_param, c.state_bound)
}

/// The parameter list of a visitor's `Visitor<'de>` impl.
pub open spec fn vig(c: CtxView) -> Seq<char> {
    spec_visitor_impl_generics(c.params, c.with_state_param, c.state_bound)
}

/// The arguments of the declared type.
pub open spec fn tyg(c: CtxView) -> Seq<char> {
    generics_text(c.params, false)
}

/// The `where` clause of the impl and of the visitors.
pub open spec fn wc(c: CtxView) -> Seq<char> {
    where_clause_text(c.where_clause)
}

fn ctx_vsg(c: &Ctx) -> (out: String)
    ensures
        out@ == vsg(c@),
{
    visitor_struct_generics_tokens(c.generics, c.with_state_param, c.state_bound).0
}

fn ctx_vtg(c: &Ctx) -> (out: String)
    ensures
        out@ == vtg(c@),
{
    visitor_struct_generics_tokens(c.generics, c.with_state_param, c.state_bound).1
}

fn ctx_vig(c: &Ctx) -> (out: String)
    ensures
        out@ == vig(c@),
{
    visitor_impl_generics_tokens(c.generics, c.with_state_param, c.state_bound).0
}

pub fn ctx_tyg(c: &Ctx) -> (out: String)
    ensures
        out@ == tyg(c@),
{
    generics_tokens(&c.generics.params, false)
}

pub fn ctx_wc(c: &Ctx) -> (out: String)
    ensures
        out@ == wc(c@),
{
    quote_where_clause(c.where_clause)
}

fn ctx_phantom(c: &Ctx) -> (out: String)
    ensures
        out@ == spec_phantom_type(c@.ident, c@.params),
{
    phantom_type(c.ident, c.generics)
}

/// The number of fields among the first `n` that are read (not skipped).
pub open spec fn kept_count(fs: Seq<FieldDecl>, n: nat) -> nat
    decreases n,
{
    if n == 0 {
        0
    } else {
        kept_count(fs, (n - 1) as nat) + if fs[n - 1].attrs.skip {
            0nat
        } else {
            1nat
        }
    }
}

/// The number of fields that are read.
pub fn kept_len(fields: &Vec<FieldDecl>) -> (k: usize)
    ensures
        k == kept_count(fields@, fields@.len() as nat),
{
    let n = fields.len();
    let mut k: usize = 0;
    let mut i: usize = 0;
    while i < n
        invariant
            n == fields@.len(),
            i <= n,
            k == kept_count(fields@, i as nat),
            k <= i,
        decreases n - i,
    {
        if !fields[i].attrs.skip {
            k = k + 1;
        }
        i = i + 1;
    }
    k
}

/// Every field of the list has a name.
pub open spec fn all_named(fs: Seq<FieldDecl>) -> bool {
    forall|i: int| 0 <= i < fs.len() ==> (#[trigger] fs[i]).ident is Some
}

/// The `with` path of a field (empty when it has none).
pub open spec fn with_path(f: FieldDecl) -> Seq<char> {
    match f.attrs.with {
        Some(w) => w@,
        None => seq![],
    }
}

fn field_with(f: &FieldDecl) -> (w: &String)
    requires
        f.attrs.with is Some,
    ensures
        w@ == with_path(*f),
{
    match &f.attrs.with {
        Some(w) => w,
        None => { proof { assert(false); } unreached() },
    }
}

/// The key literals of the fields that are read, in their order; `lits`
/// holds one literal per field, by position.
pub open spec fn kept_texts(fs: Seq<FieldDecl>, lits: Seq<Seq<char>>) -> Seq<Seq<char>>
    decreases fs.len(),
{
    if fs.len() == 0 {
        seq![]
    } else if fs.last().attrs.skip {
        kept_texts(fs.drop_last(), lits)
    } else {
        kept_texts(fs.drop_last(), lits).push(lits[fs.len() - 1])
    }
}

/// `prefix` followed by the name of each field that is read, in their order.
pub open spec fn kept_idents(fs: Seq<FieldDecl>, prefix: Seq<char>) -> Seq<Seq<char>>
    decreases fs.len(),
{
    if fs.len() == 0 {
        seq![]
    } else if fs.last().attrs.skip {
        kept_idents(fs.drop_last(), prefix)
    } else {
        kept_idents(fs.drop_last(), prefix).push(prefix + field_name(fs.last()))
    }
}

fn push_text(v: &mut Vec<String>, s: String)
    ensures
        final(v).deep_view() == old(v).deep_view().push(s@),
        final(v)@.len() == old(v)@.len() + 1,
{
    let ghost sv = s@;
    v.push(s);
    assert(v.deep_view() =~= old(v).deep_view().push(sv));
}

/// The literals under which the fields that are read are looked up.
pub fn field_key_literals(fields: &Vec<FieldDecl>, lits: &Vec<String>) -> (r: Vec<String>)
    requires
        lits@.len() == fields@.len(),
    ensures
        r.deep_view() == kept_texts(fields@, lits.deep_view()),
{
    let mut r: Vec<String> = Vec::new();
    let n = fields.len();
    let mut i: usize = 0;
    while i < n
        invariant
            n == fields@.len(),
            n == lits@.len(),
            i <= n,
            r.deep_view() == kept_texts(fields@.take(i as int), lits.deep_view()),
        decreases n - i,
    {
        assert(fields@.take(i + 1).drop_last() =~= fields@.take(i as int));
        let f = &fields[i];
        if !f.attrs.skip {
            push_text(&mut r, lits[i].clone());
        }
        i = i + 1;
    }
    assert(fields@.take(n as int) =~= fields@);
    r
}

/// The variants of the identifier enum for the fields that are read.
pub fn field_variant_idents(fields: &Vec<FieldDecl>, prefix: &str) -> (r: Vec<String>)
    requires
        all_named(fields@),
    ensures
        r.deep_view() == kept_idents(fields@, prefix@),
{
    let mut r: Vec<String> = Vec::new();
    let n = fields.len();
    let mut i: usize = 0;
    while i < n
        invariant
            n == fields@.len(),
            i <= n,
            all_named(fields@),
            r.deep_view() == kept_idents(fields@.take(i as int), prefix@),
        decreases n - i,
    {
        assert(fields@.take(i + 1).drop_last() =~= fields@.take(i as int));
        let f = &fields[i];
        if !f.attrs.skip {
            let mut s = String::from_str(prefix);
            s.append(field_ident(f).as_str());
            push_text(&mut r, s);
        }
        i = i + 1;
    }
    assert(fields@.take(n as int) =~= fields@);
    r
}

/// The names of the variants, in their order.
pub open spec fn variant_names(vs: Seq<VariantDecl>) -> Seq<Seq<char>>
    decreases vs.len(),
{
    if vs.len() == 0 {
        seq![]
    } else {
        variant_names(vs.drop_last()).push(vs.last().ident@)
    }
}

/// The `i`-th variant name is the name of the `i`-th variant.
pub proof fn lemma_variant_names(vs: Seq<VariantDecl>)
    ensures
        variant_names(vs).len() == vs.len(),
        forall|i: int| 0 <= i < vs.len() ==> #[trigger] variant_names(vs)[i] == vs[i].ident@,
    decreases vs.len(),
{
    if vs.len() > 0 {
        lemma_variant_names(vs.drop_last());
        assert forall|i: int| 0 <= i < vs.len() implies #[trigger] variant_names(vs)[i] == vs[i].ident@ by {
            if i < vs.len() - 1 {
                assert(vs.drop_last()[i] == vs[i]);
            }
        }
    }
}

/// The key table and the identifier variants of a field list have one entry
/// per field that is read.
pub proof fn lemma_kept_lists_len(fs: Seq<FieldDecl>, lits: Seq<Seq<char>>, prefix: Seq<char>)
    ensures
        kept_texts(fs, lits).len() == kept_idents(fs, prefix).len(),
        kept_texts(fs, lits).len() == kept_count(fs, fs.len() as nat),
    decreases fs.len(),
{
    if fs.len() > 0 {
        lemma_kept_lists_len(fs.drop_last(), lits, prefix);
        lemma_kept_count_prefix(fs, (fs.len() - 1) as nat);
    }
}

/// The law of the field table: its `k`-th key literal and the `k`-th
/// identifier variant belong to one and the same field, one that is read;
/// and the literal of every field that is read is in the table.  Skipped
/// fields are never looked up.
pub proof fn lemma_field_table_lists_read_fields(
    fs: Seq<FieldDecl>,
    lits: Seq<Seq<char>>,
    prefix: Seq<char>,
)
    ensures
        forall|k: int|
            0 <= k < kept_texts(fs, lits).len() ==> exists|j: int|
                0 <= j < fs.len() && !fs[j].attrs.skip && #[trigger] kept_texts(fs, lits)[k]
                    == lits[j] && kept_idents(fs, prefix)[k] == prefix + field_name(fs[j]),
        forall|j: int|
            0 <= j < fs.len() && !(#[trigger] fs[j]).attrs.skip ==> kept_texts(
                fs,
                lits,
            ).contains(lits[j]),
    decreases fs.len(),
{
    lemma_kept_lists_len(fs, lits, prefix);
    if fs.len() > 0 {
        let prev = fs.drop_last();
        lemma_field_table_lists_read_fields(prev, lits, prefix);
        lemma_kept_lists_len(prev, lits, prefix);
        let kp = kept_texts(prev, lits);
        let kf = kept_texts(fs, lits);
        let ip = kept_idents(prev, prefix);
        let if_ = kept_idents(fs, prefix);
        assert forall|k: int| 0 <= k < kf.len() implies exists|j: int|
            0 <= j < fs.len() && !fs[j].attrs.skip && #[trigger] kf[k] == lits[j] && if_[k]
                == prefix + field_name(fs[j]) by {
            if k < kp.len() {
                let j = choose|j: int|
                    0 <= j < prev.len() && !prev[j].attrs.skip && #[trigger] kp[k] == lits[j]
                        && ip[k] == prefix + field_name(prev[j]);
                assert(fs[j] == prev[j]);
            } else {
                assert(fs[fs.len() - 1] == fs.last());
            }
        }
        assert forall|j: int| 0 <= j < fs.len() && !(#[trigger] fs[j]).attrs.skip implies kf.contains(
            lits[j],
        ) by {
            let t = lits[j];
            if j < prev.len() {
                assert(prev[j] == fs[j]);
                assert(kp.contains(t));
                let k = choose|k: int| 0 <= k < kp.len() && kp[k] == t;
                if !fs.last().attrs.skip {
                    assert(kf[k] == t);
                }
            } else {
                assert(kf[kf.len() - 1] == t);
            }
        }
    }
}

/// A field that is read sits in the field table and among the identifier
/// variants at the position given by the number of fields read before it.
pub proof fn lemma_kept_position(fs: Seq<FieldDecl>, lits: Seq<Seq<char>>, prefix: Seq<char>, j: int)
    requires
        0 <= j < fs.len(),
        !fs[j].attrs.skip,
    ensures
        kept_count(fs, j as nat) < kept_texts(fs, lits).len(),
        kept_texts(fs, lits)[kept_count(fs, j as nat) as int] == lits[j],
        kept_idents(fs, prefix)[kept_count(fs, j as nat) as int] == prefix + field_name(fs[j]),
    decreases fs.len(),
{
    let prev = fs.drop_last();
    let last = fs.len() - 1;
    lemma_kept_lists_len(fs, lits, prefix);
    lemma_kept_lists_len(prev, lits, prefix);
    lemma_kept_count_prefix(fs, (fs.len() - 1) as nat);
    if j == last {
        assert(kept_count(prev, prev.len() as nat) == kept_count(fs, j as nat));
    } else {
        lemma_kept_position(prev, lits, prefix, j);
        assert(prev[j] == fs[j]);
        lemma_kept_count_prefix(fs, j as nat);
        lemma_kept_count_prefix(prev, j as nat);
        assert(fs.take(j as int) =~= prev.take(j as int));
    }
}

/// `kept_count` over the first `n` fields only looks at those fields.
pub proof fn lemma_kept_count_prefix(fs: Seq<FieldDecl>, n: nat)
    requires
        n <= fs.len(),
    ensures
        kept_count(fs, n) == kept_count(fs.take(n as int), n),
        n < fs.len() ==> kept_count(fs.drop_last(), n) == kept_count(fs, n),
    decreases n,
{
    if n > 0 {
        lemma_kept_count_prefix(fs, (n - 1) as nat);
        lemma_kept_count_prefix(fs.take(n as int), (n - 1) as nat);
        assert(fs.take(n as int).take((n - 1) as int) =~= fs.take((n - 1) as int));
        if n < fs.len() {
            lemma_kept_count_prefix(fs.drop_last(), (n - 1) as nat);
            assert(fs.drop_last().take((n - 1) as int) =~= fs.take((n - 1) as int));
        }
    }
}

pub fn variant_name_list(variants: &Vec<VariantDecl>) -> (r: Vec<String>)
    ensures
        r.deep_view() == variant_names(variants@),
        r@.len() == variants@.len(),
{
    let mut r: Vec<String> = Vec::new();
    let n = variants.len();
    let mut i: usize = 0;
    while i < n
        invariant
            n == variants@.len(),
            i <= n,
            r.deep_view() == variant_names(variants@.take(i as int)),
            r@.len() == i,
        decreases n - i,
    {
        assert(variants@.take(i + 1).drop_last() =~= variants@.take(i as int));
        push_text(&mut r, variants[i].ident.clone());
        i = i + 1;
    }
    assert(variants@.take(n as int) =~= variants@);
    r
}

/// The end of a `with` seed: its value type, a `deserialize` that calls the
/// module's `deserialize_state` with the seed's state, and the seed itself.
pub open spec fn spec_seed_impl_tail(ty: Seq<char>, with: Seq<char>) -> Seq<char> {
    "type Value = "@
        + ty
        + ";\nfn deserialize<__D>(self, __deserializer: __D,) -> ::core::result::Result<Self::Value, __D::Error>\nwhere\n__D: _serde::Deserializer<'de>,\n{\n"@
        + with
        + "::deserialize_state(self.state, __deserializer)\n}\n}\n__SerdeStateWithSeed { state }\n}"@
}

fn seed_impl_tail(ty: &str, with: &str) -> (out: String)
    ensures
        out@ == spec_seed_impl_tail(ty@, with@),
{
    let mut out = String::from_str("type Value = ");
    out.append(ty);
    out.append(";\nfn deserialize<__D>(self, __deserializer: __D,) -> ::core::result::Result<Self::Value, __D::Error>\nwhere\n__D: _serde::Deserializer<'de>,\n{\n");
    out.append(with);
    out.append("::deserialize_state(self.state, __deserializer)\n}\n}\n__SerdeStateWithSeed { state }\n}");
    out
}

/// A seed that reads with the `with` module, for a fixed state type.
pub open spec fn spec_seed_for_explicit_state(ty: Seq<char>, with: Seq<char>, state_ty: Seq<char>) -> Seq<char> {
    "{\nstruct __SerdeStateWithSeed<'state> {\nstate: &'state "@
        + state_ty
        + ",\n}\nimpl<'de, 'state> _serde::de::DeserializeSeed<'de> for __SerdeStateWithSeed<'state> {\n"@
        + spec_seed_impl_tail(ty, with)
}

fn seed_for_explicit_state(ty: &str, with: &str, state_ty: &str) -> (out: String)
    ensures
        out@ == spec_seed_for_explicit_state(ty@, with@, state_ty@),
{
    let mut out = String::from_str("{\nstruct __SerdeStateWithSeed<'state> {\nstate: &'state ");
    out.append(state_ty);
    out.append(",\n}\nimpl<'de, 'state> _serde::de::DeserializeSeed<'de> for __SerdeStateWithSeed<'state> {\n");
    let t0 = seed_impl_tail(ty, with);
    out.append(t0.as_str());
    out
}

/// A seed that reads with the `with` module, for any state that has the bound.
pub open spec fn spec_seed_for_generic_state(ty: Seq<char>, with: Seq<char>, bound: Seq<char>) -> Seq<char> {
    "{\nstruct __SerdeStateWithSeed<'state, State: ?Sized"@
        + bound
        + "> {\nstate: &'state State,\n}\nimpl<'de, 'state, State: ?Sized"@
        + bound
        + "> _serde::de::DeserializeSeed<'de> for __SerdeStateWithSeed<'state, State> {\n"@
        + spec_seed_impl_tail(ty, with)
}

fn seed_for_generic_state(ty: &str, with: &str, bound: &str) -> (out: String)
    ensures
        out@ == spec_seed_for_generic_state(ty@, with@, bound@),
{
    let mut out = String::from_str("{\nstruct __SerdeStateWithSeed<'state, State: ?Sized");
    out.append(bound);
    out.append("> {\nstate: &'state State,\n}\nimpl<'de, 'state, State: ?Sized");
    out.append(bound);
    out.append("> _serde::de::DeserializeSeed<'de> for __SerdeStateWithSeed<'state, State> {\n");
    let t0 = seed_impl_tail(ty, with);
    out.append(t0.as_str());
    out
}

/// The seed that reads a field through its `with` module, handing it the
/// state.
pub open spec fn spec_with_deserialize_seed(f: FieldDecl, c: CtxView) -> Seq<char> {
    match c.explicit_state {
        Some(st) => spec_seed_for_explicit_state(f.ty@, with_path(f), st),
        None => spec_seed_for_generic_state(
            f.ty@,
            with_path(f),
            spec_state_bound_clause(c.state_bound),
        ),
    }
}

/// The law of `with` seeds: the seed built for a field with a `with` module
/// reads by calling that module's `deserialize_state` with the state the seed
/// holds, whether the state type is named or generic.
#[verifier::spinoff_prover]
pub proof fn lemma_with_seed_calls_module(f: FieldDecl, c: CtxView)
    ensures
        occurs_in(
            with_path(f)
                + "::deserialize_state(self.state, __deserializer)\n}\n}\n__SerdeStateWithSeed { state }\n}"@,
            spec_with_deserialize_seed(f, c),
        ),
        exists|h: Seq<char>|
            h + with_path(f)
                + "::deserialize_state(self.state, __deserializer)\n}\n}\n__SerdeStateWithSeed { state }\n}"@
                == spec_with_deserialize_seed(f, c),
{
    let w = with_path(f);
    let part = w
        + "::deserialize_state(self.state, __deserializer)\n}\n}\n__SerdeStateWithSeed { state }\n}"@;
    let e = Seq::<char>::empty();
    let a1 = "type Value = "@ + f.ty@
        + ";\nfn deserialize<__D>(self, __deserializer: __D,) -> ::core::result::Result<Self::Value, __D::Error>\nwhere\n__D: _serde::Deserializer<'de>,\n{\n"@;
    let tail = spec_seed_impl_tail(f.ty@, w);
    lemma_occurs_between(part, a1, e);
    assert(a1 + part + e =~= tail);
    match c.explicit_state {
        Some(st) => {
            let p = "{\nstruct __SerdeStateWithSeed<'state> {\nstate: &'state "@ + st
                + ",\n}\nimpl<'de, 'state> _serde::de::DeserializeSeed<'de> for __SerdeStateWithSeed<'state> {\n"@;
            lemma_occurs_in_concat(part, p, tail, e);
            assert(spec_with_deserialize_seed(f, c) == p + tail);
            assert(p + tail + e =~= p + tail);
            assert((p + a1) + w
                + "::deserialize_state(self.state, __deserializer)\n}\n}\n__SerdeStateWithSeed { state }\n}"@
                =~= spec_with_deserialize_seed(f, c));
        },
        None => {
            let bound = spec_state_bound_clause(c.state_bound);
            let p = "{\nstruct __SerdeStateWithSeed<'state, State: ?Sized"@ + bound
                + "> {\nstate: &'state State,\n}\nimpl<'de, 'state, State: ?Sized"@ + bound
                + "> _serde::de::DeserializeSeed<'de> for __SerdeStateWithSeed<'state, State> {\n"@;
            lemma_occurs_in_concat(part, p, tail, e);
            assert(spec_with_deserialize_seed(f, c) == p + tail);
            assert(p + tail + e =~= p + tail);
            assert((p + a1) + w
                + "::deserialize_state(self.state, __deserializer)\n}\n}\n__SerdeStateWithSeed { state }\n}"@
                =~= spec_with_deserialize_seed(f, c));
        },
    }
}

pub fn with_deserialize_seed(f: &FieldDecl, c: &Ctx) -> (out: String)
    requires
        f.attrs.with is Some,
    ensures
        out@ == spec_with_deserialize_seed(*f, c@),
{
    let w = field_with(f);
    match c.explicit_state {
        Some(st) => seed_for_explicit_state(f.ty.as_str(), w.as_str(), st.as_str()),
        None => {
            let b = state_bound_clause(c.state_bound);
            seed_for_generic_state(f.ty.as_str(), w.as_str(), b.as_str())
        },
    }
}

/// The seed that reads a value of `ty` through the state held in `state_var`.
pub open spec fn spec_wrap_seed(ty: Seq<char>, state_ty: Seq<char>, state_var: Seq<char>) -> Seq<char> {
    "_serde_state::__private::wrap_deserialize_seed::<"@
        + ty
        + ", "@
        + state_ty
        + ">("@
        + state_var
        + ")"@
}

fn wrap_seed(ty: &str, state_ty: &str, state_var: &str) -> (out: String)
    ensures
        out@ == spec_wrap_seed(ty@, state_ty@, state_var@),
{
    let mut out = String::from_str("_serde_state::__private::wrap_deserialize_seed::<");
    out.append(ty);
    out.append(", ");
    out.append(state_ty);
    out.append(">(");
    out.append(state_var);
    out.append(")");
    out
}

/// Binds the next element of the sequence, failing with its position when there is none.
pub open spec fn spec_seq_match_tail(binding: Seq<char>, call: Seq<char>, idx: Seq<char>) -> Seq<char> {
    "let "@
        + binding
        + " = match "@
        + call
        + "? {\n::core::option::Option::Some(value) => value,\n::core::option::Option::None => return ::core::result::Result::Err(_serde::de::Error::invalid_length("@
        + idx
        + ", &self)),\n};\n"@
}

fn seq_match_tail(binding: &str, call: &str, idx: &str) -> (out: String)
    ensures
        out@ == spec_seq_match_tail(binding@, call@, idx@),
{
    let mut out = String::from_str("let ");
    out.append(binding);
    out.append(" = match ");
    out.append(call);
    out.append("? {\n::core::option::Option::Some(value) => value,\n::core::option::Option::None => return ::core::result::Result::Err(_serde::de::Error::invalid_length(");
    out.append(idx);
    out.append(", &self)),\n};\n");
    out
}

/// Asks the sequence for its next element as `ty`, with plain serde.
pub open spec fn spec_next_element_call(ty: Seq<char>) -> Seq<char> {
    "_serde::de::SeqAccess::next_element::<"@
        + ty
        + ">(&mut __seq)"@
}

fn next_element_call(ty: &str) -> (out: String)
    ensures
        out@ == spec_next_element_call(ty@),
{
    let mut out = String::from_str("_serde::de::SeqAccess::next_element::<");
    out.append(ty);
    out.append(">(&mut __seq)");
    out
}

/// Reads the next element of a sequence through the field's `with` module.
pub open spec fn spec_seq_read_with(f: FieldDecl, binding: Seq<char>, idx: Seq<char>, c: CtxView) -> Seq<char> {
    "let __seed = "@
        + spec_with_deserialize_seed(f, c)
        + ";\n"@
        + spec_seq_match_tail(binding, "_serde::de::SeqAccess::next_element_seed(&mut __seq, __seed)"@, idx)
}

fn seq_read_with(f: &FieldDecl, binding: &str, idx: &str, c: &Ctx) -> (out: String)
    requires
        f.attrs.with is Some,
    ensures
        out@ == spec_seq_read_with(*f, binding@, idx@, c@),
{
    let mut out = String::from_str("let __seed = ");
    let t0 = with_deserialize_seed(f, c);
    out.append(t0.as_str());
    out.append(";\n");
    let t1 = seq_match_tail(binding, "_serde::de::SeqAccess::next_element_seed(&mut __seq, __seed)", idx);
    out.append(t1.as_str());
    out
}

/// Reads the next element of a sequence through the state.
pub open spec fn spec_seq_read_stateful(f: FieldDecl, binding: Seq<char>, idx: Seq<char>, c: CtxView) -> Seq<char> {
    "let __seed = "@
        + spec_wrap_seed(f.ty@, c.state_tokens, "state"@)
        + ";\n"@
        + spec_seq_match_tail(binding, "_serde::de::SeqAccess::next_element_seed(&mut __seq, __seed)"@, idx)
}

fn seq_read_stateful(f: &FieldDecl, binding: &str, idx: &str, c: &Ctx) -> (out: String)
    ensures
        out@ == spec_seq_read_stateful(*f, binding@, idx@, c@),
{
    let mut out = String::from_str("let __seed = ");
    let t0 = wrap_seed(f.ty.as_str(), c.state_tokens.as_str(), "state");
    out.append(t0.as_str());
    out.append(";\n");
    let t1 = seq_match_tail(binding, "_serde::de::SeqAccess::next_element_seed(&mut __seq, __seed)", idx);
    out.append(t1.as_str());
    out
}

/// Reads the next element of a sequence with plain serde.
pub open spec fn spec_seq_read_stateless(f: FieldDecl, binding: Seq<char>, idx: Seq<char>) -> Seq<char> {
    spec_seq_match_tail(binding, spec_next_element_call(f.ty@), idx)
}

fn seq_read_stateless(f: &FieldDecl, binding: &str, idx: &str) -> (out: String)
    ensures
        out@ == spec_seq_read_stateless(*f, binding@, idx@),
{
    let mut out = seq_match_tail(binding, next_element_call(f.ty.as_str()).as_str(), idx);
    out
}

/// Reads one element of a sequence into `binding`: through the field's
/// `with` module if it has one, else through the state (stateful) or with
/// plain serde (stateless); `idx` is the element's position as written.
pub open spec fn spec_seq_element_read(f: FieldDecl, binding: Seq<char>, idx: Seq<char>, c: CtxView) -> Seq<
    char,
> {
    match f.attrs.with {
        Some(_) => spec_seq_read_with(f, binding, idx, c),
        None => match f.mode {
            ItemMode::Stateful => spec_seq_read_stateful(f, binding, idx, c),
            ItemMode::Stateless => spec_seq_read_stateless(f, binding, idx),
        },
    }
}

/// The law of sequence reads: the next element of a sequence is bound to
/// `binding` and read the way the field says: through a seed that calls the
/// field's `with` module, handed the state; through a `wrap_deserialize_seed`
/// over the visitor's state (stateful); or with plain serde (stateless). A
/// missing element fails with the position `idx`.
#[verifier::spinoff_prover]
pub proof fn lemma_seq_element_reads_in_field_mode(f: FieldDecl, binding: Seq<char>, idx: Seq<char>, c: CtxView)
    ensures
        ({
            let t = spec_seq_element_read(f, binding, idx, c);
            let seeded = "let "@ + binding + " = match "@ + "_serde::de::SeqAccess::next_element_seed(&mut __seq, __seed)"@
                + "? {\n::core::option::Option::Some(value) => value,\n::core::option::Option::None => return ::core::result::Result::Err(_serde::de::Error::invalid_length("@ + idx + ", &self)),\n};\n"@;
            &&& f.attrs.with is Some ==> occurs_in(
                with_path(f)
                    + "::deserialize_state(self.state, __deserializer)\n}\n}\n__SerdeStateWithSeed { state }\n}"@
                    + ";\n"@ + seeded,
                t,
            )
            &&& f.attrs.with is None && f.mode == ItemMode::Stateful ==> t == "let __seed = "@
                + "_serde_state::__private::wrap_deserialize_seed::<"@ + f.ty@ + ", "@ + c.state_tokens + ">("@
                + "state"@ + ")"@ + ";\n"@ + seeded
            &&& f.attrs.with is None && f.mode == ItemMode::Stateless ==> t == "let "@ + binding + " = match "@
                + "_serde::de::SeqAccess::next_element::<"@ + f.ty@ + ">(&mut __seq)"@
                + "? {\n::core::option::Option::Some(value) => value,\n::core::option::Option::None => return ::core::result::Result::Err(_serde::de::Error::invalid_length("@ + idx + ", &self)),\n};\n"@
        }),
{
    let t = spec_seq_element_read(f, binding, idx, c);
    let seeded = "let "@ + binding + " = match "@ + "_serde::de::SeqAccess::next_element_seed(&mut __seq, __seed)"@
        + "? {\n::core::option::Option::Some(value) => value,\n::core::option::Option::None => return ::core::result::Result::Err(_serde::de::Error::invalid_length("@ + idx + ", &self)),\n};\n"@;
    if f.attrs.with is Some {
        lemma_with_seed_calls_module(f, c);
        let lit = "::deserialize_state(self.state, __deserializer)\n}\n}\n__SerdeStateWithSeed { state }\n}"@;
        let h = choose|h: Seq<char>| h + with_path(f) + lit == spec_with_deserialize_seed(f, c);
        let part = with_path(f) + lit + ";\n"@ + seeded;
        let a = "let __seed = "@ + h;
        let e = Seq::<char>::empty();
        assert(t == spec_seq_read_with(f, binding, idx, c));
        assert(a + part + e =~= t);
        lemma_occurs_between(part, a, e);
    } else if f.mode == ItemMode::Stateful {
        assert(t =~= "let __seed = "@
            + "_serde_state::__private::wrap_deserialize_seed::<"@ + f.ty@ + ", "@ + c.state_tokens + ">("@
            + "state"@ + ")"@ + ";\n"@ + seeded);
    } else {
        assert(t =~= "let "@ + binding + " = match "@
            + "_serde::de::SeqAccess::next_element::<"@ + f.ty@ + ">(&mut __seq)"@
            + "? {\n::core::option::Option::Some(value) => value,\n::core::option::Option::None => return ::core::result::Result::Err(_serde::de::Error::invalid_length("@ + idx + ", &self)),\n};\n"@);
    }
}

pub fn seq_element_read(f: &FieldDecl, binding: &str, idx: &str, c: &Ctx) -> (out: String)
    ensures
        out@ == spec_seq_element_read(*f, binding@, idx@, c@),
{
    match &f.attrs.with {
        Some(_) => seq_read_with(f, binding, idx, c),
        None => match f.mode {
            ItemMode::Stateful => seq_read_stateful(f, binding, idx, c),
            ItemMode::Stateless => seq_read_stateless(f, binding, idx),
        },
    }
}

/// The position `i` written as a `usize` literal.
pub open spec fn usize_literal(i: usize) -> Seq<char> {
    decimal(i as nat) + "usize"@
}

fn usize_literal_text(i: usize) -> (out: String)
    ensures
        out@ == usize_literal(i),
{
    let mut out = decimal_string(i);
    out.append("usize");
    out
}

/// An element of a tuple struct or variant read through the state, with the
/// seed handed straight to `next_element_seed`.
pub open spec fn spec_tuple_read_stateful(f: FieldDecl, binding: Seq<char>, idx: Seq<char>, c: CtxView) -> Seq<char> {
    spec_seq_match_tail(
        binding,
        "_serde::de::SeqAccess::next_element_seed(&mut __seq, "@ + spec_wrap_seed(
            f.ty@,
            c.state_tokens,
            "state"@,
        ) + ",)"@,
        idx,
    )
}

fn tuple_read_stateful(f: &FieldDecl, binding: &str, idx: &str, c: &Ctx) -> (out: String)
    ensures
        out@ == spec_tuple_read_stateful(*f, binding@, idx@, c@),
{
    let mut call = String::from_str("_serde::de::SeqAccess::next_element_seed(&mut __seq, ");
    let seed = wrap_seed(f.ty.as_str(), c.state_tokens.as_str(), "state");
    call.append(seed.as_str());
    call.append(",)");
    seq_match_tail(binding, call.as_str(), idx)
}

/// Reads one element of a tuple struct or variant into `binding`: as
/// [`spec_seq_element_read`] does, except that a stateful element's seed is
/// passed inline.
pub open spec fn spec_tuple_element_read(f: FieldDecl, binding: Seq<char>, idx: Seq<char>, c: CtxView) -> Seq<char> {
    match f.attrs.with {
        Some(_) => spec_seq_read_with(f, binding, idx, c),
        None => match f.mode {
            ItemMode::Stateful => spec_tuple_read_stateful(f, binding, idx, c),
            ItemMode::Stateless => spec_seq_read_stateless(f, binding, idx),
        },
    }
}

fn tuple_element_read(f: &FieldDecl, binding: &str, idx: &str, c: &Ctx) -> (out: String)
    ensures
        out@ == spec_tuple_element_read(*f, binding@, idx@, c@),
{
    match &f.attrs.with {
        Some(_) => seq_read_with(f, binding, idx, c),
        None => match f.mode {
            ItemMode::Stateful => tuple_read_stateful(f, binding, idx, c),
            ItemMode::Stateless => seq_read_stateless(f, binding, idx),
        },
    }
}

/// Reads a map value into the field's local through its `with` module.
pub open spec fn spec_map_assign_with(f: FieldDecl, c: CtxView) -> Seq<char> {
    "let __seed = "@
        + spec_with_deserialize_seed(f, c)
        + ";\n"@
        + field_name(f)
        + " = ::core::option::Option::Some(_serde::de::MapAccess::next_value_seed(&mut __map, __seed)?,);\n"@
}

fn map_assign_with(f: &FieldDecl, c: &Ctx) -> (out: String)
    requires
        f.attrs.with is Some,
        f.ident is Some,
    ensures
        out@ == spec_map_assign_with(*f, c@),
{
    let mut out = String::from_str("let __seed = ");
    let t0 = with_deserialize_seed(f, c);
    out.append(t0.as_str());
    out.append(";\n");
    out.append(field_ident(f).as_str());
    out.append(" = ::core::option::Option::Some(_serde::de::MapAccess::next_value_seed(&mut __map, __seed)?,);\n");
    out
}

/// Reads a map value into the field's local through the state.
pub open spec fn spec_map_assign_stateful(f: FieldDecl, c: CtxView) -> Seq<char> {
    "let __seed = "@
        + spec_wrap_seed(f.ty@, c.state_tokens, "state"@)
        + ";\n"@
        + field_name(f)
        + " = ::core::option::Option::Some(_serde::de::MapAccess::next_value_seed(&mut __map, __seed)?,);\n"@
}

fn map_assign_stateful(f: &FieldDecl, c: &Ctx) -> (out: String)
    requires
        f.ident is Some,
    ensures
        out@ == spec_map_assign_stateful(*f, c@),
{
    let mut out = String::from_str("let __seed = ");
    let t0 = wrap_seed(f.ty.as_str(), c.state_tokens.as_str(), "state");
    out.append(t0.as_str());
    out.append(";\n");
    out.append(field_ident(f).as_str());
    out.append(" = ::core::option::Option::Some(_serde::de::MapAccess::next_value_seed(&mut __map, __seed)?,);\n");
    out
}

/// Reads a map value into the field's local with plain serde.
pub open spec fn spec_map_assign_stateless(f: FieldDecl) -> Seq<char> {
    field_name(f)
        + " = ::core::option::Option::Some(_serde::de::MapAccess::next_value::<"@
        + f.ty@
        + ">(&mut __map)?,);\n"@
}

fn map_assign_stateless(f: &FieldDecl) -> (out: String)
    requires
        f.ident is Some,
    ensures
        out@ == spec_map_assign_stateless(*f),
{
    let mut out = String::from_str(field_ident(f).as_str());
    out.append(" = ::core::option::Option::Some(_serde::de::MapAccess::next_value::<");
    out.append(f.ty.as_str());
    out.append(">(&mut __map)?,);\n");
    out
}

/// Stores the value of a map entry in the field's local, read the way
/// [`spec_seq_element_read`] reads it.
pub open spec fn spec_map_assign(f: FieldDecl, c: CtxView) -> Seq<char> {
    match f.attrs.with {
        Some(_) => spec_map_assign_with(f, c),
        None => match f.mode {
            ItemMode::Stateful => spec_map_assign_stateful(f, c),
            ItemMode::Stateless => spec_map_assign_stateless(f),
        },
    }
}

fn map_assign(f: &FieldDecl, c: &Ctx) -> (out: String)
    requires
        f.ident is Some,
    ensures
        out@ == spec_map_assign(*f, c@),
{
    match &f.attrs.with {
        Some(_) => map_assign_with(f, c),
        None => match f.mode {
            ItemMode::Stateful => map_assign_stateful(f, c),
            ItemMode::Stateless => map_assign_stateless(f),
        },
    }
}

/// The arm of `visit_map` for one field: a repeated key is an error.
pub open spec fn spec_map_arm(f: FieldDecl, lit: Seq<char>, enum_name: Seq<char>, prefix: Seq<char>, c: CtxView) -> Seq<char> {
    enum_name
        + "::"@
        + prefix
        + field_name(f)
        + " => {\nif "@
        + field_name(f)
        + ".is_some() {\nreturn ::core::result::Result::Err(_serde::de::Error::duplicate_field("@
        + lit
        + "));\n}\n"@
        + spec_map_assign(f, c)
        + "}\n"@
}

fn map_arm(f: &FieldDecl, lit: &str, enum_name: &str, prefix: &str, c: &Ctx) -> (out: String)
    requires
        f.ident is Some,
    ensures
        out@ == spec_map_arm(*f, lit@, enum_name@, prefix@, c@),
{
    let mut out = String::from_str(enum_name);
    out.append("::");
    out.append(prefix);
    out.append(field_ident(f).as_str());
    out.append(" => {\nif ");
    out.append(field_ident(f).as_str());
    out.append(".is_some() {\nreturn ::core::result::Result::Err(_serde::de::Error::duplicate_field(");
    out.append(lit);
    out.append("));\n}\n");
    let t1 = map_assign(f, c);
    out.append(t1.as_str());
    out.append("}\n");
    out
}

/// `let mut name = None;` for a field that is read.
pub open spec fn spec_init_local(f: FieldDecl) -> Seq<char> {
    "let mut "@
        + field_name(f)
        + " = ::core::option::Option::None;\n"@
}

fn init_local(f: &FieldDecl) -> (out: String)
    requires
        f.ident is Some,
    ensures
        out@ == spec_init_local(*f),
{
    let mut out = String::from_str("let mut ");
    out.append(field_ident(f).as_str());
    out.append(" = ::core::option::Option::None;\n");
    out
}

/// `let name = Default::default();` for a skipped field.
pub open spec fn spec_default_local(f: FieldDecl) -> Seq<char> {
    "let "@
        + field_name(f)
        + " = ::core::default::Default::default();\n"@
}

fn default_local(f: &FieldDecl) -> (out: String)
    requires
        f.ident is Some,
    ensures
        out@ == spec_default_local(*f),
{
    let mut out = String::from_str("let ");
    out.append(field_ident(f).as_str());
    out.append(" = ::core::default::Default::default();\n");
    out
}

/// Takes the value stored for a field; a missing key is an error.
pub open spec fn spec_required_local(f: FieldDecl, lit: Seq<char>) -> Seq<char> {
    "let "@
        + field_name(f)
        + " = match "@
        + field_name(f)
        + " {\n::core::option::Option::Some(value) => value,\n::core::option::Option::None => return ::core::result::Result::Err(_serde::de::Error::missing_field("@
        + lit
        + ")),\n};\n"@
}

fn required_local(f: &FieldDecl, lit: &str) -> (out: String)
    requires
        f.ident is Some,
    ensures
        out@ == spec_required_local(*f, lit@),
{
    let mut out = String::from_str("let ");
    out.append(field_ident(f).as_str());
    out.append(" = match ");
    out.append(field_ident(f).as_str());
    out.append(" {\n::core::option::Option::Some(value) => value,\n::core::option::Option::None => return ::core::result::Result::Err(_serde::de::Error::missing_field(");
    out.append(lit);
    out.append(")),\n};\n");
    out
}

/// The local that the finished value takes for one field: a skipped field
/// is built with `Default`, any other must have been read.
pub open spec fn spec_build_field(f: FieldDecl, lit: Seq<char>) -> Seq<char> {
    if f.attrs.skip {
        spec_default_local(f)
    } else {
        spec_required_local(f, lit)
    }
}

fn build_field(f: &FieldDecl, lit: &str) -> (out: String)
    requires
        f.ident is Some,
    ensures
        out@ == spec_build_field(*f, lit@),
{
    if f.attrs.skip {
        default_local(f)
    } else {
        required_local(f, lit)
    }
}

/// `name: name` in a constructor, after `sep`.
pub open spec fn spec_field_pair(f: FieldDecl, sep: Seq<char>) -> Seq<char> {
    sep
        + field_name(f)
        + ": "@
        + field_name(f)
}

fn field_pair(f: &FieldDecl, sep: &str) -> (out: String)
    requires
        f.ident is Some,
    ensures
        out@ == spec_field_pair(*f, sep@),
{
    let mut out = String::from_str(sep);
    out.append(field_ident(f).as_str());
    out.append(": ");
    out.append(field_ident(f).as_str());
    out
}

/// The name `prefix` followed by the position `i`.
pub open spec fn spec_binding_name(prefix: Seq<char>, i: usize) -> Seq<char> {
    prefix
        + decimal(i as nat)
}

fn binding_name(prefix: &str, i: usize) -> (out: String)
    ensures
        out@ == spec_binding_name(prefix@, i),
{
    let mut out = String::from_str(prefix);
    let t0 = decimal_string(i);
    out.append(t0.as_str());
    out
}

/// A positional binding (`prefix` and the position `i`), after `sep`.
pub open spec fn spec_binding_item(prefix: Seq<char>, i: usize, sep: Seq<char>) -> Seq<char> {
    sep
        + prefix
        + decimal(i as nat)
}

fn binding_item(prefix: &str, i: usize, sep: &str) -> (out: String)
    ensures
        out@ == spec_binding_item(prefix@, i, sep@),
{
    let mut out = String::from_str(sep);
    out.append(prefix);
    let t0 = decimal_string(i);
    out.append(t0.as_str());
    out
}

/// Reads the `i`-th element of a sequence into its positional binding.
pub open spec fn spec_tuple_read(f: FieldDecl, prefix: Seq<char>, i: usize, c: CtxView) -> Seq<char> {
    spec_tuple_element_read(f, spec_binding_name(prefix, i), usize_literal(i), c)
}

fn tuple_read(f: &FieldDecl, prefix: &str, i: usize, c: &Ctx) -> (out: String)
    ensures
        out@ == spec_tuple_read(*f, prefix@, i, c@),
{
    let idx = usize_literal_text(i);
    let mut out = tuple_element_read(f, binding_name(prefix, i).as_str(), idx.as_str(), c);
    out
}

/// Reads the `k`-th element of a sequence into the field's local.
pub open spec fn spec_kept_read(f: FieldDecl, k: usize, c: CtxView) -> Seq<char> {
    spec_seq_element_read(f, field_name(f), usize_literal(k), c)
}

fn kept_read(f: &FieldDecl, k: usize, c: &Ctx) -> (out: String)
    requires
        f.ident is Some,
    ensures
        out@ == spec_kept_read(*f, k, c@),
{
    let idx = usize_literal_text(k);
    let mut out = seq_element_read(f, field_ident(f).as_str(), idx.as_str(), c);
    out
}

/// `s` followed by a comma.
pub open spec fn spec_trailing_item(s: Seq<char>) -> Seq<char> {
    s
        + ", "@
}

fn trailing_item(s: &str) -> (out: String)
    ensures
        out@ == spec_trailing_item(s@),
{
    let mut out = String::from_str(s);
    out.append(", ");
    out
}

/// `s` after `sep`.
pub open spec fn spec_plain_item(s: Seq<char>, sep: Seq<char>) -> Seq<char> {
    sep
        + s
}

fn plain_item(s: &str, sep: &str) -> (out: String)
    ensures
        out@ == spec_plain_item(s@, sep@),
{
    let mut out = String::from_str(sep);
    out.append(s);
    out
}

/// The match arm that maps the key literal `key` to the identifier `variant`.
pub open spec fn spec_str_arm(key: Seq<char>, variant: Seq<char>, enum_name: Seq<char>) -> Seq<char> {
    key
        + " => ::core::result::Result::Ok("@
        + enum_name
        + "::"@
        + variant
        + "),\n"@
}

fn str_arm(key: &str, variant: &str, enum_name: &str) -> (out: String)
    ensures
        out@ == spec_str_arm(key@, variant@, enum_name@),
{
    let mut out = String::from_str(key);
    out.append(" => ::core::result::Result::Ok(");
    out.append(enum_name);
    out.append("::");
    out.append(variant);
    out.append("),\n");
    out
}

/// The match arm that maps the position `i` to the identifier `variant`.
pub open spec fn spec_index_arm(i: usize, variant: Seq<char>, enum_name: Seq<char>) -> Seq<char> {
    decimal(i as nat)
        + "u64 => ::core::result::Result::Ok("@
        + enum_name
        + "::"@
        + variant
        + "),\n"@
}

fn index_arm(i: usize, variant: &str, enum_name: &str) -> (out: String)
    ensures
        out@ == spec_index_arm(i, variant@, enum_name@),
{
    let mut out = decimal_string(i);
    out.append("u64 => ::core::result::Result::Ok(");
    out.append(enum_name);
    out.append("::");
    out.append(variant);
    out.append("),\n");
    out
}

/// `let mut name = None;` for each field that is read (first `n` fields).
pub open spec fn spec_init_locals(fields: Seq<FieldDecl>, n: nat) -> Seq<char>
    decreases n,
{
    if n == 0 {
        seq![]
    } else {
        let prev = spec_init_locals(fields, (n - 1) as nat);
        let i = n - 1;
        let x = fields[i];
        if x.attrs.skip {
            prev
        } else {
            prev + spec_init_local(x)
        }
    }
}

pub fn init_locals(fields: &Vec<FieldDecl>) -> (out: String)
    requires
        all_named(fields@),
    ensures
        out@ == spec_init_locals(fields@, fields@.len() as nat),
{
    let n = fields.len();
    let mut out = String::new();
    let mut i: usize = 0;
    while i < n
        invariant
            n == fields@.len(),
            i <= n,
            out@ == spec_init_locals(fields@, i as nat),
            all_named(fields@),
        decreases n - i,
    {
        let x = &fields[i];
        if !x.attrs.skip {
            let t = init_local(x);
            out.append(t.as_str());
        }
        i = i + 1;
    }
    out
}

/// The `visit_map` arms of the fields that are read (first `n` fields).
pub open spec fn spec_map_arms(fields: Seq<FieldDecl>, lits: Seq<Seq<char>>, enum_name: Seq<char>, prefix: Seq<char>, c: CtxView, n: nat) -> Seq<char>
    decreases n,
{
    if n == 0 {
        seq![]
    } else {
        let prev = spec_map_arms(fields, lits, enum_name, prefix, c, (n - 1) as nat);
        let i = n - 1;
        let x = fields[i];
        if x.attrs.skip {
            prev
        } else {
            prev + spec_map_arm(x, lits[i], enum_name, prefix, c)
        }
    }
}

pub fn map_arms(fields: &Vec<FieldDecl>, lits: &Vec<String>, enum_name: &str, prefix: &str, c: &Ctx) -> (out: String)
    requires
        all_named(fields@),
        lits@.len() == fields@.len(),
    ensures
        out@ == spec_map_arms(fields@, lits.deep_view(), enum_name@, prefix@, c@, fields@.len() as nat),
{
    let n = fields.len();
    let mut out = String::new();
    let mut i: usize = 0;
    while i < n
        invariant
            n == fields@.len(),
            i <= n,
            out@ == spec_map_arms(fields@, lits.deep_view(), enum_name@, prefix@, c@, i as nat),
            all_named(fields@),
            lits@.len() == fields@.len(),
        decreases n - i,
    {
        let x = &fields[i];
        if !x.attrs.skip {
            let t = map_arm(x, lits[i].as_str(), enum_name, prefix, c);
            out.append(t.as_str());
        }
        i = i + 1;
    }
    out
}

/// The finished locals of the first `n` fields.
pub open spec fn spec_build_fields(fields: Seq<FieldDecl>, lits: Seq<Seq<char>>, n: nat) -> Seq<char>
    decreases n,
{
    if n == 0 {
        seq![]
    } else {
        let prev = spec_build_fields(fields, lits, (n - 1) as nat);
        let i = n - 1;
        let x = fields[i];
        prev + spec_build_field(x, lits[i])
    }
}

pub fn build_fields(fields: &Vec<FieldDecl>, lits: &Vec<String>) -> (out: String)
    requires
        all_named(fields@),
        lits@.len() == fields@.len(),
    ensures
        out@ == spec_build_fields(fields@, lits.deep_view(), fields@.len() as nat),
{
    let n = fields.len();
    let mut out = String::new();
    let mut i: usize = 0;
    while i < n
        invariant
            n == fields@.len(),
            i <= n,
            out@ == spec_build_fields(fields@, lits.deep_view(), i as nat),
            all_named(fields@),
            lits@.len() == fields@.len(),
        decreases n - i,
    {
        let x = &fields[i];
        let t = build_field(x, lits[i].as_str());
        out.append(t.as_str());
        i = i + 1;
    }
    out
}

/// `Default` locals for the skipped fields among the first `n`.
pub open spec fn spec_init_skipped(fields: Seq<FieldDecl>, n: nat) -> Seq<char>
    decreases n,
{
    if n == 0 {
        seq![]
    } else {
        let prev = spec_init_skipped(fields, (n - 1) as nat);
        let i = n - 1;
        let x = fields[i];
        if !x.attrs.skip {
            prev
        } else {
            prev + spec_default_local(x)
        }
    }
}

pub fn init_skipped(fields: &Vec<FieldDecl>) -> (out: String)
    requires
        all_named(fields@),
    ensures
        out@ == spec_init_skipped(fields@, fields@.len() as nat),
{
    let n = fields.len();
    let mut out = String::new();
    let mut i: usize = 0;
    while i < n
        invariant
            n == fields@.len(),
            i <= n,
            out@ == spec_init_skipped(fields@, i as nat),
            all_named(fields@),
        decreases n - i,
    {
        let x = &fields[i];
        if x.attrs.skip {
            let t = default_local(x);
            out.append(t.as_str());
        }
        i = i + 1;
    }
    out
}

/// Reads the fields that are read, in order, from a sequence (first `n` fields); each is the element at its position among them.
pub open spec fn spec_kept_reads(fields: Seq<FieldDecl>, c: CtxView, n: nat) -> Seq<char>
    decreases n,
{
    if n == 0 {
        seq![]
    } else {
        let prev = spec_kept_reads(fields, c, (n - 1) as nat);
        let i = n - 1;
        let x = fields[i];
        let k = kept_count(fields, (n - 1) as nat);
        if x.attrs.skip {
            prev
        } else {
            prev + spec_kept_read(x, k as usize, c)
        }
    }
}

pub fn kept_reads(fields: &Vec<FieldDecl>, c: &Ctx) -> (out: String)
    requires
        all_named(fields@),
    ensures
        out@ == spec_kept_reads(fields@, c@, fields@.len() as nat),
{
    let n = fields.len();
    let mut out = String::new();
    let mut i: usize = 0;
    let mut k: usize = 0;
    while i < n
        invariant
            n == fields@.len(),
            i <= n,
            out@ == spec_kept_reads(fields@, c@, i as nat),
            k == kept_count(fields@, i as nat),
            k <= i,
            all_named(fields@),
        decreases n - i,
    {
        let x = &fields[i];
        if !x.attrs.skip {
            let t = kept_read(x, k, c);
            out.append(t.as_str());
            k = k + 1;
        }
        i = i + 1;
    }
    out
}

/// `name: name` for each of the first `n` fields.
pub open spec fn spec_construct_pairs(fields: Seq<FieldDecl>, n: nat) -> Seq<char>
    decreases n,
{
    if n == 0 {
        seq![]
    } else {
        let prev = spec_construct_pairs(fields, (n - 1) as nat);
        let i = n - 1;
        let x = fields[i];
        prev + spec_field_pair(x, if i == 0 { ""@ } else { ", "@ })
    }
}

pub fn construct_pairs(fields: &Vec<FieldDecl>) -> (out: String)
    requires
        all_named(fields@),
    ensures
        out@ == spec_construct_pairs(fields@, fields@.len() as nat),
{
    let n = fields.len();
    let mut out = String::new();
    let mut i: usize = 0;
    while i < n
        invariant
            n == fields@.len(),
            i <= n,
            out@ == spec_construct_pairs(fields@, i as nat),
            all_named(fields@),
        decreases n - i,
    {
        let x = &fields[i];
        let t = field_pair(x, if i == 0 { "" } else { ", " });
        out.append(t.as_str());
        i = i + 1;
    }
    out
}

/// Reads each of the first `n` fields from the sequence into `prefix` and its position.
pub open spec fn spec_tuple_reads(fields: Seq<FieldDecl>, prefix: Seq<char>, c: CtxView, n: nat) -> Seq<char>
    decreases n,
{
    if n == 0 {
        seq![]
    } else {
        let prev = spec_tuple_reads(fields, prefix, c, (n - 1) as nat);
        let i = n - 1;
        let x = fields[i];
        prev + spec_tuple_read(x, prefix, i as usize, c)
    }
}

pub fn tuple_reads(fields: &Vec<FieldDecl>, prefix: &str, c: &Ctx) -> (out: String)
    ensures
        out@ == spec_tuple_reads(fields@, prefix@, c@, fields@.len() as nat),
{
    let n = fields.len();
    let mut out = String::new();
    let mut i: usize = 0;
    while i < n
        invariant
            n == fields@.len(),
            i <= n,
            out@ == spec_tuple_reads(fields@, prefix@, c@, i as nat),
        decreases n - i,
    {
        let x = &fields[i];
        let t = tuple_read(x, prefix, i, c);
        out.append(t.as_str());
        i = i + 1;
    }
    out
}

/// The bindings of the first `n` positions, separated by commas.
pub open spec fn spec_tuple_items(fields: Seq<FieldDecl>, prefix: Seq<char>, n: nat) -> Seq<char>
    decreases n,
{
    if n == 0 {
        seq![]
    } else {
        let prev = spec_tuple_items(fields, prefix, (n - 1) as nat);
        let i = n - 1;
        let x = fields[i];
        prev + spec_binding_item(prefix, i as usize, if i == 0 { ""@ } else { ", "@ })
    }
}

pub fn tuple_items(fields: &Vec<FieldDecl>, prefix: &str) -> (out: String)
    ensures
        out@ == spec_tuple_items(fields@, prefix@, fields@.len() as nat),
{
    let n = fields.len();
    let mut out = String::new();
    let mut i: usize = 0;
    while i < n
        invariant
            n == fields@.len(),
            i <= n,
            out@ == spec_tuple_items(fields@, prefix@, i as nat),
        decreases n - i,
    {
        let x = &fields[i];
        let t = binding_item(prefix, i, if i == 0 { "" } else { ", " });
        out.append(t.as_str());
        i = i + 1;
    }
    out
}

/// The first `n` names, each followed by a comma.
pub open spec fn spec_enum_items_trailing(names: Seq<Seq<char>>, n: nat) -> Seq<char>
    decreases n,
{
    if n == 0 {
        seq![]
    } else {
        let prev = spec_enum_items_trailing(names, (n - 1) as nat);
        let i = n - 1;
        let x = names[i];
        prev + spec_trailing_item(x)
    }
}

pub fn enum_items_trailing(names: &Vec<String>) -> (out: String)
    ensures
        out@ == spec_enum_items_trailing(names.deep_view(), names.deep_view().len() as nat),
{
    let n = names.len();
    let mut out = String::new();
    let mut i: usize = 0;
    while i < n
        invariant
            n == names.deep_view().len(),
            i <= n,
            out@ == spec_enum_items_trailing(names.deep_view(), i as nat),
        decreases n - i,
    {
        let x = &names[i];
        let t = trailing_item(x.as_str());
        out.append(t.as_str());
        i = i + 1;
    }
    out
}

/// The first `n` names, separated by commas.
pub open spec fn spec_enum_items(names: Seq<Seq<char>>, n: nat) -> Seq<char>
    decreases n,
{
    if n == 0 {
        seq![]
    } else {
        let prev = spec_enum_items(names, (n - 1) as nat);
        let i = n - 1;
        let x = names[i];
        prev + spec_plain_item(x, if i == 0 { ""@ } else { ", "@ })
    }
}

pub fn enum_items(names: &Vec<String>) -> (out: String)
    ensures
        out@ == spec_enum_items(names.deep_view(), names.deep_view().len() as nat),
{
    let n = names.len();
    let mut out = String::new();
    let mut i: usize = 0;
    while i < n
        invariant
            n == names.deep_view().len(),
            i <= n,
            out@ == spec_enum_items(names.deep_view(), i as nat),
        decreases n - i,
    {
        let x = &names[i];
        let t = plain_item(x.as_str(), if i == 0 { "" } else { ", " });
        out.append(t.as_str());
        i = i + 1;
    }
    out
}

/// `"key" => Ok(Enum::Variant)` for the first `n` keys.
pub open spec fn spec_str_arms(keys: Seq<Seq<char>>, variants: Seq<Seq<char>>, enum_name: Seq<char>, n: nat) -> Seq<char>
    decreases n,
{
    if n == 0 {
        seq![]
    } else {
        let prev = spec_str_arms(keys, variants, enum_name, (n - 1) as nat);
        let i = n - 1;
        let x = keys[i];
        prev + spec_str_arm(x, variants[i], enum_name)
    }
}

pub fn str_arms(keys: &Vec<String>, variants: &Vec<String>, enum_name: &str) -> (out: String)
    requires
        keys.len() == variants.len(),
    ensures
        out@ == spec_str_arms(keys.deep_view(), variants.deep_view(), enum_name@, keys.deep_view().len() as nat),
{
    let n = keys.len();
    let mut out = String::new();
    let mut i: usize = 0;
    while i < n
        invariant
            n == keys.deep_view().len(),
            i <= n,
            out@ == spec_str_arms(keys.deep_view(), variants.deep_view(), enum_name@, i as nat),
            keys.len() == variants.len(),
        decreases n - i,
    {
        let x = &keys[i];
        let t = str_arm(x.as_str(), variants[i].as_str(), enum_name);
        out.append(t.as_str());
        i = i + 1;
    }
    out
}

/// The law of identifier pairing: among the `visit_str` arms, the key
/// literal at position `i` maps to the identifier at position `i`, for every
/// position, so a key is read as the field or variant it is the key of.
pub proof fn lemma_str_arms_pair_by_position(
    keys: Seq<Seq<char>>,
    variants: Seq<Seq<char>>,
    enum_name: Seq<char>,
    n: nat,
)
    ensures
        forall|i: int|
            0 <= i < n ==> occurs_in(
                #[trigger] keys[i] + " => ::core::result::Result::Ok("@ + enum_name + "::"@
                    + variants[i] + "),\n"@,
                spec_str_arms(keys, variants, enum_name, n),
            ),
    decreases n,
{
    if n > 0 {
        let m = (n - 1) as nat;
        lemma_str_arms_pair_by_position(keys, variants, enum_name, m);
        let prev = spec_str_arms(keys, variants, enum_name, m);
        let last = spec_str_arm(keys[m as int], variants[m as int], enum_name);
        let e = Seq::<char>::empty();
        assert(spec_str_arms(keys, variants, enum_name, n) == prev + last);
        assert forall|i: int| 0 <= i < n implies occurs_in(
            #[trigger] keys[i] + " => ::core::result::Result::Ok("@ + enum_name + "::"@
                + variants[i] + "),\n"@,
            spec_str_arms(keys, variants, enum_name, n),
        ) by {
            let arm = keys[i] + " => ::core::result::Result::Ok("@ + enum_name + "::"@
                + variants[i] + "),\n"@;
            if i < m {
                lemma_occurs_in_concat(arm, e, prev, last);
                assert(e + prev + last =~= prev + last);
            } else {
                lemma_occurs_between(arm, prev, e);
                assert(prev + arm + e =~= prev + last);
            }
        }
    }
}

/// `i => Ok(Enum::Variant)` for the first `n` variants.
pub open spec fn spec_index_arms(variants: Seq<Seq<char>>, enum_name: Seq<char>, n: nat) -> Seq<char>
    decreases n,
{
    if n == 0 {
        seq![]
    } else {
        let prev = spec_index_arms(variants, enum_name, (n - 1) as nat);
        let i = n - 1;
        let x = variants[i];
        prev + spec_index_arm(i as usize, x, enum_name)
    }
}

pub fn index_arms(variants: &Vec<String>, enum_name: &str) -> (out: String)
    ensures
        out@ == spec_index_arms(variants.deep_view(), enum_name@, variants.deep_view().len() as nat),
{
    let n = variants.len();
    let mut out = String::new();
    let mut i: usize = 0;
    while i < n
        invariant
            n == variants.deep_view().len(),
            i <= n,
            out@ == spec_index_arms(variants.deep_view(), enum_name@, i as nat),
        decreases n - i,
    {
        let x = &variants[i];
        let t = index_arm(i, x.as_str(), enum_name);
        out.append(t.as_str());
        i = i + 1;
    }
    out
}

/// The law of index pairing: among the `visit_u64` arms, the index `i`
/// maps to the identifier at position `i`, for every position.
pub proof fn lemma_index_arms_pair_by_position(variants: Seq<Seq<char>>, enum_name: Seq<char>, n: nat)
    requires
        n <= usize::MAX,
    ensures
        forall|i: int|
            0 <= i < n ==> occurs_in(
                decimal(i as nat) + "u64 => ::core::result::Result::Ok("@ + enum_name + "::"@
                    + #[trigger] variants[i] + "),\n"@,
                spec_index_arms(variants, enum_name, n),
            ),
    decreases n,
{
    if n > 0 {
        let m = (n - 1) as nat;
        lemma_index_arms_pair_by_position(variants, enum_name, m);
        let prev = spec_index_arms(variants, enum_name, m);
        let last = spec_index_arm(m as usize, variants[m as int], enum_name);
        let e = Seq::<char>::empty();
        assert(spec_index_arms(variants, enum_name, n) == prev + last);
        assert forall|i: int| 0 <= i < n implies occurs_in(
            decimal(i as nat) + "u64 => ::core::result::Result::Ok("@ + enum_name + "::"@
                + #[trigger] variants[i] + "),\n"@,
            spec_index_arms(variants, enum_name, n),
        ) by {
            let arm = decimal(i as nat) + "u64 => ::core::result::Result::Ok("@ + enum_name + "::"@
                + variants[i] + "),\n"@;
            if i < m {
                lemma_occurs_in_concat(arm, e, prev, last);
                assert(e + prev + last =~= prev + last);
            } else {
                assert((m as usize) as nat == i as nat);
                lemma_occurs_between(arm, prev, e);
                assert(prev + arm + e =~= prev + last);
            }
        }
    }
}

/// Asks for an identifier from human-readable formats and for its index from the others.
pub open spec fn spec_deserialize_identifier_or_u32(deserializer: Seq<char>, visitor: Seq<char>) -> Seq<char> {
    "if _serde::Deserializer::is_human_readable(&"@
        + deserializer
        + ") {\n_serde::Deserializer::deserialize_identifier("@
        + deserializer
        + ", "@
        + visitor
        + ")\n} else {\n_serde::Deserializer::deserialize_u32("@
        + deserializer
        + ", "@
        + visitor
        + ")\n}"@
}

pub fn deserialize_identifier_or_u32(deserializer: &str, visitor: &str) -> (out: String)
    ensures
        out@ == spec_deserialize_identifier_or_u32(deserializer@, visitor@),
{
    let mut out = String::from_str("if _serde::Deserializer::is_human_readable(&");
    out.append(deserializer);
    out.append(") {\n_serde::Deserializer::deserialize_identifier(");
    out.append(deserializer);
    out.append(", ");
    out.append(visitor);
    out.append(")\n} else {\n_serde::Deserializer::deserialize_u32(");
    out.append(deserializer);
    out.append(", ");
    out.append(visitor);
    out.append(")\n}");
    out
}

/// An unknown field name or index is ignored.
pub open spec fn spec_ignore_fallback(enum_name: Seq<char>) -> Seq<char> {
    "_ => ::core::result::Result::Ok("@
        + enum_name
        + "::__Ignore),\n"@
}

fn ignore_fallback(enum_name: &str) -> (out: String)
    ensures
        out@ == spec_ignore_fallback(enum_name@),
{
    let mut out = String::from_str("_ => ::core::result::Result::Ok(");
    out.append(enum_name);
    out.append("::__Ignore),\n");
    out
}

/// A visitor that maps a name (`keys[i]`) or an index (`i`) to the variant `variants[i]` of `enum_name`, with the given fallbacks.
pub open spec fn spec_identifier_visitor(attr: Seq<char>, enum_name: Seq<char>, visitor: Seq<char>, expecting: Seq<char>, keys: Seq<Seq<char>>, variants: Seq<Seq<char>>, str_fallback: Seq<char>, u64_fallback: Seq<char>) -> Seq<char> {
    attr
        + "struct "@
        + visitor
        + ";\nimpl<'de> _serde::de::Visitor<'de> for "@
        + visitor
        + " {\ntype Value = "@
        + enum_name
        + ";\nfn expecting(&self, formatter: &mut ::core::fmt::Formatter<'_>) -> ::core::fmt::Result {\nformatter.write_str("@
        + expecting
        + ")\n}\nfn visit_str<E>(self, value: &str) -> ::core::result::Result<Self::Value, E>\nwhere\nE: _serde::de::Error,\n{\nmatch value {\n"@
        + spec_str_arms(keys, variants, enum_name, keys.len() as nat)
        + str_fallback
        + "}\n}\nfn visit_u64<E>(self, value: u64) -> ::core::result::Result<Self::Value, E>\nwhere\nE: _serde::de::Error,\n{\nmatch value {\n"@
        + spec_index_arms(variants, enum_name, variants.len() as nat)
        + u64_fallback
        + "}\n}\nfn visit_u32<E>(self, value: u32) -> ::core::result::Result<Self::Value, E>\nwhere\nE: _serde::de::Error,\n{\nself.visit_u64(value as u64)\n}\n}\nimpl<'de> _serde::Deserialize<'de> for "@
        + enum_name
        + " {\nfn deserialize<D>(deserializer: D) -> ::core::result::Result<Self, D::Error>\nwhere\nD: _serde::Deserializer<'de>,\n{\n"@
        + spec_deserialize_identifier_or_u32("deserializer"@, visitor)
        + "\n}\n}\n"@
}

/// The law of identifier pairing, for a whole identifier visitor: its
/// `visit_str` maps the key literal at position `i` to the identifier at
/// position `i`, for every position.
pub proof fn lemma_identifier_visitor_pairs_keys(
    attr: Seq<char>,
    enum_name: Seq<char>,
    visitor: Seq<char>,
    expecting: Seq<char>,
    keys: Seq<Seq<char>>,
    variants: Seq<Seq<char>>,
    str_fallback: Seq<char>,
    u64_fallback: Seq<char>,
)
    ensures
        forall|i: int|
            0 <= i < keys.len() ==> occurs_in(
                #[trigger] keys[i] + " => ::core::result::Result::Ok("@ + enum_name + "::"@
                    + variants[i] + "),\n"@,
                spec_identifier_visitor(
                    attr,
                    enum_name,
                    visitor,
                    expecting,
                    keys,
                    variants,
                    str_fallback,
                    u64_fallback,
                ),
            ),
{
    let arms = spec_str_arms(keys, variants, enum_name, keys.len() as nat);
    let before = attr
        + "struct "@
        + visitor
        + ";\nimpl<'de> _serde::de::Visitor<'de> for "@
        + visitor
        + " {\ntype Value = "@
        + enum_name
        + ";\nfn expecting(&self, formatter: &mut ::core::fmt::Formatter<'_>) -> ::core::fmt::Result {\nformatter.write_str("@
        + expecting
        + ")\n}\nfn visit_str<E>(self, value: &str) -> ::core::result::Result<Self::Value, E>\nwhere\nE: _serde::de::Error,\n{\nmatch value {\n"@;
    let after = str_fallback
        + "}\n}\nfn visit_u64<E>(self, value: u64) -> ::core::result::Result<Self::Value, E>\nwhere\nE: _serde::de::Error,\n{\nmatch value {\n"@
        + spec_index_arms(variants, enum_name, variants.len() as nat)
        + u64_fallback
        + "}\n}\nfn visit_u32<E>(self, value: u32) -> ::core::result::Result<Self::Value, E>\nwhere\nE: _serde::de::Error,\n{\nself.visit_u64(value as u64)\n}\n}\nimpl<'de> _serde::Deserialize<'de> for "@
        + enum_name
        + " {\nfn deserialize<D>(deserializer: D) -> ::core::result::Result<Self, D::Error>\nwhere\nD: _serde::Deserializer<'de>,\n{\n"@
        + spec_deserialize_identifier_or_u32("deserializer"@, visitor)
        + "\n}\n}\n"@;
    assert(spec_identifier_visitor(
        attr,
        enum_name,
        visitor,
        expecting,
        keys,
        variants,
        str_fallback,
        u64_fallback,
    ) =~= before + arms + after);
    lemma_str_arms_pair_by_position(keys, variants, enum_name, keys.len() as nat);
    assert forall|i: int| 0 <= i < keys.len() implies occurs_in(
        #[trigger] keys[i] + " => ::core::result::Result::Ok("@ + enum_name + "::"@ + variants[i]
            + "),\n"@,
        before + arms + after,
    ) by {
        lemma_occurs_in_concat(
            keys[i] + " => ::core::result::Result::Ok("@ + enum_name + "::"@ + variants[i] + "),\n"@,
            before,
            arms,
            after,
        );
    }
}

/// The law of index pairing, for a whole identifier visitor: its
/// `visit_u64` maps the index `i` to the identifier at position `i`, for
/// every position.
pub proof fn lemma_identifier_visitor_pairs_indices(
    attr: Seq<char>,
    enum_name: Seq<char>,
    visitor: Seq<char>,
    expecting: Seq<char>,
    keys: Seq<Seq<char>>,
    variants: Seq<Seq<char>>,
    str_fallback: Seq<char>,
    u64_fallback: Seq<char>,
)
    requires
        variants.len() <= usize::MAX,
    ensures
        forall|i: int|
            0 <= i < variants.len() ==> occurs_in(
                decimal(i as nat) + "u64 => ::core::result::Result::Ok("@ + enum_name + "::"@
                    + #[trigger] variants[i] + "),\n"@,
                spec_identifier_visitor(
                    attr,
                    enum_name,
                    visitor,
                    expecting,
                    keys,
                    variants,
                    str_fallback,
                    u64_fallback,
                ),
            ),
{
    let arms = spec_str_arms(keys, variants, enum_name, keys.len() as nat);
    let before = attr
        + "struct "@
        + visitor
        + ";\nimpl<'de> _serde::de::Visitor<'de> for "@
        + visitor
        + " {\ntype Value = "@
        + enum_name
        + ";\nfn expecting(&self, formatter: &mut ::core::fmt::Formatter<'_>) -> ::core::fmt::Result {\nformatter.write_str("@
        + expecting
        + ")\n}\nfn visit_str<E>(self, value: &str) -> ::core::result::Result<Self::Value, E>\nwhere\nE: _serde::de::Error,\n{\nmatch value {\n"@;
    let idx = spec_index_arms(variants, enum_name, variants.len() as nat);
    let before2 = before + arms + str_fallback
        + "}\n}\nfn visit_u64<E>(self, value: u64) -> ::core::result::Result<Self::Value, E>\nwhere\nE: _serde::de::Error,\n{\nmatch value {\n"@;
    let after2 = u64_fallback
        + "}\n}\nfn visit_u32<E>(self, value: u32) -> ::core::result::Result<Self::Value, E>\nwhere\nE: _serde::de::Error,\n{\nself.visit_u64(value as u64)\n}\n}\nimpl<'de> _serde::Deserialize<'de> for "@
        + enum_name
        + " {\nfn deserialize<D>(deserializer: D) -> ::core::result::Result<Self, D::Error>\nwhere\nD: _serde::Deserializer<'de>,\n{\n"@
        + spec_deserialize_identifier_or_u32("deserializer"@, visitor)
        + "\n}\n}\n"@;
    assert(spec_identifier_visitor(attr, enum_name, visitor, expecting, keys, variants, str_fallback, u64_fallback) =~= before2 + idx + after2);
    lemma_index_arms_pair_by_position(variants, enum_name, variants.len() as nat);
    assert forall|i: int| 0 <= i < variants.len() implies occurs_in(
        decimal(i as nat) + "u64 => ::core::result::Result::Ok("@ + enum_name + "::"@
            + #[trigger] variants[i] + "),\n"@,
        spec_identifier_visitor(attr, enum_name, visitor, expecting, keys, variants, str_fallback, u64_fallback),
    ) by {
        lemma_occurs_in_concat(
            decimal(i as nat) + "u64 => ::core::result::Result::Ok("@ + enum_name + "::"@ + variants[i]
                + "),\n"@,
            before2,
            idx,
            after2,
        );
    }
}

fn identifier_visitor(attr: &str, enum_name: &str, visitor: &str, expecting: &str, keys: &Vec<String>, variants: &Vec<String>, str_fallback: &str, u64_fallback: &str) -> (out: String)
    requires
        keys.len() == variants.len(),
    ensures
        out@ == spec_identifier_visitor(attr@, enum_name@, visitor@, expecting@, keys.deep_view(), variants.deep_view(), str_fallback@, u64_fallback@),
{
    let mut out = String::from_str(attr);
    out.append("struct ");
    out.append(visitor);
    out.append(";\nimpl<'de> _serde::de::Visitor<'de> for ");
    out.append(visitor);
    out.append(" {\ntype Value = ");
    out.append(enum_name);
    out.append(";\nfn expecting(&self, formatter: &mut ::core::fmt::Formatter<'_>) -> ::core::fmt::Result {\nformatter.write_str(");
    out.append(expecting);
    out.append(")\n}\nfn visit_str<E>(self, value: &str) -> ::core::result::Result<Self::Value, E>\nwhere\nE: _serde::de::Error,\n{\nmatch value {\n");
    let t0 = str_arms(keys, variants, enum_name);
    out.append(t0.as_str());
    out.append(str_fallback);
    out.append("}\n}\nfn visit_u64<E>(self, value: u64) -> ::core::result::Result<Self::Value, E>\nwhere\nE: _serde::de::Error,\n{\nmatch value {\n");
    let t1 = index_arms(variants, enum_name);
    out.append(t1.as_str());
    out.append(u64_fallback);
    out.append("}\n}\nfn visit_u32<E>(self, value: u32) -> ::core::result::Result<Self::Value, E>\nwhere\nE: _serde::de::Error,\n{\nself.visit_u64(value as u64)\n}\n}\nimpl<'de> _serde::Deserialize<'de> for ");
    out.append(enum_name);
    out.append(" {\nfn deserialize<D>(deserializer: D) -> ::core::result::Result<Self, D::Error>\nwhere\nD: _serde::Deserializer<'de>,\n{\n");
    let t2 = deserialize_identifier_or_u32("deserializer", visitor);
    out.append(t2.as_str());
    out.append("\n}\n}\n");
    out
}

/// A visitor struct that holds a reference to the state.
pub open spec fn spec_visitor_struct(attr: Seq<char>, name: Seq<char>, c: CtxView) -> Seq<char> {
    attr
        + "struct "@
        + name
        + vsg(c)
        + " {\nstate: &'state "@
        + c.state_tokens
        + ",\n_marker: ::core::marker::PhantomData<"@
        + spec_phantom_type(c.ident, c.params)
        + ">,\n}\n"@
}

fn visitor_struct(attr: &str, name: &str, c: &Ctx) -> (out: String)
    ensures
        out@ == spec_visitor_struct(attr@, name@, c@),
{
    let mut out = String::from_str(attr);
    out.append("struct ");
    out.append(name);
    let t0 = ctx_vsg(c);
    out.append(t0.as_str());
    out.append(" {\nstate: &'state ");
    out.append(c.state_tokens.as_str());
    out.append(",\n_marker: ::core::marker::PhantomData<");
    let t1 = ctx_phantom(c);
    out.append(t1.as_str());
    out.append(">,\n}\n");
    out
}

/// The `Visitor` impl of a visitor struct, with the given methods.
pub open spec fn spec_visitor_impl(name: Seq<char>, label: Seq<char>, target: Seq<char>, methods: Seq<char>, c: CtxView) -> Seq<char> {
    "impl"@
        + vig(c)
        + " _serde::de::Visitor<'de> for "@
        + name
        + vtg(c)
        + " "@
        + wc(c)
        + " {\ntype Value = "@
        + c.ident
        + tyg(c)
        + ";\nfn expecting(&self, formatter: &mut ::core::fmt::Formatter<'_>) -> ::core::fmt::Result {\nformatter.write_str("@
        + label
        + ")?;\nformatter.write_str(stringify!("@
        + target
        + "))\n}\n"@
        + methods
        + "}\n"@
}

fn visitor_impl(name: &str, label: &str, target: &str, methods: &str, c: &Ctx) -> (out: String)
    ensures
        out@ == spec_visitor_impl(name@, label@, target@, methods@, c@),
{
    let mut out = String::from_str("impl");
    let t0 = ctx_vig(c);
    out.append(t0.as_str());
    out.append(" _serde::de::Visitor<'de> for ");
    out.append(name);
    let t1 = ctx_vtg(c);
    out.append(t1.as_str());
    out.append(" ");
    let t2 = ctx_wc(c);
    out.append(t2.as_str());
    out.append(" {\ntype Value = ");
    out.append(c.ident.as_str());
    let t3 = ctx_tyg(c);
    out.append(t3.as_str());
    out.append(";\nfn expecting(&self, formatter: &mut ::core::fmt::Formatter<'_>) -> ::core::fmt::Result {\nformatter.write_str(");
    out.append(label);
    out.append(")?;\nformatter.write_str(stringify!(");
    out.append(target);
    out.append("))\n}\n");
    out.append(methods);
    out.append("}\n");
    out
}

/// The visitor made from the state handed to `deserialize_state`.
pub open spec fn spec_visitor_value(name: Seq<char>) -> Seq<char> {
    name
        + " {\nstate: __state,\n_marker: ::core::marker::PhantomData,\n}"@
}

fn visitor_value(name: &str) -> (out: String)
    ensures
        out@ == spec_visitor_value(name@),
{
    let mut out = String::from_str(name);
    out.append(" {\nstate: __state,\n_marker: ::core::marker::PhantomData,\n}");
    out
}

/// A `visit_seq` method with the given body.
pub open spec fn spec_visit_seq_fn(trailing: Seq<char>, body: Seq<char>) -> Seq<char> {
    "fn visit_seq<__A>(self, mut __seq: __A"@
        + trailing
        + ") -> ::core::result::Result<Self::Value, __A::Error>\nwhere\n__A: _serde::de::SeqAccess<'de>,\n{\n"@
        + body
        + "}\n"@
}

fn visit_seq_fn(trailing: &str, body: &str) -> (out: String)
    ensures
        out@ == spec_visit_seq_fn(trailing@, body@),
{
    let mut out = String::from_str("fn visit_seq<__A>(self, mut __seq: __A");
    out.append(trailing);
    out.append(") -> ::core::result::Result<Self::Value, __A::Error>\nwhere\n__A: _serde::de::SeqAccess<'de>,\n{\n");
    out.append(body);
    out.append("}\n");
    out
}

/// `visit_map`: reads entries until the map ends, then builds the value.
pub open spec fn spec_visit_map_fn(trailing: Seq<char>, key: Seq<char>, enum_name: Seq<char>, init: Seq<char>, arms: Seq<char>, build: Seq<char>, construct: Seq<char>) -> Seq<char> {
    "fn visit_map<__M>(self, mut __map: __M"@
        + trailing
        + ") -> ::core::result::Result<Self::Value, __M::Error>\nwhere\n__M: _serde::de::MapAccess<'de>,\n{\nlet state = self.state;\n"@
        + init
        + "while let ::core::option::Option::Some("@
        + key
        + ") = _serde::de::MapAccess::next_key::<"@
        + enum_name
        + ">(&mut __map)? {\nmatch "@
        + key
        + " {\n"@
        + arms
        + enum_name
        + "::__Ignore => {\nlet _ = _serde::de::MapAccess::next_value::<_serde::de::IgnoredAny>(&mut __map)?;\n}\n}\n}\n"@
        + build
        + "::core::result::Result::Ok("@
        + construct
        + ")\n}\n"@
}

fn visit_map_fn(trailing: &str, key: &str, enum_name: &str, init: &str, arms: &str, build: &str, construct: &str) -> (out: String)
    ensures
        out@ == spec_visit_map_fn(trailing@, key@, enum_name@, init@, arms@, build@, construct@),
{
    let mut out = String::from_str("fn visit_map<__M>(self, mut __map: __M");
    out.append(trailing);
    out.append(") -> ::core::result::Result<Self::Value, __M::Error>\nwhere\n__M: _serde::de::MapAccess<'de>,\n{\nlet state = self.state;\n");
    out.append(init);
    out.append("while let ::core::option::Option::Some(");
    out.append(key);
    out.append(") = _serde::de::MapAccess::next_key::<");
    out.append(enum_name);
    out.append(">(&mut __map)? {\nmatch ");
    out.append(key);
    out.append(" {\n");
    out.append(arms);
    out.append(enum_name);
    out.append("::__Ignore => {\nlet _ = _serde::de::MapAccess::next_value::<_serde::de::IgnoredAny>(&mut __map)?;\n}\n}\n}\n");
    out.append(build);
    out.append("::core::result::Result::Ok(");
    out.append(construct);
    out.append(")\n}\n");
    out
}

/// `path` built from the locals of its named fields.
pub open spec fn spec_named_construct(path: Seq<char>, fields: Seq<FieldDecl>) -> Seq<char> {
    path
        + " { "@
        + spec_construct_pairs(fields, fields.len() as nat)
        + " }"@
}

fn named_construct(path: &str, fields: &Vec<FieldDecl>) -> (out: String)
    requires
        all_named(fields@),
    ensures
        out@ == spec_named_construct(path@, fields@),
{
    let mut out = String::from_str(path);
    out.append(" { ");
    let t0 = construct_pairs(fields);
    out.append(t0.as_str());
    out.append(" }");
    out
}

/// `path` built from its positional bindings.
pub open spec fn spec_tuple_construct(path: Seq<char>, fields: Seq<FieldDecl>, prefix: Seq<char>) -> Seq<char> {
    path
        + "("@
        + spec_tuple_items(fields, prefix, fields.len() as nat)
        + ")"@
}

fn tuple_construct(path: &str, fields: &Vec<FieldDecl>, prefix: &str) -> (out: String)
    ensures
        out@ == spec_tuple_construct(path@, fields@, prefix@),
{
    let mut out = String::from_str(path);
    out.append("(");
    let t0 = tuple_items(fields, prefix);
    out.append(t0.as_str());
    out.append(")");
    out
}

/// `visit_seq` for named fields: the fields that are read come in order, and a longer sequence is an error.
pub open spec fn spec_seq_read_fields_body(fields: Seq<FieldDecl>, c: CtxView, construct: Seq<char>) -> Seq<char> {
    "let state = self.state;\n"@
        + spec_kept_reads(fields, c, fields.len() as nat)
        + "if let ::core::option::Option::Some(_) = _serde::de::SeqAccess::next_element::<_serde::de::IgnoredAny>(&mut __seq)? {\nreturn ::core::result::Result::Err(_serde::de::Error::invalid_length("@
        + decimal(kept_count(fields, fields.len() as nat))
        + "usize + 1, &self));\n}\n"@
        + spec_init_skipped(fields, fields.len() as nat)
        + "::core::result::Result::Ok("@
        + construct
        + ")\n"@
}

pub fn seq_read_fields_body(fields: &Vec<FieldDecl>, c: &Ctx, construct: &str) -> (out: String)
    requires
        all_named(fields@),
    ensures
        out@ == spec_seq_read_fields_body(fields@, c@, construct@),
{
    let mut out = String::from_str("let state = self.state;\n");
    let t0 = kept_reads(fields, c);
    out.append(t0.as_str());
    out.append("if let ::core::option::Option::Some(_) = _serde::de::SeqAccess::next_element::<_serde::de::IgnoredAny>(&mut __seq)? {\nreturn ::core::result::Result::Err(_serde::de::Error::invalid_length(");
    let t1 = decimal_string(kept_len(fields));
    out.append(t1.as_str());
    out.append("usize + 1, &self));\n}\n");
    let t2 = init_skipped(fields);
    out.append(t2.as_str());
    out.append("::core::result::Result::Ok(");
    out.append(construct);
    out.append(")\n");
    out
}

/// `visit_map` and `visit_seq` of a visitor for named fields.
pub open spec fn spec_named_methods(trailing: Seq<char>, key: Seq<char>, fields: Seq<FieldDecl>, lits: Seq<Seq<char>>, enum_name: Seq<char>, prefix: Seq<char>, construct: Seq<char>, c: CtxView) -> Seq<char> {
    spec_visit_map_fn(trailing, key, enum_name, spec_init_locals(fields, fields.len() as nat), spec_map_arms(fields, lits, enum_name, prefix, c, fields.len() as nat), spec_build_fields(fields, lits, fields.len() as nat), construct)
        + spec_visit_seq_fn(""@, spec_seq_read_fields_body(fields, c, construct))
}

fn named_methods(trailing: &str, key: &str, fields: &Vec<FieldDecl>, lits: &Vec<String>, enum_name: &str, prefix: &str, construct: &str, c: &Ctx) -> (out: String)
    requires
        all_named(fields@),
        lits@.len() == fields@.len(),
    ensures
        out@ == spec_named_methods(trailing@, key@, fields@, lits.deep_view(), enum_name@, prefix@, construct@, c@),
{
    let mut out = visit_map_fn(trailing, key, enum_name, init_locals(fields).as_str(), map_arms(fields, lits, enum_name, prefix, c).as_str(), build_fields(fields, lits).as_str(), construct);
    let t0 = visit_seq_fn("", seq_read_fields_body(fields, c, construct).as_str());
    out.append(t0.as_str());
    out
}

/// The field table, the field identifier and the visitor of a struct or a struct variant with named fields.
pub open spec fn spec_named_fields_visitor(attr: Seq<char>, trailing: Seq<char>, key: Seq<char>, path: Seq<char>, label: Seq<char>, fields: Seq<FieldDecl>, lits: Seq<Seq<char>>, field_array: Seq<char>, enum_name: Seq<char>, field_visitor: Seq<char>, prefix: Seq<char>, visitor: Seq<char>, c: CtxView) -> Seq<char> {
    let keys = kept_texts(fields, lits);
    let variants = kept_idents(fields, prefix);
    let fallback = spec_ignore_fallback(enum_name);
    let construct = spec_named_construct(path, fields);
    let methods = spec_named_methods(trailing, key, fields, lits, enum_name, prefix, construct, c);
    "const "@
        + field_array
        + ": &'static [&'static str] = &["@
        + spec_enum_items(keys, keys.len() as nat)
        + "];\n#[allow(non_camel_case_types)]\nenum "@
        + enum_name
        + " { "@
        + spec_enum_items_trailing(variants, variants.len() as nat)
        + "__Ignore }\n"@
        + spec_identifier_visitor(attr, enum_name, field_visitor, "\"field name\""@, keys, variants, fallback, fallback)
        + spec_visitor_struct(attr, visitor, c)
        + spec_visitor_impl(visitor, label, path, methods, c)
}

/// The law of field keys, for the items of a struct or struct variant with
/// named fields: the field identifier's `visit_str` maps the key literal of
/// every field that is read to the identifier of that same field.
pub proof fn lemma_named_fields_visitor_reads_keys(
    attr: Seq<char>,
    trailing: Seq<char>,
    key: Seq<char>,
    path: Seq<char>,
    label: Seq<char>,
    fields: Seq<FieldDecl>,
    lits: Seq<Seq<char>>,
    field_array: Seq<char>,
    enum_name: Seq<char>,
    field_visitor: Seq<char>,
    prefix: Seq<char>,
    visitor: Seq<char>,
    c: CtxView,
)
    ensures
        forall|j: int|
            0 <= j < fields.len() && !fields[j].attrs.skip ==> occurs_in(
                #[trigger] lits[j] + " => ::core::result::Result::Ok("@ + enum_name + "::"@ + (prefix
                    + field_name(fields[j])) + "),\n"@,
                spec_named_fields_visitor(
                    attr,
                    trailing,
                    key,
                    path,
                    label,
                    fields,
                    lits,
                    field_array,
                    enum_name,
                    field_visitor,
                    prefix,
                    visitor,
                    c,
                ),
            ),
{
    let keys = kept_texts(fields, lits);
    let variants = kept_idents(fields, prefix);
    let fallback = spec_ignore_fallback(enum_name);
    let construct = spec_named_construct(path, fields);
    let methods = spec_named_methods(trailing, key, fields, lits, enum_name, prefix, construct, c);
    let idv = spec_identifier_visitor(attr, enum_name, field_visitor, "\"field name\""@, keys, variants, fallback, fallback);
    let before = "const "@
        + field_array
        + ": &'static [&'static str] = &["@
        + spec_enum_items(keys, keys.len() as nat)
        + "];\n#[allow(non_camel_case_types)]\nenum "@
        + enum_name
        + " { "@
        + spec_enum_items_trailing(variants, variants.len() as nat)
        + "__Ignore }\n"@;
    let after = spec_visitor_struct(attr, visitor, c) + spec_visitor_impl(visitor, label, path, methods, c);
    let whole = spec_named_fields_visitor(
        attr,
        trailing,
        key,
        path,
        label,
        fields,
        lits,
        field_array,
        enum_name,
        field_visitor,
        prefix,
        visitor,
        c,
    );
    assert(whole =~= before + idv + after);
    lemma_identifier_visitor_pairs_keys(attr, enum_name, field_visitor, "\"field name\""@, keys, variants, fallback, fallback);
    lemma_kept_lists_len(fields, lits, prefix);
    assert forall|j: int| 0 <= j < fields.len() && !fields[j].attrs.skip implies occurs_in(
        #[trigger] lits[j] + " => ::core::result::Result::Ok("@ + enum_name + "::"@ + (prefix
            + field_name(fields[j])) + "),\n"@,
        whole,
    ) by {
        lemma_kept_position(fields, lits, prefix, j);
        let k = kept_count(fields, j as nat) as int;
        assert(keys[k] + " => ::core::result::Result::Ok("@ + enum_name + "::"@ + variants[k]
            + "),\n"@ == lits[j] + " => ::core::result::Result::Ok("@ + enum_name + "::"@ + (prefix
            + field_name(fields[j])) + "),\n"@);
        lemma_occurs_in_concat(
            lits[j] + " => ::core::result::Result::Ok("@ + enum_name + "::"@ + (prefix
                + field_name(fields[j])) + "),\n"@,
            before,
            idv,
            after,
        );
    }
}

fn named_fields_visitor(attr: &str, trailing: &str, key: &str, path: &str, label: &str, fields: &Vec<FieldDecl>, lits: &Vec<String>, field_array: &str, enum_name: &str, field_visitor: &str, prefix: &str, visitor: &str, c: &Ctx) -> (out: String)
    requires
        all_named(fields@),
        lits@.len() == fields@.len(),
    ensures
        out@ == spec_named_fields_visitor(attr@, trailing@, key@, path@, label@, fields@, lits.deep_view(), field_array@, enum_name@, field_visitor@, prefix@, visitor@, c@),
{
    let keys = field_key_literals(fields, lits);
    let variants = field_variant_idents(fields, prefix);
    let fallback = ignore_fallback(enum_name);
    let construct = named_construct(path, fields);
    let methods = named_methods(trailing, key, fields, lits, enum_name, prefix, construct.as_str(), c);
    proof {
        lemma_kept_lists_len(fields@, lits.deep_view(), prefix@);
    }
    let mut out = String::from_str("const ");
    out.append(field_array);
    out.append(": &'static [&'static str] = &[");
    let t0 = enum_items(&keys);
    out.append(t0.as_str());
    out.append("];\n#[allow(non_camel_case_types)]\nenum ");
    out.append(enum_name);
    out.append(" { ");
    let t1 = enum_items_trailing(&variants);
    out.append(t1.as_str());
    out.append("__Ignore }\n");
    let t2 = identifier_visitor(attr, enum_name, field_visitor, "\"field name\"", &keys, &variants, fallback.as_str(), fallback.as_str());
    out.append(t2.as_str());
    let t3 = visitor_struct(attr, visitor, c);
    out.append(t3.as_str());
    let t4 = visitor_impl(visitor, label, path, methods.as_str(), c);
    out.append(t4.as_str());
    out
}

/// An identifier without the `r#` of a raw identifier.
pub open spec fn unraw(ident: Seq<char>) -> Seq<char> {
    if ident.len() >= 2 && ident[0] == 'r' && ident[1] == '#' {
        ident.subrange(2, ident.len() as int)
    } else {
        ident
    }
}

/// The name `a` followed by the identifier `b` without its `r#`, the way an
/// identifier is pasted into a new one.
pub open spec fn spec_concat_names(a: Seq<char>, b: Seq<char>) -> Seq<char> {
    a + unraw(b)
}

fn concat_names(a: &str, b: &str) -> (out: String)
    ensures
        out@ == spec_concat_names(a@, b@),
{
    let mut out = String::from_str(a);
    let n = b.unicode_len();
    if n >= 2 && b.get_char(0) == 'r' && b.get_char(1) == '#' {
        out.append(b.substring_char(2, n));
    } else {
        out.append(b);
    }
    out
}

/// The path `a::b`.
pub open spec fn spec_path2(a: Seq<char>, b: Seq<char>) -> Seq<char> {
    a
        + "::"@
        + b
}

fn path2(a: &str, b: &str) -> (out: String)
    ensures
        out@ == spec_path2(a@, b@),
{
    let mut out = String::from_str(a);
    out.append("::");
    out.append(b);
    out
}

/// `prefix`, the position `i`, then `suffix`.
pub open spec fn spec_indexed_name(prefix: Seq<char>, i: usize, suffix: Seq<char>) -> Seq<char> {
    prefix
        + decimal(i as nat)
        + suffix
}

fn indexed_name(prefix: &str, i: usize, suffix: &str) -> (out: String)
    ensures
        out@ == spec_indexed_name(prefix@, i, suffix@),
{
    let mut out = String::from_str(prefix);
    let t0 = decimal_string(i);
    out.append(t0.as_str());
    out.append(suffix);
    out
}

/// The body for a struct with named fields: it accepts a map (by name or by index) or a sequence.
pub open spec fn spec_deserialize_named_struct(fields: Seq<FieldDecl>, lits: Seq<Seq<char>>, c: CtxView) -> Seq<char> {
    spec_named_fields_visitor(""@, ""@, "__key"@, c.ident, "\"struct \""@, fields, lits, "__FIELDS"@, "__Field"@, "__FieldVisitor"@, "__field_"@, "__Visitor"@, c)
        + "_serde::Deserializer::deserialize_struct(\n__deserializer,\nstringify!("@
        + c.ident
        + "),\n__FIELDS,\n"@
        + spec_visitor_value("__Visitor"@)
        + ",\n)"@
}

/// The law of field keys for a struct with named fields: its field
/// identifier maps the key literal of every field that is read (`lits[j]`,
/// the literal of field `j`'s key) to that same field's identifier, so each
/// value is stored in the field whose key it came under.
pub proof fn lemma_named_struct_reads_fields_under_their_keys(
    fields: Seq<FieldDecl>,
    lits: Seq<Seq<char>>,
    c: CtxView,
)
    ensures
        forall|j: int|
            0 <= j < fields.len() && !fields[j].attrs.skip ==> occurs_in(
                #[trigger] lits[j] + " => ::core::result::Result::Ok("@ + "__Field"@ + "::"@ + (
                "__field_"@ + field_name(fields[j])) + "),\n"@,
                spec_deserialize_named_struct(fields, lits, c),
            ),
{
    let nfv = spec_named_fields_visitor(""@, ""@, "__key"@, c.ident, "\"struct \""@, fields, lits, "__FIELDS"@, "__Field"@, "__FieldVisitor"@, "__field_"@, "__Visitor"@, c);
    let rest = "_serde::Deserializer::deserialize_struct(\n__deserializer,\nstringify!("@
        + c.ident
        + "),\n__FIELDS,\n"@
        + spec_visitor_value("__Visitor"@)
        + ",\n)"@;
    let e = Seq::<char>::empty();
    assert(spec_deserialize_named_struct(fields, lits, c) =~= e + nfv + rest);
    lemma_named_fields_visitor_reads_keys(""@, ""@, "__key"@, c.ident, "\"struct \""@, fields, lits, "__FIELDS"@, "__Field"@, "__FieldVisitor"@, "__field_"@, "__Visitor"@, c);
    assert forall|j: int| 0 <= j < fields.len() && !fields[j].attrs.skip implies occurs_in(
        #[trigger] lits[j] + " => ::core::result::Result::Ok("@ + "__Field"@ + "::"@ + (
        "__field_"@ + field_name(fields[j])) + "),\n"@,
        e + nfv + rest,
    ) by {
        lemma_occurs_in_concat(
            lits[j] + " => ::core::result::Result::Ok("@ + "__Field"@ + "::"@ + ("__field_"@
                + field_name(fields[j])) + "),\n"@,
            e,
            nfv,
            rest,
        );
    }
}

pub fn deserialize_named_struct(fields: &Vec<FieldDecl>, lits: &Vec<String>, c: &Ctx) -> (out: String)
    requires
        all_named(fields@),
        lits@.len() == fields@.len(),
    ensures
        out@ == spec_deserialize_named_struct(fields@, lits.deep_view(), c@),
{
    let mut out = named_fields_visitor("", "", "__key", c.ident.as_str(), "\"struct \"", fields, lits, "__FIELDS", "__Field", "__FieldVisitor", "__field_", "__Visitor", c);
    out.append("_serde::Deserializer::deserialize_struct(\n__deserializer,\nstringify!(");
    out.append(c.ident.as_str());
    out.append("),\n__FIELDS,\n");
    let t0 = visitor_value("__Visitor");
    out.append(t0.as_str());
    out.append(",\n)");
    out
}

/// The field table, field identifier and visitor of the struct variant at position `i`.
pub open spec fn spec_struct_variant_helpers(v: VariantDecl, lits: Seq<Seq<char>>, i: usize, c: CtxView) -> Seq<char> {
    let path = spec_path2(c.ident, v.ident@);
    let array = spec_binding_name("__VARIANT_FIELDS_"@, i);
    let enum_name = spec_concat_names("__VariantFieldEnum_"@, v.ident@);
    let field_visitor = spec_concat_names("__VariantFieldVisitor_"@, v.ident@);
    let visitor = spec_indexed_name("__Variant"@, i, "_StructVisitor"@);
    spec_named_fields_visitor("#[allow(non_camel_case_types)]\n"@, ","@, "key"@, path, "\"struct variant \""@, v.fields.fields@, lits, array, enum_name, field_visitor, "__variant_field_"@, visitor, c)
}

/// The law of field keys for a struct variant: its field identifier maps the
/// key literal of every field that is read (`lits[j]`, the literal of field
/// `j`'s key) to that same field's identifier.
pub proof fn lemma_struct_variant_reads_fields_under_their_keys(
    v: VariantDecl,
    lits: Seq<Seq<char>>,
    i: usize,
    c: CtxView,
)
    ensures
        forall|j: int|
            0 <= j < v.fields.fields@.len() && !v.fields.fields@[j].attrs.skip ==> occurs_in(
                #[trigger] lits[j] + " => ::core::result::Result::Ok("@ + spec_concat_names(
                    "__VariantFieldEnum_"@,
                    v.ident@,
                ) + "::"@ + ("__variant_field_"@ + field_name(v.fields.fields@[j])) + "),\n"@,
                spec_struct_variant_helpers(v, lits, i, c),
            ),
{
    let path = spec_path2(c.ident, v.ident@);
    let array = spec_binding_name("__VARIANT_FIELDS_"@, i);
    let enum_name = spec_concat_names("__VariantFieldEnum_"@, v.ident@);
    let field_visitor = spec_concat_names("__VariantFieldVisitor_"@, v.ident@);
    let visitor = spec_indexed_name("__Variant"@, i, "_StructVisitor"@);
    lemma_named_fields_visitor_reads_keys("#[allow(non_camel_case_types)]\n"@, ","@, "key"@, path, "\"struct variant \""@, v.fields.fields@, lits, array, enum_name, field_visitor, "__variant_field_"@, visitor, c);
}

pub fn struct_variant_helpers(v: &VariantDecl, lits: &Vec<String>, i: usize, c: &Ctx) -> (out: String)
    requires
        all_named(v.fields.fields@),
        lits@.len() == v.fields.fields@.len(),
    ensures
        out@ == spec_struct_variant_helpers(*v, lits.deep_view(), i, c@),
{
    let path = path2(c.ident.as_str(), v.ident.as_str());
    let array = binding_name("__VARIANT_FIELDS_", i);
    let enum_name = concat_names("__VariantFieldEnum_", v.ident.as_str());
    let field_visitor = concat_names("__VariantFieldVisitor_", v.ident.as_str());
    let visitor = indexed_name("__Variant", i, "_StructVisitor");
    let mut out = named_fields_visitor("#[allow(non_camel_case_types)]\n", ",", "key", path.as_str(), "\"struct variant \"", &v.fields.fields, lits, array.as_str(), enum_name.as_str(), field_visitor.as_str(), "__variant_field_", visitor.as_str(), c);
    out
}

/// The names of the items that the helpers of the variant `v` at position
/// `i` can define: its field table, field identifier enum, field identifier
/// visitor and struct visitor (a struct variant), and its tuple visitor (a
/// tuple variant).
pub open spec fn variant_item_names(v: VariantDecl, i: usize) -> Seq<Seq<char>> {
    seq![
        spec_binding_name("__VARIANT_FIELDS_"@, i),
        spec_concat_names("__VariantFieldEnum_"@, v.ident@),
        spec_concat_names("__VariantFieldVisitor_"@, v.ident@),
        spec_indexed_name("__Variant"@, i, "_StructVisitor"@),
        spec_indexed_name("__Variant"@, i, "_TupleVisitor"@),
    ]
}

proof fn lemma_differ_at(x: Seq<char>, y: Seq<char>, k: int)
    requires
        0 <= k < x.len(),
        0 <= k < y.len(),
        x[k] != y[k],
    ensures
        x != y,
{
}

proof fn lemma_prefix_cancel(p: Seq<char>, x: Seq<char>, y: Seq<char>)
    requires
        p + x == p + y,
    ensures
        x == y,
{
    assert(x =~= (p + x).skip(p.len() as int));
    assert(y =~= (p + y).skip(p.len() as int));
}

proof fn lemma_item_names_differ(v1: VariantDecl, i1: usize, a: int, v2: VariantDecl, i2: usize, b: int)
    requires
        i1 != i2,
        unraw(v1.ident@) != unraw(v2.ident@),
        0 <= a < 5,
        0 <= b < 5,
    ensures
        variant_item_names(v1, i1)[a] != variant_item_names(v2, i2)[b],
{
    reveal_strlit("__VARIANT_FIELDS_");
    reveal_strlit("__VariantFieldEnum_");
    reveal_strlit("__VariantFieldVisitor_");
    reveal_strlit("__Variant");
    reveal_strlit("_StructVisitor");
    reveal_strlit("_TupleVisitor");
    let n1 = variant_item_names(v1, i1);
    let n2 = variant_item_names(v2, i2);
    let d1 = decimal(i1 as nat);
    let d2 = decimal(i2 as nat);
    lemma_decimal_digits(i1 as nat);
    lemma_decimal_digits(i2 as nat);
    let pv = "__Variant"@;
    let u1 = unraw(v1.ident@);
    let u2 = unraw(v2.ident@);
    assert(n1[0] == "__VARIANT_FIELDS_"@ + d1);
    assert(n2[0] == "__VARIANT_FIELDS_"@ + d2);
    assert(n1[1] == "__VariantFieldEnum_"@ + u1);
    assert(n2[1] == "__VariantFieldEnum_"@ + u2);
    assert(n1[2] == "__VariantFieldVisitor_"@ + u1);
    assert(n2[2] == "__VariantFieldVisitor_"@ + u2);
    assert(n1[3] == pv + d1 + "_StructVisitor"@);
    assert(n2[3] == pv + d2 + "_StructVisitor"@);
    assert(n1[4] == pv + d1 + "_TupleVisitor"@);
    assert(n2[4] == pv + d2 + "_TupleVisitor"@);
    assert(!is_digit('F'));
    assert(!is_digit('_'));
    if (a == 0) != (b == 0) {
        lemma_differ_at(n1[a], n2[b], 3);
    } else if a == 0 {
        if n1[a] == n2[b] {
            lemma_prefix_cancel("__VARIANT_FIELDS_"@, d1, d2);
            lemma_decimal_injective(i1 as nat, i2 as nat);
        }
    } else if (a == 1 && b == 2) || (a == 2 && b == 1) {
        lemma_differ_at(n1[a], n2[b], 14);
    } else if a == b && (a == 1 || a == 2) {
        if n1[a] == n2[b] {
            lemma_prefix_cancel(if a == 1 { "__VariantFieldEnum_"@ } else { "__VariantFieldVisitor_"@ }, u1, u2);
        }
    } else if (a == 1 || a == 2) && (b == 3 || b == 4) {
        assert(n2[b][9] == d2[0]);
        lemma_differ_at(n1[a], n2[b], 9);
    } else if (b == 1 || b == 2) && (a == 3 || a == 4) {
        assert(n1[a][9] == d1[0]);
        lemma_differ_at(n1[a], n2[b], 9);
    } else {
        let s1 = if a == 3 { "_StructVisitor"@ } else { "_TupleVisitor"@ };
        let s2 = if b == 3 { "_StructVisitor"@ } else { "_TupleVisitor"@ };
        if n1[a] == n2[b] {
            assert(pv + d1 + s1 =~= pv + (d1 + s1));
            assert(pv + d2 + s2 =~= pv + (d2 + s2));
            lemma_prefix_cancel(pv, d1 + s1, d2 + s2);
            lemma_digits_then_rest(d1, s1, d2, s2);
            lemma_decimal_injective(i1 as nat, i2 as nat);
        }
    }
}

/// The law of helper names: the items that the helpers of two different
/// variants define (field tables, field identifiers and their visitors,
/// struct and tuple visitors) all have different names, so the helpers of an
/// enum never define one name twice.  Two variants differ in position and in
/// name (up to the `r#` of a raw identifier, which is one and the same
/// identifier).
pub proof fn lemma_variant_item_names_distinct(v1: VariantDecl, i1: usize, v2: VariantDecl, i2: usize)
    requires
        i1 != i2,
        unraw(v1.ident@) != unraw(v2.ident@),
    ensures
        forall|a: int, b: int|
            0 <= a < 5 && 0 <= b < 5 ==> #[trigger] variant_item_names(v1, i1)[a]
                != #[trigger] variant_item_names(v2, i2)[b],
{
    assert forall|a: int, b: int| 0 <= a < 5 && 0 <= b < 5 implies #[trigger] variant_item_names(
        v1,
        i1,
    )[a] != #[trigger] variant_item_names(v2, i2)[b] by {
        lemma_item_names_differ(v1, i1, a, v2, i2, b);
    }
}

/// The inner value of a newtype struct, read through its `with` module.
pub open spec fn spec_newtype_read_with(f: FieldDecl, c: CtxView) -> Seq<char> {
    "let state = self.state;\nlet __value: "@
        + f.ty@
        + " = "@
        + with_path(f)
        + "::deserialize_state(state, __deserializer)?;\n::core::result::Result::Ok("@
        + c.ident
        + "(__value))\n"@
}

fn newtype_read_with(f: &FieldDecl, c: &Ctx) -> (out: String)
    requires
        f.attrs.with is Some,
    ensures
        out@ == spec_newtype_read_with(*f, c@),
{
    let mut out = String::from_str("let state = self.state;\nlet __value: ");
    out.append(f.ty.as_str());
    out.append(" = ");
    out.append(field_with(f).as_str());
    out.append("::deserialize_state(state, __deserializer)?;\n::core::result::Result::Ok(");
    out.append(c.ident.as_str());
    out.append("(__value))\n");
    out
}

/// The inner value of a newtype struct, read through the state.
pub open spec fn spec_newtype_read_stateful(f: FieldDecl, c: CtxView) -> Seq<char> {
    "let state = self.state;\nlet __seed = "@
        + spec_wrap_seed(f.ty@, c.state_tokens, "state"@)
        + ";\nlet __value = _serde::de::DeserializeSeed::deserialize(__seed, __deserializer)?;\n::core::result::Result::Ok("@
        + c.ident
        + "(__value))\n"@
}

fn newtype_read_stateful(f: &FieldDecl, c: &Ctx) -> (out: String)
    ensures
        out@ == spec_newtype_read_stateful(*f, c@),
{
    let mut out = String::from_str("let state = self.state;\nlet __seed = ");
    let t0 = wrap_seed(f.ty.as_str(), c.state_tokens.as_str(), "state");
    out.append(t0.as_str());
    out.append(";\nlet __value = _serde::de::DeserializeSeed::deserialize(__seed, __deserializer)?;\n::core::result::Result::Ok(");
    out.append(c.ident.as_str());
    out.append("(__value))\n");
    out
}

/// The inner value of a newtype struct, read with plain serde.
pub open spec fn spec_newtype_read_stateless(f: FieldDecl, c: CtxView) -> Seq<char> {
    "let __value: "@
        + f.ty@
        + " = _serde::Deserialize::deserialize(__deserializer)?;\n::core::result::Result::Ok("@
        + c.ident
        + "(__value))\n"@
}

fn newtype_read_stateless(f: &FieldDecl, c: &Ctx) -> (out: String)
    ensures
        out@ == spec_newtype_read_stateless(*f, c@),
{
    let mut out = String::from_str("let __value: ");
    out.append(f.ty.as_str());
    out.append(" = _serde::Deserialize::deserialize(__deserializer)?;\n::core::result::Result::Ok(");
    out.append(c.ident.as_str());
    out.append("(__value))\n");
    out
}

/// The body of `visit_newtype_struct`: the inner value is read the way the
/// field says.
pub open spec fn spec_newtype_body(f: FieldDecl, c: CtxView) -> Seq<char> {
    match f.attrs.with {
        Some(_) => spec_newtype_read_with(f, c),
        None => match f.mode {
            ItemMode::Stateful => spec_newtype_read_stateful(f, c),
            ItemMode::Stateless => spec_newtype_read_stateless(f, c),
        },
    }
}

fn newtype_body(f: &FieldDecl, c: &Ctx) -> (out: String)
    ensures
        out@ == spec_newtype_body(*f, c@),
{
    match &f.attrs.with {
        Some(_) => newtype_read_with(f, c),
        None => match f.mode {
            ItemMode::Stateful => newtype_read_stateful(f, c),
            ItemMode::Stateless => newtype_read_stateless(f, c),
        },
    }
}

/// The state is taken from the visitor unless the field is read with plain
/// serde.
pub open spec fn spec_newtype_seq_prefix(f: FieldDecl) -> Seq<char> {
    if f.attrs.with is None && f.mode == ItemMode::Stateless {
        ""@
    } else {
        "let state = self.state;\n"@
    }
}

fn newtype_seq_prefix(f: &FieldDecl) -> (s: &'static str)
    ensures
        s@ == spec_newtype_seq_prefix(*f),
{
    if f.attrs.with.is_none() && f.mode == ItemMode::Stateless {
        ""
    } else {
        "let state = self.state;\n"
    }
}

/// `visit_seq` of a newtype struct: exactly one element.
pub open spec fn spec_newtype_seq_body(f: FieldDecl, prefix: Seq<char>, c: CtxView) -> Seq<char> {
    prefix
        + spec_seq_element_read(f, "__value"@, "0"@, c)
        + "if _serde::de::SeqAccess::next_element::<_serde::de::IgnoredAny>(&mut __seq)?.is_some() {\nreturn ::core::result::Result::Err(_serde::de::Error::invalid_length(1, &self));\n}\n::core::result::Result::Ok("@
        + c.ident
        + "(__value))\n"@
}

fn newtype_seq_body(f: &FieldDecl, prefix: &str, c: &Ctx) -> (out: String)
    ensures
        out@ == spec_newtype_seq_body(*f, prefix@, c@),
{
    let mut out = String::from_str(prefix);
    let t0 = seq_element_read(f, "__value", "0", c);
    out.append(t0.as_str());
    out.append("if _serde::de::SeqAccess::next_element::<_serde::de::IgnoredAny>(&mut __seq)?.is_some() {\nreturn ::core::result::Result::Err(_serde::de::Error::invalid_length(1, &self));\n}\n::core::result::Result::Ok(");
    out.append(c.ident.as_str());
    out.append("(__value))\n");
    out
}

/// The `visit_newtype_struct` and `visit_seq` methods of a newtype visitor.
pub open spec fn spec_newtype_methods(body: Seq<char>, seq: Seq<char>) -> Seq<char> {
    "fn visit_newtype_struct<__E>(self, __deserializer: __E,) -> ::core::result::Result<Self::Value, __E::Error>\nwhere\n__E: _serde::Deserializer<'de>,\n{\n"@
        + body
        + "}\n"@
        + spec_visit_seq_fn(","@, seq)
}

fn newtype_methods(body: &str, seq: &str) -> (out: String)
    ensures
        out@ == spec_newtype_methods(body@, seq@),
{
    let mut out = String::from_str("fn visit_newtype_struct<__E>(self, __deserializer: __E,) -> ::core::result::Result<Self::Value, __E::Error>\nwhere\n__E: _serde::Deserializer<'de>,\n{\n");
    out.append(body);
    out.append("}\n");
    let t0 = visit_seq_fn(",", seq);
    out.append(t0.as_str());
    out
}

/// The body for a tuple struct with one field.
pub open spec fn spec_deserialize_newtype_struct(f: FieldDecl, c: CtxView) -> Seq<char> {
    let methods = spec_newtype_methods(spec_newtype_body(f, c), spec_newtype_seq_body(f, spec_newtype_seq_prefix(f), c));
    spec_visitor_struct(""@, "__Visitor"@, c)
        + spec_visitor_impl("__Visitor"@, "\"newtype struct \""@, c.ident, methods, c)
        + "_serde::Deserializer::deserialize_newtype_struct(\n__deserializer,\nstringify!("@
        + c.ident
        + "),\n"@
        + spec_visitor_value("__Visitor"@)
        + ",\n)"@
}

/// The law of newtype structs: `visit_newtype_struct` reads the inner value
/// the way the field says. A field with a `with` module is read by that
/// module's `deserialize_state`, handed the visitor's state; a stateful field
/// with a `wrap_deserialize_seed` over the visitor's state; a stateless field
/// with plain serde. The value read is wrapped in the struct.
#[verifier::spinoff_prover]
pub proof fn lemma_newtype_struct_reads_in_field_mode(f: FieldDecl, c: CtxView)
    ensures
        ({
            let t = spec_deserialize_newtype_struct(f, c);
            let head = "fn visit_newtype_struct<__E>(self, __deserializer: __E,) -> ::core::result::Result<Self::Value, __E::Error>\nwhere\n__E: _serde::Deserializer<'de>,\n{\n"@;
            let done = c.ident + "(__value))\n"@ + "}\n"@;
            &&& f.attrs.with is Some ==> occurs_in(
                head + "let state = self.state;\nlet __value: "@ + f.ty@ + " = "@ + with_path(f)
                    + "::deserialize_state(state, __deserializer)?;\n::core::result::Result::Ok("@ + done,
                t,
            )
            &&& f.attrs.with is None && f.mode == ItemMode::Stateful ==> occurs_in(
                head + "let state = self.state;\nlet __seed = "@
                    + "_serde_state::__private::wrap_deserialize_seed::<"@ + f.ty@ + ", "@ + c.state_tokens
                    + ">("@ + "state"@ + ")"@
                    + ";\nlet __value = _serde::de::DeserializeSeed::deserialize(__seed, __deserializer)?;\n::core::result::Result::Ok("@
                    + done,
                t,
            )
            &&& f.attrs.with is None && f.mode == ItemMode::Stateless ==> occurs_in(
                head + "let __value: "@ + f.ty@ + " = _serde::Deserialize::deserialize(__deserializer)?;\n::core::result::Result::Ok("@
                    + done,
                t,
            )
        }),
{
    let t = spec_deserialize_newtype_struct(f, c);
    let head = "fn visit_newtype_struct<__E>(self, __deserializer: __E,) -> ::core::result::Result<Self::Value, __E::Error>\nwhere\n__E: _serde::Deserializer<'de>,\n{\n"@;
    let done = c.ident + "(__value))\n"@ + "}\n"@;
    let body = spec_newtype_body(f, c);
    let part = head + body + "}\n"@;
    let e = Seq::<char>::empty();
    if f.attrs.with is Some {
        assert(part =~= head + "let state = self.state;\nlet __value: "@ + f.ty@ + " = "@ + with_path(f)
            + "::deserialize_state(state, __deserializer)?;\n::core::result::Result::Ok("@ + done);
    } else if f.mode == ItemMode::Stateful {
        assert(part =~= head + "let state = self.state;\nlet __seed = "@
            + "_serde_state::__private::wrap_deserialize_seed::<"@ + f.ty@ + ", "@ + c.state_tokens
            + ">("@ + "state"@ + ")"@
            + ";\nlet __value = _serde::de::DeserializeSeed::deserialize(__seed, __deserializer)?;\n::core::result::Result::Ok("@
            + done);
    } else {
        assert(part =~= head + "let __value: "@ + f.ty@ + " = _serde::Deserialize::deserialize(__deserializer)?;\n::core::result::Result::Ok("@
            + done);
    }
    let seq = spec_newtype_seq_body(f, spec_newtype_seq_prefix(f), c);
    let methods = spec_newtype_methods(body, seq);
    let vs = spec_visit_seq_fn(","@, seq);
    lemma_occurs_between(part, e, vs);
    assert(e + part + vs =~= methods);
    let p = "impl"@ + vig(c) + " _serde::de::Visitor<'de> for "@ + "__Visitor"@ + vtg(c) + " "@ + wc(c)
        + " {\ntype Value = "@ + c.ident + tyg(c)
        + ";\nfn expecting(&self, formatter: &mut ::core::fmt::Formatter<'_>) -> ::core::fmt::Result {\nformatter.write_str("@
        + "\"newtype struct \""@ + ")?;\nformatter.write_str(stringify!("@ + c.ident + "))\n}\n"@;
    let imp = spec_visitor_impl("__Visitor"@, "\"newtype struct \""@, c.ident, methods, c);
    lemma_occurs_in_concat(part, p, methods, "}\n"@);
    assert(p + methods + "}\n"@ =~= imp);
    let st = spec_visitor_struct(""@, "__Visitor"@, c);
    let r = "_serde::Deserializer::deserialize_newtype_struct(\n__deserializer,\nstringify!("@ + c.ident + "),\n"@
        + spec_visitor_value("__Visitor"@) + ",\n)"@;
    lemma_occurs_in_concat(part, st, imp, r);
    assert(st + imp + r =~= t);
}

pub fn deserialize_newtype_struct(f: &FieldDecl, c: &Ctx) -> (out: String)
    ensures
        out@ == spec_deserialize_newtype_struct(*f, c@),
{
    let methods = newtype_methods(newtype_body(f, c).as_str(), newtype_seq_body(f, newtype_seq_prefix(f), c).as_str());
    let mut out = visitor_struct("", "__Visitor", c);
    let t0 = visitor_impl("__Visitor", "\"newtype struct \"", c.ident.as_str(), methods.as_str(), c);
    out.append(t0.as_str());
    out.append("_serde::Deserializer::deserialize_newtype_struct(\n__deserializer,\nstringify!(");
    out.append(c.ident.as_str());
    out.append("),\n");
    let t1 = visitor_value("__Visitor");
    out.append(t1.as_str());
    out.append(",\n)");
    out
}

/// `visit_seq` of a tuple struct or variant: one element per field, in order.
pub open spec fn spec_tuple_seq_body(fields: Seq<FieldDecl>, prefix: Seq<char>, construct: Seq<char>, c: CtxView) -> Seq<char> {
    "let state = self.state;\n"@
        + spec_tuple_reads(fields, prefix, c, fields.len() as nat)
        + "::core::result::Result::Ok("@
        + construct
        + ")\n"@
}

fn tuple_seq_body(fields: &Vec<FieldDecl>, prefix: &str, construct: &str, c: &Ctx) -> (out: String)
    ensures
        out@ == spec_tuple_seq_body(fields@, prefix@, construct@, c@),
{
    let mut out = String::from_str("let state = self.state;\n");
    let t0 = tuple_reads(fields, prefix, c);
    out.append(t0.as_str());
    out.append("::core::result::Result::Ok(");
    out.append(construct);
    out.append(")\n");
    out
}

/// The body for a tuple struct with several fields.
pub open spec fn spec_deserialize_tuple_struct(fields: Seq<FieldDecl>, c: CtxView) -> Seq<char> {
    let construct = spec_tuple_construct(c.ident, fields, "__field_"@);
    let methods = spec_visit_seq_fn(","@, spec_tuple_seq_body(fields, "__field_"@, construct, c));
    spec_visitor_struct(""@, "__Visitor"@, c)
        + spec_visitor_impl("__Visitor"@, "\"tuple struct \""@, c.ident, methods, c)
        + "_serde::Deserializer::deserialize_tuple_struct(\n__deserializer,\nstringify!("@
        + c.ident
        + "),\n"@
        + decimal(fields.len() as nat)
        + "usize,\n"@
        + spec_visitor_value("__Visitor"@)
        + ",\n)"@
}

pub fn deserialize_tuple_struct(fields: &Vec<FieldDecl>, c: &Ctx) -> (out: String)
    ensures
        out@ == spec_deserialize_tuple_struct(fields@, c@),
{
    let construct = tuple_construct(c.ident.as_str(), fields, "__field_");
    let methods = visit_seq_fn(",", tuple_seq_body(fields, "__field_", construct.as_str(), c).as_str());
    let mut out = visitor_struct("", "__Visitor", c);
    let t0 = visitor_impl("__Visitor", "\"tuple struct \"", c.ident.as_str(), methods.as_str(), c);
    out.append(t0.as_str());
    out.append("_serde::Deserializer::deserialize_tuple_struct(\n__deserializer,\nstringify!(");
    out.append(c.ident.as_str());
    out.append("),\n");
    let t1 = decimal_string(fields.len());
    out.append(t1.as_str());
    out.append("usize,\n");
    let t2 = visitor_value("__Visitor");
    out.append(t2.as_str());
    out.append(",\n)");
    out
}

/// The body for a unit struct.
pub open spec fn spec_deserialize_unit_struct(ident: Seq<char>) -> Seq<char> {
    "struct __Visitor;\nimpl<'de> _serde::de::Visitor<'de> for __Visitor {\ntype Value = "@
        + ident
        + ";\nfn expecting(&self, formatter: &mut ::core::fmt::Formatter<'_>) -> ::core::fmt::Result {\nformatter.write_str(\"unit struct \")?;\nformatter.write_str(stringify!("@
        + ident
        + "))\n}\nfn visit_unit<E>(self) -> ::core::result::Result<Self::Value, E>\nwhere\nE: _serde::de::Error,\n{\n::core::result::Result::Ok("@
        + ident
        + ")\n}\n}\n_serde::Deserializer::deserialize_unit_struct(\n__deserializer,\nstringify!("@
        + ident
        + "),\n__Visitor,\n)"@
}

pub fn deserialize_unit_struct(ident: &str) -> (out: String)
    ensures
        out@ == spec_deserialize_unit_struct(ident@),
{
    let mut out = String::from_str("struct __Visitor;\nimpl<'de> _serde::de::Visitor<'de> for __Visitor {\ntype Value = ");
    out.append(ident);
    out.append(";\nfn expecting(&self, formatter: &mut ::core::fmt::Formatter<'_>) -> ::core::fmt::Result {\nformatter.write_str(\"unit struct \")?;\nformatter.write_str(stringify!(");
    out.append(ident);
    out.append("))\n}\nfn visit_unit<E>(self) -> ::core::result::Result<Self::Value, E>\nwhere\nE: _serde::de::Error,\n{\n::core::result::Result::Ok(");
    out.append(ident);
    out.append(")\n}\n}\n_serde::Deserializer::deserialize_unit_struct(\n__deserializer,\nstringify!(");
    out.append(ident);
    out.append("),\n__Visitor,\n)");
    out
}

/// The body for a tuple struct: a unit visitor for no field, a newtype
/// visitor for one, a tuple visitor for more.
pub open spec fn spec_deserialize_unnamed_struct(fields: Seq<FieldDecl>, c: CtxView) -> Seq<char> {
    if fields.len() == 0 {
        spec_deserialize_unit_struct(c.ident)
    } else if fields.len() == 1 {
        spec_deserialize_newtype_struct(fields[0], c)
    } else {
        spec_deserialize_tuple_struct(fields, c)
    }
}

pub fn deserialize_unnamed_struct(fields: &Vec<FieldDecl>, c: &Ctx) -> (out: String)
    ensures
        out@ == spec_deserialize_unnamed_struct(fields@, c@),
{
    if fields.len() == 0 {
        deserialize_unit_struct(c.ident.as_str())
    } else if fields.len() == 1 {
        deserialize_newtype_struct(&fields[0], c)
    } else {
        deserialize_tuple_struct(fields, c)
    }
}

/// The body for a struct that is not transparent, by the style of its fields.
pub open spec fn spec_deserialize_struct_body(fields: FieldsDecl, lits: Seq<Seq<char>>, c: CtxView) -> Seq<char> {
    match fields.style {
        FieldsStyle::Named => spec_deserialize_named_struct(fields.fields@, lits, c),
        FieldsStyle::Unnamed => spec_deserialize_unnamed_struct(fields.fields@, c),
        FieldsStyle::Unit => spec_deserialize_unit_struct(c.ident),
    }
}

pub fn deserialize_struct_body(fields: &FieldsDecl, lits: &Vec<String>, c: &Ctx) -> (out: String)
    requires
        crate::model::fields_wf(*fields),
        lits@.len() == fields.fields@.len(),
    ensures
        out@ == spec_deserialize_struct_body(*fields, lits.deep_view(), c@),
{
    match fields.style {
        FieldsStyle::Named => deserialize_named_struct(&fields.fields, lits, c),
        FieldsStyle::Unnamed => deserialize_unnamed_struct(&fields.fields, c),
        FieldsStyle::Unit => deserialize_unit_struct(c.ident.as_str()),
    }
}

/// Reads a transparent struct's field from the deserializer itself, through
/// its `with` module.
pub open spec fn spec_transparent_read_with(f: FieldDecl, binding: Seq<char>, construct: Seq<char>) -> Seq<char> {
    "let "@
        + binding
        + ": "@
        + f.ty@
        + " = "@
        + with_path(f)
        + "::deserialize_state(__state, __deserializer)?;\n::core::result::Result::Ok("@
        + construct
        + ")"@
}

fn transparent_read_with(f: &FieldDecl, binding: &str, construct: &str) -> (out: String)
    requires
        f.attrs.with is Some,
    ensures
        out@ == spec_transparent_read_with(*f, binding@, construct@),
{
    let mut out = String::from_str("let ");
    out.append(binding);
    out.append(": ");
    out.append(f.ty.as_str());
    out.append(" = ");
    out.append(field_with(f).as_str());
    out.append("::deserialize_state(__state, __deserializer)?;\n::core::result::Result::Ok(");
    out.append(construct);
    out.append(")");
    out
}

/// Reads a transparent struct's field from the deserializer itself, through
/// the state.
pub open spec fn spec_transparent_read_stateful(f: FieldDecl, binding: Seq<char>, construct: Seq<char>, c: CtxView) -> Seq<char> {
    "let __seed = "@
        + spec_wrap_seed(f.ty@, c.state_tokens, "__state"@)
        + ";\nlet "@
        + binding
        + " = _serde::de::DeserializeSeed::deserialize(__seed, __deserializer)?;\n::core::result::Result::Ok("@
        + construct
        + ")"@
}

fn transparent_read_stateful(f: &FieldDecl, binding: &str, construct: &str, c: &Ctx) -> (out: String)
    ensures
        out@ == spec_transparent_read_stateful(*f, binding@, construct@, c@),
{
    let mut out = String::from_str("let __seed = ");
    let t0 = wrap_seed(f.ty.as_str(), c.state_tokens.as_str(), "__state");
    out.append(t0.as_str());
    out.append(";\nlet ");
    out.append(binding);
    out.append(" = _serde::de::DeserializeSeed::deserialize(__seed, __deserializer)?;\n::core::result::Result::Ok(");
    out.append(construct);
    out.append(")");
    out
}

/// Reads a transparent struct's field from the deserializer itself, with
/// plain serde.
pub open spec fn spec_transparent_read_stateless(f: FieldDecl, binding: Seq<char>, construct: Seq<char>) -> Seq<char> {
    "let "@
        + binding
        + ": "@
        + f.ty@
        + " = _serde::Deserialize::deserialize(__deserializer)?;\n::core::result::Result::Ok("@
        + construct
        + ")"@
}

fn transparent_read_stateless(f: &FieldDecl, binding: &str, construct: &str) -> (out: String)
    ensures
        out@ == spec_transparent_read_stateless(*f, binding@, construct@),
{
    let mut out = String::from_str("let ");
    out.append(binding);
    out.append(": ");
    out.append(f.ty.as_str());
    out.append(" = _serde::Deserialize::deserialize(__deserializer)?;\n::core::result::Result::Ok(");
    out.append(construct);
    out.append(")");
    out
}

/// `path { name: name }`.
pub open spec fn spec_single_field_construct(path: Seq<char>, name: Seq<char>) -> Seq<char> {
    path
        + " { "@
        + name
        + ": "@
        + name
        + " }"@
}

fn single_field_construct(path: &str, name: &str) -> (out: String)
    ensures
        out@ == spec_single_field_construct(path@, name@),
{
    let mut out = String::from_str(path);
    out.append(" { ");
    out.append(name);
    out.append(": ");
    out.append(name);
    out.append(" }");
    out
}

/// `path(__value)`.
pub open spec fn spec_value_construct(path: Seq<char>) -> Seq<char> {
    path
        + "(__value)"@
}

fn value_construct(path: &str) -> (out: String)
    ensures
        out@ == spec_value_construct(path@),
{
    let mut out = String::from_str(path);
    out.append("(__value)");
    out
}

/// Reads the single field of a transparent struct straight from the
/// deserializer, the way the field says, and builds the struct.
pub open spec fn spec_transparent_read(f: FieldDecl, binding: Seq<char>, construct: Seq<char>, c: CtxView) -> Seq<
    char,
> {
    match f.attrs.with {
        Some(_) => spec_transparent_read_with(f, binding, construct),
        None => match f.mode {
            ItemMode::Stateful => spec_transparent_read_stateful(f, binding, construct, c),
            ItemMode::Stateless => spec_transparent_read_stateless(f, binding, construct),
        },
    }
}

fn transparent_read(f: &FieldDecl, binding: &str, construct: &str, c: &Ctx) -> (out: String)
    ensures
        out@ == spec_transparent_read(*f, binding@, construct@, c@),
{
    match &f.attrs.with {
        Some(_) => transparent_read_with(f, binding, construct),
        None => match f.mode {
            ItemMode::Stateful => transparent_read_stateful(f, binding, construct, c),
            ItemMode::Stateless => transparent_read_stateless(f, binding, construct),
        },
    }
}

/// The body for a transparent struct; it must have exactly one field.
pub open spec fn spec_deserialize_transparent(fields: FieldsDecl, c: CtxView) -> Result<
    Seq<char>,
    DeriveError,
> {
    if fields.style == FieldsStyle::Named && fields.fields@.len() == 1 {
        let f = fields.fields@[0];
        Ok(
            spec_transparent_read(
                f,
                field_name(f),
                spec_single_field_construct(c.ident, field_name(f)),
                c,
            ),
        )
    } else if fields.style == FieldsStyle::Unnamed && fields.fields@.len() == 1 {
        Ok(
            spec_transparent_read(
                fields.fields@[0],
                "__value"@,
                spec_value_construct(c.ident),
                c,
            ),
        )
    } else {
        Err(DeriveError::TransparentFieldCount)
    }
}

/// The law of transparent structs: a transparent struct with one field,
/// named or positional, reads that field from the deserializer itself, the
/// way the field says: through its `with` module, handed `__state`; through
/// the state, with a `wrap_deserialize_seed` over `__state` that then reads
/// from the deserializer (stateful); or with plain serde (stateless).
pub proof fn lemma_transparent_reads_in_field_mode(fields: FieldsDecl, c: CtxView)
    requires
        fields.style != FieldsStyle::Unit,
        fields.fields@.len() == 1,
    ensures
        spec_deserialize_transparent(fields, c) is Ok,
        ({
            let f = fields.fields@[0];
            let t = spec_deserialize_transparent(fields, c)->Ok_0;
            &&& f.attrs.with is Some ==> occurs_in(
                with_path(f) + "::deserialize_state(__state, __deserializer)?;\n::core::result::Result::Ok("@,
                t,
            )
            &&& f.attrs.with is None && f.mode == ItemMode::Stateful ==> occurs_in(
                "_serde_state::__private::wrap_deserialize_seed::<"@ + f.ty@ + ", "@ + c.state_tokens
                    + ">("@ + "__state"@ + ")"@,
                t,
            ) && occurs_in(
                " = _serde::de::DeserializeSeed::deserialize(__seed, __deserializer)?;\n::core::result::Result::Ok("@,
                t,
            )
            &&& f.attrs.with is None && f.mode == ItemMode::Stateless ==> occurs_in(
                ": "@ + f.ty@ + " = _serde::Deserialize::deserialize(__deserializer)?;\n::core::result::Result::Ok("@,
                t,
            )
        }),
{
    let f = fields.fields@[0];
    let binding = if fields.style == FieldsStyle::Named {
        field_name(f)
    } else {
        "__value"@
    };
    let construct = if fields.style == FieldsStyle::Named {
        spec_single_field_construct(c.ident, field_name(f))
    } else {
        spec_value_construct(c.ident)
    };
    let t = spec_transparent_read(f, binding, construct, c);
    assert(spec_deserialize_transparent(fields, c) == Ok::<Seq<char>, DeriveError>(t));
    if f.attrs.with is Some {
        let part = with_path(f) + "::deserialize_state(__state, __deserializer)?;\n::core::result::Result::Ok("@;
        let a = "let "@ + binding + ": "@ + f.ty@ + " = "@;
        let b = construct + ")"@;
        lemma_occurs_between(part, a, b);
        assert(a + part + b =~= t);
    } else if f.mode == ItemMode::Stateful {
        let w = "_serde_state::__private::wrap_deserialize_seed::<"@ + f.ty@ + ", "@ + c.state_tokens
            + ">("@ + "__state"@ + ")"@;
        let a = "let __seed = "@;
        let b = ";\nlet "@ + binding
            + " = _serde::de::DeserializeSeed::deserialize(__seed, __deserializer)?;\n::core::result::Result::Ok("@
            + construct + ")"@;
        lemma_occurs_between(w, a, b);
        assert(a + w + b =~= t);
        let part = " = _serde::de::DeserializeSeed::deserialize(__seed, __deserializer)?;\n::core::result::Result::Ok("@;
        let a2 = "let __seed = "@ + w + ";\nlet "@ + binding;
        let b2 = construct + ")"@;
        lemma_occurs_between(part, a2, b2);
        assert(a2 + part + b2 =~= t);
    } else {
        let part = ": "@ + f.ty@ + " = _serde::Deserialize::deserialize(__deserializer)?;\n::core::result::Result::Ok("@;
        let a = "let "@ + binding;
        let b = construct + ")"@;
        lemma_occurs_between(part, a, b);
        assert(a + part + b =~= t);
    }
}

pub fn deserialize_transparent(fields: &FieldsDecl, c: &Ctx) -> (out: Result<String, DeriveError>)
    requires
        crate::model::fields_wf(*fields),
    ensures
        match (out, spec_deserialize_transparent(*fields, c@)) {
            (Ok(t), Ok(s)) => t@ == s,
            (Err(e), Err(d)) => e == d,
            _ => false,
        },
{
    if fields.style == FieldsStyle::Named && fields.fields.len() == 1 {
        let f = &fields.fields[0];
        let name = field_ident(f);
        let construct = single_field_construct(c.ident.as_str(), name.as_str());
        Ok(transparent_read(f, name.as_str(), construct.as_str(), c))
    } else if fields.style == FieldsStyle::Unnamed && fields.fields.len() == 1 {
        let construct = value_construct(c.ident.as_str());
        Ok(transparent_read(&fields.fields[0], "__value", construct.as_str(), c))
    } else {
        Err(DeriveError::TransparentFieldCount)
    }
}

/// A `visit_enum` method that matches the variant identifier with `arms`.
pub open spec fn spec_visit_enum_fn(arms: Seq<char>) -> Seq<char> {
    "fn visit_enum<__E>(self, __enum: __E,) -> ::core::result::Result<Self::Value, __E::Error>\nwhere\n__E: _serde::de::EnumAccess<'de>,\n{\nlet state = self.state;\nmatch _serde::de::EnumAccess::variant::<__Variant>(__enum)? {\n"@
        + arms
        + "}\n}\n"@
}

fn visit_enum_fn(arms: &str) -> (out: String)
    ensures
        out@ == spec_visit_enum_fn(arms@),
{
    let mut out = String::from_str("fn visit_enum<__E>(self, __enum: __E,) -> ::core::result::Result<Self::Value, __E::Error>\nwhere\n__E: _serde::de::EnumAccess<'de>,\n{\nlet state = self.state;\nmatch _serde::de::EnumAccess::variant::<__Variant>(__enum)? {\n");
    out.append(arms);
    out.append("}\n}\n");
    out
}

/// The `visit_enum` arm of a unit variant.
pub open spec fn spec_arm_unit(v: VariantDecl, c: CtxView) -> Seq<char> {
    "(__Variant::"@
        + v.ident@
        + ", __variant) => {\n_serde::de::VariantAccess::unit_variant(__variant)?;\n::core::result::Result::Ok("@
        + c.ident
        + "::"@
        + v.ident@
        + ")\n}\n"@
}

fn arm_unit(v: &VariantDecl, c: &Ctx) -> (out: String)
    ensures
        out@ == spec_arm_unit(*v, c@),
{
    let mut out = String::from_str("(__Variant::");
    out.append(v.ident.as_str());
    out.append(", __variant) => {\n_serde::de::VariantAccess::unit_variant(__variant)?;\n::core::result::Result::Ok(");
    out.append(c.ident.as_str());
    out.append("::");
    out.append(v.ident.as_str());
    out.append(")\n}\n");
    out
}

/// The `visit_enum` arm of a newtype variant whose field has a `with` module.
pub open spec fn spec_arm_newtype_with(v: VariantDecl, f: FieldDecl, c: CtxView) -> Seq<char> {
    "(__Variant::"@
        + v.ident@
        + ", __variant) => {\nlet __seed = "@
        + spec_with_deserialize_seed(f, c)
        + ";\nlet __value = _serde::de::VariantAccess::newtype_variant_seed(__variant, __seed)?;\n::core::result::Result::Ok("@
        + c.ident
        + "::"@
        + v.ident@
        + "(__value))\n}\n"@
}

fn arm_newtype_with(v: &VariantDecl, f: &FieldDecl, c: &Ctx) -> (out: String)
    requires
        f.attrs.with is Some,
    ensures
        out@ == spec_arm_newtype_with(*v, *f, c@),
{
    let mut out = String::from_str("(__Variant::");
    out.append(v.ident.as_str());
    out.append(", __variant) => {\nlet __seed = ");
    let t0 = with_deserialize_seed(f, c);
    out.append(t0.as_str());
    out.append(";\nlet __value = _serde::de::VariantAccess::newtype_variant_seed(__variant, __seed)?;\n::core::result::Result::Ok(");
    out.append(c.ident.as_str());
    out.append("::");
    out.append(v.ident.as_str());
    out.append("(__value))\n}\n");
    out
}

/// The `visit_enum` arm of a newtype variant read through the state.
pub open spec fn spec_arm_newtype_stateful(v: VariantDecl, f: FieldDecl, c: CtxView) -> Seq<char> {
    "(__Variant::"@
        + v.ident@
        + ", __variant) => {\nlet __seed = "@
        + spec_wrap_seed(f.ty@, c.state_tokens, "state"@)
        + ";\nlet __value = _serde::de::VariantAccess::newtype_variant_seed(__variant, __seed)?;\n::core::result::Result::Ok("@
        + c.ident
        + "::"@
        + v.ident@
        + "(__value))\n}\n"@
}

fn arm_newtype_stateful(v: &VariantDecl, f: &FieldDecl, c: &Ctx) -> (out: String)
    ensures
        out@ == spec_arm_newtype_stateful(*v, *f, c@),
{
    let mut out = String::from_str("(__Variant::");
    out.append(v.ident.as_str());
    out.append(", __variant) => {\nlet __seed = ");
    let t0 = wrap_seed(f.ty.as_str(), c.state_tokens.as_str(), "state");
    out.append(t0.as_str());
    out.append(";\nlet __value = _serde::de::VariantAccess::newtype_variant_seed(__variant, __seed)?;\n::core::result::Result::Ok(");
    out.append(c.ident.as_str());
    out.append("::");
    out.append(v.ident.as_str());
    out.append("(__value))\n}\n");
    out
}

/// The `visit_enum` arm of a newtype variant read with plain serde.
pub open spec fn spec_arm_newtype_stateless(v: VariantDecl, f: FieldDecl, c: CtxView) -> Seq<char> {
    "(__Variant::"@
        + v.ident@
        + ", __variant) => {\nlet __value: "@
        + f.ty@
        + " = _serde::de::VariantAccess::newtype_variant(__variant)?;\n::core::result::Result::Ok("@
        + c.ident
        + "::"@
        + v.ident@
        + "(__value))\n}\n"@
}

fn arm_newtype_stateless(v: &VariantDecl, f: &FieldDecl, c: &Ctx) -> (out: String)
    ensures
        out@ == spec_arm_newtype_stateless(*v, *f, c@),
{
    let mut out = String::from_str("(__Variant::");
    out.append(v.ident.as_str());
    out.append(", __variant) => {\nlet __value: ");
    out.append(f.ty.as_str());
    out.append(" = _serde::de::VariantAccess::newtype_variant(__variant)?;\n::core::result::Result::Ok(");
    out.append(c.ident.as_str());
    out.append("::");
    out.append(v.ident.as_str());
    out.append("(__value))\n}\n");
    out
}

/// The `visit_enum` arm of a tuple variant: it hands the variant to its visitor.
pub open spec fn spec_arm_tuple(v: VariantDecl, i: usize, c: CtxView) -> Seq<char> {
    "(__Variant::"@
        + v.ident@
        + ", __variant) => {\n_serde::de::VariantAccess::tuple_variant(\n__variant,\n"@
        + decimal(v.fields.fields@.len())
        + "usize,\n__Variant"@
        + decimal(i as nat)
        + "_TupleVisitor {\nstate,\n_marker: ::core::marker::PhantomData,\n},\n)\n}\n"@
}

fn arm_tuple(v: &VariantDecl, i: usize, c: &Ctx) -> (out: String)
    ensures
        out@ == spec_arm_tuple(*v, i, c@),
{
    let mut out = String::from_str("(__Variant::");
    out.append(v.ident.as_str());
    out.append(", __variant) => {\n_serde::de::VariantAccess::tuple_variant(\n__variant,\n");
    let t0 = decimal_string(v.fields.fields.len());
    out.append(t0.as_str());
    out.append("usize,\n__Variant");
    let t1 = decimal_string(i);
    out.append(t1.as_str());
    out.append("_TupleVisitor {\nstate,\n_marker: ::core::marker::PhantomData,\n},\n)\n}\n");
    out
}

/// The `visit_enum` arm of a struct variant: it hands the variant to its visitor.
pub open spec fn spec_arm_struct(v: VariantDecl, i: usize, c: CtxView) -> Seq<char> {
    "(__Variant::"@
        + v.ident@
        + ", __variant) => {\n_serde::de::VariantAccess::struct_variant(\n__variant,\n__VARIANT_FIELDS_"@
        + decimal(i as nat)
        + ",\n__Variant"@
        + decimal(i as nat)
        + "_StructVisitor {\nstate,\n_marker: ::core::marker::PhantomData,\n},\n)\n}\n"@
}

fn arm_struct(v: &VariantDecl, i: usize, c: &Ctx) -> (out: String)
    ensures
        out@ == spec_arm_struct(*v, i, c@),
{
    let mut out = String::from_str("(__Variant::");
    out.append(v.ident.as_str());
    out.append(", __variant) => {\n_serde::de::VariantAccess::struct_variant(\n__variant,\n__VARIANT_FIELDS_");
    let t0 = decimal_string(i);
    out.append(t0.as_str());
    out.append(",\n__Variant");
    let t1 = decimal_string(i);
    out.append(t1.as_str());
    out.append("_StructVisitor {\nstate,\n_marker: ::core::marker::PhantomData,\n},\n)\n}\n");
    out
}

/// The visitor of the tuple variant at position `i`.
pub open spec fn spec_tuple_variant_visitor(v: VariantDecl, i: usize, c: CtxView) -> Seq<char> {
    let visitor = spec_indexed_name("__Variant"@, i, "_TupleVisitor"@);
    let path = spec_path2(c.ident, v.ident@);
    let construct = spec_tuple_construct(path, v.fields.fields@, "__variant_field_"@);
    let methods = spec_visit_seq_fn(","@, spec_tuple_seq_body(v.fields.fields@, "__variant_field_"@, construct, c));
    spec_visitor_struct("#[allow(non_camel_case_types)]\n"@, visitor, c)
        + spec_visitor_impl(visitor, "\"tuple variant \""@, path, methods, c)
}

pub fn tuple_variant_visitor(v: &VariantDecl, i: usize, c: &Ctx) -> (out: String)
    ensures
        out@ == spec_tuple_variant_visitor(*v, i, c@),
{
    let visitor = indexed_name("__Variant", i, "_TupleVisitor");
    let path = path2(c.ident.as_str(), v.ident.as_str());
    let construct = tuple_construct(path.as_str(), &v.fields.fields, "__variant_field_");
    let methods = visit_seq_fn(",", tuple_seq_body(&v.fields.fields, "__variant_field_", construct.as_str(), c).as_str());
    let mut out = visitor_struct("#[allow(non_camel_case_types)]\n", visitor.as_str(), c);
    let t0 = visitor_impl(visitor.as_str(), "\"tuple variant \"", path.as_str(), methods.as_str(), c);
    out.append(t0.as_str());
    out
}

/// The arm of `visit_enum` for the variant at position `i`.
pub open spec fn spec_deserialize_enum_variant_arm(v: VariantDecl, i: usize, c: CtxView) -> Seq<char> {
    match v.fields.style {
        FieldsStyle::Unit => spec_arm_unit(v, c),
        FieldsStyle::Unnamed => if v.fields.fields@.len() == 1 {
            let f = v.fields.fields@[0];
            match f.attrs.with {
                Some(_) => spec_arm_newtype_with(v, f, c),
                None => match f.mode {
                    ItemMode::Stateful => spec_arm_newtype_stateful(v, f, c),
                    ItemMode::Stateless => spec_arm_newtype_stateless(v, f, c),
                },
            }
        } else {
            spec_arm_tuple(v, i, c)
        },
        FieldsStyle::Named => spec_arm_struct(v, i, c),
    }
}

/// The law of newtype variants: the `visit_enum` arm of a variant with one
/// positional field hands the variant a seed and reads the value the way the
/// field says. A field with a `with` module is read by that module's
/// `deserialize_state`, handed the state, and the value it gives is wrapped in
/// the variant; a stateful field is read with a `wrap_deserialize_seed` over
/// the visitor's state; a stateless field with plain serde.
#[verifier::spinoff_prover]
pub proof fn lemma_newtype_variant_reads_in_field_mode(v: VariantDecl, i: usize, c: CtxView)
    requires
        v.fields.style == FieldsStyle::Unnamed,
        v.fields.fields@.len() == 1,
    ensures
        ({
            let f = v.fields.fields@[0];
            let arm = spec_deserialize_enum_variant_arm(v, i, c);
            let tail = ";\nlet __value = _serde::de::VariantAccess::newtype_variant_seed(__variant, __seed)?;\n::core::result::Result::Ok("@
                + c.ident + "::"@ + v.ident@ + "(__value))\n}\n"@;
            &&& f.attrs.with is Some ==> occurs_in(
                with_path(f)
                    + "::deserialize_state(self.state, __deserializer)\n}\n}\n__SerdeStateWithSeed { state }\n}"@
                    + tail,
                arm,
            )
            &&& f.attrs.with is None && f.mode == ItemMode::Stateful ==> occurs_in(
                "(__Variant::"@ + v.ident@ + ", __variant) => {\nlet __seed = "@
                    + "_serde_state::__private::wrap_deserialize_seed::<"@ + f.ty@ + ", "@ + c.state_tokens
                    + ">("@ + "state"@ + ")"@ + tail,
                arm,
            )
            &&& f.attrs.with is None && f.mode == ItemMode::Stateless ==> occurs_in(
                "(__Variant::"@ + v.ident@ + ", __variant) => {\nlet __value: "@ + f.ty@
                    + " = _serde::de::VariantAccess::newtype_variant(__variant)?;\n::core::result::Result::Ok("@
                    + c.ident + "::"@ + v.ident@ + "(__value))\n}\n"@,
                arm,
            )
        }),
{
    let f = v.fields.fields@[0];
    let arm = spec_deserialize_enum_variant_arm(v, i, c);
    let tail = ";\nlet __value = _serde::de::VariantAccess::newtype_variant_seed(__variant, __seed)?;\n::core::result::Result::Ok("@
        + c.ident + "::"@ + v.ident@ + "(__value))\n}\n"@;
    let e = Seq::<char>::empty();
    if f.attrs.with is Some {
        let lit = "::deserialize_state(self.state, __deserializer)\n}\n}\n__SerdeStateWithSeed { state }\n}"@;
        let part = with_path(f) + lit + tail;
        lemma_with_seed_calls_module(f, c);
        let h = choose|h: Seq<char>| h + with_path(f) + lit == spec_with_deserialize_seed(f, c);
        let a = "(__Variant::"@ + v.ident@ + ", __variant) => {\nlet __seed = "@ + h;
        lemma_occurs_between(part, a, e);
        assert(arm == spec_arm_newtype_with(v, f, c));
        assert(a + part + e =~= arm);
    } else if f.mode == ItemMode::Stateful {
        let part = "(__Variant::"@ + v.ident@ + ", __variant) => {\nlet __seed = "@
            + "_serde_state::__private::wrap_deserialize_seed::<"@ + f.ty@ + ", "@ + c.state_tokens
            + ">("@ + "state"@ + ")"@ + tail;
        lemma_occurs_between(part, e, e);
        assert(arm == spec_arm_newtype_stateful(v, f, c));
        assert(e + part + e =~= arm);
    } else {
        let part = "(__Variant::"@ + v.ident@ + ", __variant) => {\nlet __value: "@ + f.ty@
            + " = _serde::de::VariantAccess::newtype_variant(__variant)?;\n::core::result::Result::Ok("@
            + c.ident + "::"@ + v.ident@ + "(__value))\n}\n"@;
        lemma_occurs_between(part, e, e);
        assert(arm == spec_arm_newtype_stateless(v, f, c));
        assert(e + part + e =~= arm);
    }
}

/// The law of variant arms: the `visit_enum` arm of a variant matches its
/// own variant identifier. A unit variant checks that no data follows and
/// gives that variant; a tuple variant of other than one field hands the
/// variant, with its field count, to the tuple visitor of its position; a
/// struct variant hands it, with the field list of its position, to the
/// struct visitor of that position.
pub proof fn lemma_variant_arm_matches_its_variant(v: VariantDecl, i: usize, c: CtxView)
    ensures
        ({
            let arm = spec_deserialize_enum_variant_arm(v, i, c);
            let head = "(__Variant::"@ + v.ident@;
            &&& v.fields.style == FieldsStyle::Unit ==> arm == head
                + ", __variant) => {\n_serde::de::VariantAccess::unit_variant(__variant)?;\n::core::result::Result::Ok("@ + c.ident
                + "::"@ + v.ident@ + ")\n}\n"@
            &&& v.fields.style == FieldsStyle::Unnamed && v.fields.fields@.len() != 1 ==> arm == head
                + ", __variant) => {\n_serde::de::VariantAccess::tuple_variant(\n__variant,\n"@ + decimal(v.fields.fields@.len())
                + "usize,\n__Variant"@ + decimal(i as nat)
                + "_TupleVisitor {\nstate,\n_marker: ::core::marker::PhantomData,\n},\n)\n}\n"@
            &&& v.fields.style == FieldsStyle::Named ==> arm == head
                + ", __variant) => {\n_serde::de::VariantAccess::struct_variant(\n__variant,\n__VARIANT_FIELDS_"@ + decimal(i as nat)
                + ",\n__Variant"@ + decimal(i as nat)
                + "_StructVisitor {\nstate,\n_marker: ::core::marker::PhantomData,\n},\n)\n}\n"@
        }),
{
    let arm = spec_deserialize_enum_variant_arm(v, i, c);
    let head = "(__Variant::"@ + v.ident@;
    if v.fields.style == FieldsStyle::Unit {
        assert(arm =~= head
            + ", __variant) => {\n_serde::de::VariantAccess::unit_variant(__variant)?;\n::core::result::Result::Ok("@ + c.ident
            + "::"@ + v.ident@ + ")\n}\n"@);
    } else if v.fields.style == FieldsStyle::Named {
        assert(arm =~= head
            + ", __variant) => {\n_serde::de::VariantAccess::struct_variant(\n__variant,\n__VARIANT_FIELDS_"@ + decimal(i as nat)
            + ",\n__Variant"@ + decimal(i as nat)
            + "_StructVisitor {\nstate,\n_marker: ::core::marker::PhantomData,\n},\n)\n}\n"@);
    } else if v.fields.fields@.len() != 1 {
        assert(arm =~= head
            + ", __variant) => {\n_serde::de::VariantAccess::tuple_variant(\n__variant,\n"@ + decimal(v.fields.fields@.len())
            + "usize,\n__Variant"@ + decimal(i as nat)
            + "_TupleVisitor {\nstate,\n_marker: ::core::marker::PhantomData,\n},\n)\n}\n"@);
    }
}

pub fn deserialize_enum_variant_arm(v: &VariantDecl, i: usize, c: &Ctx) -> (out: String)
    ensures
        out@ == spec_deserialize_enum_variant_arm(*v, i, c@),
{
    match v.fields.style {
        FieldsStyle::Unit => arm_unit(v, c),
        FieldsStyle::Unnamed => if v.fields.fields.len() == 1 {
            let f = &v.fields.fields[0];
            match &f.attrs.with {
                Some(_) => arm_newtype_with(v, f, c),
                None => match f.mode {
                    ItemMode::Stateful => arm_newtype_stateful(v, f, c),
                    ItemMode::Stateless => arm_newtype_stateless(v, f, c),
                },
            }
        } else {
            arm_tuple(v, i, c)
        },
        FieldsStyle::Named => arm_struct(v, i, c),
    }
}

/// The items that the arm of the variant at position `i` needs: a tuple
/// visitor, or the field table and visitor of a struct variant.
pub open spec fn spec_variant_helper(v: VariantDecl, lits: Seq<Seq<char>>, i: usize, c: CtxView) -> Seq<char> {
    match v.fields.style {
        FieldsStyle::Unnamed => if v.fields.fields@.len() == 1 {
            seq![]
        } else {
            spec_tuple_variant_visitor(v, i, c)
        },
        FieldsStyle::Named => spec_struct_variant_helpers(v, lits, i, c),
        FieldsStyle::Unit => seq![],
    }
}

fn variant_helper(v: &VariantDecl, lits: &Vec<String>, i: usize, c: &Ctx) -> (out: String)
    requires
        crate::model::fields_wf(v.fields),
        lits@.len() == v.fields.fields@.len(),
    ensures
        out@ == spec_variant_helper(*v, lits.deep_view(), i, c@),
{
    match v.fields.style {
        FieldsStyle::Unnamed => if v.fields.fields.len() == 1 {
            String::new()
        } else {
            tuple_variant_visitor(v, i, c)
        },
        FieldsStyle::Named => struct_variant_helpers(v, lits, i, c),
        FieldsStyle::Unit => String::new(),
    }
}

/// Every named field list among the variants has names.
pub open spec fn variants_wf(vs: Seq<VariantDecl>) -> bool {
    forall|i: int| 0 <= i < vs.len() ==> crate::model::fields_wf(#[trigger] vs[i].fields)
}

/// One list of key literals per variant, one literal per field.
pub open spec fn variant_literals_fit(vs: Seq<VariantDecl>, lits: Seq<Seq<Seq<char>>>) -> bool {
    &&& lits.len() == vs.len()
    &&& forall|i: int| 0 <= i < vs.len() ==> (#[trigger] lits[i]).len() == vs[i].fields.fields@.len()
}

/// The `visit_enum` arms of the first `n` variants.
pub open spec fn spec_variant_arms(variants: Seq<VariantDecl>, c: CtxView, n: nat) -> Seq<char>
    decreases n,
{
    if n == 0 {
        seq![]
    } else {
        let prev = spec_variant_arms(variants, c, (n - 1) as nat);
        let i = n - 1;
        let x = variants[i];
        prev + spec_deserialize_enum_variant_arm(x, i as usize, c)
    }
}

pub fn variant_arms(variants: &Vec<VariantDecl>, c: &Ctx) -> (out: String)
    ensures
        out@ == spec_variant_arms(variants@, c@, variants@.len() as nat),
{
    let n = variants.len();
    let mut out = String::new();
    let mut i: usize = 0;
    while i < n
        invariant
            n == variants@.len(),
            i <= n,
            out@ == spec_variant_arms(variants@, c@, i as nat),
        decreases n - i,
    {
        let x = &variants[i];
        let t = deserialize_enum_variant_arm(x, i, c);
        out.append(t.as_str());
        i = i + 1;
    }
    out
}

/// The visitors that the first `n` variants need.
pub open spec fn spec_variant_helpers(variants: Seq<VariantDecl>, lits: Seq<Seq<Seq<char>>>, c: CtxView, n: nat) -> Seq<char>
    decreases n,
{
    if n == 0 {
        seq![]
    } else {
        let prev = spec_variant_helpers(variants, lits, c, (n - 1) as nat);
        let i = n - 1;
        let x = variants[i];
        prev + spec_variant_helper(x, lits[i], i as usize, c)
    }
}

pub fn variant_helpers(variants: &Vec<VariantDecl>, lits: &Vec<Vec<String>>, c: &Ctx) -> (out: String)
    requires
        variants_wf(variants@),
        variant_literals_fit(variants@, lits.deep_view()),
    ensures
        out@ == spec_variant_helpers(variants@, lits.deep_view(), c@, variants@.len() as nat),
{
    let n = variants.len();
    let mut out = String::new();
    let mut i: usize = 0;
    while i < n
        invariant
            n == variants@.len(),
            i <= n,
            out@ == spec_variant_helpers(variants@, lits.deep_view(), c@, i as nat),
            variants_wf(variants@),
            variant_literals_fit(variants@, lits.deep_view()),
        decreases n - i,
    {
        let x = &variants[i];
        assert(lits[i as int].deep_view() == lits.deep_view()[i as int]);
        assert(lits[i as int]@.len() == lits[i as int].deep_view().len());
        let t = variant_helper(x, &lits[i], i, c);
        out.append(t.as_str());
        i = i + 1;
    }
    out
}

/// The body for an enum: an identifier for the variants (by name or by index), the visitors of the variants and the enum visitor.
pub open spec fn spec_deserialize_enum_body(
    data: EnumDecl,
    name_lits: Seq<Seq<char>>,
    field_lits: Seq<Seq<Seq<char>>>,
    c: CtxView,
) -> Seq<char> {
    let names = variant_names(data.variants@);
    "const __VARIANTS: &'static [&'static str] = &["@
        + spec_enum_items(name_lits, name_lits.len() as nat)
        + "];\n#[allow(non_camel_case_types)]\nenum __Variant { "@
        + spec_enum_items(names, names.len() as nat)
        + " }\n"@
        + spec_identifier_visitor(""@, "__Variant"@, "__VariantVisitor"@, "\"variant identifier\""@, name_lits, names, "_ => ::core::result::Result::Err(_serde::de::Error::unknown_variant(value, __VARIANTS)),\n"@, "_ => ::core::result::Result::Err(_serde::de::Error::invalid_value(_serde::de::Unexpected::Unsigned(value), &self,)),\n"@)
        + spec_variant_helpers(data.variants@, field_lits, c, data.variants@.len() as nat)
        + spec_visitor_struct(""@, "__Visitor"@, c)
        + spec_visitor_impl("__Visitor"@, "\"enum \""@, c.ident, spec_visit_enum_fn(spec_variant_arms(data.variants@, c, data.variants@.len() as nat)), c)
        + "_serde::Deserializer::deserialize_enum(\n__deserializer,\nstringify!("@
        + c.ident
        + "),\n__VARIANTS,\n"@
        + spec_visitor_value("__Visitor"@)
        + ",\n)"@
}

/// The law of variant names: the variant identifier maps the literal of
/// every variant's name (`name_lits[i]`, the literal of variant `i`'s name)
/// to that same variant.
#[verifier::spinoff_prover]
#[verifier::rlimit(60)]
pub proof fn lemma_enum_reads_variants_under_their_names(
    data: EnumDecl,
    name_lits: Seq<Seq<char>>,
    field_lits: Seq<Seq<Seq<char>>>,
    c: CtxView,
)
    requires
        name_lits.len() == data.variants@.len(),
    ensures
        forall|i: int|
            0 <= i < data.variants@.len() ==> occurs_in(
                #[trigger] name_lits[i] + " => ::core::result::Result::Ok("@ + "__Variant"@ + "::"@
                    + data.variants@[i].ident@ + "),\n"@,
                spec_deserialize_enum_body(data, name_lits, field_lits, c),
            ),
{
    let names = variant_names(data.variants@);
    lemma_variant_names(data.variants@);
    let idv = spec_identifier_visitor(""@, "__Variant"@, "__VariantVisitor"@, "\"variant identifier\""@, name_lits, names, "_ => ::core::result::Result::Err(_serde::de::Error::unknown_variant(value, __VARIANTS)),\n"@, "_ => ::core::result::Result::Err(_serde::de::Error::invalid_value(_serde::de::Unexpected::Unsigned(value), &self,)),\n"@);
    let before = "const __VARIANTS: &'static [&'static str] = &["@
        + spec_enum_items(name_lits, name_lits.len() as nat)
        + "];\n#[allow(non_camel_case_types)]\nenum __Variant { "@
        + spec_enum_items(names, names.len() as nat)
        + " }\n"@;
    let after = spec_variant_helpers(data.variants@, field_lits, c, data.variants@.len() as nat)
        + spec_visitor_struct(""@, "__Visitor"@, c)
        + spec_visitor_impl("__Visitor"@, "\"enum \""@, c.ident, spec_visit_enum_fn(spec_variant_arms(data.variants@, c, data.variants@.len() as nat)), c)
        + "_serde::Deserializer::deserialize_enum(\n__deserializer,\nstringify!("@
        + c.ident
        + "),\n__VARIANTS,\n"@
        + spec_visitor_value("__Visitor"@)
        + ",\n)"@;
    assert(spec_deserialize_enum_body(data, name_lits, field_lits, c) =~= before + idv + after);
    lemma_identifier_visitor_pairs_keys(""@, "__Variant"@, "__VariantVisitor"@, "\"variant identifier\""@, name_lits, names, "_ => ::core::result::Result::Err(_serde::de::Error::unknown_variant(value, __VARIANTS)),\n"@, "_ => ::core::result::Result::Err(_serde::de::Error::invalid_value(_serde::de::Unexpected::Unsigned(value), &self,)),\n"@);
    assert forall|i: int| 0 <= i < data.variants@.len() implies occurs_in(
        #[trigger] name_lits[i] + " => ::core::result::Result::Ok("@ + "__Variant"@ + "::"@
            + data.variants@[i].ident@ + "),\n"@,
        before + idv + after,
    ) by {
        assert(names[i] == data.variants@[i].ident@);
        lemma_occurs_in_concat(
            name_lits[i] + " => ::core::result::Result::Ok("@ + "__Variant"@ + "::"@
                + data.variants@[i].ident@ + "),\n"@,
            before,
            idv,
            after,
        );
    }
}

pub fn deserialize_enum_body(
    data: &EnumDecl,
    name_lits: &Vec<String>,
    field_lits: &Vec<Vec<String>>,
    c: &Ctx,
) -> (out: String)
    requires
        variants_wf(data.variants@),
        name_lits@.len() == data.variants@.len(),
        variant_literals_fit(data.variants@, field_lits.deep_view()),
    ensures
        out@ == spec_deserialize_enum_body(*data, name_lits.deep_view(), field_lits.deep_view(), c@),
{
    let names = variant_name_list(&data.variants);
    let mut out = String::from_str("const __VARIANTS: &'static [&'static str] = &[");
    let t0 = enum_items(name_lits);
    out.append(t0.as_str());
    out.append("];\n#[allow(non_camel_case_types)]\nenum __Variant { ");
    let t1 = enum_items(&names);
    out.append(t1.as_str());
    out.append(" }\n");
    let t2 = identifier_visitor("", "__Variant", "__VariantVisitor", "\"variant identifier\"", name_lits, &names, "_ => ::core::result::Result::Err(_serde::de::Error::unknown_variant(value, __VARIANTS)),\n", "_ => ::core::result::Result::Err(_serde::de::Error::invalid_value(_serde::de::Unexpected::Unsigned(value), &self,)),\n");
    out.append(t2.as_str());
    let t3 = variant_helpers(&data.variants, field_lits, c);
    out.append(t3.as_str());
    let t4 = visitor_struct("", "__Visitor", c);
    out.append(t4.as_str());
    let t5 = visitor_impl("__Visitor", "\"enum \"", c.ident.as_str(), visit_enum_fn(variant_arms(&data.variants, c).as_str()).as_str(), c);
    out.append(t5.as_str());
    out.append("_serde::Deserializer::deserialize_enum(\n__deserializer,\nstringify!(");
    out.append(c.ident.as_str());
    out.append("),\n__VARIANTS,\n");
    let t6 = visitor_value("__Visitor");
    out.append(t6.as_str());
    out.append(",\n)");
    out
}

} // verus!
