//! The declaration that the derive reads, held as plain values.
//!
//! Identifiers, types, paths and bounds are kept as the source text of their
//! tokens; the generators splice that text into the code they write.

use vstd::prelude::*;

verus! {

/// Whether a value is read through the state (`DeserializeState`) or with
/// plain serde (`Deserialize`).
#[derive(Clone, Copy, Debug, PartialEq, Eq, Structural)]
pub enum ItemMode {
    Stateful,
    Stateless,
}

/// The mode that applies to a field: its own attribute wins, then its
/// variant's, then the container's.
pub open spec fn spec_resolve_mode(
    container: ItemMode,
    variant: Option<ItemMode>,
    field: Option<ItemMode>,
) -> ItemMode {
    match field {
        Some(m) => m,
        None => match variant {
            Some(m) => m,
            None => container,
        },
    }
}

/// Resolves the mode of a field from the attributes around it.
pub fn resolve_mode(container: ItemMode, variant: Option<ItemMode>, field: Option<ItemMode>) -> (m:
    ItemMode)
    ensures
        m == spec_resolve_mode(container, variant, field),
        field is Some ==> m == field->Some_0,
        field is None && variant is Some ==> m == variant->Some_0,
        field is None && variant is None ==> m == container,
{
    match field {
        Some(m) => m,
        None => match variant {
            Some(m) => m,
            None => container,
        },
    }
}

/// Why a declaration cannot be derived.
#[derive(Clone, Copy, Debug, PartialEq, Eq, Structural)]
pub enum DeriveError {
    /// Unions cannot be deserialized.
    UnionNotSupported,
    /// A transparent struct must have exactly one field.
    TransparentFieldCount,
    /// The written code could not be turned into tokens.
    Lex,
}

/// The message reported for each error.
pub open spec fn error_message(e: DeriveError) -> Seq<char> {
    match e {
        DeriveError::UnionNotSupported => "DeserializeState does not support unions"@,
        DeriveError::TransparentFieldCount => "transparent structs must have exactly one field"@,
        DeriveError::Lex => "DeserializeState produced code that could not be lexed"@,
    }
}

impl DeriveError {
    /// The message reported for the error.
    pub fn message(&self) -> (m: &'static str)
        ensures
            m@ == error_message(*self),
    {
        match self {
            DeriveError::UnionNotSupported => "DeserializeState does not support unions",
            DeriveError::TransparentFieldCount => "transparent structs must have exactly one field",
            DeriveError::Lex => "DeserializeState produced code that could not be lexed",
        }
    }
}

/// The law of mode precedence: a field's own attribute decides its mode;
/// without one, its variant's attribute decides, whichever mode it names;
/// without either, the container's mode applies.
pub proof fn lemma_mode_precedence(container: ItemMode, variant: Option<ItemMode>, field: Option<ItemMode>)
    ensures
        forall|m: ItemMode| field == Some(m) ==> spec_resolve_mode(container, variant, field) == m,
        forall|m: ItemMode|
            field is None && variant == Some(m) ==> spec_resolve_mode(container, variant, field) == m,
        field is None && variant is None ==> spec_resolve_mode(container, variant, field) == container,
{
}

/// The serde attributes of one field.
pub struct FieldAttrs {
    /// `#[serde(skip)]`: the field is never read and is built with `Default`.
    pub skip: bool,
    /// `#[serde(with = "path")]`: the module whose `deserialize_state` reads it.
    pub with: Option<String>,
    /// `#[serde(rename = "name")]`: the key under which it is read.
    pub rename: Option<String>,
}

/// One field of a struct or a variant.
pub struct FieldDecl {
    /// The field's name; `None` for the fields of a tuple struct or variant.
    pub ident: Option<String>,
    /// The field's type.
    pub ty: String,
    pub attrs: FieldAttrs,
    /// The mode that applies to the field (see [`resolve_mode`]).
    pub mode: ItemMode,
}

#[derive(Clone, Copy, Debug, PartialEq, Eq, Structural)]
pub enum FieldsStyle {
    Named,
    Unnamed,
    Unit,
}

pub struct FieldsDecl {
    pub style: FieldsStyle,
    pub fields: Vec<FieldDecl>,
}

pub struct VariantDecl {
    pub ident: String,
    pub fields: FieldsDecl,
}

pub struct StructDecl {
    pub fields: FieldsDecl,
}

pub struct EnumDecl {
    pub variants: Vec<VariantDecl>,
}

pub enum TypeData {
    Struct(StructDecl),
    Enum(EnumDecl),
    Union,
}

/// One generic parameter; `bounds` is empty when there are none.
pub enum GenericParam {
    Lifetime { name: String, bounds: String },
    Type { name: String, bounds: String },
    Const { name: String, ty: String },
}

/// A generic parameter as text, for contracts.
pub ghost enum GenericParamView {
    Lifetime { name: Seq<char>, bounds: Seq<char> },
    Type { name: Seq<char>, bounds: Seq<char> },
    Const { name: Seq<char>, ty: Seq<char> },
}

impl View for GenericParam {
    type V = GenericParamView;

    open spec fn view(&self) -> GenericParamView {
        match self {
            GenericParam::Lifetime { name, bounds } => GenericParamView::Lifetime {
                name: name@,
                bounds: bounds@,
            },
            GenericParam::Type { name, bounds } => GenericParamView::Type {
                name: name@,
                bounds: bounds@,
            },
            GenericParam::Const { name, ty } => GenericParamView::Const { name: name@, ty: ty@ },
        }
    }
}

impl DeepView for GenericParam {
    type V = GenericParamView;

    open spec fn deep_view(&self) -> GenericParamView {
        self@
    }
}

impl GenericParam {
    /// A copy of the parameter.
    pub fn duplicate(&self) -> (p: GenericParam)
        ensures
            p@ == self@,
    {
        match self {
            GenericParam::Lifetime { name, bounds } => GenericParam::Lifetime {
                name: name.clone(),
                bounds: bounds.clone(),
            },
            GenericParam::Type { name, bounds } => GenericParam::Type {
                name: name.clone(),
                bounds: bounds.clone(),
            },
            GenericParam::Const { name, ty } => GenericParam::Const {
                name: name.clone(),
                ty: ty.clone(),
            },
        }
    }
}

/// One predicate of a `where` clause.
pub enum WherePredicate {
    /// A predicate written in the declaration, kept as it was written.
    Verbatim(String),
    /// `ty: _serde_state::DeserializeState<'de, state>`.
    DeserializeState { ty: String, state: String },
    /// `ty: _serde::Deserialize<'de>`.
    Deserialize { ty: String },
    /// `ty: ::core::default::Default`.
    Default { ty: String },
}

/// A `where` predicate as text, for contracts.
pub ghost enum WherePredicateView {
    Verbatim(Seq<char>),
    DeserializeState { ty: Seq<char>, state: Seq<char> },
    Deserialize { ty: Seq<char> },
    Default { ty: Seq<char> },
}

impl View for WherePredicate {
    type V = WherePredicateView;

    open spec fn view(&self) -> WherePredicateView {
        match self {
            WherePredicate::Verbatim(s) => WherePredicateView::Verbatim(s@),
            WherePredicate::DeserializeState { ty, state } => WherePredicateView::DeserializeState {
                ty: ty@,
                state: state@,
            },
            WherePredicate::Deserialize { ty } => WherePredicateView::Deserialize { ty: ty@ },
            WherePredicate::Default { ty } => WherePredicateView::Default { ty: ty@ },
        }
    }
}

impl DeepView for WherePredicate {
    type V = WherePredicateView;

    open spec fn deep_view(&self) -> WherePredicateView {
        self@
    }
}

impl WherePredicate {
    /// A copy of the predicate.
    pub fn duplicate(&self) -> (p: WherePredicate)
        ensures
            p@ == self@,
    {
        match self {
            WherePredicate::Verbatim(s) => WherePredicate::Verbatim(s.clone()),
            WherePredicate::DeserializeState { ty, state } => WherePredicate::DeserializeState {
                ty: ty.clone(),
                state: state.clone(),
            },
            WherePredicate::Deserialize { ty } => WherePredicate::Deserialize { ty: ty.clone() },
            WherePredicate::Default { ty } => WherePredicate::Default { ty: ty.clone() },
        }
    }
}

pub struct Generics {
    pub params: Vec<GenericParam>,
    pub where_clause: Vec<WherePredicate>,
}

/// The `#[serde_state(..)]` and `#[serde(..)]` attributes of the container.
pub struct ContainerAttrs {
    /// `state = Type`: the impl is for this state type only.
    pub state: Option<String>,
    /// `state_implements = Trait`: the bound put on the generic state.
    pub state_bound: Option<String>,
    /// The container's mode.
    pub mode: ItemMode,
    /// `#[serde(transparent)]`.
    pub transparent: bool,
    /// `default_state = Type`: also implement plain `Deserialize` with this state.
    pub default_state: Option<String>,
}

pub struct TypeDecl {
    pub ident: String,
    pub generics: Generics,
    pub attrs: ContainerAttrs,
    pub data: TypeData,
}

/// The name of a field, as text (empty for a tuple field).
pub open spec fn field_name(f: FieldDecl) -> Seq<char> {
    match f.ident {
        Some(s) => s@,
        None => seq![],
    }
}

/// The key under which a named field is read: its rename, else its name.
pub open spec fn field_key(f: FieldDecl) -> Seq<char> {
    match f.attrs.rename {
        Some(r) => r@,
        None => field_name(f),
    }
}

/// Every field of a named list has a name.
pub open spec fn fields_wf(fields: FieldsDecl) -> bool {
    fields.style == FieldsStyle::Named ==> forall|i: int|
        0 <= i < fields.fields@.len() ==> (#[trigger] fields.fields@[i]).ident is Some
}

pub open spec fn decl_wf(decl: TypeDecl) -> bool {
    match decl.data {
        TypeData::Struct(s) => fields_wf(s.fields),
        TypeData::Enum(e) => forall|i: int|
            0 <= i < e.variants@.len() ==> fields_wf(#[trigger] e.variants@[i].fields),
        TypeData::Union => true,
    }
}

/// The name of a named field.
pub fn field_ident(f: &FieldDecl) -> (s: &String)
    requires
        f.ident is Some,
    ensures
        s@ == field_name(*f),
{
    match &f.ident {
        Some(s) => s,
        None => { proof { assert(false); } unreached() },
    }
}

} // verus!
