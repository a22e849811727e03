//! The `where` predicates that the derive adds to the impl.

use vstd::prelude::*;
use crate::model::{
    EnumDecl, FieldDecl, FieldsDecl, GenericParam, Generics, ItemMode, VariantDecl, WherePredicate,
    WherePredicateView,
};

verus! {

/// The type of a field that is read, with the mode it is read in.
pub struct FieldType {
    pub ty: String,
    pub mode: ItemMode,
}

impl FieldType {
    pub fn new(ty: &String, mode: ItemMode) -> (f: FieldType)
        ensures
            f == (FieldType { ty: *ty, mode }),
    {
        FieldType { ty: ty.clone(), mode }
    }
}

/// The types of the fields that are read (not skipped), in their order.
pub open spec fn kept_field_types(fs: Seq<FieldDecl>) -> Seq<FieldType>
    decreases fs.len(),
{
    if fs.len() == 0 {
        seq![]
    } else {
        let prev = kept_field_types(fs.drop_last());
        if fs.last().attrs.skip {
            prev
        } else {
            prev.push(FieldType { ty: fs.last().ty, mode: fs.last().mode })
        }
    }
}

/// The types of the fields that are read in every variant, variant after
/// variant.
pub open spec fn enum_field_types(vs: Seq<VariantDecl>) -> Seq<FieldType>
    decreases vs.len(),
{
    if vs.len() == 0 {
        seq![]
    } else {
        enum_field_types(vs.drop_last()) + kept_field_types(vs.last().fields.fields@)
    }
}

/// The field types of a struct or a variant, skipped fields left out.
pub fn collect_field_types_from_fields(fields: &FieldsDecl) -> (r: Vec<FieldType>)
    ensures
        r@ == kept_field_types(fields.fields@),
{
    let mut r: Vec<FieldType> = Vec::new();
    let n = fields.fields.len();
    let mut i: usize = 0;
    while i < n
        invariant
            n == fields.fields@.len(),
            i <= n,
            r@ == kept_field_types(fields.fields@.take(i as int)),
        decreases n - i,
    {
        assert(fields.fields@.take(i + 1).drop_last() =~= fields.fields@.take(i as int));
        let f = &fields.fields[i];
        if !f.attrs.skip {
            r.push(FieldType::new(&f.ty, f.mode));
        }
        i = i + 1;
    }
    assert(fields.fields@.take(n as int) =~= fields.fields@);
    r
}

/// The field types of all variants of an enum, skipped fields left out.
pub fn collect_field_types_from_enum(data: &EnumDecl) -> (r: Vec<FieldType>)
    ensures
        r@ == enum_field_types(data.variants@),
{
    let mut r: Vec<FieldType> = Vec::new();
    let n = data.variants.len();
    let mut i: usize = 0;
    while i < n
        invariant
            n == data.variants@.len(),
            i <= n,
            r@ == enum_field_types(data.variants@.take(i as int)),
        decreases n - i,
    {
        assert(data.variants@.take(i + 1).drop_last() =~= data.variants@.take(i as int));
        let mut more = collect_field_types_from_fields(&data.variants[i].fields);
        r.append(&mut more);
        i = i + 1;
    }
    assert(data.variants@.take(n as int) =~= data.variants@);
    r
}

/// The predicate that lets a field of type `ty` be read in mode `mode`.
pub open spec fn read_bound(ty: Seq<char>, mode: ItemMode, state: Seq<char>) -> WherePredicateView {
    match mode {
        ItemMode::Stateful => WherePredicateView::DeserializeState { ty, state },
        ItemMode::Stateless => WherePredicateView::Deserialize { ty },
    }
}

/// One read bound per field type, in their order.
pub open spec fn field_type_bounds(fts: Seq<FieldType>, state: Seq<char>) -> Seq<WherePredicateView>
    decreases fts.len(),
{
    if fts.len() == 0 {
        seq![]
    } else {
        field_type_bounds(fts.drop_last(), state).push(
            read_bound(fts.last().ty@, fts.last().mode, state),
        )
    }
}

fn make_read_bound(ty: &String, mode: ItemMode, state: &String) -> (p: WherePredicate)
    ensures
        p@ == read_bound(ty@, mode, state@),
{
    match mode {
        ItemMode::Stateful => WherePredicate::DeserializeState { ty: ty.clone(), state: state.clone() },
        ItemMode::Stateless => WherePredicate::Deserialize { ty: ty.clone() },
    }
}

/// Adds, for each field type, the bound that lets it be read in its mode.
pub fn add_deserialize_bounds_from_types(
    where_clause: &mut Vec<WherePredicate>,
    field_types: &Vec<FieldType>,
    state_ty: &String,
)
    ensures
        final(where_clause).deep_view() == old(where_clause).deep_view() + field_type_bounds(
            field_types@,
            state_ty@,
        ),
{
    let ghost start = where_clause.deep_view();
    let n = field_types.len();
    let mut i: usize = 0;
    assert(field_types@.take(0) =~= Seq::<FieldType>::empty());
    assert(start + Seq::<WherePredicateView>::empty() =~= start);
    while i < n
        invariant
            n == field_types@.len(),
            i <= n,
            where_clause.deep_view() == start + field_type_bounds(
                field_types@.take(i as int),
                state_ty@,
            ),
        decreases n - i,
    {
        assert(field_types@.take(i + 1).drop_last() =~= field_types@.take(i as int));
        let ft = &field_types[i];
        let p = make_read_bound(&ft.ty, ft.mode, state_ty);
        let ghost pv = p@;
        let ghost before = where_clause.deep_view();
        where_clause.push(p);
        assert(where_clause.deep_view() =~= before.push(pv));
        assert(where_clause.deep_view() =~= start + field_type_bounds(
            field_types@.take(i + 1),
            state_ty@,
        ));
        i = i + 1;
    }
    assert(field_types@.take(n as int) =~= field_types@);
}

/// One bound in mode `mode` for each type parameter, in their order.
pub open spec fn type_param_bounds(ps: Seq<GenericParam>, state: Seq<char>, mode: ItemMode) -> Seq<
    WherePredicateView,
>
    decreases ps.len(),
{
    if ps.len() == 0 {
        seq![]
    } else {
        let prev = type_param_bounds(ps.drop_last(), state, mode);
        match ps.last() {
            GenericParam::Type { name, bounds } => prev.push(read_bound(name@, mode, state)),
            _ => prev,
        }
    }
}

/// Adds, for each type parameter, the bound that lets it be read in the
/// container's mode.
pub fn add_deserialize_bounds_from_type_params(
    where_clause: &mut Vec<WherePredicate>,
    generics: &Generics,
    state_ty: &String,
    mode: ItemMode,
)
    ensures
        final(where_clause).deep_view() == old(where_clause).deep_view() + type_param_bounds(
            generics.params@,
            state_ty@,
            mode,
        ),
{
    let ghost start = where_clause.deep_view();
    let ghost ps = generics.params@;
    let n = generics.params.len();
    let mut i: usize = 0;
    assert(ps.take(0) =~= Seq::<GenericParam>::empty());
    assert(start + Seq::<WherePredicateView>::empty() =~= start);
    while i < n
        invariant
            n == ps.len(),
            ps == generics.params@,
            i <= n,
            where_clause.deep_view() == start + type_param_bounds(ps.take(i as int), state_ty@, mode),
        decreases n - i,
    {
        assert(ps.take(i + 1).drop_last() =~= ps.take(i as int));
        match &generics.params[i] {
            GenericParam::Type { name, .. } => {
                let p = make_read_bound(name, mode, state_ty);
                let ghost pv = p@;
                let ghost before = where_clause.deep_view();
                where_clause.push(p);
                assert(where_clause.deep_view() =~= before.push(pv));
            },
            _ => {},
        }
        assert(where_clause.deep_view() =~= start + type_param_bounds(
            ps.take(i + 1),
            state_ty@,
            mode,
        ));
        i = i + 1;
    }
    assert(ps.take(n as int) =~= ps);
}

/// One `Default` bound for each skipped field, in their order.
pub open spec fn skipped_default_bounds(fs: Seq<FieldDecl>) -> Seq<WherePredicateView>
    decreases fs.len(),
{
    if fs.len() == 0 {
        seq![]
    } else {
        let prev = skipped_default_bounds(fs.drop_last());
        if fs.last().attrs.skip {
            prev.push(WherePredicateView::Default { ty: fs.last().ty@ })
        } else {
            prev
        }
    }
}

/// Adds `ty: Default`.
pub fn push_default_bound(where_clause: &mut Vec<WherePredicate>, ty: &String)
    ensures
        final(where_clause).deep_view() == old(where_clause).deep_view().push(
            WherePredicateView::Default { ty: ty@ },
        ),
{
    let p = WherePredicate::Default { ty: ty.clone() };
    where_clause.push(p);
    assert(where_clause.deep_view() =~= old(where_clause).deep_view().push(
        WherePredicateView::Default { ty: ty@ },
    ));
}

/// Adds `ty: Default` for the type of each skipped field.
pub fn add_default_bounds_for_skipped(fields: &FieldsDecl, where_clause: &mut Vec<WherePredicate>)
    ensures
        final(where_clause).deep_view() == old(where_clause).deep_view() + skipped_default_bounds(
            fields.fields@,
        ),
{
    let ghost start = where_clause.deep_view();
    let ghost fs = fields.fields@;
    let n = fields.fields.len();
    let mut i: usize = 0;
    assert(fs.take(0) =~= Seq::<FieldDecl>::empty());
    assert(start + Seq::<WherePredicateView>::empty() =~= start);
    while i < n
        invariant
            n == fs.len(),
            fs == fields.fields@,
            i <= n,
            where_clause.deep_view() == start + skipped_default_bounds(fs.take(i as int)),
        decreases n - i,
    {
        assert(fs.take(i + 1).drop_last() =~= fs.take(i as int));
        let f = &fields.fields[i];
        if f.attrs.skip {
            push_default_bound(where_clause, &f.ty);
        }
        assert(where_clause.deep_view() =~= start + skipped_default_bounds(fs.take(i + 1)));
        i = i + 1;
    }
    assert(fs.take(n as int) =~= fs);
}

/// Adds `state_ty: Default`, which the plain `Deserialize` impl needs to make
/// its state.
pub fn add_default_state_bound(where_clause: &mut Vec<WherePredicate>, state_ty: &String)
    ensures
        final(where_clause).deep_view() == old(where_clause).deep_view().push(
            WherePredicateView::Default { ty: state_ty@ },
        ),
{
    push_default_bound(where_clause, state_ty);
}

/// `field_type_bounds` has one bound per field type, the `k`-th for the
/// `k`-th type.
pub proof fn lemma_field_type_bounds_index(fts: Seq<FieldType>, state: Seq<char>)
    ensures
        field_type_bounds(fts, state).len() == fts.len(),
        forall|k: int|
            0 <= k < fts.len() ==> #[trigger] field_type_bounds(fts, state)[k] == read_bound(
                fts[k].ty@,
                fts[k].mode,
                state,
            ),
    decreases fts.len(),
{
    if fts.len() > 0 {
        lemma_field_type_bounds_index(fts.drop_last(), state);
    }
}

/// The types in `kept_field_types` are those of the fields that are not
/// skipped, and each such field is there.
pub proof fn lemma_kept_field_types_members(fs: Seq<FieldDecl>)
    ensures
        kept_field_types(fs).len() <= fs.len(),
        forall|k: int|
            0 <= k < kept_field_types(fs).len() ==> exists|j: int|
                0 <= j < fs.len() && !fs[j].attrs.skip && #[trigger] kept_field_types(fs)[k]
                    == (FieldType { ty: fs[j].ty, mode: fs[j].mode }),
        forall|j: int|
            0 <= j < fs.len() && !(#[trigger] fs[j]).attrs.skip ==> kept_field_types(fs).contains(
                FieldType { ty: fs[j].ty, mode: fs[j].mode },
            ),
    decreases fs.len(),
{
    if fs.len() > 0 {
        let prev = fs.drop_last();
        lemma_kept_field_types_members(prev);
        let kp = kept_field_types(prev);
        let kf = kept_field_types(fs);
        assert forall|k: int| 0 <= k < kf.len() implies exists|j: int|
            0 <= j < fs.len() && !fs[j].attrs.skip && #[trigger] kf[k] == (FieldType {
                ty: fs[j].ty,
                mode: fs[j].mode,
            }) by {
            if k < kp.len() {
                let j = choose|j: int|
                    0 <= j < prev.len() && !prev[j].attrs.skip && #[trigger] kp[k] == (FieldType {
                        ty: prev[j].ty,
                        mode: prev[j].mode,
                    });
                assert(fs[j] == prev[j]);
            } else {
                assert(fs[fs.len() - 1] == fs.last());
            }
        }
        assert forall|j: int| 0 <= j < fs.len() && !(#[trigger] fs[j]).attrs.skip implies kf.contains(
            FieldType { ty: fs[j].ty, mode: fs[j].mode },
        ) by {
            let t = FieldType { ty: fs[j].ty, mode: fs[j].mode };
            if j < prev.len() {
                assert(prev[j] == fs[j]);
                assert(kp.contains(t));
                let k = choose|k: int| 0 <= k < kp.len() && kp[k] == t;
                if !fs.last().attrs.skip {
                    assert(kf[k] == t);
                }
            } else {
                assert(kf[kf.len() - 1] == t);
            }
        }
    }
}

/// The law of inferred bounds: every read bound comes from a field that is
/// read, in that field's mode, and every field that is read has its bound.
/// A skipped field adds no read bound of its own, only `Default` for its type,
/// and every `Default` bound comes from a skipped field.
pub proof fn lemma_inferred_bounds_follow_read_fields(fs: Seq<FieldDecl>, state: Seq<char>)
    ensures
        forall|k: int|
            0 <= k < field_type_bounds(kept_field_types(fs), state).len() ==> exists|j: int|
                0 <= j < fs.len() && !fs[j].attrs.skip && #[trigger] field_type_bounds(
                    kept_field_types(fs),
                    state,
                )[k] == read_bound(fs[j].ty@, fs[j].mode, state),
        forall|j: int|
            0 <= j < fs.len() && !(#[trigger] fs[j]).attrs.skip ==> field_type_bounds(
                kept_field_types(fs),
                state,
            ).contains(read_bound(fs[j].ty@, fs[j].mode, state)),
        forall|k: int|
            0 <= k < skipped_default_bounds(fs).len() ==> exists|j: int|
                0 <= j < fs.len() && fs[j].attrs.skip && #[trigger] skipped_default_bounds(fs)[k]
                    == (WherePredicateView::Default { ty: fs[j].ty@ }),
        forall|j: int|
            0 <= j < fs.len() && (#[trigger] fs[j]).attrs.skip ==> skipped_default_bounds(
                fs,
            ).contains(WherePredicateView::Default { ty: fs[j].ty@ }),
{
    let fts = kept_field_types(fs);
    lemma_kept_field_types_members(fs);
    lemma_field_type_bounds_index(fts, state);
    let b = field_type_bounds(fts, state);
    assert forall|k: int| 0 <= k < b.len() implies exists|j: int|
        0 <= j < fs.len() && !fs[j].attrs.skip && #[trigger] b[k] == read_bound(
            fs[j].ty@,
            fs[j].mode,
            state,
        ) by {
        let j = choose|j: int|
            0 <= j < fs.len() && !fs[j].attrs.skip && #[trigger] fts[k] == (FieldType {
                ty: fs[j].ty,
                mode: fs[j].mode,
            });
        assert(b[k] == read_bound(fts[k].ty@, fts[k].mode, state));
    }
    assert forall|j: int| 0 <= j < fs.len() && !(#[trigger] fs[j]).attrs.skip implies b.contains(
        read_bound(fs[j].ty@, fs[j].mode, state),
    ) by {
        let t = FieldType { ty: fs[j].ty, mode: fs[j].mode };
        assert(fts.contains(t));
        let k = choose|k: int| 0 <= k < fts.len() && fts[k] == t;
        assert(b[k] == read_bound(fts[k].ty@, fts[k].mode, state));
    }
    lemma_skipped_default_bounds_members(fs);
}

proof fn lemma_skipped_default_bounds_members(fs: Seq<FieldDecl>)
    ensures
        forall|k: int|
            0 <= k < skipped_default_bounds(fs).len() ==> exists|j: int|
                0 <= j < fs.len() && fs[j].attrs.skip && #[trigger] skipped_default_bounds(fs)[k]
                    == (WherePredicateView::Default { ty: fs[j].ty@ }),
        forall|j: int|
            0 <= j < fs.len() && (#[trigger] fs[j]).attrs.skip ==> skipped_default_bounds(
                fs,
            ).contains(WherePredicateView::Default { ty: fs[j].ty@ }),
    decreases fs.len(),
{
    if fs.len() > 0 {
        let prev = fs.drop_last();
        lemma_skipped_default_bounds_members(prev);
        let bp = skipped_default_bounds(prev);
        let bf = skipped_default_bounds(fs);
        assert forall|k: int| 0 <= k < bf.len() implies exists|j: int|
            0 <= j < fs.len() && fs[j].attrs.skip && #[trigger] bf[k] == (WherePredicateView::Default {
                ty: fs[j].ty@,
            }) by {
            if k < bp.len() {
                let j = choose|j: int|
                    0 <= j < prev.len() && prev[j].attrs.skip && #[trigger] bp[k]
                        == (WherePredicateView::Default { ty: prev[j].ty@ });
                assert(fs[j] == prev[j]);
            } else {
                assert(fs[fs.len() - 1] == fs.last());
            }
        }
        assert forall|j: int| 0 <= j < fs.len() && (#[trigger] fs[j]).attrs.skip implies bf.contains(
            WherePredicateView::Default { ty: fs[j].ty@ },
        ) by {
            let t = WherePredicateView::Default { ty: fs[j].ty@ };
            if j < prev.len() {
                assert(prev[j] == fs[j]);
                assert(bp.contains(t));
                let k = choose|k: int| 0 <= k < bp.len() && bp[k] == t;
                if fs.last().attrs.skip {
                    assert(bf[k] == t);
                }
            } else {
                assert(bf[bf.len() - 1] == t);
            }
        }
    }
}

/// The name of a type parameter (empty for the other kinds).
pub open spec fn type_param_name(p: GenericParam) -> Option<Seq<char>> {
    match p {
        GenericParam::Type { name, .. } => Some(name@),
        _ => None,
    }
}

/// The law of bounds on type parameters: when the bounds are not inferred,
/// each bound names a type parameter and reads it in the container's mode,
/// and every type parameter has its bound; lifetimes and const parameters get
/// none.
pub proof fn lemma_type_param_bounds_follow_params(
    ps: Seq<GenericParam>,
    state: Seq<char>,
    mode: ItemMode,
)
    ensures
        forall|k: int|
            0 <= k < type_param_bounds(ps, state, mode).len() ==> exists|j: int|
                0 <= j < ps.len() && type_param_name(ps[j]) is Some && #[trigger] type_param_bounds(
                    ps,
                    state,
                    mode,
                )[k] == read_bound(type_param_name(ps[j])->0, mode, state),
        forall|j: int|
            0 <= j < ps.len() && (#[trigger] type_param_name(ps[j])) is Some ==> type_param_bounds(
                ps,
                state,
                mode,
            ).contains(read_bound(type_param_name(ps[j])->0, mode, state)),
    decreases ps.len(),
{
    if ps.len() > 0 {
        let prev = ps.drop_last();
        lemma_type_param_bounds_follow_params(prev, state, mode);
        let bp = type_param_bounds(prev, state, mode);
        let bf = type_param_bounds(ps, state, mode);
        assert forall|k: int| 0 <= k < bf.len() implies exists|j: int|
            0 <= j < ps.len() && type_param_name(ps[j]) is Some && #[trigger] bf[k] == read_bound(
                type_param_name(ps[j])->0,
                mode,
                state,
            ) by {
            if k < bp.len() {
                let j = choose|j: int|
                    0 <= j < prev.len() && type_param_name(prev[j]) is Some && #[trigger] bp[k]
                        == read_bound(type_param_name(prev[j])->0, mode, state);
                assert(ps[j] == prev[j]);
            } else {
                assert(ps[ps.len() - 1] == ps.last());
            }
        }
        assert forall|j: int|
            0 <= j < ps.len() && (#[trigger] type_param_name(ps[j])) is Some implies bf.contains(
            read_bound(type_param_name(ps[j])->0, mode, state),
        ) by {
            let t = read_bound(type_param_name(ps[j])->0, mode, state);
            if j < prev.len() {
                assert(prev[j] == ps[j]);
                assert(bp.contains(t));
                let k = choose|k: int| 0 <= k < bp.len() && bp[k] == t;
                if type_param_name(ps.last()) is Some {
                    assert(bf[k] == t);
                }
            } else {
                assert(bf[bf.len() - 1] == t);
            }
        }
    }
}

} // verus!
