//! Generic parameters and `where` clauses, and how they are written.

use vstd::prelude::*;
use crate::model::{GenericParam, GenericParamView, Generics, WherePredicate, WherePredicateView};
use crate::text::{join, lemma_join_push};

verus! {

/// `name` followed by `: bounds` when there are bounds.
pub open spec fn bounded_text(name: Seq<char>, bounds: Seq<char>) -> Seq<char> {
    if bounds.len() == 0 {
        name
    } else {
        name + ": "@ + bounds
    }
}

/// How a parameter is written in the parameter list of an impl or a type
/// declaration (with its bounds, without defaults), or in the argument list
/// of a type (its name only).
pub open spec fn param_text(p: GenericParamView, for_impl: bool) -> Seq<char> {
    match p {
        GenericParamView::Lifetime { name, bounds } => if for_impl {
            bounded_text(name, bounds)
        } else {
            name
        },
        GenericParamView::Type { name, bounds } => if for_impl {
            bounded_text(name, bounds)
        } else {
            name
        },
        GenericParamView::Const { name, ty } => if for_impl {
            "const "@ + name + ": "@ + ty
        } else {
            name
        },
    }
}

/// The texts of the lifetime parameters (`lifetimes`) or of the other
/// parameters, in their order.
pub open spec fn param_texts(ps: Seq<GenericParamView>, lifetimes: bool, for_impl: bool) -> Seq<
    Seq<char>,
>
    decreases ps.len(),
{
    if ps.len() == 0 {
        seq![]
    } else {
        let prev = param_texts(ps.drop_last(), lifetimes, for_impl);
        if (ps.last() is Lifetime) == lifetimes {
            prev.push(param_text(ps.last(), for_impl))
        } else {
            prev
        }
    }
}

/// A generic parameter list as written: nothing when there is no parameter,
/// else the lifetimes first and then the other parameters, each in their
/// order, between angle brackets.
pub open spec fn generics_text(ps: Seq<GenericParamView>, for_impl: bool) -> Seq<char> {
    if ps.len() == 0 {
        seq![]
    } else {
        "<"@ + join(param_texts(ps, true, for_impl) + param_texts(ps, false, for_impl), ", "@)
            + ">"@
    }
}

proof fn lemma_param_texts_len(ps: Seq<GenericParamView>, lifetimes: bool, for_impl: bool)
    ensures
        param_texts(ps, lifetimes, for_impl).len() <= ps.len(),
    decreases ps.len(),
{
    if ps.len() > 0 {
        lemma_param_texts_len(ps.drop_last(), lifetimes, for_impl);
    }
}

fn bounded(name: &String, bounds: &String) -> (out: String)
    ensures
        out@ == bounded_text(name@, bounds@),
{
    if bounds.as_str().is_empty() {
        name.clone()
    } else {
        let mut out = name.clone();
        out.append(": ");
        out.append(bounds.as_str());
        out
    }
}

fn generic_param_text(p: &GenericParam, for_impl: bool) -> (out: String)
    ensures
        out@ == param_text(p@, for_impl),
{
    match p {
        GenericParam::Lifetime { name, bounds } => if for_impl {
            bounded(name, bounds)
        } else {
            name.clone()
        },
        GenericParam::Type { name, bounds } => if for_impl {
            bounded(name, bounds)
        } else {
            name.clone()
        },
        GenericParam::Const { name, ty } => if for_impl {
            let mut out = String::from_str("const ");
            out.append(name.as_str());
            out.append(": ");
            out.append(ty.as_str());
            out
        } else {
            name.clone()
        },
    }
}

/// Writes a generic parameter list: with bounds for an impl or a type
/// declaration (`for_impl`), names only for the arguments of a type.
pub fn generics_tokens(params: &Vec<GenericParam>, for_impl: bool) -> (out: String)
    ensures
        out@ == generics_text(params.deep_view(), for_impl),
{
    let n = params.len();
    if n == 0 {
        return String::new();
    }
    let ghost ps = params.deep_view();
    let mut body = String::new();
    let mut started = false;
    let mut i: usize = 0;
    assert(ps.take(0) =~= Seq::<GenericParamView>::empty());
    while i < n
        invariant
            n == ps.len(),
            ps == params.deep_view(),
            i <= n,
            body@ == join(param_texts(ps.take(i as int), true, for_impl), ", "@),
            started == (param_texts(ps.take(i as int), true, for_impl).len() > 0),
        decreases n - i,
    {
        proof {
            lemma_param_texts_len(ps.take(i as int), true, for_impl);
        }
        assert(ps.take(i + 1).drop_last() =~= ps.take(i as int));
        let is_lt = match &params[i] {
            GenericParam::Lifetime { .. } => true,
            _ => false,
        };
        if is_lt {
            let t = generic_param_text(&params[i], for_impl);
            proof {
                lemma_join_push(param_texts(ps.take(i as int), true, for_impl), t@, ", "@);
            }
            if started {
                body.append(", ");
            } else {
                assert(body@ =~= Seq::<char>::empty());
            }
            body.append(t.as_str());
            started = true;
        }
        i = i + 1;
    }
    assert(ps.take(n as int) =~= ps);
    let ghost lts = param_texts(ps, true, for_impl);
    i = 0;
    proof {
        lemma_param_texts_len(ps, true, for_impl);
    }
    assert(lts + param_texts(ps.take(0), false, for_impl) =~= lts);
    while i < n
        invariant
            n == ps.len(),
            ps == params.deep_view(),
            i <= n,
            lts == param_texts(ps, true, for_impl),
            body@ == join(lts + param_texts(ps.take(i as int), false, for_impl), ", "@),
            started == ((lts + param_texts(ps.take(i as int), false, for_impl)).len() > 0),
        decreases n - i,
    {
        proof {
            lemma_param_texts_len(ps.take(i as int), false, for_impl);
        }
        assert(ps.take(i + 1).drop_last() =~= ps.take(i as int));
        let is_lt = match &params[i] {
            GenericParam::Lifetime { .. } => true,
            _ => false,
        };
        if !is_lt {
            let t = generic_param_text(&params[i], for_impl);
            let ghost prev = lts + param_texts(ps.take(i as int), false, for_impl);
            proof {
                lemma_join_push(prev, t@, ", "@);
                assert(lts + param_texts(ps.take(i as int), false, for_impl).push(t@) =~= prev.push(
                    t@,
                ));
            }
            if started {
                body.append(", ");
            } else {
                assert(body@ =~= Seq::<char>::empty());
            }
            body.append(t.as_str());
            started = true;
        }
        i = i + 1;
    }
    assert(ps.take(n as int) =~= ps);
    let mut out = String::from_str("<");
    out.append(body.as_str());
    out.append(">");
    out
}

/// How a `where` predicate is written.
pub open spec fn predicate_text(p: WherePredicateView) -> Seq<char> {
    match p {
        WherePredicateView::Verbatim(s) => s,
        WherePredicateView::DeserializeState { ty, state } => ty
            + ": _serde_state::DeserializeState<'de, "@ + state + ">"@,
        WherePredicateView::Deserialize { ty } => ty + ": _serde::Deserialize<'de>"@,
        WherePredicateView::Default { ty } => ty + ": ::core::default::Default"@,
    }
}

pub open spec fn predicate_texts(ps: Seq<WherePredicateView>) -> Seq<Seq<char>>
    decreases ps.len(),
{
    if ps.len() == 0 {
        seq![]
    } else {
        predicate_texts(ps.drop_last()).push(predicate_text(ps.last()))
    }
}

/// A `where` clause as written: nothing when it has no predicate.
pub open spec fn where_clause_text(ps: Seq<WherePredicateView>) -> Seq<char> {
    if ps.len() == 0 {
        seq![]
    } else {
        "where "@ + join(predicate_texts(ps), ", "@)
    }
}

fn where_predicate_text(p: &WherePredicate) -> (out: String)
    ensures
        out@ == predicate_text(p@),
{
    match p {
        WherePredicate::Verbatim(s) => s.clone(),
        WherePredicate::DeserializeState { ty, state } => {
            let mut out = ty.clone();
            out.append(": _serde_state::DeserializeState<'de, ");
            out.append(state.as_str());
            out.append(">");
            out
        },
        WherePredicate::Deserialize { ty } => {
            let mut out = ty.clone();
            out.append(": _serde::Deserialize<'de>");
            out
        },
        WherePredicate::Default { ty } => {
            let mut out = ty.clone();
            out.append(": ::core::default::Default");
            out
        },
    }
}

/// Writes a `where` clause.
pub fn quote_where_clause(clause: &Vec<WherePredicate>) -> (out: String)
    ensures
        out@ == where_clause_text(clause.deep_view()),
{
    let n = clause.len();
    if n == 0 {
        return String::new();
    }
    let ghost ps = clause.deep_view();
    let mut body = String::new();
    let mut i: usize = 0;
    assert(ps.take(0) =~= Seq::<WherePredicateView>::empty());
    while i < n
        invariant
            n == ps.len(),
            ps == clause.deep_view(),
            i <= n,
            body@ == join(predicate_texts(ps.take(i as int)), ", "@),
            predicate_texts(ps.take(i as int)).len() == i,
        decreases n - i,
    {
        assert(ps.take(i + 1).drop_last() =~= ps.take(i as int));
        let t = where_predicate_text(&clause[i]);
        proof {
            lemma_join_push(predicate_texts(ps.take(i as int)), t@, ", "@);
        }
        if i > 0 {
            body.append(", ");
        } else {
            assert(body@ =~= Seq::<char>::empty());
        }
        body.append(t.as_str());
        i = i + 1;
    }
    assert(ps.take(n as int) =~= ps);
    let mut out = String::from_str("where ");
    out.append(body.as_str());
    out
}

/// The lifetime `'name` as a parameter without bounds.
pub open spec fn lifetime_view(name: Seq<char>) -> GenericParamView {
    GenericParamView::Lifetime { name, bounds: seq![] }
}

/// The bound of the generic state parameter.
pub open spec fn state_param_bounds(state_bound: Option<Seq<char>>) -> Seq<char> {
    match state_bound {
        Some(b) => "?Sized + "@ + b,
        None => "?Sized"@,
    }
}

/// The generic state parameter `__State`.
pub open spec fn state_param_view(state_bound: Option<Seq<char>>) -> GenericParamView {
    GenericParamView::Type { name: "__State"@, bounds: state_param_bounds(state_bound) }
}

pub open spec fn opt_view(o: Option<String>) -> Option<Seq<char>> {
    match o {
        Some(s) => Some(s@),
        None => None,
    }
}

pub open spec fn opt_ref_view(o: Option<&String>) -> Option<Seq<char>> {
    match o {
        Some(s) => Some(s@),
        None => None,
    }
}

/// The parameters of the `DeserializeState` impl: `'de` first, then the
/// declaration's parameters, then `__State` when the state is generic.
pub open spec fn spec_add_state_param(
    ps: Seq<GenericParamView>,
    with_state_param: bool,
    state_bound: Option<Seq<char>>,
) -> Seq<GenericParamView> {
    let base = seq![lifetime_view("'de"@)] + ps;
    if with_state_param {
        base.push(state_param_view(state_bound))
    } else {
        base
    }
}

fn lifetime_param(name: &str) -> (p: GenericParam)
    ensures
        p@ == lifetime_view(name@),
{
    GenericParam::Lifetime { name: String::from_str(name), bounds: String::new() }
}

fn state_param(state_bound: Option<&String>) -> (p: GenericParam)
    ensures
        p@ == state_param_view(opt_ref_view(state_bound)),
{
    let bounds = match state_bound {
        Some(b) => {
            let mut t = String::from_str("?Sized + ");
            t.append(b.as_str());
            t
        },
        None => String::from_str("?Sized"),
    };
    GenericParam::Type { name: String::from_str("__State"), bounds }
}

/// Appends copies of `ps` to `out`.
fn extend_params(out: &mut Vec<GenericParam>, ps: &Vec<GenericParam>)
    ensures
        final(out).deep_view() == old(out).deep_view() + ps.deep_view(),
{
    let ghost start = out.deep_view();
    let mut i: usize = 0;
    while i < ps.len()
        invariant
            i <= ps.len(),
            out.deep_view() == start + ps.deep_view().take(i as int),
        decreases ps.len() - i,
    {
        let p = ps[i].duplicate();
        let ghost before = out.deep_view();
        out.push(p);
        assert(out.deep_view() =~= before.push(p@));
        assert(ps.deep_view().take(i + 1) =~= ps.deep_view().take(i as int).push(ps[i as int]@));
        i = i + 1;
    }
    assert(ps.deep_view().take(ps.len() as int) =~= ps.deep_view());
}

fn push_param(out: &mut Vec<GenericParam>, p: GenericParam)
    ensures
        final(out).deep_view() == old(out).deep_view().push(p@),
{
    let ghost v = p@;
    out.push(p);
    assert(out.deep_view() =~= old(out).deep_view().push(v));
}

/// The parameters of the `DeserializeState` impl.
pub fn add_state_param(generics: &Generics, with_state_param: bool, state_bound: Option<&String>) -> (ps:
    Vec<GenericParam>)
    ensures
        ps.deep_view() == spec_add_state_param(
            generics.params.deep_view(),
            with_state_param,
            opt_ref_view(state_bound),
        ),
{
    let mut ps: Vec<GenericParam> = Vec::new();
    push_param(&mut ps, lifetime_param("'de"));
    extend_params(&mut ps, &generics.params);
    if with_state_param {
        push_param(&mut ps, state_param(state_bound));
    }
    assert(ps.deep_view() =~= spec_add_state_param(
        generics.params.deep_view(),
        with_state_param,
        opt_ref_view(state_bound),
    ));
    ps
}

/// The parameters of a visitor struct: `'state`, then `__State` when the
/// state is generic, then the declaration's parameters.
pub open spec fn spec_base_visitor_generics(
    ps: Seq<GenericParamView>,
    with_state_param: bool,
    state_bound: Option<Seq<char>>,
) -> Seq<GenericParamView> {
    let base = seq![lifetime_view("'state"@)];
    let with_state = if with_state_param {
        base.push(state_param_view(state_bound))
    } else {
        base
    };
    with_state + ps
}

/// The parameters of a visitor struct.
pub fn base_visitor_generics(
    generics: &Generics,
    with_state_param: bool,
    state_bound: Option<&String>,
) -> (ps: Vec<GenericParam>)
    ensures
        ps.deep_view() == spec_base_visitor_generics(
            generics.params.deep_view(),
            with_state_param,
            opt_ref_view(state_bound),
        ),
{
    let mut ps: Vec<GenericParam> = Vec::new();
    push_param(&mut ps, lifetime_param("'state"));
    if with_state_param {
        push_param(&mut ps, state_param(state_bound));
    }
    extend_params(&mut ps, &generics.params);
    assert(ps.deep_view() =~= spec_base_visitor_generics(
        generics.params.deep_view(),
        with_state_param,
        opt_ref_view(state_bound),
    ));
    ps
}

/// The parameter list with which a visitor struct is declared.
pub open spec fn spec_visitor_struct_generics(
    ps: Seq<GenericParamView>,
    with_state_param: bool,
    state_bound: Option<Seq<char>>,
) -> Seq<char> {
    generics_text(spec_base_visitor_generics(ps, with_state_param, state_bound), true)
}

/// The visitor's own arguments (`__Visitor<..>` in its impl header).
pub open spec fn spec_visitor_type_generics(
    ps: Seq<GenericParamView>,
    with_state_param: bool,
    state_bound: Option<Seq<char>>,
) -> Seq<char> {
    generics_text(spec_base_visitor_generics(ps, with_state_param, state_bound), false)
}

/// The parameter list of a visitor's `Visitor<'de>` impl.
pub open spec fn spec_visitor_impl_generics(
    ps: Seq<GenericParamView>,
    with_state_param: bool,
    state_bound: Option<Seq<char>>,
) -> Seq<char> {
    generics_text(
        seq![lifetime_view("'de"@)] + spec_base_visitor_generics(ps, with_state_param, state_bound),
        true,
    )
}

/// The declaration and argument lists of a visitor struct.
pub fn visitor_struct_generics_tokens(
    generics: &Generics,
    with_state_param: bool,
    state_bound: Option<&String>,
) -> (out: (String, String))
    ensures
        out.0@ == spec_visitor_struct_generics(
            generics.params.deep_view(),
            with_state_param,
            opt_ref_view(state_bound),
        ),
        out.1@ == spec_visitor_type_generics(
            generics.params.deep_view(),
            with_state_param,
            opt_ref_view(state_bound),
        ),
{
    let ps = base_visitor_generics(generics, with_state_param, state_bound);
    (generics_tokens(&ps, true), generics_tokens(&ps, false))
}

/// The impl parameter list and the visitor's arguments for a visitor's
/// `Visitor<'de>` impl.
pub fn visitor_impl_generics_tokens(
    generics: &Generics,
    with_state_param: bool,
    state_bound: Option<&String>,
) -> (out: (String, String))
    ensures
        out.0@ == spec_visitor_impl_generics(
            generics.params.deep_view(),
            with_state_param,
            opt_ref_view(state_bound),
        ),
        out.1@ == spec_visitor_type_generics(
            generics.params.deep_view(),
            with_state_param,
            opt_ref_view(state_bound),
        ),
{
    let base = base_visitor_generics(generics, with_state_param, state_bound);
    let type_tokens = generics_tokens(&base, false);
    let mut ps: Vec<GenericParam> = Vec::new();
    push_param(&mut ps, lifetime_param("'de"));
    extend_params(&mut ps, &base);
    assert(ps.deep_view() =~= seq![lifetime_view("'de"@)] + base.deep_view());
    (generics_tokens(&ps, true), type_tokens)
}

/// The type that a visitor produces: the declared type with its arguments.
pub open spec fn spec_phantom_type(ident: Seq<char>, ps: Seq<GenericParamView>) -> Seq<char> {
    ident + generics_text(ps, false)
}

pub fn phantom_type(ident: &String, generics: &Generics) -> (out: String)
    ensures
        out@ == spec_phantom_type(ident@, generics.params.deep_view()),
{
    let mut out = ident.clone();
    let args = generics_tokens(&generics.params, false);
    out.append(args.as_str());
    out
}

/// ` + Bound` when the state has a bound, else nothing.
pub open spec fn spec_state_bound_clause(state_bound: Option<Seq<char>>) -> Seq<char> {
    match state_bound {
        Some(b) => " + "@ + b,
        None => seq![],
    }
}

pub fn state_bound_clause(state_bound: Option<&String>) -> (out: String)
    ensures
        out@ == spec_state_bound_clause(opt_ref_view(state_bound)),
{
    match state_bound {
        Some(b) => {
            let mut out = String::from_str(" + ");
            out.append(b.as_str());
            out
        },
        None => String::new(),
    }
}

/// `param_texts` of a list that starts with `p`: `p`'s text (when it is of
/// the kind asked for) followed by those of the rest.
pub proof fn lemma_param_texts_prepend(
    p: GenericParamView,
    rest: Seq<GenericParamView>,
    lifetimes: bool,
    for_impl: bool,
)
    ensures
        param_texts(seq![p] + rest, lifetimes, for_impl) == (if (p is Lifetime) == lifetimes {
            seq![param_text(p, for_impl)]
        } else {
            Seq::<Seq<char>>::empty()
        }) + param_texts(rest, lifetimes, for_impl),
    decreases rest.len(),
{
    if rest.len() == 0 {
        assert(seq![p] + rest =~= seq![p]);
        assert(seq![p].drop_last() =~= Seq::<GenericParamView>::empty());
        assert(param_texts(Seq::<GenericParamView>::empty(), lifetimes, for_impl) =~= Seq::<
            Seq<char>,
        >::empty());
        if (p is Lifetime) == lifetimes {
            assert(param_texts(seq![p], lifetimes, for_impl) =~= seq![param_text(p, for_impl)]);
        } else {
            assert(param_texts(seq![p], lifetimes, for_impl) =~= Seq::<Seq<char>>::empty());
        }
    } else {
        lemma_param_texts_prepend(p, rest.drop_last(), lifetimes, for_impl);
        assert((seq![p] + rest).drop_last() =~= seq![p] + rest.drop_last());
        assert((seq![p] + rest).last() == rest.last());
        let head = if (p is Lifetime) == lifetimes {
            seq![param_text(p, for_impl)]
        } else {
            Seq::<Seq<char>>::empty()
        };
        if (rest.last() is Lifetime) == lifetimes {
            assert(head + param_texts(rest.drop_last(), lifetimes, for_impl).push(
                param_text(rest.last(), for_impl),
            ) =~= (head + param_texts(rest.drop_last(), lifetimes, for_impl)).push(
                param_text(rest.last(), for_impl),
            ));
        }
    }
}

/// A parameter list that starts with the bare lifetime `'name` is written
/// `<'name` and so on: the lifetime comes first.
pub proof fn lemma_generics_text_starts_with_lifetime(
    name: Seq<char>,
    rest: Seq<GenericParamView>,
    for_impl: bool,
)
    ensures
        generics_text(seq![lifetime_view(name)] + rest, for_impl).len() >= name.len() + 1,
        generics_text(seq![lifetime_view(name)] + rest, for_impl).take(name.len() + 1int) == "<"@
            + name,
{
    let ps = seq![lifetime_view(name)] + rest;
    lemma_param_texts_prepend(lifetime_view(name), rest, true, for_impl);
    let items = param_texts(ps, true, for_impl) + param_texts(ps, false, for_impl);
    assert(param_text(lifetime_view(name), for_impl) == name);
    assert(items[0] == name);
    crate::text::lemma_join_starts_with_first(items, ", "@);
    let j = join(items, ", "@);
    reveal_strlit("<");
    assert("<"@.len() == 1);
    assert(ps.len() > 0);
    assert(generics_text(ps, for_impl) == "<"@ + j + ">"@);
    assert(("<"@ + j + ">"@).take(name.len() + 1int) =~= "<"@ + j.take(name.len() as int));
}

} // verus!
