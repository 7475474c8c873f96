//! The notation construct and the subset-resolution evaluator: a list of
//! payload types is folded through the widening capability, starting from the
//! fully excluded instantiation, to compute the concrete union type that
//! allows exactly those payloads.

use vstd::prelude::*;

use crate::ast::{type_views, EnumDecl, TypeExpr, TypeExprView, UnionType};
use crate::generate::{
    args_with_at, build_all_never_args, is_expansion_of, is_presence_widening,
    is_transition_widening, Expansion,
};
use crate::table::{records_of, VariantRecord, VariantTable};

verus! {

/// What one use of the notation construct hands the evaluator: a starting
/// instantiation (for the generated macro, the fully excluded one) and the
/// listed payload types in order.
#[derive(Debug, PartialEq, Eq)]
pub struct PowersetMacroInput {
    pub empty_powerset: UnionType,
    pub types_in_powerset: Vec<TypeExpr>,
}

/// The evaluator's input written out syntactically: the starting type, with
/// one widening projection wrapped around it per listed type, innermost
/// first.
#[derive(Debug, PartialEq, Eq)]
pub enum ResolutionExpr {
    Start(UnionType),
    Widen(Box<ResolutionExpr>, TypeExpr),
}

/// The starting type at the bottom of a widening chain.
pub open spec fn chain_start(r: ResolutionExpr) -> UnionType
    decreases r,
{
    match r {
        ResolutionExpr::Start(u) => u,
        ResolutionExpr::Widen(inner, _) => chain_start(*inner),
    }
}

/// The types a widening chain applies, in application order.
pub open spec fn chain_types(r: ResolutionExpr) -> Seq<TypeExpr>
    decreases r,
{
    match r {
        ResolutionExpr::Start(_) => Seq::empty(),
        ResolutionExpr::Widen(inner, ty) => chain_types(*inner).push(ty),
    }
}

/// Folds the widening projection over the listed types, in the order given,
/// around the starting type: the syntactic expansion of one notation use.
#[verifier::loop_isolation(false)]
pub fn powerset_macro_impl(input: PowersetMacroInput) -> (r: ResolutionExpr)
    ensures
        chain_start(r) == input.empty_powerset,
        chain_types(r) == input.types_in_powerset@,
{
    let ghost input0 = input;
    let PowersetMacroInput { empty_powerset, types_in_powerset } = input;
    let n = types_in_powerset.len();
    let mut r = ResolutionExpr::Start(empty_powerset);
    let mut i: usize = 0;
    while i < n
        invariant
            0 <= i <= n,
            chain_start(r) == input0.empty_powerset,
            chain_types(r) == input0.types_in_powerset@.take(i as int),
        decreases n - i,
    {
        r = ResolutionExpr::Widen(Box::new(r), types_in_powerset[i].clone());
        proof {
            assert(input0.types_in_powerset@.take(i as int).push(input0.types_in_powerset@[i as int])
                =~= input0.types_in_powerset@.take(i as int + 1));
        }
        i = i + 1;
    }
    proof {
        assert(input0.types_in_powerset@.take(n as int) =~= input0.types_in_powerset@);
    }
    r
}

/// The first position at or after `i` whose payload type is `ty`, or the
/// table's length when there is none.
pub open spec fn payload_pos_from(recs: Seq<VariantRecord>, ty: TypeExprView, i: int) -> int
    decreases recs.len() - i when 0 <= i <= recs.len()
{
    if i >= recs.len() {
        recs.len() as int
    } else if recs[i].payload_type@ == ty {
        i
    } else {
        payload_pos_from(recs, ty, i + 1)
    }
}

/// The first position whose payload type is `ty`, or the table's length.
pub open spec fn payload_pos(recs: Seq<VariantRecord>, ty: TypeExprView) -> int {
    payload_pos_from(recs, ty, 0)
}

/// Some position's payload type is `ty`.
pub open spec fn has_payload(recs: Seq<VariantRecord>, ty: TypeExprView) -> bool {
    payload_pos(recs, ty) < recs.len()
}

/// What the first-position search satisfies: it lands within bounds, on an
/// actual occurrence when there is one, skipping no earlier occurrence.
pub proof fn lemma_payload_pos_from_props(recs: Seq<VariantRecord>, ty: TypeExprView, i: int)
    requires
        0 <= i <= recs.len(),
    ensures
        i <= payload_pos_from(recs, ty, i) <= recs.len(),
        payload_pos_from(recs, ty, i) < recs.len() ==> recs[payload_pos_from(recs, ty, i)].payload_type@
            == ty,
        forall|j: int|
            i <= j < payload_pos_from(recs, ty, i) ==> (#[trigger] recs[j]).payload_type@ != ty,
        forall|j: int|
            i <= j < recs.len() && (#[trigger] recs[j]).payload_type@ == ty ==> payload_pos_from(
                recs,
                ty,
                i,
            ) <= j,
    decreases recs.len() - i,
{
    if i < recs.len() && recs[i].payload_type@ != ty {
        lemma_payload_pos_from_props(recs, ty, i + 1);
    }
}

/// The first position whose payload type is `ty`, or the table's length
/// when no variant carries it.
pub fn find_payload_position(table: &VariantTable, ty: &TypeExpr) -> (r: usize)
    ensures
        r as int == payload_pos(table.records@, ty@),
{
    let ghost recs = table.records@;
    let n = table.records.len();
    let mut i: usize = 0;
    while i < n
        invariant
            n == recs.len(),
            recs == table.records@,
            0 <= i <= n,
            forall|j: int| 0 <= j < i ==> (#[trigger] recs[j]).payload_type@ != ty@,
        decreases n - i,
    {
        if table.records[i].payload_type.same_type(ty) {
            proof {
                lemma_payload_pos_from_props(recs, ty@, 0);
            }
            return i;
        }
        i = i + 1;
    }
    proof {
        lemma_payload_pos_from_props(recs, ty@, 0);
    }
    n
}

/// One widening step on an instantiation, as the generated implementations
/// resolve it: requesting the placeholder is the identity; otherwise the
/// requested type's own position must either hold the placeholder (it is
/// filled) or already hold the type (identity); anything else has no
/// applicable implementation.
pub open spec fn spec_apply_widening(
    inst: Seq<TypeExprView>,
    ty: TypeExprView,
    recs: Seq<VariantRecord>,
) -> Option<Seq<TypeExprView>> {
    if ty is Never {
        Some(inst)
    } else {
        let p = payload_pos(recs, ty);
        if p >= recs.len() {
            None
        } else if inst[p] is Never {
            Some(inst.update(p, ty))
        } else if inst[p] == ty {
            Some(inst)
        } else {
            None
        }
    }
}

/// The left fold of the widening step over a list of types.
pub open spec fn spec_resolve(
    inst: Seq<TypeExprView>,
    tys: Seq<TypeExprView>,
    recs: Seq<VariantRecord>,
) -> Option<Seq<TypeExprView>>
    decreases tys.len(),
{
    if tys.len() == 0 {
        Some(inst)
    } else {
        match spec_apply_widening(inst, tys[0], recs) {
            Option::None => None,
            Option::Some(inst2) => spec_resolve(inst2, tys.subrange(1, tys.len() as int), recs),
        }
    }
}

/// The views of a possibly failed resolution result.
pub open spec fn opt_views(r: Option<Vec<TypeExpr>>) -> Option<Seq<TypeExprView>> {
    match r {
        Option::None => None,
        Option::Some(v) => Some(type_views(v@)),
    }
}

fn clone_args(v: &Vec<TypeExpr>) -> (r: Vec<TypeExpr>)
    ensures
        r@ == v@,
{
    let n = v.len();
    let mut r: Vec<TypeExpr> = Vec::new();
    let mut i: usize = 0;
    while i < n
        invariant
            n == v@.len(),
            0 <= i <= n,
            r@.len() == i,
            forall|j: int| 0 <= j < i ==> #[trigger] r@[j] == v@[j],
        decreases n - i,
    {
        r.push(v[i].clone());
        i = i + 1;
    }
    proof {
        assert(r@ =~= v@);
    }
    r
}

/// One widening step, executed: the instantiation after admitting `ty`, or
/// nothing when no generated implementation applies.
pub fn apply_widening(inst: &Vec<TypeExpr>, ty: &TypeExpr, table: &VariantTable) -> (r: Option<
    Vec<TypeExpr>,
>)
    requires
        inst@.len() == table.records@.len(),
    ensures
        opt_views(r) == spec_apply_widening(type_views(inst@), ty@, table.records@),
        r matches Some(v) ==> v@.len() == inst@.len(),
{
    let ghost recs = table.records@;
    match ty {
        TypeExpr::Never => Some(clone_args(inst)),
        _ => {
            let p = find_payload_position(table, ty);
            if p >= table.records.len() {
                None
            } else {
                let slot_vacant = match &inst[p] {
                    TypeExpr::Never => true,
                    _ => false,
                };
                if slot_vacant {
                    let mut r = clone_args(inst);
                    r.set(p, ty.clone());
                    proof {
                        assert(type_views(r@) =~= type_views(inst@).update(p as int, ty@));
                    }
                    Some(r)
                } else if inst[p].same_type(ty) {
                    Some(clone_args(inst))
                } else {
                    None
                }
            }
        },
    }
}

/// The evaluator: folds the widening step over the listed types in order,
/// from the given starting instantiation; nothing when some step has no
/// applicable implementation.
pub fn resolve(start: &Vec<TypeExpr>, types: &Vec<TypeExpr>, table: &VariantTable) -> (r: Option<
    Vec<TypeExpr>,
>)
    requires
        start@.len() == table.records@.len(),
    ensures
        opt_views(r) == spec_resolve(type_views(start@), type_views(types@), table.records@),
{
    let ghost recs = table.records@;
    let ghost tv = type_views(types@);
    let n = types.len();
    let mut cur = clone_args(start);
    let mut i: usize = 0;
    proof {
        assert(tv.subrange(0, n as int) =~= tv);
    }
    while i < n
        invariant
            n == types@.len(),
            recs == table.records@,
            tv == type_views(types@),
            0 <= i <= n,
            cur@.len() == recs.len(),
            spec_resolve(type_views(start@), tv, recs) == spec_resolve(
                type_views(cur@),
                tv.subrange(i as int, n as int),
                recs,
            ),
        decreases n - i,
    {
        let ghost rest = tv.subrange(i as int, n as int);
        proof {
            assert(rest[0] == types@[i as int]@);
            assert(rest.subrange(1, rest.len() as int) =~= tv.subrange(i as int + 1, n as int));
        }
        match apply_widening(&cur, &types[i], table) {
            Option::Some(next) => {
                cur = next;
            },
            Option::None => {
                return None;
            },
        }
        i = i + 1;
    }
    proof {
        assert(tv.subrange(n as int, n as int) =~= Seq::<TypeExprView>::empty());
    }
    Some(cur)
}

/// The fully excluded instantiation of `n` positions, as a mathematical
/// value.
pub open spec fn all_never_views(n: int) -> Seq<TypeExprView> {
    Seq::new(n as nat, |j: int| TypeExprView::Never)
}

/// What the notation construct does for one use-site: resolve the listed
/// types from the fully excluded instantiation. An empty list yields the
/// fully excluded instantiation itself. A failed resolution stands for the
/// missing-capability diagnostic the host compiler raises at that use-site
/// when a listed type has no position.
pub fn resolve_notation(types: &Vec<TypeExpr>, table: &VariantTable) -> (r: Option<Vec<TypeExpr>>)
    ensures
        opt_views(r) == spec_resolve(
            all_never_views(table.records@.len() as int),
            type_views(types@),
            table.records@,
        ),
{
    let start = build_all_never_args(table.records.len());
    proof {
        assert(type_views(start@) =~= all_never_views(table.records@.len() as int));
    }
    resolve(&start, types, table)
}

/// An instantiation reachable from the fully excluded one by widening steps:
/// every position is either still excluded or holds its own payload type, at
/// that type's first position.
pub open spec fn reachable_inst(inst: Seq<TypeExprView>, recs: Seq<VariantRecord>) -> bool {
    &&& inst.len() == recs.len()
    &&& forall|p: int|
        0 <= p < inst.len() ==> ((#[trigger] inst[p]) is Never || (inst[p]
            == recs[p].payload_type@ && payload_pos(recs, inst[p]) == p))
}

/// Every listed type either is the placeholder or occurs in the table.
pub open spec fn resolvable(tys: Seq<TypeExprView>, recs: Seq<VariantRecord>) -> bool {
    forall|k: int|
        0 <= k < tys.len() ==> ((#[trigger] tys[k]) is Never || has_payload(recs, tys[k]))
}

/// Where resolution must land: each position keeps what it already holds,
/// gains its payload type when that type is listed (at the type's first
/// position only), and stays excluded otherwise. Note it depends on the
/// listed types only through membership.
pub open spec fn merged_inst(
    inst: Seq<TypeExprView>,
    tys: Seq<TypeExprView>,
    recs: Seq<VariantRecord>,
) -> Seq<TypeExprView> {
    Seq::new(
        inst.len(),
        |p: int|
            if !(inst[p] is Never) {
                inst[p]
            } else if payload_pos(recs, recs[p].payload_type@) == p && tys.contains(
                recs[p].payload_type@,
            ) {
                recs[p].payload_type@
            } else {
                TypeExprView::Never
            },
    )
}

/// The evaluator, characterized: from a reachable instantiation it succeeds
/// exactly when every listed type resolves, and then lands on the merged
/// instantiation, which depends on the listed types only through membership.
pub proof fn lemma_resolve_characterization(
    inst: Seq<TypeExprView>,
    tys: Seq<TypeExprView>,
    recs: Seq<VariantRecord>,
)
    requires
        reachable_inst(inst, recs),
    ensures
        spec_resolve(inst, tys, recs) is Some <==> resolvable(tys, recs),
        resolvable(tys, recs) ==> spec_resolve(inst, tys, recs) == Some(
            merged_inst(inst, tys, recs),
        ),
    decreases tys.len(),
{
    let n = recs.len() as int;
    if tys.len() == 0 {
        assert(resolvable(tys, recs));
        assert(merged_inst(inst, tys, recs) =~= inst);
    } else {
        let ty0 = tys[0];
        let rest = tys.subrange(1, tys.len() as int);
        assert(tys.contains(ty0));
        assert forall|t: TypeExprView| #[trigger] rest.contains(t) implies tys.contains(t) by {
            let k = choose|k: int| 0 <= k < rest.len() && rest[k] == t;
            assert(tys[k + 1] == t);
        }
        assert forall|t: TypeExprView| #[trigger] tys.contains(t) implies (t == ty0
            || rest.contains(t)) by {
            let k = choose|k: int| 0 <= k < tys.len() && tys[k] == t;
            if k > 0 {
                assert(rest[k - 1] == t);
            }
        }
        assert(resolvable(tys, recs) <==> ((ty0 is Never || has_payload(recs, ty0)) && resolvable(
            rest,
            recs,
        ))) by {
            if (ty0 is Never || has_payload(recs, ty0)) && resolvable(rest, recs) {
                assert forall|k: int| 0 <= k < tys.len() implies ((#[trigger] tys[k]) is Never
                    || has_payload(recs, tys[k])) by {
                    if k > 0 {
                        assert(rest[k - 1] == tys[k]);
                        assert(rest[k - 1] is Never || has_payload(recs, rest[k - 1]));
                    }
                }
            }
            if resolvable(tys, recs) {
                assert forall|k: int| 0 <= k < rest.len() implies ((#[trigger] rest[k]) is Never
                    || has_payload(recs, rest[k])) by {
                    assert(tys[k + 1] == rest[k]);
                    assert(tys[k + 1] is Never || has_payload(recs, tys[k + 1]));
                }
            }
        }
        if ty0 is Never {
            lemma_resolve_characterization(inst, rest, recs);
            if resolvable(tys, recs) {
                assert forall|p: int| 0 <= p < inst.len() implies merged_inst(inst, rest, recs)[p]
                    == merged_inst(inst, tys, recs)[p] by {
                    if inst[p] is Never && tys.contains(recs[p].payload_type@) && !rest.contains(
                        recs[p].payload_type@,
                    ) {
                        assert(recs[p].payload_type@ == ty0);
                    }
                }
                assert(merged_inst(inst, rest, recs) =~= merged_inst(inst, tys, recs));
            }
        } else {
            lemma_payload_pos_from_props(recs, ty0, 0);
            let p = payload_pos(recs, ty0);
            if p >= n {
                assert(!resolvable(tys, recs));
                assert(spec_resolve(inst, tys, recs) is None);
            } else {
                assert(recs[p].payload_type@ == ty0);
                if inst[p] is Never {
                    let inst2 = inst.update(p, ty0);
                    assert(reachable_inst(inst2, recs));
                    lemma_resolve_characterization(inst2, rest, recs);
                    if resolvable(tys, recs) {
                        assert forall|q: int| 0 <= q < inst.len() implies merged_inst(
                            inst2,
                            rest,
                            recs,
                        )[q] == merged_inst(inst, tys, recs)[q] by {
                            if q == p {
                                assert(merged_inst(inst, tys, recs)[p] == ty0);
                                assert(merged_inst(inst2, rest, recs)[p] == ty0);
                            } else {
                                assert(inst2[q] == inst[q]);
                                if inst[q] is Never && payload_pos(recs, recs[q].payload_type@)
                                    == q {
                                    if tys.contains(recs[q].payload_type@) && !rest.contains(
                                        recs[q].payload_type@,
                                    ) {
                                        assert(recs[q].payload_type@ == ty0);
                                        assert(payload_pos(recs, ty0) == q);
                                    }
                                }
                            }
                        }
                        assert(merged_inst(inst2, rest, recs) =~= merged_inst(inst, tys, recs));
                    }
                } else {
                    assert(inst[p] == ty0);
                    lemma_resolve_characterization(inst, rest, recs);
                    if resolvable(tys, recs) {
                        assert forall|q: int| 0 <= q < inst.len() implies merged_inst(
                            inst,
                            rest,
                            recs,
                        )[q] == merged_inst(inst, tys, recs)[q] by {
                            if inst[q] is Never && payload_pos(recs, recs[q].payload_type@) == q {
                                if tys.contains(recs[q].payload_type@) && !rest.contains(
                                    recs[q].payload_type@,
                                ) {
                                    assert(recs[q].payload_type@ == ty0);
                                    assert(payload_pos(recs, ty0) == q);
                                }
                            }
                        }
                        assert(merged_inst(inst, rest, recs) =~= merged_inst(inst, tys, recs));
                    }
                }
            }
        }
    }
}

/// Order-independence: two notation lists naming the same types, in any
/// orders and multiplicities, resolve identically from the fully excluded
/// instantiation.
pub proof fn lemma_resolve_order_independent(
    tys1: Seq<TypeExprView>,
    tys2: Seq<TypeExprView>,
    recs: Seq<VariantRecord>,
)
    requires
        forall|t: TypeExprView|
            #![trigger tys1.contains(t)]
            #![trigger tys2.contains(t)]
            tys1.contains(t) <==> tys2.contains(t),
    ensures
        spec_resolve(all_never_views(recs.len() as int), tys1, recs) == spec_resolve(
            all_never_views(recs.len() as int),
            tys2,
            recs,
        ),
{
    let inst = all_never_views(recs.len() as int);
    assert(reachable_inst(inst, recs));
    lemma_resolve_characterization(inst, tys1, recs);
    lemma_resolve_characterization(inst, tys2, recs);
    assert(resolvable(tys1, recs) <==> resolvable(tys2, recs)) by {
        if resolvable(tys2, recs) {
            assert forall|k: int| 0 <= k < tys1.len() implies ((#[trigger] tys1[k]) is Never
                || has_payload(recs, tys1[k])) by {
                let t = tys1[k];
                assert(tys1.contains(t));
                let j = choose|j: int| 0 <= j < tys2.len() && tys2[j] == t;
                assert(tys2[j] is Never || has_payload(recs, tys2[j]));
            }
        }
        if resolvable(tys1, recs) {
            assert forall|k: int| 0 <= k < tys2.len() implies ((#[trigger] tys2[k]) is Never
                || has_payload(recs, tys2[k])) by {
                let t = tys2[k];
                assert(tys2.contains(t));
                let j = choose|j: int| 0 <= j < tys1.len() && tys1[j] == t;
                assert(tys1[j] is Never || has_payload(recs, tys1[j]));
            }
        }
    }
    if resolvable(tys1, recs) {
        assert(merged_inst(inst, tys1, recs) =~= merged_inst(inst, tys2, recs));
    }
}

/// Idempotence: listing a type twice resolves as listing it once.
pub proof fn lemma_resolve_idempotent(ty: TypeExprView, recs: Seq<VariantRecord>)
    ensures
        spec_resolve(all_never_views(recs.len() as int), seq![ty, ty], recs) == spec_resolve(
            all_never_views(recs.len() as int),
            seq![ty],
            recs,
        ),
{
    let twice: Seq<TypeExprView> = seq![ty, ty];
    let once: Seq<TypeExprView> = seq![ty];
    assert forall|t: TypeExprView| #[trigger] twice.contains(t) implies once.contains(t) by {
        let k = choose|k: int| 0 <= k < twice.len() && twice[k] == t;
        assert(t == ty);
        assert(once[0] == t);
    }
    assert forall|t: TypeExprView| #[trigger] once.contains(t) implies twice.contains(t) by {
        assert(t == ty);
        assert(twice[0] == t);
    }
    lemma_resolve_order_independent(twice, once, recs);
}

/// Rejection: resolution from the fully excluded instantiation fails exactly
/// when the list holds a type, other than the placeholder, that no declared
/// variant carries.
pub proof fn lemma_resolve_rejects(tys: Seq<TypeExprView>, recs: Seq<VariantRecord>)
    ensures
        spec_resolve(all_never_views(recs.len() as int), tys, recs) is None <==> exists|k: int|
            0 <= k < tys.len() && !((#[trigger] tys[k]) is Never) && !has_payload(recs, tys[k]),
{
    let inst = all_never_views(recs.len() as int);
    assert(reachable_inst(inst, recs));
    lemma_resolve_characterization(inst, tys, recs);
}

/// Resolving a list extended by further types is resolving the list and then
/// the further types from where it landed.
pub proof fn lemma_resolve_append(
    inst: Seq<TypeExprView>,
    a: Seq<TypeExprView>,
    b: Seq<TypeExprView>,
    recs: Seq<VariantRecord>,
)
    ensures
        spec_resolve(inst, a + b, recs) == (match spec_resolve(inst, a, recs) {
            Option::Some(m) => spec_resolve(m, b, recs),
            Option::None => None,
        }),
    decreases a.len(),
{
    if a.len() == 0 {
        assert(a + b =~= b);
    } else {
        assert((a + b)[0] == a[0]);
        match spec_apply_widening(inst, a[0], recs) {
            Option::None => {
                assert(spec_resolve(inst, a + b, recs) is None);
            },
            Option::Some(m1) => {
                assert((a + b).subrange(1, (a + b).len() as int) =~= a.subrange(
                    1,
                    a.len() as int,
                ) + b);
                lemma_resolve_append(m1, a.subrange(1, a.len() as int), b, recs);
            },
        }
    }
}


/// A generated argument pattern matches a concrete instantiation when every
/// position is either a free parameter or exactly the instantiation's type.
pub open spec fn pattern_matches(pattern: Seq<TypeExprView>, inst: Seq<TypeExprView>) -> bool {
    &&& pattern.len() == inst.len()
    &&& forall|j: int|
        0 <= j < pattern.len() ==> ((#[trigger] pattern[j]) is Param || pattern[j] == inst[j])
}

/// The instantiation a pattern denotes once its free parameters are read off
/// a matching instantiation.
pub open spec fn pattern_instantiate(
    pattern: Seq<TypeExprView>,
    inst: Seq<TypeExprView>,
) -> Seq<TypeExprView> {
    Seq::new(
        pattern.len(),
        |j: int|
            if pattern[j] is Param {
                inst[j]
            } else {
                pattern[j]
            },
    )
}

/// The evaluator's widening step is exactly what the generated
/// implementations prescribe. Requesting the placeholder is the universal
/// implementation, matched against any instantiation; filling a position is
/// that position's transition implementation; requesting a type already
/// present is that position's presence implementation. In each case the
/// matching implementation's declared result pattern, read off the current
/// instantiation, is what the step computes. The transition clause is stated
/// for source-level requested types: in a pattern, a payload type that is
/// itself a bare parameter could not be told apart from one of the pattern's
/// own free positions.
pub proof fn lemma_widening_step_follows_impls(
    e: Expansion,
    d: EnumDecl,
    inst: Seq<TypeExprView>,
    ty: TypeExprView,
)
    requires
        is_expansion_of(e, d),
        inst.len() == records_of(d).len(),
    ensures
        ty is Never ==> {
            &&& pattern_matches(type_views(e.universal.self_args@), inst)
            &&& spec_apply_widening(inst, ty, records_of(d)) == Some(
                pattern_instantiate(type_views(e.universal.with_args@), inst),
            )
        },
        ty is Source && payload_pos(records_of(d), ty) < records_of(d).len() && inst[payload_pos(
            records_of(d),
            ty,
        )] is Never ==> {
            let w = e.widening@[2 * payload_pos(records_of(d), ty)];
            &&& w.target@ == ty
            &&& pattern_matches(type_views(w.self_args@), inst)
            &&& spec_apply_widening(inst, ty, records_of(d)) == Some(
                pattern_instantiate(type_views(w.with_args@), inst),
            )
        },
        !(ty is Never) && payload_pos(records_of(d), ty) < records_of(d).len() && inst[payload_pos(
            records_of(d),
            ty,
        )] == ty ==> {
            let w = e.widening@[2 * payload_pos(records_of(d), ty) + 1];
            &&& w.target@ == ty
            &&& pattern_matches(type_views(w.self_args@), inst)
            &&& spec_apply_widening(inst, ty, records_of(d)) == Some(
                pattern_instantiate(type_views(w.with_args@), inst),
            )
        },
{
    let recs = records_of(d);
    let n = recs.len() as int;
    if ty is Never {
        assert(pattern_matches(type_views(e.universal.self_args@), inst));
        assert(pattern_instantiate(type_views(e.universal.with_args@), inst) =~= inst);
    } else {
        lemma_payload_pos_from_props(recs, ty, 0);
        let p = payload_pos(recs, ty);
        if p < n {
            assert(recs[p].payload_type@ == ty);
            assert((2 * p) % 2 == 0 && (2 * p) / 2 == p);
            assert((2 * p + 1) % 2 == 1 && (2 * p + 1) / 2 == p);
            if ty is Source && inst[p] is Never {
                let w = e.widening@[2 * p];
                assert(is_transition_widening(w, recs, p));
                assert(pattern_matches(type_views(w.self_args@), inst)) by {
                    assert forall|j: int| 0 <= j < n implies ((#[trigger] type_views(
                        w.self_args@,
                    )[j]) is Param || type_views(w.self_args@)[j] == inst[j]) by {
                        assert(w.self_args@[j] == args_with_at(
                            n,
                            p,
                            TypeExpr::Never,
                        )[j]);
                    }
                }
                assert(pattern_instantiate(type_views(w.with_args@), inst) =~= inst.update(p, ty))
                    by {
                    assert forall|j: int| 0 <= j < n implies pattern_instantiate(
                        type_views(w.with_args@),
                        inst,
                    )[j] == inst.update(p, ty)[j] by {
                        assert(w.with_args@[j] == args_with_at(
                            n,
                            p,
                            recs[p].payload_type,
                        )[j]);
                    }
                }
            }
            if !(inst[p] is Never) && inst[p] == ty {
                let w = e.widening@[2 * p + 1];
                assert(is_presence_widening(w, recs, p));
                assert(pattern_matches(type_views(w.self_args@), inst)) by {
                    assert forall|j: int| 0 <= j < n implies ((#[trigger] type_views(
                        w.self_args@,
                    )[j]) is Param || type_views(w.self_args@)[j] == inst[j]) by {
                        assert(w.self_args@[j] == args_with_at(
                            n,
                            p,
                            recs[p].payload_type,
                        )[j]);
                    }
                }
                assert(pattern_instantiate(type_views(w.with_args@), inst) =~= inst) by {
                    assert forall|j: int| 0 <= j < n implies pattern_instantiate(
                        type_views(w.with_args@),
                        inst,
                    )[j] == inst[j] by {
                        assert(w.with_args@[j] == args_with_at(
                            n,
                            p,
                            recs[p].payload_type,
                        )[j]);
                    }
                }
            }
        }
    }
}

} // verus!
