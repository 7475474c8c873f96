//! The generators: for each variant table entry they describe the widening
//! and narrowing capability implementations, the payload conversions, the
//! upcast method and the notation macro that together make up the expansion
//! of one declaration.

use vstd::prelude::*;

use crate::ast::{make_generic_idents, make_never, EnumDecl, ParamFamily, ParamRef, TypeExpr};
use crate::table::{
    build_variant_table, decl_ok, is_rewritten_decl, records_of, reports_first_offence, GenError,
    VariantRecord, VariantTable,
};

verus! {

/// The body of a generated widening implementation.
#[derive(Debug, PartialEq, Eq)]
pub enum ImplBody {
    /// Return the value unchanged.
    Identity,
    /// Pattern-match the union and rebuild the same tag and payload at the
    /// target type, one arm per listed tag. The excluded position has no arm:
    /// its payload type admits no values.
    Reconstruct(Vec<String>),
}

/// One implementation of the widening capability: for the union applied to
/// `self_args`, requesting `target` as a new possibility yields the union
/// applied to `with_args`.
#[derive(Debug, PartialEq, Eq)]
pub struct WideningImpl {
    pub generics: Vec<ParamRef>,
    pub target: TypeExpr,
    pub self_args: Vec<TypeExpr>,
    pub with_args: Vec<TypeExpr>,
    pub body: ImplBody,
}

/// One conversion implementation: a bare payload of `source_type` becomes the
/// union applied to `enum_args`, built at the variant tagged `variant_tag`.
#[derive(Debug, PartialEq, Eq)]
pub struct ConversionImpl {
    pub generics: Vec<ParamRef>,
    pub source_type: TypeExpr,
    pub enum_args: Vec<TypeExpr>,
    pub variant_tag: String,
}

/// One arm of a narrowing implementation's match: the arm for the removed
/// position extracts the payload as the failure, every other arm rebuilds the
/// same tag and payload at the narrowed type.
#[derive(Debug, PartialEq, Eq)]
pub struct NarrowArm {
    pub tag: String,
    pub extracted: bool,
}

/// One implementation of the narrowing capability: for the union applied to
/// `self_args`, removing `target` yields the union applied to `without_args`,
/// or the extracted payload.
#[derive(Debug, PartialEq, Eq)]
pub struct NarrowingImpl {
    pub generics: Vec<ParamRef>,
    pub target: TypeExpr,
    pub self_args: Vec<TypeExpr>,
    pub without_args: Vec<TypeExpr>,
    pub arms: Vec<NarrowArm>,
}

/// One `where`-bound of the generated upcast method: the union applied to
/// `self_args` must admit `target`, with the result being the union applied
/// to `with_args`.
#[derive(Debug, PartialEq, Eq)]
pub struct UpcastBound {
    pub self_args: Vec<TypeExpr>,
    pub target: TypeExpr,
    pub with_args: Vec<TypeExpr>,
}

/// The generated upcast method: from the union over the source parameters to
/// the union over the target parameters, one widening step per position, in
/// position order.
#[derive(Debug, PartialEq, Eq)]
pub struct UpcastFn {
    pub source_params: Vec<ParamRef>,
    pub target_params: Vec<ParamRef>,
    pub bounds: Vec<UpcastBound>,
    pub n_steps: usize,
}

/// The generated notation macro: it hands the resolution evaluator the fully
/// excluded instantiation (every position the placeholder) and the listed
/// types.
#[derive(Debug, PartialEq, Eq)]
pub struct MacroDef {
    pub name: String,
    pub empty_args: Vec<TypeExpr>,
}

/// The declaration's generic parameters `0 .. n`, minus position `i`.
pub open spec fn decl_params_except(n: int, i: int) -> Seq<ParamRef> {
    Seq::new(
        (n - 1) as nat,
        |k: int|
            ParamRef {
                family: ParamFamily::Decl,
                ordinal: (if k < i {
                    k
                } else {
                    k + 1
                }) as usize,
            },
    )
}

/// The declaration's generic parameters `0 .. n`.
pub open spec fn decl_params(n: int) -> Seq<ParamRef> {
    Seq::new(n as nat, |k: int| ParamRef { family: ParamFamily::Decl, ordinal: k as usize })
}

/// The argument list holding `at` at position `i` and the declaration's own
/// parameter at every other position.
pub open spec fn args_with_at(n: int, i: int, at: TypeExpr) -> Seq<TypeExpr> {
    Seq::new(
        n as nat,
        |j: int|
            if j == i {
                at
            } else {
                TypeExpr::Param(ParamRef { family: ParamFamily::Decl, ordinal: j as usize })
            },
    )
}

/// The fully generic argument list: every position its own parameter.
pub open spec fn all_param_args(n: int) -> Seq<TypeExpr> {
    Seq::new(
        n as nat,
        |j: int| TypeExpr::Param(ParamRef { family: ParamFamily::Decl, ordinal: j as usize }),
    )
}

/// The fully excluded argument list: every position the placeholder.
pub open spec fn all_never_args(n: int) -> Seq<TypeExpr> {
    Seq::new(n as nat, |j: int| TypeExpr::Never)
}

/// The variant tags in order, minus position `i`.
pub open spec fn tags_except(recs: Seq<VariantRecord>, i: int) -> Seq<String> {
    Seq::new(
        (recs.len() - 1) as nat,
        |k: int|
            recs[if k < i {
                k
            } else {
                k + 1
            }].tag,
    )
}

/// The widening implementation that fills position `i`: the placeholder at
/// that position is replaced by the variant's payload type, every other
/// position stays the free parameter, and the body rebuilds each other tag.
pub open spec fn is_transition_widening(w: WideningImpl, recs: Seq<VariantRecord>, i: int) -> bool {
    let n = recs.len() as int;
    &&& w.generics@ == decl_params_except(n, i)
    &&& w.target == recs[i].payload_type
    &&& w.self_args@ == args_with_at(n, i, TypeExpr::Never)
    &&& w.with_args@ == args_with_at(n, i, recs[i].payload_type)
    &&& w.body matches ImplBody::Reconstruct(tags) && tags@ == tags_except(recs, i)
}

/// The widening implementation for a position already filled: requesting the
/// payload type again is the identity.
pub open spec fn is_presence_widening(w: WideningImpl, recs: Seq<VariantRecord>, i: int) -> bool {
    let n = recs.len() as int;
    &&& w.generics@ == decl_params_except(n, i)
    &&& w.target == recs[i].payload_type
    &&& w.self_args@ == args_with_at(n, i, recs[i].payload_type)
    &&& w.with_args@ == w.self_args@
    &&& w.body is Identity
}

/// The universal widening implementation: requesting the placeholder itself
/// is the identity on any instantiation.
pub open spec fn is_universal_widening(w: WideningImpl, recs: Seq<VariantRecord>) -> bool {
    let n = recs.len() as int;
    &&& w.generics@ == decl_params(n)
    &&& w.target == TypeExpr::Never
    &&& w.self_args@ == all_param_args(n)
    &&& w.with_args@ == w.self_args@
    &&& w.body is Identity
}

/// The conversion implementation for position `i`: the bare payload becomes
/// the union with that slot filled, built at that variant's tag.
pub open spec fn is_conversion(c: ConversionImpl, recs: Seq<VariantRecord>, i: int) -> bool {
    let n = recs.len() as int;
    &&& c.generics@ == decl_params_except(n, i)
    &&& c.source_type == recs[i].payload_type
    &&& c.enum_args@ == args_with_at(n, i, recs[i].payload_type)
    &&& c.variant_tag == recs[i].tag
}

/// The narrowing implementation for position `i`: defined where that position
/// holds its payload type; the result has the placeholder there instead, the
/// matching arm extracts, every other arm rebuilds.
pub open spec fn is_narrowing(w: NarrowingImpl, recs: Seq<VariantRecord>, i: int) -> bool {
    let n = recs.len() as int;
    &&& w.generics@ == decl_params_except(n, i)
    &&& w.target == recs[i].payload_type
    &&& w.self_args@ == args_with_at(n, i, recs[i].payload_type)
    &&& w.without_args@ == args_with_at(n, i, TypeExpr::Never)
    &&& w.arms@.len() == n
    &&& forall|j: int|
        0 <= j < n ==> (#[trigger] w.arms@[j]).tag == recs[j].tag && w.arms@[j].extracted == (j
            == i)
}

/// One bound of the upcast method: at step `i` the partially converted union
/// (target parameters below `i`, source parameters from `i` up) admits target
/// parameter `i`, moving the boundary one position further.
pub open spec fn is_upcast_bound(b: UpcastBound, n: int, i: int) -> bool {
    &&& b.self_args@ == Seq::new(
        n as nat,
        |j: int|
            TypeExpr::Param(
                ParamRef {
                    family: if j < i {
                        ParamFamily::New
                    } else {
                        ParamFamily::Old
                    },
                    ordinal: j as usize,
                },
            ),
    )
    &&& b.target == TypeExpr::Param(ParamRef { family: ParamFamily::New, ordinal: i as usize })
    &&& b.with_args@ == Seq::new(
        n as nat,
        |j: int|
            TypeExpr::Param(
                ParamRef {
                    family: if j <= i {
                        ParamFamily::New
                    } else {
                        ParamFamily::Old
                    },
                    ordinal: j as usize,
                },
            ),
    )
}

/// The generated upcast method for a table of `n` positions.
pub open spec fn is_upcast_fn(u: UpcastFn, n: int) -> bool {
    &&& u.source_params@ == Seq::new(
        n as nat,
        |k: int| ParamRef { family: ParamFamily::Old, ordinal: k as usize },
    )
    &&& u.target_params@ == Seq::new(
        n as nat,
        |k: int| ParamRef { family: ParamFamily::New, ordinal: k as usize },
    )
    &&& u.bounds@.len() == n
    &&& forall|i: int| 0 <= i < n ==> is_upcast_bound(#[trigger] u.bounds@[i], n, i)
    &&& u.n_steps == n
}

fn build_decl_params_except(n: usize, i: usize) -> (r: Vec<ParamRef>)
    requires
        i < n,
    ensures
        r@ == decl_params_except(n as int, i as int),
{
    let mut r: Vec<ParamRef> = Vec::new();
    let mut j: usize = 0;
    while j < n
        invariant
            i < n,
            0 <= j <= n,
            r@.len() == if j <= i {
                j as int
            } else {
                j - 1
            },
            forall|k: int|
                0 <= k < r@.len() ==> #[trigger] r@[k] == (ParamRef {
                    family: ParamFamily::Decl,
                    ordinal: (if k < i {
                        k
                    } else {
                        k + 1
                    }) as usize,
                }),
        decreases n - j,
    {
        if j != i {
            r.push(ParamRef { family: ParamFamily::Decl, ordinal: j });
        }
        j = j + 1;
    }
    proof {
        assert(r@ =~= decl_params_except(n as int, i as int));
    }
    r
}

fn build_decl_params(n: usize) -> (r: Vec<ParamRef>)
    ensures
        r@ == decl_params(n as int),
{
    let mut r: Vec<ParamRef> = Vec::new();
    let mut j: usize = 0;
    while j < n
        invariant
            0 <= j <= n,
            r@.len() == j,
            forall|k: int|
                0 <= k < j ==> #[trigger] r@[k] == (ParamRef {
                    family: ParamFamily::Decl,
                    ordinal: k as usize,
                }),
        decreases n - j,
    {
        r.push(ParamRef { family: ParamFamily::Decl, ordinal: j });
        j = j + 1;
    }
    proof {
        assert(r@ =~= decl_params(n as int));
    }
    r
}

fn build_args_with_at(n: usize, i: usize, at: &TypeExpr) -> (r: Vec<TypeExpr>)
    requires
        i < n,
    ensures
        r@ == args_with_at(n as int, i as int, *at),
{
    let mut r: Vec<TypeExpr> = Vec::new();
    let mut j: usize = 0;
    while j < n
        invariant
            i < n,
            0 <= j <= n,
            r@.len() == j,
            forall|k: int| 0 <= k < j ==> #[trigger] r@[k] == args_with_at(n as int, i as int, *at)[k],
        decreases n - j,
    {
        if j == i {
            r.push(at.clone());
        } else {
            r.push(TypeExpr::Param(ParamRef { family: ParamFamily::Decl, ordinal: j }));
        }
        j = j + 1;
    }
    proof {
        assert(r@ =~= args_with_at(n as int, i as int, *at));
    }
    r
}

fn build_all_param_args(n: usize) -> (r: Vec<TypeExpr>)
    ensures
        r@ == all_param_args(n as int),
{
    let mut r: Vec<TypeExpr> = Vec::new();
    let mut j: usize = 0;
    while j < n
        invariant
            0 <= j <= n,
            r@.len() == j,
            forall|k: int| 0 <= k < j ==> #[trigger] r@[k] == all_param_args(n as int)[k],
        decreases n - j,
    {
        r.push(TypeExpr::Param(ParamRef { family: ParamFamily::Decl, ordinal: j }));
        j = j + 1;
    }
    proof {
        assert(r@ =~= all_param_args(n as int));
    }
    r
}

pub(crate) fn build_all_never_args(n: usize) -> (r: Vec<TypeExpr>)
    ensures
        r@ == all_never_args(n as int),
{
    let mut r: Vec<TypeExpr> = Vec::new();
    let mut j: usize = 0;
    while j < n
        invariant
            0 <= j <= n,
            r@.len() == j,
            forall|k: int| 0 <= k < j ==> #[trigger] r@[k] == TypeExpr::Never,
        decreases n - j,
    {
        r.push(make_never());
        j = j + 1;
    }
    proof {
        assert(r@ =~= all_never_args(n as int));
    }
    r
}

fn build_tags_except(table: &VariantTable, i: usize) -> (r: Vec<String>)
    requires
        i < table.records@.len(),
    ensures
        r@ == tags_except(table.records@, i as int),
{
    let n = table.records.len();
    let mut r: Vec<String> = Vec::new();
    let mut j: usize = 0;
    while j < n
        invariant
            i < n,
            n == table.records@.len(),
            0 <= j <= n,
            r@.len() == if j <= i {
                j as int
            } else {
                j - 1
            },
            forall|k: int| 0 <= k < r@.len() ==> #[trigger] r@[k] == tags_except(table.records@, i as int)[k],
        decreases n - j,
    {
        if j != i {
            r.push(table.records[j].tag.clone());
        }
        j = j + 1;
    }
    proof {
        assert(r@ =~= tags_except(table.records@, i as int));
    }
    r
}


/// For every table entry, the two widening implementations: first the
/// transition case (the position holds the placeholder and gains the payload
/// type), then the presence case (the position already holds it; identity).
pub fn gen_with_variant_trait_impls(table: &VariantTable) -> (r: Vec<WideningImpl>)
    ensures
        r@.len() == 2 * table.records@.len(),
        forall|k: int|
            0 <= k < r@.len() && k % 2 == 0 ==> is_transition_widening(
                #[trigger] r@[k],
                table.records@,
                k / 2,
            ),
        forall|k: int|
            0 <= k < r@.len() && k % 2 == 1 ==> is_presence_widening(
                #[trigger] r@[k],
                table.records@,
                k / 2,
            ),
{
    let n = table.records.len();
    let mut r: Vec<WideningImpl> = Vec::new();
    let mut i: usize = 0;
    while i < n
        invariant
            n == table.records@.len(),
            0 <= i <= n,
            r@.len() == 2 * i,
            forall|k: int|
                0 <= k < r@.len() && k % 2 == 0 ==> is_transition_widening(
                    #[trigger] r@[k],
                    table.records@,
                    k / 2,
                ),
            forall|k: int|
                0 <= k < r@.len() && k % 2 == 1 ==> is_presence_widening(
                    #[trigger] r@[k],
                    table.records@,
                    k / 2,
                ),
        decreases n - i,
    {
        let payload = &table.records[i].payload_type;
        let never_ty = make_never();
        let transition = WideningImpl {
            generics: build_decl_params_except(n, i),
            target: payload.clone(),
            self_args: build_args_with_at(n, i, &never_ty),
            with_args: build_args_with_at(n, i, payload),
            body: ImplBody::Reconstruct(build_tags_except(table, i)),
        };
        r.push(transition);
        let presence = WideningImpl {
            generics: build_decl_params_except(n, i),
            target: payload.clone(),
            self_args: build_args_with_at(n, i, payload),
            with_args: build_args_with_at(n, i, payload),
            body: ImplBody::Identity,
        };
        r.push(presence);
        i = i + 1;
    }
    r
}

/// For every table entry, the conversion from the bare payload type into the
/// union with that slot filled.
pub fn gen_error_from_trait_impls(table: &VariantTable) -> (r: Vec<ConversionImpl>)
    ensures
        r@.len() == table.records@.len(),
        forall|i: int|
            0 <= i < r@.len() ==> is_conversion(#[trigger] r@[i], table.records@, i),
{
    let n = table.records.len();
    let mut r: Vec<ConversionImpl> = Vec::new();
    let mut i: usize = 0;
    while i < n
        invariant
            n == table.records@.len(),
            0 <= i <= n,
            r@.len() == i,
            forall|j: int|
                0 <= j < i ==> is_conversion(#[trigger] r@[j], table.records@, j),
        decreases n - i,
    {
        let payload = &table.records[i].payload_type;
        r.push(
            ConversionImpl {
                generics: build_decl_params_except(n, i),
                source_type: payload.clone(),
                enum_args: build_args_with_at(n, i, payload),
                variant_tag: table.records[i].tag.clone(),
            },
        );
        i = i + 1;
    }
    r
}

/// The universal widening implementation: requesting the placeholder itself
/// as a possibility is the identity on any fully generic instantiation.
pub fn gen_never_with_variant_trait_impl(table: &VariantTable) -> (r: WideningImpl)
    ensures
        is_universal_widening(r, table.records@),
{
    let n = table.records.len();
    WideningImpl {
        generics: build_decl_params(n),
        target: make_never(),
        self_args: build_all_param_args(n),
        with_args: build_all_param_args(n),
        body: ImplBody::Identity,
    }
}

fn build_narrow_arms(table: &VariantTable, i: usize) -> (r: Vec<NarrowArm>)
    requires
        i < table.records@.len(),
    ensures
        r@.len() == table.records@.len(),
        forall|j: int|
            0 <= j < r@.len() ==> (#[trigger] r@[j]).tag == table.records@[j].tag
                && r@[j].extracted == (j == i as int),
{
    let n = table.records.len();
    let mut r: Vec<NarrowArm> = Vec::new();
    let mut j: usize = 0;
    while j < n
        invariant
            i < n,
            n == table.records@.len(),
            0 <= j <= n,
            r@.len() == j,
            forall|k: int|
                0 <= k < j ==> (#[trigger] r@[k]).tag == table.records@[k].tag && r@[k].extracted
                    == (k == i as int),
        decreases n - j,
    {
        r.push(NarrowArm { tag: table.records[j].tag.clone(), extracted: j == i });
        j = j + 1;
    }
    r
}

/// For every table entry, the narrowing implementation: where the position
/// holds its payload type, removing it yields the union with the placeholder
/// there instead, the matching arm extracting the payload as the failure.
pub fn gen_without_trait_impls(table: &VariantTable) -> (r: Vec<NarrowingImpl>)
    ensures
        r@.len() == table.records@.len(),
        forall|i: int|
            0 <= i < r@.len() ==> is_narrowing(#[trigger] r@[i], table.records@, i),
{
    let n = table.records.len();
    let mut r: Vec<NarrowingImpl> = Vec::new();
    let mut i: usize = 0;
    while i < n
        invariant
            n == table.records@.len(),
            0 <= i <= n,
            r@.len() == i,
            forall|j: int|
                0 <= j < i ==> is_narrowing(#[trigger] r@[j], table.records@, j),
        decreases n - i,
    {
        let payload = &table.records[i].payload_type;
        let never_ty = make_never();
        r.push(
            NarrowingImpl {
                generics: build_decl_params_except(n, i),
                target: payload.clone(),
                self_args: build_args_with_at(n, i, payload),
                without_args: build_args_with_at(n, i, &never_ty),
                arms: build_narrow_arms(table, i),
            },
        );
        i = i + 1;
    }
    r
}

fn build_mixed_params(n: usize, boundary: usize) -> (r: Vec<TypeExpr>)
    requires
        boundary <= n,
    ensures
        r@.len() == n,
        forall|j: int|
            0 <= j < n ==> #[trigger] r@[j] == TypeExpr::Param(
                ParamRef {
                    family: if j < boundary {
                        ParamFamily::New
                    } else {
                        ParamFamily::Old
                    },
                    ordinal: j as usize,
                },
            ),
{
    let mut r: Vec<TypeExpr> = Vec::new();
    let mut j: usize = 0;
    while j < n
        invariant
            boundary <= n,
            0 <= j <= n,
            r@.len() == j,
            forall|k: int|
                0 <= k < j ==> #[trigger] r@[k] == TypeExpr::Param(
                    ParamRef {
                        family: if k < boundary {
                            ParamFamily::New
                        } else {
                            ParamFamily::Old
                        },
                        ordinal: k as usize,
                    },
                ),
        decreases n - j,
    {
        if j < boundary {
            r.push(TypeExpr::Param(ParamRef { family: ParamFamily::New, ordinal: j }));
        } else {
            r.push(TypeExpr::Param(ParamRef { family: ParamFamily::Old, ordinal: j }));
        }
        j = j + 1;
    }
    r
}

/// The upcast method on the union: it converts the union over the source
/// parameters to the union over the target parameters by one widening step
/// per position, in position order, each step backed by its own bound.
pub fn gen_methods_on_enum_impl(table: &VariantTable) -> (r: UpcastFn)
    ensures
        is_upcast_fn(r, table.records@.len() as int),
{
    let n = table.records.len();
    let source_params = make_generic_idents(ParamFamily::Old, 0, n);
    let target_params = make_generic_idents(ParamFamily::New, 0, n);
    let mut bounds: Vec<UpcastBound> = Vec::new();
    let mut i: usize = 0;
    while i < n
        invariant
            0 <= i <= n,
            bounds@.len() == i,
            forall|j: int| 0 <= j < i ==> is_upcast_bound(#[trigger] bounds@[j], n as int, j),
        decreases n - i,
    {
        let b = UpcastBound {
            self_args: build_mixed_params(n, i),
            target: TypeExpr::Param(ParamRef { family: ParamFamily::New, ordinal: i }),
            with_args: build_mixed_params(n, i + 1),
        };
        proof {
            assert(b.self_args@ =~= Seq::new(
                n as nat,
                |j: int|
                    TypeExpr::Param(
                        ParamRef {
                            family: if j < i {
                                ParamFamily::New
                            } else {
                                ParamFamily::Old
                            },
                            ordinal: j as usize,
                        },
                    ),
            ));
            assert(b.with_args@ =~= Seq::new(
                n as nat,
                |j: int|
                    TypeExpr::Param(
                        ParamRef {
                            family: if j <= i {
                                ParamFamily::New
                            } else {
                                ParamFamily::Old
                            },
                            ordinal: j as usize,
                        },
                    ),
            ));
        }
        bounds.push(b);
        i = i + 1;
    }
    let r = UpcastFn { source_params, target_params, bounds, n_steps: n };
    proof {
        assert(r.source_params@ =~= Seq::new(
            n as nat,
            |k: int| ParamRef { family: ParamFamily::Old, ordinal: k as usize },
        ));
        assert(r.target_params@ =~= Seq::new(
            n as nat,
            |k: int| ParamRef { family: ParamFamily::New, ordinal: k as usize },
        ));
    }
    r
}

/// The notation macro for the declaration: it seeds the resolution evaluator
/// with the fully excluded instantiation and passes the listed types along.
pub fn gen_powerset_macro(name: &String, table: &VariantTable) -> (r: MacroDef)
    ensures
        r.name == name,
        r.empty_args@ == all_never_args(table.records@.len() as int),
{
    MacroDef { name: name.clone(), empty_args: build_all_never_args(table.records.len()) }
}

/// Everything the generator emits for one declaration, in emission order:
/// the rewritten declaration, the per-position widening pairs, the payload
/// conversions, the universal widening implementation, the per-position
/// narrowing implementations, the upcast method, and the notation macro.
#[derive(Debug, PartialEq, Eq)]
pub struct Expansion {
    pub decl: EnumDecl,
    pub widening: Vec<WideningImpl>,
    pub conversions: Vec<ConversionImpl>,
    pub universal: WideningImpl,
    pub narrowing: Vec<NarrowingImpl>,
    pub upcast: UpcastFn,
    pub macro_def: MacroDef,
}

/// The full contract of an expansion against the declaration it came from.
pub open spec fn is_expansion_of(e: Expansion, d: EnumDecl) -> bool {
    let recs = records_of(d);
    let n = recs.len() as int;
    &&& is_rewritten_decl(e.decl, d)
    &&& e.widening@.len() == 2 * n
    &&& forall|k: int|
        0 <= k < e.widening@.len() && k % 2 == 0 ==> is_transition_widening(
            #[trigger] e.widening@[k],
            recs,
            k / 2,
        )
    &&& forall|k: int|
        0 <= k < e.widening@.len() && k % 2 == 1 ==> is_presence_widening(
            #[trigger] e.widening@[k],
            recs,
            k / 2,
        )
    &&& e.conversions@.len() == n
    &&& forall|i: int| 0 <= i < n ==> is_conversion(#[trigger] e.conversions@[i], recs, i)
    &&& is_universal_widening(e.universal, recs)
    &&& e.narrowing@.len() == n
    &&& forall|i: int| 0 <= i < n ==> is_narrowing(#[trigger] e.narrowing@[i], recs, i)
    &&& is_upcast_fn(e.upcast, n)
    &&& e.macro_def.name == d.name
    &&& e.macro_def.empty_args@ == all_never_args(n)
}

/// Expands one declaration: validates it, builds the variant table, and runs
/// every generator over it. On rejection nothing is emitted; the error is
/// the table builder's, reported for the first offence.
pub fn powerset_enum_impl(decl: EnumDecl) -> (r: Result<Expansion, GenError>)
    ensures
        r is Ok <==> decl_ok(decl),
        r matches Err(e) ==> reports_first_offence(e, decl),
        r matches Ok(e) ==> is_expansion_of(e, decl),
{
    let (new_decl, table) = match build_variant_table(decl) {
        Ok(p) => p,
        Err(e) => {
            return Err(e);
        },
    };
    let widening = gen_with_variant_trait_impls(&table);
    let conversions = gen_error_from_trait_impls(&table);
    let universal = gen_never_with_variant_trait_impl(&table);
    let narrowing = gen_without_trait_impls(&table);
    let upcast = gen_methods_on_enum_impl(&table);
    let macro_def = gen_powerset_macro(&new_decl.name, &table);
    Ok(Expansion { decl: new_decl, widening, conversions, universal, narrowing, upcast, macro_def })
}

/// Closure: an accepted declaration with `n` variants expands to exactly `n`
/// transition widening implementations (with their `n` presence companions
/// interleaved), `n` narrowing implementations, `n` payload conversions, and
/// one universal widening implementation for the placeholder.
pub proof fn lemma_generator_closure(e: Expansion, d: EnumDecl)
    requires
        is_expansion_of(e, d),
    ensures
        e.widening@.len() == 2 * d.variants@.len(),
        e.narrowing@.len() == d.variants@.len(),
        e.conversions@.len() == d.variants@.len(),
        forall|i: int|
            0 <= i < d.variants@.len() ==> is_transition_widening(
                #[trigger] e.widening@[2 * i],
                records_of(d),
                i,
            ),
        forall|i: int|
            0 <= i < d.variants@.len() ==> is_presence_widening(
                #[trigger] e.widening@[2 * i + 1],
                records_of(d),
                i,
            ),
        is_universal_widening(e.universal, records_of(d)),
{
    assert forall|i: int| 0 <= i < d.variants@.len() implies is_transition_widening(
        #[trigger] e.widening@[2 * i],
        records_of(d),
        i,
    ) by {
        assert((2 * i) % 2 == 0 && (2 * i) / 2 == i);
    }
    assert forall|i: int| 0 <= i < d.variants@.len() implies is_presence_widening(
        #[trigger] e.widening@[2 * i + 1],
        records_of(d),
        i,
    ) by {
        assert((2 * i + 1) % 2 == 1 && (2 * i + 1) / 2 == i);
    }
}

} // verus!
