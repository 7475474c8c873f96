//! The runtime meaning of the generated artifacts, modelled on values: a
//! union value is a tag (the variant position) with a payload, carried at a
//! concrete instantiation. Widening retypes a value without changing it,
//! narrowing either retypes it or extracts the payload of the removed
//! variant, and the conversion builds a value at a variant's position.

use vstd::prelude::*;

use crate::ast::{make_never, type_views, TypeExpr, TypeExprView};
use crate::resolve::{
    apply_widening, find_payload_position, has_payload, lemma_payload_pos_from_props, payload_pos,
    spec_apply_widening,
};
use crate::table::{VariantRecord, VariantTable};

verus! {

/// A union value: which variant it holds (by position) and that variant's
/// payload. All payloads are carried at one representation type.
#[derive(Debug, PartialEq, Eq)]
pub struct UnionValue<P> {
    pub tag: usize,
    pub payload: P,
}

/// A union value together with the concrete instantiation it is typed at.
#[derive(Debug, PartialEq, Eq)]
pub struct TypedUnionValue<P> {
    pub args: Vec<TypeExpr>,
    pub value: UnionValue<P>,
}

/// Well-typedness of a value at its instantiation against a table: one
/// argument per position, and the position the value holds is not excluded.
pub open spec fn value_wf<P>(tv: TypedUnionValue<P>, recs: Seq<VariantRecord>) -> bool {
    &&& tv.args@.len() == recs.len()
    &&& (tv.value.tag as int) < recs.len()
    &&& !(tv.args@[tv.value.tag as int]@ is Never)
}

impl<P> TypedUnionValue<P> {
    /// The conversion for the position whose payload type is `ty`: a bare
    /// payload becomes the union value at that position, typed at any
    /// instantiation whose slot there holds `ty`.
    pub fn from_payload(
        table: &VariantTable,
        args: Vec<TypeExpr>,
        ty: &TypeExpr,
        payload: P,
    ) -> (r: TypedUnionValue<P>)
        requires
            args@.len() == table.records@.len(),
            has_payload(table.records@, ty@),
            args@[payload_pos(table.records@, ty@)]@ == ty@,
            !(ty@ is Never),
        ensures
            r.value.tag as int == payload_pos(table.records@, ty@),
            r.value.payload == payload,
            r.args == args,
            value_wf(r, table.records@),
    {
        let pos = find_payload_position(table, ty);
        TypedUnionValue { args, value: UnionValue { tag: pos, payload } }
    }

    /// Widening: admitting `ty` as a further possibility retypes the value
    /// and changes nothing else; it fails only where no generated
    /// implementation applies.
    pub fn add_possibility(self, ty: &TypeExpr, table: &VariantTable) -> (r: Option<
        TypedUnionValue<P>,
    >)
        requires
            value_wf(self, table.records@),
        ensures
            r is Some <==> spec_apply_widening(
                type_views(self.args@),
                ty@,
                table.records@,
            ) is Some,
            r matches Some(tv) ==> {
                &&& Some(type_views(tv.args@)) == spec_apply_widening(
                    type_views(self.args@),
                    ty@,
                    table.records@,
                )
                &&& tv.value == self.value
                &&& value_wf(tv, table.records@)
            },
    {
        let ghost recs = table.records@;
        let TypedUnionValue { args, value } = self;
        match apply_widening(&args, ty, table) {
            Option::Some(new_args) => {
                proof {
                    let old_views = type_views(args@);
                    let new_views = type_views(new_args@);
                    if !(ty@ is Never) {
                        lemma_pos_in_range(recs, ty@);
                    }
                    assert(!(new_views[value.tag as int] is Never));
                }
                Some(TypedUnionValue { args: new_args, value })
            },
            Option::None => None,
        }
    }

    /// Narrowing: removing the variant whose payload type is `ty` (its slot
    /// must hold `ty`) extracts the payload exactly when the value holds that
    /// variant, and otherwise retypes the value, its slot now excluded,
    /// changing nothing else.
    pub fn remove_possibility(self, ty: &TypeExpr, table: &VariantTable) -> (r: Result<
        TypedUnionValue<P>,
        P,
    >)
        requires
            value_wf(self, table.records@),
            has_payload(table.records@, ty@),
            self.args@[payload_pos(table.records@, ty@)]@ == ty@,
            !(ty@ is Never),
        ensures
            self.value.tag as int == payload_pos(table.records@, ty@) ==> (r matches Err(p) && p
                == self.value.payload),
            self.value.tag as int != payload_pos(table.records@, ty@) ==> (r matches Ok(tv) && {
                &&& tv.value == self.value
                &&& type_views(tv.args@) == type_views(self.args@).update(
                    payload_pos(table.records@, ty@),
                    TypeExprView::Never,
                )
                &&& value_wf(tv, table.records@)
            }),
    {
        let ghost recs = table.records@;
        let pos = find_payload_position(table, ty);
        let TypedUnionValue { mut args, value } = self;
        if value.tag == pos {
            Err(value.payload)
        } else {
            args.set(pos, make_never());
            proof {
                assert(type_views(args@) =~= type_views(self.args@).update(
                    pos as int,
                    TypeExprView::Never,
                ));
            }
            Ok(TypedUnionValue { args, value })
        }
    }

    /// The generated upcast: one widening step per position in position
    /// order, each backed by its bound, converting the value from its own
    /// instantiation to the target one without changing it.
    pub fn upcast(self, target: &Vec<TypeExpr>, table: &VariantTable) -> (r: TypedUnionValue<P>)
        requires
            value_wf(self, table.records@),
            upcast_compat(type_views(self.args@), type_views(target@), table.records@),
        ensures
            r.value == self.value,
            type_views(r.args@) == type_views(target@),
            value_wf(r, table.records@),
    {
        let ghost recs = table.records@;
        let ghost src = type_views(self.args@);
        let ghost tgt = type_views(target@);
        let n = target.len();
        let TypedUnionValue { mut args, value } = self;
        let mut p: usize = 0;
        while p < n
            invariant
                n == target@.len(),
                n == recs.len(),
                recs == table.records@,
                src == type_views(self.args@),
                tgt == type_views(target@),
                upcast_compat(src, tgt, recs),
                args@.len() == n,
                forall|q: int| 0 <= q < p ==> type_views(args@)[q] == tgt[q],
                forall|q: int| p <= q < n ==> type_views(args@)[q] == src[q],
            decreases n - p,
        {
            let step_applies = match &target[p] {
                TypeExpr::Never => false,
                _ => true,
            };
            proof {
                // This iteration is one widening step: the universal
                // implementation where the target slot is the placeholder,
                // and the transition or presence implementation otherwise.
                if tgt[p as int] is Never {
                    assert(spec_apply_widening(type_views(args@), tgt[p as int], recs) == Some(
                        type_views(args@),
                    ));
                } else {
                    lemma_pos_in_range(recs, tgt[p as int]);
                    assert(spec_apply_widening(type_views(args@), tgt[p as int], recs) matches Some(
                        v,
                    ) && v =~= type_views(args@).update(p as int, tgt[p as int]));
                }
            }
            if step_applies {
                args.set(p, target[p].clone());
            }
            proof {
                if !step_applies {
                    assert(tgt[p as int] is Never);
                    assert(src[p as int] is Never);
                    assert(type_views(args@)[p as int] == tgt[p as int]);
                }
            }
            p = p + 1;
        }
        proof {
            assert(type_views(args@) =~= tgt);
            assert(!(tgt[value.tag as int] is Never));
        }
        TypedUnionValue { args, value }
    }
}

proof fn lemma_pos_in_range(recs: Seq<VariantRecord>, ty: TypeExprView)
    requires
        has_payload(recs, ty),
    ensures
        0 <= payload_pos(recs, ty) < recs.len(),
        recs[payload_pos(recs, ty)].payload_type@ == ty,
{
    lemma_payload_pos_from_props(recs, ty, 0);
}

/// When the generated upcast from one instantiation to another type-checks:
/// a slot excluded in the target must be excluded in the source, and any
/// other target slot must hold its own position's payload type, at that
/// type's first position, with the source slot either excluded or already
/// equal.
pub open spec fn upcast_compat(
    src: Seq<TypeExprView>,
    tgt: Seq<TypeExprView>,
    recs: Seq<VariantRecord>,
) -> bool {
    &&& src.len() == recs.len()
    &&& tgt.len() == recs.len()
    &&& forall|p: int|
        0 <= p < recs.len() ==> {
            if (#[trigger] tgt[p]) is Never {
                src[p] is Never
            } else {
                &&& recs[p].payload_type@ == tgt[p]
                &&& payload_pos(recs, tgt[p]) == p
                &&& (src[p] is Never || src[p] == tgt[p])
            }
        }
}

/// The instantiation left after narrowing away, in position order, every
/// position that the source had excluded: the narrow-back fold of the upcast
/// transparency round trip.
pub open spec fn clear_added(
    cur: Seq<TypeExprView>,
    src: Seq<TypeExprView>,
    p: int,
) -> Seq<TypeExprView>
    decreases src.len() - p when 0 <= p <= src.len()
{
    if p >= src.len() {
        cur
    } else if src[p] is Never {
        clear_added(cur.update(p, TypeExprView::Never), src, p + 1)
    } else {
        clear_added(cur, src, p + 1)
    }
}

proof fn lemma_clear_added_restores(
    cur: Seq<TypeExprView>,
    src: Seq<TypeExprView>,
    tgt: Seq<TypeExprView>,
    recs: Seq<VariantRecord>,
    p: int,
)
    requires
        upcast_compat(src, tgt, recs),
        cur.len() == src.len(),
        0 <= p <= src.len(),
        forall|q: int| 0 <= q < p ==> cur[q] == src[q],
        forall|q: int| p <= q < src.len() ==> cur[q] == tgt[q],
    ensures
        clear_added(cur, src, p) == src,
    decreases src.len() - p,
{
    if p >= src.len() {
        assert(cur =~= src);
    } else if src[p] is Never {
        lemma_clear_added_restores(cur.update(p, TypeExprView::Never), src, tgt, recs, p + 1);
    } else {
        assert(cur[p] == src[p]);
        lemma_clear_added_restores(cur, src, tgt, recs, p + 1);
    }
}

/// Upcast transparency: widening a value through the full position list and
/// then narrowing every newly added position back out, in the same order,
/// restores the original instantiation; and no newly added position is the
/// one the value holds, so each narrowing step succeeds and the value itself
/// is never touched.
pub proof fn lemma_upcast_transparency(
    src: Seq<TypeExprView>,
    tgt: Seq<TypeExprView>,
    recs: Seq<VariantRecord>,
    tag: int,
)
    requires
        upcast_compat(src, tgt, recs),
        0 <= tag < src.len(),
        !(src[tag] is Never),
    ensures
        clear_added(tgt, src, 0) == src,
        forall|p: int| 0 <= p < src.len() && (#[trigger] src[p]) is Never ==> p != tag,
{
    lemma_clear_added_restores(tgt, src, tgt, recs, 0);
}

} // verus!
