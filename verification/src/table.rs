//! The variant table builder: it validates a tagged-union declaration,
//! records each variant's position, payload type and tag, and rewrites the
//! declaration so that every payload type becomes a fresh generic parameter.

use vstd::prelude::*;

use crate::ast::{
    make_generic_ident, make_generic_type, EnumDecl, FieldsDecl, ParamFamily, ParamRef, TypeExpr,
    VariantDecl,
};

verus! {

/// One row of the variant table: the variant's 0-based position, its original
/// payload type, and its tag.
#[derive(Debug, PartialEq, Eq)]
pub struct VariantRecord {
    pub index: usize,
    pub payload_type: TypeExpr,
    pub tag: String,
}

/// The ordered table of variant records, one per variant, in source order.
/// Built once per declaration and read by every generator.
#[derive(Debug, PartialEq, Eq)]
pub struct VariantTable {
    pub records: Vec<VariantRecord>,
}

/// Why a declaration is rejected. The position carried by the two
/// variant-level errors names the offending variant.
#[derive(Clone, Copy, PartialEq, Eq, Structural, Debug)]
pub enum GenError {
    /// The declaration already has type parameters; the generator owns
    /// parametrization exclusively.
    UnsupportedGenerics,
    /// A variant carries an explicit discriminant.
    UnsupportedDiscriminant(usize),
    /// A variant is not exactly one unnamed field.
    UnsupportedShape(usize),
}

/// A variant has the supported shape: exactly one unnamed field.
pub open spec fn variant_shape_ok(v: VariantDecl) -> bool {
    v.fields matches FieldsDecl::Unnamed(tys) && tys@.len() == 1
}

/// A variant passes both checks: no discriminant, supported shape.
pub open spec fn variant_ok(v: VariantDecl) -> bool {
    &&& !v.has_discriminant
    &&& variant_shape_ok(v)
}

/// A declaration is accepted: no pre-existing generics, every variant fine.
pub open spec fn decl_ok(d: EnumDecl) -> bool {
    &&& d.generics@.len() == 0
    &&& forall|i: int| 0 <= i < d.variants@.len() ==> variant_ok(#[trigger] d.variants@[i])
}

/// The payload type of a variant of supported shape.
pub open spec fn payload_of(v: VariantDecl) -> TypeExpr
    recommends
        variant_shape_ok(v),
{
    v.fields->Unnamed_0@[0]
}

/// The table rows an accepted declaration gives rise to.
pub open spec fn records_of(d: EnumDecl) -> Seq<VariantRecord> {
    Seq::new(
        d.variants@.len(),
        |i: int|
            VariantRecord {
                index: i as usize,
                payload_type: payload_of(d.variants@[i]),
                tag: d.variants@[i].tag,
            },
    )
}

/// How the builder rewrites a declaration: same name and tags, one fresh
/// generic parameter per variant, and each variant's field type replaced by
/// that position's parameter.
pub open spec fn is_rewritten_decl(nd: EnumDecl, d: EnumDecl) -> bool {
    let n = d.variants@.len();
    &&& nd.name == d.name
    &&& nd.generics@.len() == n
    &&& forall|i: int|
        0 <= i < n ==> #[trigger] nd.generics@[i] == (ParamRef {
            family: ParamFamily::Decl,
            ordinal: i as usize,
        })
    &&& nd.variants@.len() == n
    &&& forall|i: int|
        0 <= i < n ==> {
            let v = #[trigger] nd.variants@[i];
            &&& v.tag == d.variants@[i].tag
            &&& !v.has_discriminant
            &&& v.fields matches FieldsDecl::Unnamed(tys) && tys@.len() == 1 && tys@[0]
                == TypeExpr::Param(ParamRef { family: ParamFamily::Decl, ordinal: i as usize })
        }
}

/// What the reported error must be, given where the first offence lies:
/// a pre-existing generic parameter list is reported outright; otherwise the
/// first offending variant decides, its discriminant being checked before
/// its shape.
pub open spec fn reports_first_offence(e: GenError, d: EnumDecl) -> bool {
    &&& d.generics@.len() > 0 ==> e == GenError::UnsupportedGenerics
    &&& forall|k: int|
        0 <= k < d.variants@.len() && d.generics@.len() == 0 && (
        #[trigger] d.variants@[k]).has_discriminant && (forall|j: int|
            0 <= j < k ==> variant_ok(#[trigger] d.variants@[j]))
            ==> e == GenError::UnsupportedDiscriminant(k as usize)
    &&& forall|k: int|
        0 <= k < d.variants@.len() && d.generics@.len() == 0 && !(
        #[trigger] d.variants@[k]).has_discriminant && !variant_shape_ok(d.variants@[k]) && (
        forall|j: int| 0 <= j < k ==> variant_ok(#[trigger] d.variants@[j]))
            ==> e == GenError::UnsupportedShape(k as usize)
}

/// Validates a declaration and, when it is accepted, returns it rewritten
/// (each variant's field type replaced by a fresh generic parameter, the
/// parameter list extended accordingly) together with the variant table
/// holding the original payload types.
///
/// Rejection is exact: a pre-existing generic parameter list is refused
/// outright, and otherwise the first offending variant decides, its
/// discriminant being checked before its shape.
#[verifier::loop_isolation(false)]
pub fn build_variant_table(decl: EnumDecl) -> (r: Result<(EnumDecl, VariantTable), GenError>)
    ensures
        r is Ok <==> decl_ok(decl),
        r matches Err(e) ==> reports_first_offence(e, decl),
        r matches Ok(p) ==> (is_rewritten_decl(p.0, decl) && p.1.records@ == records_of(decl)),
{
    if decl.generics.len() > 0 {
        return Err(GenError::UnsupportedGenerics);
    }
    let ghost d0 = decl;
    let EnumDecl { name, generics: _, variants } = decl;
    let n = variants.len();
    let mut new_variants: Vec<VariantDecl> = Vec::new();
    let mut records: Vec<VariantRecord> = Vec::new();
    let mut new_generics: Vec<ParamRef> = Vec::new();
    let mut i: usize = 0;
    while i < n
        invariant
            n == d0.variants@.len(),
            variants@ == d0.variants@,
            name == d0.name,
            0 <= i <= n,
            forall|j: int| 0 <= j < i ==> variant_ok(#[trigger] d0.variants@[j]),
            records@.len() == i,
            forall|j: int| 0 <= j < i ==> #[trigger] records@[j] == records_of(d0)[j],
            new_generics@.len() == i,
            forall|j: int|
                0 <= j < i ==> #[trigger] new_generics@[j] == (ParamRef {
                    family: ParamFamily::Decl,
                    ordinal: j as usize,
                }),
            new_variants@.len() == i,
            forall|j: int|
                0 <= j < i ==> {
                    let v = #[trigger] new_variants@[j];
                    &&& v.tag == d0.variants@[j].tag
                    &&& !v.has_discriminant
                    &&& v.fields matches FieldsDecl::Unnamed(tys) && tys@.len() == 1 && tys@[0]
                        == TypeExpr::Param(
                        ParamRef { family: ParamFamily::Decl, ordinal: j as usize },
                    )
                },
        decreases n - i,
    {
        let v = &variants[i];
        if v.has_discriminant {
            return Err(GenError::UnsupportedDiscriminant(i));
        }
        let payload: TypeExpr = match &v.fields {
            FieldsDecl::Unnamed(tys) => {
                if tys.len() == 1 {
                    tys[0].clone()
                } else {
                    return Err(GenError::UnsupportedShape(i));
                }
            },
            _ => {
                return Err(GenError::UnsupportedShape(i));
            },
        };
        let param = make_generic_ident(ParamFamily::Decl, i);
        let mut field_tys: Vec<TypeExpr> = Vec::new();
        field_tys.push(make_generic_type(param));
        new_variants.push(
            VariantDecl { tag: v.tag.clone(), has_discriminant: false, fields: FieldsDecl::Unnamed(field_tys) },
        );
        records.push(VariantRecord { index: i, payload_type: payload, tag: v.tag.clone() });
        new_generics.push(param);
        i = i + 1;
    }
    Ok((EnumDecl { name, generics: new_generics, variants: new_variants }, VariantTable { records }))
}

} // verus!
