//! The structured form of a tagged-union declaration as the generator reads
//! it, and the type expressions the generator writes: the uninhabited
//! placeholder, references to minted generic parameters, and source-level
//! types carried through as opaque text.

use vstd::prelude::*;

verus! {

/// The family a minted generic parameter belongs to.
///
/// Fresh parameter names are derived from a family prefix plus an ordinal,
/// so names minted at distinct positions never collide.
#[derive(Clone, Copy, PartialEq, Eq, Structural, Debug)]
pub enum ParamFamily {
    /// Parameters appended to the rewritten declaration itself.
    Decl,
    /// The upcast method's source-side parameters.
    Old,
    /// The upcast method's target-side parameters.
    New,
}

/// A minted generic parameter: a family prefix plus a 0-based ordinal.
#[derive(Clone, Copy, PartialEq, Eq, Structural, Debug)]
pub struct ParamRef {
    pub family: ParamFamily,
    pub ordinal: usize,
}

/// A type expression as the generator manipulates it.
#[derive(Debug, PartialEq, Eq)]
pub enum TypeExpr {
    /// The uninhabited placeholder: no value of this type exists, so the
    /// variant position holding it is statically excluded.
    Never,
    /// A reference to a minted generic parameter.
    Param(ParamRef),
    /// A source-level type, opaque to the generator, carried as its text.
    Source(String),
}

/// The mathematical value of a [`TypeExpr`]: source-level types are compared
/// by their text, so two expressions denote the same type exactly when their
/// views are equal.
pub enum TypeExprView {
    Never,
    Param(ParamRef),
    Source(Seq<char>),
}

impl View for TypeExpr {
    type V = TypeExprView;

    open spec fn view(&self) -> TypeExprView {
        match self {
            TypeExpr::Never => TypeExprView::Never,
            TypeExpr::Param(p) => TypeExprView::Param(*p),
            TypeExpr::Source(s) => TypeExprView::Source(s@),
        }
    }
}

impl Clone for TypeExpr {
    fn clone(&self) -> (res: Self)
        ensures
            res == self,
    {
        match self {
            TypeExpr::Never => TypeExpr::Never,
            TypeExpr::Param(p) => TypeExpr::Param(*p),
            TypeExpr::Source(s) => TypeExpr::Source(s.clone()),
        }
    }
}

impl TypeExpr {
    /// Decides whether two type expressions denote the same type.
    pub fn same_type(&self, other: &TypeExpr) -> (r: bool)
        ensures
            r == (self@ == other@),
    {
        match self {
            TypeExpr::Never => match other {
                TypeExpr::Never => true,
                _ => false,
            },
            TypeExpr::Param(p) => match other {
                TypeExpr::Param(q) => {
                    let fam_eq = match p.family {
                        ParamFamily::Decl => matches!(q.family, ParamFamily::Decl),
                        ParamFamily::Old => matches!(q.family, ParamFamily::Old),
                        ParamFamily::New => matches!(q.family, ParamFamily::New),
                    };
                    fam_eq && p.ordinal == q.ordinal
                },
                _ => false,
            },
            TypeExpr::Source(s) => match other {
                TypeExpr::Source(t) => s.eq(t),
                _ => false,
            },
        }
    }
}

/// The views of a sequence of type expressions, position by position.
pub open spec fn type_views(s: Seq<TypeExpr>) -> Seq<TypeExprView> {
    s.map_values(|t: TypeExpr| t@)
}

/// The field list of one declared variant.
#[derive(Debug, PartialEq, Eq)]
pub enum FieldsDecl {
    /// No fields at all.
    Unit,
    /// Named (struct-like) fields, recorded by their count.
    Named(usize),
    /// Unnamed (tuple-like) fields, each carrying just a type.
    Unnamed(Vec<TypeExpr>),
}

/// One variant of the declaration: its tag, whether an explicit discriminant
/// was written, and its fields.
#[derive(Debug, PartialEq, Eq)]
pub struct VariantDecl {
    pub tag: String,
    pub has_discriminant: bool,
    pub fields: FieldsDecl,
}

/// A tagged-union declaration as handed in by the parsing collaborator:
/// a name, a generic-parameter list (which must be empty on input; the
/// generator owns parametrization), and the variants in source order.
#[derive(Debug, PartialEq, Eq)]
pub struct EnumDecl {
    pub name: String,
    pub generics: Vec<ParamRef>,
    pub variants: Vec<VariantDecl>,
}

/// A concrete instantiation type of a generated union: the union's name
/// applied to one type argument per variant position.
#[derive(Debug, PartialEq, Eq)]
pub struct UnionType {
    pub name: String,
    pub args: Vec<TypeExpr>,
}

/// Mints the generic parameter of a family at a given position.
pub fn make_generic_ident(family: ParamFamily, idx: usize) -> (p: ParamRef)
    ensures
        p == (ParamRef { family, ordinal: idx }),
{
    ParamRef { family, ordinal: idx }
}

/// Mints the generic parameters of a family over a range of positions.
pub fn make_generic_idents(family: ParamFamily, start: usize, end: usize) -> (ps: Vec<ParamRef>)
    requires
        start <= end,
    ensures
        ps@.len() == end - start,
        forall|k: int|
            0 <= k < ps@.len() ==> ps@[k] == (ParamRef { family, ordinal: (start + k) as usize }),
{
    let mut ps: Vec<ParamRef> = Vec::new();
    let mut i: usize = start;
    while i < end
        invariant
            start <= i <= end,
            ps@.len() == i - start,
            forall|k: int|
                0 <= k < ps@.len() ==> ps@[k] == (ParamRef {
                    family,
                    ordinal: (start + k) as usize,
                }),
        decreases end - i,
    {
        ps.push(make_generic_ident(family, i));
        i = i + 1;
    }
    ps
}

/// The type expression referring to a minted generic parameter.
pub fn make_generic_type(p: ParamRef) -> (t: TypeExpr)
    ensures
        t == TypeExpr::Param(p),
{
    TypeExpr::Param(p)
}

/// The uninhabited placeholder type, the sentinel for "this variant is
/// statically excluded".
pub fn make_never() -> (t: TypeExpr)
    ensures
        t == TypeExpr::Never,
{
    TypeExpr::Never
}

} // verus!
