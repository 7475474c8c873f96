//! The capability-trait surface: widening a union value to an instantiation
//! that allows more variants, narrowing it by removing one variant, and the
//! `extract` convenience that works both on a union value directly and lifted
//! through a `Result` whose error side is the union.

use vstd::prelude::*;

verus! {

/// The widening capability: `Self` can admit `T` as a further possibility.
///
/// `With` is the widened instantiation; `add_possibility` retypes a value
/// without changing which alternative it holds.
pub trait WithVariant<T>: Sized {
    type With;

    /// What `add_possibility` returns, as a mathematical value. Left
    /// unconstrained here; each implementation gives it its own meaning.
    open spec fn spec_add(self) -> Self::With {
        vstd::pervasive::arbitrary()
    }

    fn add_possibility(self) -> (r: Self::With)
        ensures
            r == self.spec_add(),
    ;
}

/// The narrowing capability: one variant of `Self`, with payload type `V`,
/// can be ruled out.
///
/// `Without` is the narrowed instantiation; `remove_possibility` either
/// succeeds with the value retyped, or fails with the extracted payload when
/// the value holds exactly the removed variant.
pub trait WithoutVariant<V>: Sized {
    type Without;

    /// What `remove_possibility` returns, as a mathematical value. Left
    /// unconstrained here; each implementation gives it its own meaning.
    open spec fn spec_remove(self) -> Result<Self::Without, V> {
        vstd::pervasive::arbitrary()
    }

    fn remove_possibility(self) -> (r: Result<Self::Without, V>)
        ensures
            r == self.spec_remove(),
    ;
}

/// Narrowing lifted through a `Result`: the success side passes through, the
/// error side is narrowed, and an extracted payload surfaces as the error.
impl<T, E, V> WithoutVariant<V> for Result<T, E> where E: WithoutVariant<V> {
    type Without = Result<T, <E as WithoutVariant<V>>::Without>;

    open spec fn spec_remove(self) -> Result<Self::Without, V> {
        match self {
            Ok(ok) => Ok(Ok(ok)),
            Err(err) => match err.spec_remove() {
                Ok(remaining_err) => Ok(Err(remaining_err)),
                Err(extracted) => Err(extracted),
            },
        }
    }

    fn remove_possibility(self) -> (r: Result<Self::Without, V>) {
        match self {
            Ok(ok) => Ok(Ok(ok)),
            Err(err) => match err.remove_possibility() {
                Ok(remaining_err) => Ok(Err(remaining_err)),
                Err(extracted) => Err(extracted),
            },
        }
    }
}

/// The `extract` convenience method, available on anything that can be
/// narrowed: it is narrowing under a different name.
pub trait Extract: Sized {
    fn extract<V>(self) -> (r: Result<<Self as WithoutVariant<V>>::Without, V>) where
        Self: WithoutVariant<V>,

        ensures
            r == self.spec_remove(),
    ;
}

impl<T> Extract for T {
    fn extract<V>(self) -> (r: Result<<Self as WithoutVariant<V>>::Without, V>) where
        T: WithoutVariant<V>,
    {
        self.remove_possibility()
    }
}

} // verus!
