//! A verified model of an "open sum type" generator: it turns a tagged-union
//! declaration into a generic union indexed by which variants are statically
//! possible, together with the capability-trait implementations that widen,
//! narrow and construct such unions, a notation construct that names the
//! union holding exactly a given list of payload types, and the evaluator
//! that resolves such a list to a concrete instantiation.
//!
//! The pieces, leaves first: [`ast`] holds the structured declaration and the
//! type expressions the generator writes; [`table`] validates a declaration
//! and builds the ordered variant table while rewriting the declaration's
//! payload types into fresh parameters; [`generate`] describes, per table
//! entry, the widening, narrowing and conversion implementations, the upcast
//! method and the notation macro; [`resolve`] folds the widening capability
//! over a use-site's type list and proves that resolution is order
//! independent, idempotent, and rejects exactly the undeclared types;
//! [`value`] gives the generated artifacts their runtime meaning on union
//! values; and [`capability`] is the trait surface the generated code
//! implements.

pub mod ast;
pub mod capability;
pub mod generate;
pub mod resolve;
pub mod table;
pub mod value;

pub use capability::Extract;
pub use capability::WithVariant;
pub use capability::WithoutVariant;
