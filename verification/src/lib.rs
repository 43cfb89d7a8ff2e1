//! Immutable, self-validating domain value types.
//!
//! Every value type in this crate is constructed through a validating
//! factory that either returns a well-formed value or a typed failure;
//! no partially-valid value can ever exist. The centre of the crate is
//! the monetary value engine: [`financial::Money`], its arithmetic, and
//! its two allocation algorithms.

pub mod communication;
pub mod financial;
pub mod geography;
pub mod prelude;
pub mod result;
pub mod traits;
