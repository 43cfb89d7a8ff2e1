//! The capability contract every validated domain value type provides.

use crate::result::ValobsResult;
use vstd::prelude::*;

verus! {

/// Validation at construction: a single factory that returns a
/// well-formed value or a typed failure, never a partially-valid
/// instance.
pub trait ValobsValidate: Sized {
    /// The raw data the factory validates.
    type Target;

    /// Whether the factory accepts this raw data.
    spec fn spec_accepts(target: &Self::Target) -> bool;

    /// Whether `v` is the value the factory builds from `target`.
    spec fn spec_builds(target: &Self::Target, v: &Self) -> bool;

    /// Validate raw data into a value: succeeds exactly on accepted
    /// data, and only ever yields the value built from that data.
    fn validate(target: Self::Target) -> (r: ValobsResult<Self>)
        ensures
            r is Ok <==> Self::spec_accepts(&target),
            r matches Ok(v) ==> Self::spec_builds(&target, &v),
    ;
}

/// The full value-object contract: validation at construction
/// ([`ValobsValidate`]), structural equality, and a serialized form
/// that round-trips to an equal value. Equality comes from each type's
/// `PartialEq`; the serialized form and its round-trip law live with
/// the type (for `Money`, the wire record and
/// `Money::lemma_record_round_trip`).
pub trait ValueObject: ValobsValidate {

}

} // verus!
