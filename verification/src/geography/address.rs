//! A physical address.

use crate::geography::country::Country;
use vstd::prelude::*;

verus! {

/// A value object representing a physical address: the street, city,
/// state, postal code, and country that identify a location.
///
/// The fields are plain borrowed text; the country comes from the
/// closed [`Country`] enumeration. Two addresses are equal exactly
/// when every field is equal. International formats with other field
/// sets are out of scope; extend the struct to carry more detail.
#[derive(Debug, Clone, PartialEq, Eq)]
pub struct Address<'a> {
    /// The street name and number.
    pub street: &'a str,
    /// The city name.
    pub city: &'a str,
    /// The state, province, or region.
    pub state: &'a str,
    /// The postal code.
    pub postal_code: &'a str,
    /// The country.
    pub country: Country,
}

} // verus!
