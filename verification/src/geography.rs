//! Geographical value objects.

mod address;
mod continent;
mod country;

pub use address::Address;
pub use continent::Continent;
pub use country::Country;
