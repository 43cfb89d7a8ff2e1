//! Monetary value objects: a closed currency enumeration and the
//! [`Money`] type with its arithmetic and allocation operations.

mod currency;
mod money;

pub use currency::Currency;
pub use money::{Money, MoneyAmount, MoneyRecord};
