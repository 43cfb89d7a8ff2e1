//! The most commonly used items of the crate, for a single import.

pub use crate::communication::Email;
pub use crate::financial::{Currency, Money};
pub use crate::result::{ValobsError, ValobsResult};
