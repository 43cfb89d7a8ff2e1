//! Contact-identifier value objects.

mod email;

pub use email::{Email, EmailError};
