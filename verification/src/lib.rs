//! Failures of a key-value command, how each is rendered for logs, and the
//! status that a client receives for it.

pub mod decimal;
pub mod error;
pub mod status;
pub mod text;
pub mod validation;

pub use error::ExecuteError;
pub use status::WireStatus;
pub use validation::ValidationError;
