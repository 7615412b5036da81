//! A DOM-style exception value: an immutable `(name, message)` record with a
//! derived legacy numeric code, together with the registry of recognized
//! error names, their canonical labels, default messages, and the frozen
//! prefix of legacy codes.

pub mod error_name;
pub mod exception;
pub mod strcmp;

pub use error_name::DOMErrorName;
pub use exception::DOMException;
