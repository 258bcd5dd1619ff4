//! A type-level guard against accidental disclosure of sensitive values.
//!
//! [`wrapper::Secret`] holds a single plaintext value of any caller-chosen
//! type. Comparisons and hashing pass through to the plaintext, so a secret
//! can serve as a map or sort key, while every human-readable rendering is the
//! fixed placeholder `<hidden>`. The [`codec`] module adds structured
//! encoding: redacted by default, transparent on decode, and revealing the
//! plaintext only through an explicitly named function.

pub mod codec;
pub mod wrapper;

pub use codec::insecure_serialize;
pub use wrapper::Secret;
