//! Errors that carry two faces: a private chain of causes for operators and a
//! public value that maps to a response which is safe to show to a caller.
//!
//! Building a [`DetailedError`] yields, exactly once, the diagnostic
//! [`Record`] that describes it: severity, call site, the chain of causes and
//! any fields the caller attached. The library computes the record; handing
//! it to a log sink is left to the code around it.

pub mod chain;
pub mod container;
pub mod factory;
pub mod fields;
pub mod laws;
pub mod level;
pub mod meta;
pub mod record;

pub use chain::CauseChain;
pub use container::{DetailedError, ToResponse};
pub use factory::{detailed_error, e, w};
pub use fields::Fields;
pub use level::Level;
pub use meta::Meta;
pub use record::Record;
