//! Storage for a one-shot computation: kept inline when its captured state is
//! small, boxed on the heap otherwise, and run at most once.

pub mod callback;
pub mod deferred;

pub use callback::Callback;
pub use deferred::{AlreadyInvoked, Deferred, InlineObject};
