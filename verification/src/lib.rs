//! An adapter that lets containers take their storage from the reference-counted
//! allocator of libre.
//!
//! The adapter owns no memory and keeps no state. Each operation does two things: it
//! names the one foreign call that serves a request, and it turns the address that the
//! call returned into a typed result. Making the call is left to the caller, who hands
//! back what came of it.

pub mod adapter;
pub mod error;
pub mod foreign;
pub mod laws;
pub mod layout;
pub mod model;

pub use adapter::{print_debug, settle, settle_excess, LibreAlloc};
pub use error::{Abort, AllocErr, CannotReallocInPlace, Excess};
pub use foreign::{ForeignCall, Handle, Step};
pub use layout::Layout;
