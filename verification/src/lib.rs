//! A safe bridge between an embedding runtime and a host engine built
//! around hierarchical arena allocators ("memory contexts") and an abrupt,
//! destructor-skipping error signal.
//!
//! The bridge has three parts:
//! - a model of the host's arena hierarchy with validity tracking, scoped
//!   borrowing, and an active-arena register (`host`, `mem`, `owned`);
//! - an error bridge that intercepts the host's abrupt signal and re-raises
//!   it as a structured, catchable error, and converts an escaping
//!   structured error back into the host's signal losslessly (`bridge`);
//! - a typed codec between native values and the host's tagged binary
//!   value representation, with per-type tags and one-directional
//!   compatibility rules (`datum`, `codec`, `fcinfo`).

pub mod bridge;
pub mod codec;
pub mod datum;
pub mod fcinfo;
pub mod host;
pub mod iter;
pub mod mem;
pub mod owned;
