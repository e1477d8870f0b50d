//! The decisions of a small HTTP relay: which outbound call answers an inbound
//! request, how the upstream's reply is judged, and what goes back to the caller.
//!
//! The crate performs no I/O. A server hands it plain values (the routed request,
//! what came back from the upstream) and carries out what it returns.

use vstd::prelude::*;

pub mod decimal;
pub mod records;
pub mod exchange;
pub mod response;
pub mod cat_fact;
pub mod posts;

verus! {

/// The address on which a server listens unless it is told otherwise.
pub const LISTEN_ADDR: &'static str = "127.0.0.1:3000";

} // verus!
