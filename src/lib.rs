//! A non-blocking bridge between an asynchronous messaging client and a
//! single-threaded host that polls for work: the inbound event mailbox, the
//! correlation cache for send results, the connection lifecycle and the
//! command dispatcher, each with its contract.
use vstd::prelude::*;

pub mod cache;
pub mod dispatch;
pub mod event;
pub mod guard;
pub mod ids;
pub mod lifecycle;
pub mod mailbox;
pub mod payload;

verus! {

} // verus!
