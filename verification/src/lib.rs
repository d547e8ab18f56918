//! Data-availability summaries and response envelopes of a storage service.
//!
//! A peer advertises the contiguous ranges of ledger data it holds, decides
//! from them whether it can answer a request, and wraps what it answers in an
//! envelope that is either raw or compressed.

pub mod error;
pub mod extraction;
pub mod numeric;
pub mod payloads;
pub mod range;
pub mod requests;
pub mod responses;
pub mod summary;

use vstd::prelude::*;

verus! {

/// A ledger version.
pub type Version = u64;

/// An epoch number.
pub type Epoch = u64;

} // verus!
