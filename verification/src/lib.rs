//! Approval client core: hybrid encryption of approval requests, the wire
//! codec for request and response bodies, and the decision logic of the
//! first-to-accept race across configured devices.

use vstd::prelude::*;

pub mod codec;
pub mod crypto;
pub mod protocol;
pub mod race;

verus! {

/// Ceiling on the serialized envelope, in bytes. Chosen well below a typical
/// 1500-byte link MTU so one request never fragments.
pub const ENVELOPE_CEILING: usize = 1200;

/// Capacity of the single-frame response buffer, in bytes.
pub const RESPONSE_CAPACITY: usize = 512;

/// Global deadline for the whole fan-out across devices, in seconds.
pub const GLOBAL_DEADLINE_SECS: u64 = 30;

/// Delay imposed before reporting a decrypt or parse failure, in seconds.
pub const FAILURE_DELAY_SECS: u64 = 3;

} // verus!
