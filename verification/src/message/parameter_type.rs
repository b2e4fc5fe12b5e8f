//! The types of message parameters.

use vstd::prelude::*;

verus! {

/// How long an object may take to arrive.
pub const DELIVERY_TIMEOUT: u64 = 0x02;

/// When a subscription or namespace expires.
pub const EXPIRES: u64 = 0x08;

/// The location of the largest object of a track.
pub const LARGEST_OBJECT: u64 = 0x09;

/// Whether objects are to be forwarded.
pub const FORWARD: u64 = 0x10;

/// The subscriber's priority.
pub const SUBSCRIBER_PRIORITY: u64 = 0x20;

/// Which objects of a track a subscriber wants.
pub const SUBSCRIPTION_FILTER: u64 = 0x21;

/// The order in which a subscriber wants groups.
pub const GROUP_ORDER: u64 = 0x22;

} // verus!
