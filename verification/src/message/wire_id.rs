//! The types of the messages that answer or follow a request on its stream.

#![allow(non_upper_case_globals)]

use vstd::prelude::*;

verus! {

pub const RequestUpdate: u64 = 0x02;

pub const SubscribeOk: u64 = 0x04;

pub const RequestError: u64 = 0x05;

pub const RequestOk: u64 = 0x07;

pub const PublishDone: u64 = 0x0b;

pub const FetchOk: u64 = 0x18;

} // verus!
