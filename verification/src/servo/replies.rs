//! The typed replies the servo controller sends back, one per command.

use vstd::prelude::*;

use crate::client::Reply;

verus! {

/// Acknowledges a push into the pose buffer.
#[derive(Clone, Copy, Debug, PartialEq, Eq, Structural)]
pub struct PushIntoPoseBufferReply {}

impl Reply for PushIntoPoseBufferReply {

}

/// Acknowledges a buffer clear.
#[derive(Clone, Copy, Debug, PartialEq, Eq, Structural)]
pub struct ClearPoseBufferReply {}

impl Reply for ClearPoseBufferReply {

}

/// Answers a capacity query.
#[derive(Clone, Copy, Debug, PartialEq, Eq, Structural)]
pub struct GetPoseBufferCapacityReply {
    /// How many poses the buffer can hold.
    pub capacity: u64,
}

impl Reply for GetPoseBufferCapacityReply {

}

/// Answers a free-space query.
#[derive(Clone, Copy, Debug, PartialEq, Eq, Structural)]
pub struct GetPoseBufferAvailableSpaceReply {
    /// How many slots are free.
    pub available: u64,
}

impl Reply for GetPoseBufferAvailableSpaceReply {

}

} // verus!
