//! The events the servo controller broadcasts, each with its fixed event
//! code.

use vstd::prelude::*;

use crate::client::Event;
use crate::kinematics::KinematicState;
use crate::proto::EventCode;

verus! {

/// The code under which pose changes are broadcast.
pub const POSE_CHANGED_CODE: u32 = 0x00000000;

/// The code under which partial buffer drains are broadcast.
pub const POSE_BUFFER_DRAIN_CODE: u32 = 0x00000001;

/// The code under which buffer-empty notices are broadcast.
pub const POSE_BUFFER_EMPTY_CODE: u32 = 0x00000002;

/// The arm's pose changed: the current joint angles.
#[derive(Clone, Copy, Debug, PartialEq, Eq, Structural)]
pub struct PoseChangedEvent {
    /// The five joint angles, in microradians.
    pub angles: KinematicState,
}

impl Event for PoseChangedEvent {
    open spec fn spec_code(&self) -> EventCode {
        EventCode(POSE_CHANGED_CODE)
    }

    fn code(&self) -> (r: EventCode) {
        EventCode::new(POSE_CHANGED_CODE)
    }
}

/// The pose buffer freed some slots.
#[derive(Clone, Copy, Debug, PartialEq, Eq, Structural)]
pub struct PoseBufferDrainEvent {
    /// How many slots are free now.
    pub available: u64,
}

impl Event for PoseBufferDrainEvent {
    open spec fn spec_code(&self) -> EventCode {
        EventCode(POSE_BUFFER_DRAIN_CODE)
    }

    fn code(&self) -> (r: EventCode) {
        EventCode::new(POSE_BUFFER_DRAIN_CODE)
    }
}

/// The pose buffer became empty: the arm has caught up.
#[derive(Clone, Copy, Debug, PartialEq, Eq, Structural)]
pub struct PoseBufferEmptyEvent {}

impl Event for PoseBufferEmptyEvent {
    open spec fn spec_code(&self) -> EventCode {
        EventCode(POSE_BUFFER_EMPTY_CODE)
    }

    fn code(&self) -> (r: EventCode) {
        EventCode::new(POSE_BUFFER_EMPTY_CODE)
    }
}

} // verus!
