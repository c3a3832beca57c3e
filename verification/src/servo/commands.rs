//! The typed commands the client sends to the servo controller: the pose
//! buffer vocabulary, each with its fixed command code.

use vstd::prelude::*;

use crate::client::Command;
use crate::kinematics::KinematicState;
use crate::proto::CommandCode;

verus! {

/// Push one pose into the servo's pose buffer.
#[derive(Clone, Copy, Debug, PartialEq, Eq, Structural)]
pub struct PushIntoPoseBufferCommand {
    /// The five target joint angles, in microradians.
    pub angles: KinematicState,
    /// The interpolation time for this pose, in microseconds.
    pub duration_us: i64,
}

impl PushIntoPoseBufferCommand {
    /// A push command from its pose.
    pub fn new(angles: KinematicState, duration_us: i64) -> (r: Self)
        ensures
            r.angles == angles,
            r.duration_us == duration_us,
    {
        PushIntoPoseBufferCommand { angles, duration_us }
    }
}

impl Command for PushIntoPoseBufferCommand {
    open spec fn spec_code(&self) -> CommandCode {
        CommandCode(0x00000100)
    }

    fn code(&self) -> (r: CommandCode) {
        CommandCode::new(0x00000100)
    }
}

/// Drop every pose still waiting in the servo's pose buffer.
#[derive(Clone, Copy, Debug, PartialEq, Eq, Structural)]
pub struct ClearPoseBufferCommand {}

impl ClearPoseBufferCommand {
    /// The clear command.
    pub fn new() -> (r: Self) {
        ClearPoseBufferCommand {  }
    }
}

impl Command for ClearPoseBufferCommand {
    open spec fn spec_code(&self) -> CommandCode {
        CommandCode(0x00000101)
    }

    fn code(&self) -> (r: CommandCode) {
        CommandCode::new(0x00000101)
    }
}

/// Ask how many poses the servo's pose buffer can hold.
#[derive(Clone, Copy, Debug, PartialEq, Eq, Structural)]
pub struct GetPoseBufferCapacityCommand {}

impl GetPoseBufferCapacityCommand {
    /// The capacity query.
    pub fn new() -> (r: Self) {
        GetPoseBufferCapacityCommand {  }
    }
}

impl Command for GetPoseBufferCapacityCommand {
    open spec fn spec_code(&self) -> CommandCode {
        CommandCode(0x00000102)
    }

    fn code(&self) -> (r: CommandCode) {
        CommandCode::new(0x00000102)
    }
}

/// Ask how many free slots the servo's pose buffer has right now.
#[derive(Clone, Copy, Debug, PartialEq, Eq, Structural)]
pub struct GetPoseBufferAvailableSpaceCommand {}

impl GetPoseBufferAvailableSpaceCommand {
    /// The free-space query.
    pub fn new() -> (r: Self) {
        GetPoseBufferAvailableSpaceCommand {  }
    }
}

impl Command for GetPoseBufferAvailableSpaceCommand {
    open spec fn spec_code(&self) -> CommandCode {
        CommandCode(0x00000103)
    }

    fn code(&self) -> (r: CommandCode) {
        CommandCode::new(0x00000103)
    }
}

} // verus!
