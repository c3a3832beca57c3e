//! Desktop-side control library for a five-joint articulated robotic arm.
//!
//! The library covers the pure, machine-checkable core of the controller:
//! the wire codec for the tagged request/reply/event protocol, the
//! subscriber registry that correlates replies and fans out events, tag and
//! subscriber-id allocation, the fixed-point kinematics model with the
//! heuristic inverse-kinematics solver, motion curves, and the
//! flow-controlled motion-player state machine.
//!
//! All geometry is carried in fixed-point units: positions in micrometers,
//! joint angles in microradians, times in microseconds and speeds in
//! micrometers per second. The asynchronous shell (sockets, queues,
//! notifiers) lives outside this crate and hands plain values in and out.

pub mod arm;
pub mod client;
pub mod codec;
pub mod error;
pub mod frontend;
pub mod kinematics;
pub mod motion;
pub mod proto;
pub mod registry;
pub mod servo;
