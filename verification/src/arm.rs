//! The arm: its immutable parameters, its current joint state, and the
//! solver that moves it.

use vstd::prelude::*;

use crate::kinematics::solver::KinematicSolver;
use crate::kinematics::{KinematicError, KinematicParameters, KinematicState};
use crate::motion::player::MotionFailure;

verus! {

/// What can go wrong at the arm's level: a transport failure, a
/// kinematic failure, or an aborted motion.
#[derive(Clone, Copy, Debug, PartialEq, Eq, Structural)]
pub enum Error {
    /// The transport failed.
    Com(crate::error::Error),
    /// The kinematics failed.
    Kinematic(KinematicError),
    /// A motion was aborted; carries why.
    Motion(MotionFailure),
}

/// A five-joint arm: parameters, state, and its solver.
pub struct Arm<K> {
    kinematic_parameters: KinematicParameters,
    kinematic_state: KinematicState,
    kinematic_solver: K,
}

impl<K: KinematicSolver> Arm<K> {
    /// The arm's parameters, for contracts.
    pub closed spec fn spec_parameters(self) -> KinematicParameters {
        self.kinematic_parameters
    }

    /// The arm's state, for contracts.
    pub closed spec fn spec_state(self) -> KinematicState {
        self.kinematic_state
    }

    /// The arm's solver, for contracts.
    pub closed spec fn spec_solver(self) -> K {
        self.kinematic_solver
    }

    /// An arm from its parts.
    pub fn new(
        kinematic_parameters: KinematicParameters,
        kinematic_state: KinematicState,
        kinematic_solver: K,
    ) -> (r: Self)
        ensures
            r.spec_parameters() == kinematic_parameters,
            r.spec_state() == kinematic_state,
            r.spec_solver() == kinematic_solver,
    {
        Arm { kinematic_parameters, kinematic_state, kinematic_solver }
    }

    /// The arm's parameters.
    pub fn kinematic_parameters(&self) -> (r: &KinematicParameters)
        ensures
            r == self.spec_parameters(),
    {
        &self.kinematic_parameters
    }

    /// The arm's current joint state.
    pub fn kinematic_state(&self) -> (r: &KinematicState)
        ensures
            r == self.spec_state(),
    {
        &self.kinematic_state
    }

    /// The arm's solver.
    pub fn kinematic_solver(&self) -> (r: &K)
        ensures
            r == self.spec_solver(),
    {
        &self.kinematic_solver
    }

    /// Replace the arm's joint state, as the player does after each
    /// acknowledged push.
    pub fn set_kinematic_state(&mut self, state: KinematicState)
        ensures
            final(self).spec_state() == state,
            final(self).spec_parameters() == old(self).spec_parameters(),
            final(self).spec_solver() == old(self).spec_solver(),
    {
        self.kinematic_state = state;
    }
}

} // verus!
