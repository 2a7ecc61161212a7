//! The library's model of the simulated world: an immutable point-in-time
//! snapshot of ball and per-agent kinematics, plus the control record injected
//! per agent and the setup commands a state initializer issues.
//!
//! Kinematic scalars are carried as raw 32-bit words (the bit pattern of the
//! simulator's single-precision values). The orchestrator never does
//! arithmetic on them: it copies, serializes and compares them bit for bit,
//! and the driving side converts at the boundary.

use vstd::prelude::*;

verus! {

/// A three-component kinematic vector, each scalar as a raw 32-bit word.
#[derive(Clone, Copy, PartialEq, Eq, Structural, Debug)]
pub struct Vec3 {
    pub x_bits: u32,
    pub y_bits: u32,
    pub z_bits: u32,
}

/// Ball kinematics: position, velocity, angular velocity.
#[derive(Clone, Copy, PartialEq, Eq, Structural, Debug)]
pub struct BallState {
    pub pos: Vec3,
    pub vel: Vec3,
    pub ang_vel: Vec3,
}

/// The team tag an agent carries in the roster.
#[derive(Clone, Copy, PartialEq, Eq, Structural, Debug)]
pub enum Team {
    Blue,
    Orange,
}

/// One agent of the roster: a stable numeric id, a team tag, and kinematics.
#[derive(Clone, Copy, PartialEq, Eq, Structural, Debug)]
pub struct CarData {
    pub id: u32,
    pub team: Team,
    pub pos: Vec3,
    pub vel: Vec3,
    pub ang_vel: Vec3,
}

/// An immutable point-in-time description of the simulated world: ball
/// kinematics, the ordered agent roster, a monotonically increasing tick
/// counter and the fixed tick rate (as a raw 32-bit word).
#[derive(Clone, Debug)]
pub struct GameSnapshot {
    pub tick_count: u64,
    pub tick_rate_bits: u32,
    pub ball: BallState,
    pub cars: Vec<CarData>,
}

impl GameSnapshot {
    /// The ordered roster of the snapshot.
    pub open spec fn roster(self) -> Seq<CarData> {
        self.cars@
    }

    /// How many agents the snapshot holds.
    pub fn num_cars(&self) -> (n: usize)
        ensures
            n == self.roster().len(),
    {
        self.cars.len()
    }

    /// A field-for-field copy of the snapshot.
    pub fn duplicate(&self) -> (r: GameSnapshot)
        ensures
            r.tick_count == self.tick_count,
            r.tick_rate_bits == self.tick_rate_bits,
            r.ball == self.ball,
            r.cars@ == self.cars@,
    {
        let mut cars: Vec<CarData> = Vec::new();
        let mut i: usize = 0;
        while i < self.cars.len()
            invariant
                i <= self.cars@.len(),
                cars@ == self.cars@.take(i as int),
            decreases self.cars@.len() - i,
        {
            cars.push(self.cars[i]);
            proof {
                assert(cars@ =~= self.cars@.take(i + 1));
            }
            i = i + 1;
        }
        proof {
            assert(self.cars@.take(self.cars@.len() as int) =~= self.cars@);
        }
        GameSnapshot {
            tick_count: self.tick_count,
            tick_rate_bits: self.tick_rate_bits,
            ball: self.ball,
            cars,
        }
    }
}

/// One control record, applied to a single agent for one environment step.
/// Analog axes are raw 32-bit words; the three buttons are booleans.
#[derive(Clone, Copy, PartialEq, Eq, Structural, Debug)]
pub struct CarControls {
    pub throttle_bits: u32,
    pub steer_bits: u32,
    pub pitch_bits: u32,
    pub yaw_bits: u32,
    pub roll_bits: u32,
    pub jump: bool,
    pub boost: bool,
    pub handbrake: bool,
}

/// One command a state initializer issues against the simulator before the
/// first snapshot of an episode is taken. The driving side applies them in
/// order.
#[derive(Clone, Debug)]
pub enum SetupCommand {
    /// Add an agent on the given team.
    AddCar(Team),
    /// Remove the agent with the given id.
    RemoveCar(u32),
    /// Overwrite the full world state with the given snapshot.
    SetState(GameSnapshot),
    /// Reset the tick counter to zero.
    ResetTickCount,
    /// Reposition everything to a kickoff, optionally seeded.
    RandomKickoff(Option<i32>),
}

/// What a state initializer sees of the simulator while it plans an episode's
/// initial world: the current roster size, and the commands issued so far.
pub struct SetupPlan {
    /// Roster size at the time the plan was opened; read-only to initializers.
    pub num_cars: usize,
    /// Commands to apply to the simulator, in order.
    pub commands: Vec<SetupCommand>,
}

impl SetupPlan {
    /// Open an empty plan against a simulator that currently holds `num_cars`
    /// agents.
    pub fn new(num_cars: usize) -> (p: SetupPlan)
        ensures
            p.num_cars == num_cars,
            p.commands@ == Seq::<SetupCommand>::empty(),
    {
        SetupPlan { num_cars, commands: Vec::new() }
    }

    /// Append one command to the plan.
    pub fn push(&mut self, cmd: SetupCommand)
        ensures
            final(self).num_cars == old(self).num_cars,
            final(self).commands@ == old(self).commands@.push(cmd),
    {
        self.commands.push(cmd);
    }
}

} // verus!
