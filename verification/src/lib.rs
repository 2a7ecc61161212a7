//! A reinforcement-learning environment harness: an orchestrator that drives a
//! physics simulator through a strict reset/step lifecycle around a pipeline
//! of pluggable behaviours (state initialization, shared-context upkeep,
//! observation building, action decoding, reward shaping, termination and
//! truncation), plus a datagram render bridge that mirrors snapshots to an
//! external viewer and takes back override, pause and speed commands.
//!
//! The simulator itself and the transport are external collaborators: the
//! driving loop owns them, applies the setup commands and decoded controls
//! this library hands out, and feeds freshly read snapshots and received
//! packets back in. Everything the library decides — sequencing, positional
//! action mapping, the packet protocol, the wire form of a snapshot — is
//! specified and verified here.

pub mod codec;
pub mod render;
pub mod reward;
pub mod speed;
pub mod state;

use vstd::prelude::*;
use crate::render::{tag_byte_spec, InboundAction, PacketTag, RenderSession};
use crate::state::{CarControls, GameSnapshot, SetupPlan};

verus! {

/// One feature vector per agent, in roster order. Features are carried as
/// raw 32-bit words; the learning side interprets them.
pub type FullObs = Vec<Vec<u32>>;

/// What one environment step returns: the new observations, one reward per
/// agent in roster order, the two independent episode-boundary flags, and
/// the new snapshot.
pub struct StepResult {
    pub obs: FullObs,
    pub rewards: Vec<i64>,
    pub is_terminal: bool,
    pub truncated: bool,
    pub state: GameSnapshot,
}

/// Keeps an opaque, episode-scoped context in sync with the simulation,
/// independent of observation building.
pub trait SharedInfoProvider<SI>: Sized {
    /// What `reset` does to the provider and the context.
    spec fn reset_spec(self, state: GameSnapshot, si: SI) -> (Self, SI);

    /// What `apply` does to the provider and the context.
    spec fn apply_spec(self, state: GameSnapshot, si: SI) -> (Self, SI);

    /// Called once per episode against the initial snapshot.
    fn reset(&mut self, initial_state: &GameSnapshot, shared_info: &mut SI)
        ensures
            (*final(self), *final(shared_info)) == old(self).reset_spec(
                *initial_state,
                *old(shared_info),
            ),
    ;

    /// Called once per step against the new snapshot, before any consumer
    /// of the context runs.
    fn apply(&mut self, game_state: &GameSnapshot, shared_info: &mut SI)
        ensures
            (*final(self), *final(shared_info)) == old(self).apply_spec(
                *game_state,
                *old(shared_info),
            ),
    ;
}

/// Plans the initial world of an episode. The issued commands are applied to
/// the simulator, in order, by the driving loop before the episode's first
/// snapshot is taken.
pub trait StateSetter<SI>: Sized {
    /// What `apply` does: the commands issued, and the new setter and
    /// context, as a function of the current roster size and the context.
    spec fn apply_spec(self, num_cars: usize, si: SI) -> (
        Self,
        Seq<crate::state::SetupCommand>,
        SI,
    );

    /// Issue this episode's setup commands into the plan.
    fn apply(&mut self, plan: &mut SetupPlan, shared_info: &mut SI)
        ensures
            ({
                let (s2, cmds, si2) = old(self).apply_spec(
                    old(plan).num_cars,
                    *old(shared_info),
                );
                &&& *final(self) == s2
                &&& *final(shared_info) == si2
                &&& final(plan).commands@ == old(plan).commands@ + cmds
                &&& final(plan).num_cars == old(plan).num_cars
            }),
    ;
}

/// Builds one feature vector per agent from a snapshot. The declared
/// observation space is a property of the builder's configuration alone and
/// is stable across calls; every built vector has exactly that length.
pub trait Obs<SI>: Sized {
    /// The declared observation-space size for an agent.
    spec fn obs_space_spec(self, agent_id: u32) -> usize;

    /// What `reset` does to the builder and the context.
    spec fn reset_spec(self, state: GameSnapshot, si: SI) -> (Self, SI);

    /// What `build_obs` does: the new builder and context, and one feature
    /// sequence per agent in roster order.
    spec fn build_obs_spec(self, state: GameSnapshot, si: SI) -> (Self, SI, Seq<Seq<u32>>);

    /// The declared observation-space size for an agent.
    fn get_obs_space(&self, agent_id: u32, shared_info: &SI) -> (r: usize)
        ensures
            r == self.obs_space_spec(agent_id),
    ;

    /// Called once per episode against the initial snapshot.
    fn reset(&mut self, initial_state: &GameSnapshot, shared_info: &mut SI)
        ensures
            (*final(self), *final(shared_info)) == old(self).reset_spec(
                *initial_state,
                *old(shared_info),
            ),
            forall|id: u32|
                #[trigger] final(self).obs_space_spec(id) == old(self).obs_space_spec(id),
    ;

    /// Build the observation set: one vector per agent, in roster order,
    /// each of exactly the declared length for that agent.
    fn build_obs(&mut self, state: &GameSnapshot, shared_info: &mut SI) -> (obs: FullObs)
        ensures
            ({
                let (s2, si2, o) = old(self).build_obs_spec(*state, *old(shared_info));
                &&& *final(self) == s2
                &&& *final(shared_info) == si2
                &&& obs.deep_view() == o
            }),
            obs@.len() == state.cars@.len(),
            forall|i: int|
                0 <= i < obs@.len() ==> (#[trigger] obs@[i])@.len() == final(self).obs_space_spec(state.cars@[i].id),
            forall|id: u32|
                #[trigger] final(self).obs_space_spec(id) == old(self).obs_space_spec(id),
    ;
}

/// Decodes raw per-agent input into one control record per agent,
/// positionally aligned to the roster of the snapshot given at decode time.
/// The tick-skip is a property of the decoder type, fixing the ratio of
/// simulated time per environment step for the whole environment.
pub trait Action<SI>: Sized {
    /// The raw input one step consumes.
    type Input;

    /// The fixed number of simulator ticks advanced per step.
    spec fn tick_skip_spec() -> u32;

    /// The declared action-space size for an agent.
    spec fn action_space_spec(self, agent_id: u32) -> usize;

    /// What `reset` does to the decoder and the context.
    spec fn reset_spec(self, state: GameSnapshot, si: SI) -> (Self, SI);

    /// What `parse_actions` does: the new decoder and context, and one
    /// control record per agent of the given snapshot, in roster order.
    spec fn parse_spec(self, actions: Self::Input, state: GameSnapshot, si: SI) -> (
        Self,
        SI,
        Seq<CarControls>,
    );

    /// The fixed number of simulator ticks advanced per step.
    fn get_tick_skip() -> (r: u32)
        ensures
            r == Self::tick_skip_spec(),
    ;

    /// The declared action-space size for an agent.
    fn get_action_space(&self, agent_id: u32, shared_info: &SI) -> (r: usize)
        ensures
            r == self.action_space_spec(agent_id),
    ;

    /// Called once per episode against the initial snapshot.
    fn reset(&mut self, initial_state: &GameSnapshot, shared_info: &mut SI)
        ensures
            (*final(self), *final(shared_info)) == old(self).reset_spec(
                *initial_state,
                *old(shared_info),
            ),
    ;

    /// Decode a raw batch into controls, one per agent, in roster order.
    fn parse_actions(
        &mut self,
        actions: Self::Input,
        state: &GameSnapshot,
        shared_info: &mut SI,
    ) -> (controls: Vec<CarControls>)
        ensures
            ({
                let (s2, si2, cs) = old(self).parse_spec(actions, *state, *old(shared_info));
                &&& *final(self) == s2
                &&& *final(shared_info) == si2
                &&& controls@ == cs
            }),
            controls@.len() == state.cars@.len(),
    ;
}

/// Computes one reward per agent from a snapshot, in roster order.
pub trait Reward<SI>: Sized {
    /// What `reset` does to the computer and the context.
    spec fn reset_spec(self, state: GameSnapshot, si: SI) -> (Self, SI);

    /// What `get_rewards` does: the new computer and context, and one reward
    /// per agent in roster order.
    spec fn rewards_spec(self, state: GameSnapshot, si: SI) -> (Self, SI, Seq<i64>);

    /// Called once per episode against the initial snapshot.
    fn reset(&mut self, initial_state: &GameSnapshot, shared_info: &mut SI)
        ensures
            (*final(self), *final(shared_info)) == old(self).reset_spec(
                *initial_state,
                *old(shared_info),
            ),
    ;

    /// Compute the rewards: one per agent, in roster order.
    fn get_rewards(&mut self, state: &GameSnapshot, shared_info: &mut SI) -> (rewards: Vec<
        i64,
    >)
        ensures
            ({
                let (s2, si2, rs) = old(self).rewards_spec(*state, *old(shared_info));
                &&& *final(self) == s2
                &&& *final(shared_info) == si2
                &&& rewards@ == rs
            }),
            rewards@.len() == state.cars@.len(),
    ;
}

/// Signals the intrinsic end of an episode (a natural end inside the
/// simulation).
pub trait Terminal<SI>: Sized {
    /// What `reset` does to the detector and the context.
    spec fn reset_spec(self, state: GameSnapshot, si: SI) -> (Self, SI);

    /// What `is_terminal` does and decides.
    spec fn terminal_spec(self, state: GameSnapshot, si: SI) -> (Self, SI, bool);

    /// Called once per episode against the initial snapshot.
    fn reset(&mut self, initial_state: &GameSnapshot, shared_info: &mut SI)
        ensures
            (*final(self), *final(shared_info)) == old(self).reset_spec(
                *initial_state,
                *old(shared_info),
            ),
    ;

    /// Decide whether the episode reached a natural end.
    fn is_terminal(&mut self, state: &GameSnapshot, shared_info: &mut SI) -> (r: bool)
        ensures
            ({
                let (s2, si2, b) = old(self).terminal_spec(*state, *old(shared_info));
                &&& *final(self) == s2
                &&& *final(shared_info) == si2
                &&& r == b
            }),
    ;
}

/// Signals an extrinsic episode cutoff, independent of termination.
pub trait Truncate<SI>: Sized {
    /// What `reset` does to the detector and the context.
    spec fn reset_spec(self, state: GameSnapshot, si: SI) -> (Self, SI);

    /// What `should_truncate` does and decides.
    spec fn truncate_spec(self, state: GameSnapshot, si: SI) -> (Self, SI, bool);

    /// Called once per episode against the initial snapshot.
    fn reset(&mut self, initial_state: &GameSnapshot, shared_info: &mut SI)
        ensures
            (*final(self), *final(shared_info)) == old(self).reset_spec(
                *initial_state,
                *old(shared_info),
            ),
    ;

    /// Decide whether the episode is cut off externally.
    fn should_truncate(&mut self, state: &GameSnapshot, shared_info: &mut SI) -> (r: bool)
        ensures
            ({
                let (s2, si2, b) = old(self).truncate_spec(*state, *old(shared_info));
                &&& *final(self) == s2
                &&& *final(shared_info) == si2
                &&& r == b
            }),
    ;
}

/// Where the orchestrator stands in its lifecycle. Stepping demands a
/// completed reset; the machine loops through `Ready` thereafter.
#[derive(Clone, Copy, PartialEq, Eq, Structural, Debug)]
pub enum EnvPhase {
    /// No episode was ever started: stepping is forbidden.
    Unstarted,
    /// Setup commands were handed out; the initial snapshot is awaited.
    ResetPending,
    /// An episode is live; actions may be decoded.
    Ready,
    /// Controls were handed out; the post-step snapshot is awaited.
    StepPending,
}

/// The environment orchestrator: composes the seven pipeline behaviours and
/// the optional render session, owns the shared context and the last
/// snapshot, and sequences every episode through the reset/step machine.
///
/// The simulator is driven outside: `prepare_reset` and `prepare_step` hand
/// out what must be applied to it (setup commands; controls with the ticks
/// to advance), and `reset` and `step` take the snapshot read back.
pub struct Env<SS, SIP, OBS, ACT, REW, TERM, TRUNC, SI> where
    SS: StateSetter<SI>,
    SIP: SharedInfoProvider<SI>,
    OBS: Obs<SI>,
    ACT: Action<SI>,
    REW: Reward<SI>,
    TERM: Terminal<SI>,
    TRUNC: Truncate<SI>,
 {
    pub state_setter: SS,
    pub shared_info_provider: SIP,
    pub observations: OBS,
    pub action: ACT,
    pub reward: REW,
    pub terminal: TERM,
    pub truncate: TRUNC,
    pub shared_info: SI,
    pub tick_skip: u32,
    pub last_state: Option<GameSnapshot>,
    pub renderer: Option<RenderSession>,
    pub phase: Ghost<EnvPhase>,
}

impl<SS, SIP, OBS, ACT, REW, TERM, TRUNC, SI> Env<SS, SIP, OBS, ACT, REW, TERM, TRUNC, SI> where
    SS: StateSetter<SI>,
    SIP: SharedInfoProvider<SI>,
    OBS: Obs<SI>,
    ACT: Action<SI>,
    REW: Reward<SI>,
    TERM: Terminal<SI>,
    TRUNC: Truncate<SI>,
 {
    /// The orchestrator's invariant: a live episode has a stored snapshot,
    /// the tick-skip is the decoder type's, and an attached render session
    /// is well-formed, open, and bound to the same tick-skip.
    pub open spec fn wf(self) -> bool {
        &&& ((self.phase@ == EnvPhase::Ready || self.phase@ == EnvPhase::StepPending)
            ==> self.last_state is Some)
        &&& self.tick_skip == ACT::tick_skip_spec()
        &&& (self.renderer is Some ==> {
            &&& self.renderer->0.wf()
            &&& !self.renderer->0.closed
            &&& self.renderer->0.tick_skip == self.tick_skip
        })
    }

    /// Compose an environment. No episode is live yet: `prepare_step` is
    /// forbidden until a reset completes.
    pub fn new(
        state_setter: SS,
        shared_info_provider: SIP,
        observations: OBS,
        action: ACT,
        reward: REW,
        terminal: TERM,
        truncate: TRUNC,
        shared_info: SI,
    ) -> (env: Self)
        ensures
            env.wf(),
            env.phase@ == EnvPhase::Unstarted,
            env.state_setter == state_setter,
            env.shared_info_provider == shared_info_provider,
            env.observations == observations,
            env.action == action,
            env.reward == reward,
            env.terminal == terminal,
            env.truncate == truncate,
            env.shared_info == shared_info,
            env.tick_skip == ACT::tick_skip_spec(),
            env.last_state is None,
            env.renderer is None,
    {
        Env {
            state_setter,
            shared_info_provider,
            observations,
            action,
            reward,
            terminal,
            truncate,
            shared_info,
            tick_skip: ACT::get_tick_skip(),
            last_state: None,
            renderer: None,
            phase: Ghost(EnvPhase::Unstarted),
        }
    }

    /// Begin an episode: run the state setter and hand out the setup
    /// commands the driving loop must apply to the simulator, in order,
    /// before reading the initial snapshot and completing with `reset`.
    pub fn prepare_reset(&mut self, num_cars: usize) -> (plan: SetupPlan)
        requires
            old(self).wf(),
        ensures
            final(self).wf(),
            final(self).phase@ == EnvPhase::ResetPending,
            ({
                let (ss2, cmds, si2) = old(self).state_setter.apply_spec(
                    num_cars,
                    old(self).shared_info,
                );
                &&& final(self).state_setter == ss2
                &&& final(self).shared_info == si2
                &&& plan.commands@ == cmds
                &&& plan.num_cars == num_cars
            }),
            final(self).shared_info_provider == old(self).shared_info_provider,
            final(self).observations == old(self).observations,
            final(self).action == old(self).action,
            final(self).reward == old(self).reward,
            final(self).terminal == old(self).terminal,
            final(self).truncate == old(self).truncate,
            final(self).tick_skip == old(self).tick_skip,
            final(self).last_state == old(self).last_state,
            final(self).renderer == old(self).renderer,
    {
        let mut plan = SetupPlan::new(num_cars);
        self.state_setter.apply(&mut plan, &mut self.shared_info);
        proof {
            self.phase@ = EnvPhase::ResetPending;
        }
        plan
    }

    /// Complete a reset with the freshly read initial snapshot: reset every
    /// pipeline interface against it — context sync, observations, actions,
    /// termination, reward, truncation, in that order — build and return the
    /// first observation set, and store the snapshot. The episode is then
    /// live.
    pub fn reset(&mut self, state: GameSnapshot) -> (obs: FullObs)
        requires
            old(self).wf(),
            old(self).phase@ == EnvPhase::ResetPending,
        ensures
            final(self).wf(),
            final(self).phase@ == EnvPhase::Ready,
            ({
                let (sip2, si1) = old(self).shared_info_provider.reset_spec(
                    state,
                    old(self).shared_info,
                );
                let (obs2, si2) = old(self).observations.reset_spec(state, si1);
                let (act2, si3) = old(self).action.reset_spec(state, si2);
                let (term2, si4) = old(self).terminal.reset_spec(state, si3);
                let (rew2, si5) = old(self).reward.reset_spec(state, si4);
                let (trunc2, si6) = old(self).truncate.reset_spec(state, si5);
                let (obs3, si7, o) = obs2.build_obs_spec(state, si6);
                &&& final(self).shared_info_provider == sip2
                &&& final(self).observations == obs3
                &&& final(self).action == act2
                &&& final(self).terminal == term2
                &&& final(self).reward == rew2
                &&& final(self).truncate == trunc2
                &&& final(self).shared_info == si7
                &&& obs.deep_view() == o
            }),
            obs@.len() == state.cars@.len(),
            forall|i: int|
                0 <= i < obs@.len() ==> (#[trigger] obs@[i])@.len() == final(self).observations.obs_space_spec(state.cars@[i].id),
            final(self).last_state == Some(state),
            final(self).state_setter == old(self).state_setter,
            final(self).tick_skip == old(self).tick_skip,
            final(self).renderer == old(self).renderer,
    {
        self.shared_info_provider.reset(&state, &mut self.shared_info);
        self.observations.reset(&state, &mut self.shared_info);
        self.action.reset(&state, &mut self.shared_info);
        self.terminal.reset(&state, &mut self.shared_info);
        self.reward.reset(&state, &mut self.shared_info);
        self.truncate.reset(&state, &mut self.shared_info);
        let obs = self.observations.build_obs(&state, &mut self.shared_info);
        self.last_state = Some(state);
        proof {
            self.phase@ = EnvPhase::Ready;
        }
        obs
    }

    /// Begin a step: decode the raw batch against the stored snapshot and
    /// hand out one `(agent id, controls)` pair per agent — entry `i` bound
    /// to roster position `i`, regardless of id values. The driving loop
    /// must inject them and advance the simulator by `tick_skip` ticks,
    /// then complete with `step`.
    ///
    /// Demanding a live episode here is the fail-fast lifecycle contract:
    /// stepping before any reset is a programming error.
    pub fn prepare_step(&mut self, raw_actions: ACT::Input) -> (controls: Vec<
        (u32, CarControls),
    >)
        requires
            old(self).wf(),
            old(self).phase@ == EnvPhase::Ready,
        ensures
            final(self).wf(),
            final(self).phase@ == EnvPhase::StepPending,
            ({
                let last = old(self).last_state->0;
                let (act2, si1, parsed) = old(self).action.parse_spec(
                    raw_actions,
                    last,
                    old(self).shared_info,
                );
                &&& final(self).action == act2
                &&& final(self).shared_info == si1
                &&& controls@.len() == last.cars@.len()
                &&& forall|i: int|
                    0 <= i < controls@.len() ==> #[trigger] controls@[i] == (
                        last.cars@[i].id,
                        parsed[i],
                    )
            }),
            final(self).last_state == old(self).last_state,
            final(self).state_setter == old(self).state_setter,
            final(self).shared_info_provider == old(self).shared_info_provider,
            final(self).observations == old(self).observations,
            final(self).reward == old(self).reward,
            final(self).terminal == old(self).terminal,
            final(self).truncate == old(self).truncate,
            final(self).tick_skip == old(self).tick_skip,
            final(self).renderer == old(self).renderer,
    {
        let last_ref = self.last_state.as_ref().expect("Must call reset() first!");
        let parsed = self.action.parse_actions(raw_actions, last_ref, &mut self.shared_info);
        let mut controls: Vec<(u32, CarControls)> = Vec::new();
        let mut i: usize = 0;
        while i < parsed.len()
            invariant
                i <= parsed.len(),
                parsed@.len() == last_ref.cars@.len(),
                controls@.len() == i,
                forall|j: int|
                    0 <= j < i ==> #[trigger] controls@[j] == (
                        last_ref.cars@[j].id,
                        parsed@[j],
                    ),
            decreases parsed@.len() - i,
        {
            controls.push((last_ref.cars[i].id, parsed[i]));
            i = i + 1;
        }
        proof {
            self.phase@ = EnvPhase::StepPending;
        }
        controls
    }

    /// Complete a step with the freshly read post-step snapshot: sync the
    /// context, then build observations, compute rewards, and evaluate the
    /// two independent episode-boundary signals, all against the new
    /// snapshot; store it and return the bundle. The episode stays live.
    pub fn step(&mut self, state: GameSnapshot) -> (result: StepResult)
        requires
            old(self).wf(),
            old(self).phase@ == EnvPhase::StepPending,
        ensures
            final(self).wf(),
            final(self).phase@ == EnvPhase::Ready,
            ({
                let (sip2, si1) = old(self).shared_info_provider.apply_spec(
                    state,
                    old(self).shared_info,
                );
                let (obs2, si2, o) = old(self).observations.build_obs_spec(state, si1);
                let (rew2, si3, rs) = old(self).reward.rewards_spec(state, si2);
                let (term2, si4, term) = old(self).terminal.terminal_spec(state, si3);
                let (trunc2, si5, trunc) = old(self).truncate.truncate_spec(state, si4);
                &&& final(self).shared_info_provider == sip2
                &&& final(self).observations == obs2
                &&& final(self).reward == rew2
                &&& final(self).terminal == term2
                &&& final(self).truncate == trunc2
                &&& final(self).shared_info == si5
                &&& result.obs.deep_view() == o
                &&& result.rewards@ == rs
                &&& result.is_terminal == term
                &&& result.truncated == trunc
            }),
            result.obs@.len() == state.cars@.len(),
            result.rewards@.len() == state.cars@.len(),
            forall|i: int|
                0 <= i < result.obs@.len() ==> (#[trigger] result.obs@[i])@.len() == final(self).observations.obs_space_spec(state.cars@[i].id),
            result.state == state,
            final(self).last_state is Some,
            final(self).last_state->0.tick_count == state.tick_count,
            final(self).last_state->0.tick_rate_bits == state.tick_rate_bits,
            final(self).last_state->0.ball == state.ball,
            final(self).last_state->0.cars@ == state.cars@,
            final(self).state_setter == old(self).state_setter,
            final(self).action == old(self).action,
            final(self).tick_skip == old(self).tick_skip,
            final(self).renderer == old(self).renderer,
    {
        self.shared_info_provider.apply(&state, &mut self.shared_info);
        let obs = self.observations.build_obs(&state, &mut self.shared_info);
        let rewards = self.reward.get_rewards(&state, &mut self.shared_info);
        let is_terminal = self.terminal.is_terminal(&state, &mut self.shared_info);
        let truncated = self.truncate.should_truncate(&state, &mut self.shared_info);
        let stored = state.duplicate();
        self.last_state = Some(stored);
        proof {
            self.phase@ = EnvPhase::Ready;
        }
        StepResult { obs, rewards, is_terminal, truncated, state }
    }

    /// The declared observation-space size for an agent.
    pub fn get_obs_space(&self, agent_id: u32) -> (r: usize)
        ensures
            r == self.observations.obs_space_spec(agent_id),
    {
        self.observations.get_obs_space(agent_id, &self.shared_info)
    }

    /// The declared action-space size for an agent.
    pub fn get_action_space(&self, agent_id: u32) -> (r: usize)
        ensures
            r == self.action.action_space_spec(agent_id),
    {
        self.action.get_action_space(agent_id, &self.shared_info)
    }

    /// How many agents the last snapshot holds; zero before any reset.
    pub fn num_cars(&self) -> (n: usize)
        ensures
            n == (if self.last_state is Some {
                self.last_state->0.cars@.len() as int
            } else {
                0
            }),
    {
        match &self.last_state {
            Some(s) => s.num_cars(),
            None => 0,
        }
    }

    /// The shared episode context.
    pub fn shared_info(&self) -> (r: &SI)
        ensures
            *r == self.shared_info,
    {
        &self.shared_info
    }

    /// Attach a render session. The returned byte is the handshake
    /// `Connection` packet, to be sent to the viewer before anything else.
    /// One session at a time: an attached session must be stopped — closing
    /// its trace with `Quit` — before a new one is opened.
    pub fn enable_rendering(&mut self) -> (b: u8)
        requires
            old(self).wf(),
            old(self).renderer is None,
        ensures
            final(self).wf(),
            b == tag_byte_spec(PacketTag::Connection),
            final(self).renderer is Some,
            final(self).renderer->0.sent@ == seq![PacketTag::Connection],
            !final(self).renderer->0.paused,
            !final(self).renderer->0.closed,
            final(self).renderer->0.tick_skip == old(self).tick_skip,
            final(self).renderer->0.interval_nanos == old(self).tick_skip
                * crate::speed::NANOS_PER_SEC as int / crate::speed::BASE_TICK_RATE as int,
            final(self).phase@ == old(self).phase@,
            final(self).state_setter == old(self).state_setter,
            final(self).shared_info_provider == old(self).shared_info_provider,
            final(self).observations == old(self).observations,
            final(self).action == old(self).action,
            final(self).reward == old(self).reward,
            final(self).terminal == old(self).terminal,
            final(self).truncate == old(self).truncate,
            final(self).shared_info == old(self).shared_info,
            final(self).tick_skip == old(self).tick_skip,
            final(self).last_state == old(self).last_state,
    {
        let (session, b) = RenderSession::start(self.tick_skip);
        self.renderer = Some(session);
        b
    }

    /// Whether the viewer asked to pause stepping; never paused while no
    /// session is attached.
    pub fn is_paused(&self) -> (r: bool)
        ensures
            r == (if self.renderer is Some {
                self.renderer->0.paused
            } else {
                false
            }),
    {
        match &self.renderer {
            Some(session) => session.is_paused(),
            None => false,
        }
    }

    /// Detach the render session. The returned byte, when a session was
    /// attached, is the closing `Quit` packet: the session's last packet.
    pub fn stop_rendering(&mut self) -> (q: Option<u8>)
        requires
            old(self).wf(),
        ensures
            final(self).wf(),
            final(self).renderer is None,
            q == (if old(self).renderer is Some {
                Some(tag_byte_spec(PacketTag::Quit))
            } else {
                None::<u8>
            }),
            final(self).phase@ == old(self).phase@,
            final(self).state_setter == old(self).state_setter,
            final(self).shared_info_provider == old(self).shared_info_provider,
            final(self).observations == old(self).observations,
            final(self).action == old(self).action,
            final(self).reward == old(self).reward,
            final(self).terminal == old(self).terminal,
            final(self).truncate == old(self).truncate,
            final(self).shared_info == old(self).shared_info,
            final(self).tick_skip == old(self).tick_skip,
            final(self).last_state == old(self).last_state,
    {
        let taken = self.renderer.take();
        match taken {
            Some(mut session) => {
                let b = session.quit();
                Some(b)
            },
            None => None,
        }
    }

    /// Mirror a snapshot to an attached viewer: a `GameState` tag byte and
    /// the serialized snapshot, to be sent as two packets in that order.
    pub fn mirror_state(&mut self, snap: &GameSnapshot) -> (r: Option<(u8, Vec<u8>)>)
        requires
            old(self).wf(),
            crate::codec::spec_encodable(*snap),
        ensures
            final(self).wf(),
            r is Some <==> old(self).renderer is Some,
            r is Some ==> {
                let pair = r->0;
                &&& pair.0 == tag_byte_spec(PacketTag::GameState)
                &&& pair.1@ == crate::codec::spec_snapshot_bytes(*snap)
                &&& final(self).renderer is Some
                &&& final(self).renderer->0.sent@ == old(self).renderer->0.sent@.push(
                    PacketTag::GameState,
                )
                &&& final(self).renderer->0.paused == old(self).renderer->0.paused
                &&& final(self).renderer->0.interval_nanos == old(self).renderer->0.interval_nanos
            },
            old(self).renderer is None ==> final(self).renderer is None,
            final(self).phase@ == old(self).phase@,
            final(self).state_setter == old(self).state_setter,
            final(self).shared_info_provider == old(self).shared_info_provider,
            final(self).observations == old(self).observations,
            final(self).action == old(self).action,
            final(self).reward == old(self).reward,
            final(self).terminal == old(self).terminal,
            final(self).truncate == old(self).truncate,
            final(self).shared_info == old(self).shared_info,
            final(self).tick_skip == old(self).tick_skip,
            final(self).last_state == old(self).last_state,
    {
        match &mut self.renderer {
            Some(session) => Some(session.mirror_state(snap)),
            None => None,
        }
    }

    /// What a received tag byte asks of the driving loop; `None` while no
    /// session is attached.
    pub fn handle_incoming_tag(&self, b: u8) -> (act: Option<InboundAction>)
        ensures
            act is Some <==> self.renderer is Some,
            self.renderer is Some ==> act == Some(
                match crate::render::tag_of_byte_spec(b) {
                    Some(PacketTag::GameState) => InboundAction::ReadState,
                    Some(PacketTag::Connection) => InboundAction::Acknowledge,
                    Some(PacketTag::Speed) => InboundAction::ReadSpeed,
                    Some(PacketTag::Paused) => InboundAction::ReadPaused,
                    Some(PacketTag::Quit) => InboundAction::Fatal,
                    Some(PacketTag::Render) => InboundAction::Fatal,
                    None => InboundAction::Malformed,
                },
            ),
    {
        match &self.renderer {
            Some(session) => Some(session.handle_tag(b)),
            None => None,
        }
    }

    /// Apply a received four-byte speed multiplier to an attached session.
    pub fn apply_speed_command(&mut self, payload: &[u8])
        requires
            old(self).wf(),
            payload@.len() == 4,
        ensures
            final(self).wf(),
            old(self).renderer is Some ==> {
                let bits = vstd::bytes::spec_u32_from_le_bytes(payload@);
                &&& final(self).renderer is Some
                &&& final(self).renderer->0.interval_nanos == (
                if crate::speed::spec_speed_valid(bits) {
                    crate::speed::spec_interval_nanos(old(self).tick_skip, bits)
                } else {
                    old(self).renderer->0.interval_nanos
                })
                &&& final(self).renderer->0.paused == old(self).renderer->0.paused
                &&& final(self).renderer->0.sent == old(self).renderer->0.sent
            },
            old(self).renderer is None ==> *final(self) == *old(self),
            final(self).phase@ == old(self).phase@,
            final(self).state_setter == old(self).state_setter,
            final(self).shared_info_provider == old(self).shared_info_provider,
            final(self).observations == old(self).observations,
            final(self).action == old(self).action,
            final(self).reward == old(self).reward,
            final(self).terminal == old(self).terminal,
            final(self).truncate == old(self).truncate,
            final(self).shared_info == old(self).shared_info,
            final(self).tick_skip == old(self).tick_skip,
            final(self).last_state == old(self).last_state,
    {
        match &mut self.renderer {
            Some(session) => session.apply_speed(payload),
            None => (),
        }
    }

    /// Apply a received one-byte pause flag to an attached session.
    pub fn apply_paused_command(&mut self, b: u8)
        requires
            old(self).wf(),
        ensures
            final(self).wf(),
            old(self).renderer is Some ==> {
                &&& final(self).renderer is Some
                &&& final(self).renderer->0.paused == (b == 1)
                &&& final(self).renderer->0.interval_nanos == old(self).renderer->0.interval_nanos
                &&& final(self).renderer->0.sent == old(self).renderer->0.sent
            },
            old(self).renderer is None ==> *final(self) == *old(self),
            final(self).phase@ == old(self).phase@,
            final(self).state_setter == old(self).state_setter,
            final(self).shared_info_provider == old(self).shared_info_provider,
            final(self).observations == old(self).observations,
            final(self).action == old(self).action,
            final(self).reward == old(self).reward,
            final(self).terminal == old(self).terminal,
            final(self).truncate == old(self).truncate,
            final(self).shared_info == old(self).shared_info,
            final(self).tick_skip == old(self).tick_skip,
            final(self).last_state == old(self).last_state,
    {
        match &mut self.renderer {
            Some(session) => session.apply_paused(b),
            None => (),
        }
    }

    /// The step interval the viewer last commanded, in nanoseconds; `None`
    /// while no session is attached.
    pub fn step_interval_nanos(&self) -> (r: Option<u64>)
        ensures
            r is Some <==> self.renderer is Some,
            self.renderer is Some ==> r == Some(self.renderer->0.interval_nanos),
    {
        match &self.renderer {
            Some(session) => Some(session.step_interval_nanos()),
            None => None,
        }
    }
}

} // verus!
