//! Tests of the environment orchestrator: the reset/step lifecycle, the
//! observation-length contract, positional action mapping, the independent
//! episode-boundary flags, and the composite reward.

use rlgym_rs::render::InboundAction;
use rlgym_rs::reward::CombinedReward;
use rlgym_rs::state::{
    BallState, CarControls, CarData, GameSnapshot, SetupCommand, SetupPlan, Team, Vec3,
};
use rlgym_rs::{Action, Env, Obs, Reward, SharedInfoProvider, StateSetter, Terminal, Truncate};

#[derive(Default)]
struct Ctx {
    resets: u32,
    syncs: u32,
}

struct MySip;

impl SharedInfoProvider<Ctx> for MySip {
    // ghost trait members; never called at runtime
    fn reset_spec(self, _state: GameSnapshot, _si: Ctx) -> (Self, Ctx) {
        unreachable!()
    }

    fn apply_spec(self, _state: GameSnapshot, _si: Ctx) -> (Self, Ctx) {
        unreachable!()
    }

    fn reset(&mut self, _initial_state: &GameSnapshot, shared_info: &mut Ctx) {
        shared_info.resets += 1;
        shared_info.syncs = 0;
    }

    fn apply(&mut self, _game_state: &GameSnapshot, shared_info: &mut Ctx) {
        shared_info.syncs += 1;
    }
}

struct MySetter;

impl StateSetter<Ctx> for MySetter {
    // ghost trait member; never called at runtime
    fn apply_spec(self, _num_cars: usize, _si: Ctx) -> (Self, vstd::prelude::Seq<SetupCommand>, Ctx) {
        unreachable!()
    }

    fn apply(&mut self, plan: &mut SetupPlan, _shared_info: &mut Ctx) {
        if plan.num_cars != 2 {
            plan.push(SetupCommand::AddCar(Team::Blue));
            plan.push(SetupCommand::AddCar(Team::Orange));
        }
        plan.push(SetupCommand::ResetTickCount);
        plan.push(SetupCommand::RandomKickoff(Some(17)));
    }
}

/// Three features per agent: the agent's position words.
struct MyObs;

impl Obs<Ctx> for MyObs {
    // ghost trait members; never called at runtime
    fn obs_space_spec(self, _agent_id: u32) -> usize {
        unreachable!()
    }

    fn reset_spec(self, _state: GameSnapshot, _si: Ctx) -> (Self, Ctx) {
        unreachable!()
    }

    fn build_obs_spec(
        self,
        _state: GameSnapshot,
        _si: Ctx,
    ) -> (Self, Ctx, vstd::prelude::Seq<vstd::prelude::Seq<u32>>) {
        unreachable!()
    }

    fn get_obs_space(&self, _agent_id: u32, _shared_info: &Ctx) -> usize {
        3
    }

    fn reset(&mut self, _initial_state: &GameSnapshot, _shared_info: &mut Ctx) {}

    fn build_obs(&mut self, state: &GameSnapshot, _shared_info: &mut Ctx) -> Vec<Vec<u32>> {
        state
            .cars
            .iter()
            .map(|c| vec![c.pos.x_bits, c.pos.y_bits, c.pos.z_bits])
            .collect()
    }
}

/// One raw integer per agent; the decoded throttle word is the raw value.
struct MyAction;

impl Action<Ctx> for MyAction {
    type Input = Vec<i32>;

    // ghost trait members; never called at runtime
    fn tick_skip_spec() -> u32 {
        unreachable!()
    }

    fn action_space_spec(self, _agent_id: u32) -> usize {
        unreachable!()
    }

    fn reset_spec(self, _state: GameSnapshot, _si: Ctx) -> (Self, Ctx) {
        unreachable!()
    }

    fn parse_spec(
        self,
        _actions: Vec<i32>,
        _state: GameSnapshot,
        _si: Ctx,
    ) -> (Self, Ctx, vstd::prelude::Seq<CarControls>) {
        unreachable!()
    }

    fn get_tick_skip() -> u32 {
        8
    }

    fn get_action_space(&self, _agent_id: u32, _shared_info: &Ctx) -> usize {
        24
    }

    fn reset(&mut self, _initial_state: &GameSnapshot, _shared_info: &mut Ctx) {}

    fn parse_actions(
        &mut self,
        actions: Vec<i32>,
        state: &GameSnapshot,
        _shared_info: &mut Ctx,
    ) -> Vec<CarControls> {
        assert_eq!(actions.len(), state.cars.len());
        actions
            .iter()
            .map(|a| CarControls {
                throttle_bits: *a as u32,
                steer_bits: 0,
                pitch_bits: 0,
                yaw_bits: 0,
                roll_bits: 0,
                jump: false,
                boost: false,
                handbrake: false,
            })
            .collect()
    }
}

/// Each agent's reward is a fixed constant.
struct ConstReward(i64);

impl Reward<Ctx> for ConstReward {
    // ghost trait members; never called at runtime
    fn reset_spec(self, _state: GameSnapshot, _si: Ctx) -> (Self, Ctx) {
        unreachable!()
    }

    fn rewards_spec(self, _state: GameSnapshot, _si: Ctx) -> (Self, Ctx, vstd::prelude::Seq<i64>) {
        unreachable!()
    }

    fn reset(&mut self, _initial_state: &GameSnapshot, _shared_info: &mut Ctx) {}

    fn get_rewards(&mut self, state: &GameSnapshot, _shared_info: &mut Ctx) -> Vec<i64> {
        state.cars.iter().map(|_| self.0).collect()
    }
}

/// Each agent's reward is its own id.
struct IdReward;

impl Reward<Ctx> for IdReward {
    // ghost trait members; never called at runtime
    fn reset_spec(self, _state: GameSnapshot, _si: Ctx) -> (Self, Ctx) {
        unreachable!()
    }

    fn rewards_spec(self, _state: GameSnapshot, _si: Ctx) -> (Self, Ctx, vstd::prelude::Seq<i64>) {
        unreachable!()
    }

    fn reset(&mut self, _initial_state: &GameSnapshot, _shared_info: &mut Ctx) {}

    fn get_rewards(&mut self, state: &GameSnapshot, _shared_info: &mut Ctx) -> Vec<i64> {
        state.cars.iter().map(|c| c.id as i64).collect()
    }
}

/// Terminal once the tick counter passes 1000.
struct MyTerminal;

impl Terminal<Ctx> for MyTerminal {
    // ghost trait members; never called at runtime
    fn reset_spec(self, _state: GameSnapshot, _si: Ctx) -> (Self, Ctx) {
        unreachable!()
    }

    fn terminal_spec(self, _state: GameSnapshot, _si: Ctx) -> (Self, Ctx, bool) {
        unreachable!()
    }

    fn reset(&mut self, _initial_state: &GameSnapshot, _shared_info: &mut Ctx) {}

    fn is_terminal(&mut self, state: &GameSnapshot, _shared_info: &mut Ctx) -> bool {
        state.tick_count > 1000
    }
}

/// Truncated once the ball's raw height word is odd.
struct MyTruncate;

impl Truncate<Ctx> for MyTruncate {
    // ghost trait members; never called at runtime
    fn reset_spec(self, _state: GameSnapshot, _si: Ctx) -> (Self, Ctx) {
        unreachable!()
    }

    fn truncate_spec(self, _state: GameSnapshot, _si: Ctx) -> (Self, Ctx, bool) {
        unreachable!()
    }

    fn reset(&mut self, _initial_state: &GameSnapshot, _shared_info: &mut Ctx) {}

    fn should_truncate(&mut self, state: &GameSnapshot, _shared_info: &mut Ctx) -> bool {
        state.ball.pos.z_bits % 2 == 1
    }
}

fn v3(x: f32, y: f32, z: f32) -> Vec3 {
    Vec3 { x_bits: x.to_bits(), y_bits: y.to_bits(), z_bits: z.to_bits() }
}

fn snapshot(tick_count: u64, ids: &[u32], ball_z_bits: u32) -> GameSnapshot {
    GameSnapshot {
        tick_count,
        tick_rate_bits: 120.0f32.to_bits(),
        ball: BallState {
            pos: Vec3 { x_bits: 0, y_bits: 0, z_bits: ball_z_bits },
            vel: v3(0.0, 0.0, 0.0),
            ang_vel: v3(0.0, 0.0, 0.0),
        },
        cars: ids
            .iter()
            .enumerate()
            .map(|(i, id)| CarData {
                id: *id,
                team: if i % 2 == 0 { Team::Blue } else { Team::Orange },
                pos: v3(i as f32, 2.0 * i as f32, 17.0),
                vel: v3(0.0, 0.0, 0.0),
                ang_vel: v3(0.0, 0.0, 0.0),
            })
            .collect(),
    }
}

fn make_env() -> Env<MySetter, MySip, MyObs, MyAction, CombinedReward<IdReward>, MyTerminal, MyTruncate, Ctx>
{
    Env::new(
        MySetter,
        MySip,
        MyObs,
        MyAction,
        CombinedReward::new(vec![IdReward]),
        MyTerminal,
        MyTruncate,
        Ctx::default(),
    )
}

#[test]
fn reset_returns_one_row_per_agent_of_declared_length() {
    let mut env = make_env();
    let plan = env.prepare_reset(0);
    assert!(matches!(plan.commands[0], SetupCommand::AddCar(Team::Blue)));
    let obs = env.reset(snapshot(0, &[42, 7], 0));
    assert_eq!(obs.len(), 2);
    for (i, row) in obs.iter().enumerate() {
        let id = [42u32, 7u32][i];
        assert_eq!(row.len(), env.get_obs_space(id));
    }
}

#[test]
fn step_after_reset_succeeds_and_obs_match_space() {
    let mut env = make_env();
    env.prepare_reset(2);
    env.reset(snapshot(0, &[1, 2], 0));
    let controls = env.prepare_step(vec![5, 6]);
    assert_eq!(controls.len(), 2);
    let result = env.step(snapshot(8, &[1, 2], 0));
    assert_eq!(result.obs.len(), 2);
    for row in &result.obs {
        assert_eq!(row.len(), 3);
    }
    assert_eq!(result.state.tick_count, 8);
    assert_eq!(env.num_cars(), 2);
    // the context was reset once and synced once
    assert_eq!(env.shared_info().resets, 1);
    assert_eq!(env.shared_info().syncs, 1);
}

#[test]
fn action_mapping_is_positional_not_by_id() {
    let mut env = make_env();
    env.prepare_reset(2);
    // ids deliberately out of order and non-contiguous
    env.reset(snapshot(0, &[900, 3], 0));
    let controls = env.prepare_step(vec![11, 22]);
    assert_eq!(controls.len(), 2);
    // entry 0 is bound to roster position 0 (id 900), entry 1 to position 1
    assert_eq!(controls[0].0, 900);
    assert_eq!(controls[0].1.throttle_bits, 11);
    assert_eq!(controls[1].0, 3);
    assert_eq!(controls[1].1.throttle_bits, 22);
}

#[test]
fn terminal_and_truncated_are_independent() {
    let mut env = make_env();
    env.prepare_reset(2);
    env.reset(snapshot(0, &[1, 2], 0));

    // terminal only: high tick counter, even ball height word
    env.prepare_step(vec![0, 0]);
    let r1 = env.step(snapshot(2000, &[1, 2], 0));
    assert!(r1.is_terminal);
    assert!(!r1.truncated);

    // truncated only: low tick counter, odd ball height word
    env.prepare_step(vec![0, 0]);
    let r2 = env.step(snapshot(16, &[1, 2], 1));
    assert!(!r2.is_terminal);
    assert!(r2.truncated);
}

#[test]
fn combined_reward_is_elementwise_sum() {
    let mut ctx = Ctx::default();
    let mut combined = CombinedReward::new(vec![ConstReward(2), ConstReward(3), ConstReward(-1)]);
    let state = snapshot(0, &[10, 20, 30, 40], 0);
    let rewards = combined.get_rewards(&state, &mut ctx);
    assert_eq!(rewards, vec![4, 4, 4, 4]);
}

#[test]
fn combined_reward_mixed_components() {
    let mut ctx = Ctx::default();
    let mut combined: CombinedReward<IdReward> = CombinedReward::new(vec![]);
    let state = snapshot(0, &[10, 20], 0);
    assert_eq!(combined.get_rewards(&state, &mut ctx), vec![0, 0]);

    let mut combined2 = CombinedReward::new(vec![
        CombinedReward::new(vec![IdReward]),
        CombinedReward::new(vec![IdReward, IdReward]),
    ]);
    // nested composition: id + id + id
    assert_eq!(combined2.get_rewards(&state, &mut ctx), vec![30, 60]);
}

#[test]
fn combined_reward_saturates() {
    let mut ctx = Ctx::default();
    let mut combined = CombinedReward::new(vec![ConstReward(i64::MAX), ConstReward(1)]);
    let state = snapshot(0, &[1], 0);
    assert_eq!(combined.get_rewards(&state, &mut ctx), vec![i64::MAX]);

    let mut low = CombinedReward::new(vec![ConstReward(i64::MIN), ConstReward(-1)]);
    assert_eq!(low.get_rewards(&state, &mut ctx), vec![i64::MIN]);
}

#[test]
fn env_reward_comes_from_the_computer() {
    let mut env = make_env();
    env.prepare_reset(2);
    env.reset(snapshot(0, &[5, 9], 0));
    env.prepare_step(vec![0, 0]);
    let result = env.step(snapshot(8, &[5, 9], 0));
    assert_eq!(result.rewards, vec![5, 9]);
}

#[test]
fn rendering_lifecycle_through_env() {
    let mut env = make_env();
    assert!(!env.is_paused());
    assert_eq!(env.step_interval_nanos(), None);

    let hello = env.enable_rendering();
    assert_eq!(hello, 2);
    assert_eq!(env.step_interval_nanos(), Some(8 * 1_000_000_000 / 120));

    env.apply_speed_command(&2.0f32.to_le_bytes());
    assert_eq!(env.step_interval_nanos(), Some(33_333_333));

    env.apply_paused_command(1);
    assert!(env.is_paused());
    env.apply_paused_command(0);
    assert!(!env.is_paused());

    let snap = snapshot(0, &[1], 0);
    let (tag, payload) = env.mirror_state(&snap).expect("a session is attached");
    assert_eq!(tag, 1);
    assert_eq!(payload, rlgym_rs::codec::encode_snapshot(&snap));

    let quit = env.stop_rendering();
    assert_eq!(quit, Some(0));
    assert_eq!(env.stop_rendering(), None);
    assert!(!env.is_paused());
}

#[test]
fn setup_plan_reads_roster_size() {
    let mut env = make_env();
    let plan = env.prepare_reset(2);
    // with two agents present the setter only reorders the world
    assert_eq!(plan.commands.len(), 2);
    assert!(matches!(plan.commands[0], SetupCommand::ResetTickCount));
    assert!(matches!(plan.commands[1], SetupCommand::RandomKickoff(Some(17))));
}

#[test]
fn step_signals_describe_the_post_step_snapshot() {
    // Observations, rewards and the boundary flags are computed against the
    // snapshot read after the simulator advanced — not against the earlier
    // snapshot the actions were decoded against. The roster ids change
    // between the two snapshots here to tell them apart.
    let mut env = make_env();
    env.prepare_reset(2);
    env.reset(snapshot(0, &[1, 2], 0));
    let controls = env.prepare_step(vec![0, 0]);
    // decoding was bound to the pre-step roster
    assert_eq!(controls[0].0, 1);
    assert_eq!(controls[1].0, 2);
    let result = env.step(snapshot(8, &[50, 60], 0));
    // the learning signal describes the post-step roster
    assert_eq!(result.rewards, vec![50, 60]);
    assert_eq!(result.state.tick_count, 8);
}

#[test]
fn incoming_tags_reach_the_session_only_when_attached() {
    let mut env = make_env();
    assert_eq!(env.handle_incoming_tag(1), None);
    assert_eq!(env.num_cars(), 0);
    env.enable_rendering();
    assert_eq!(env.handle_incoming_tag(1), Some(InboundAction::ReadState));
    assert_eq!(env.handle_incoming_tag(0), Some(InboundAction::Fatal));
    assert_eq!(env.handle_incoming_tag(77), Some(InboundAction::Malformed));
}

/// Truncates once a step budget is spent, counted since the episode began.
struct BudgetTruncate {
    steps: u32,
}

impl Truncate<Ctx> for BudgetTruncate {
    // ghost trait members; never called at runtime
    fn reset_spec(self, _state: GameSnapshot, _si: Ctx) -> (Self, Ctx) {
        unreachable!()
    }

    fn truncate_spec(self, _state: GameSnapshot, _si: Ctx) -> (Self, Ctx, bool) {
        unreachable!()
    }

    fn reset(&mut self, _initial_state: &GameSnapshot, _shared_info: &mut Ctx) {
        self.steps = 0;
    }

    fn should_truncate(&mut self, _state: &GameSnapshot, _shared_info: &mut Ctx) -> bool {
        self.steps += 1;
        self.steps > 2
    }
}

#[test]
fn truncation_detector_is_reset_each_episode() {
    let mut env = Env::new(
        MySetter,
        MySip,
        MyObs,
        MyAction,
        CombinedReward::new(vec![IdReward]),
        MyTerminal,
        BudgetTruncate { steps: 0 },
        Ctx::default(),
    );
    env.prepare_reset(2);
    env.reset(snapshot(0, &[1, 2], 0));
    // the budget allows two steps, then truncates
    for expect_truncated in [false, false, true] {
        env.prepare_step(vec![0, 0]);
        let r = env.step(snapshot(8, &[1, 2], 0));
        assert_eq!(r.truncated, expect_truncated);
    }
    // a new episode gets a fresh budget: its first step must not truncate
    env.prepare_reset(2);
    env.reset(snapshot(0, &[1, 2], 0));
    env.prepare_step(vec![0, 0]);
    let r = env.step(snapshot(8, &[1, 2], 0));
    assert!(!r.truncated);
}
