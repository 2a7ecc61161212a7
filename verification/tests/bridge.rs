//! Tests of the render-bridge protocol: tag bytes, the session's outbound
//! handshake discipline, and the pause and speed commands.

use rlgym_rs::render::{InboundAction, PacketTag, RenderSession};
use rlgym_rs::speed::interval_nanos_from_speed;

#[test]
fn tag_bytes_round_trip() {
    let tags = [
        PacketTag::Quit,
        PacketTag::GameState,
        PacketTag::Connection,
        PacketTag::Paused,
        PacketTag::Speed,
        PacketTag::Render,
    ];
    for (i, t) in tags.iter().enumerate() {
        assert_eq!(t.to_byte(), i as u8);
        assert_eq!(PacketTag::from_byte(i as u8), Some(*t));
    }
    assert_eq!(PacketTag::from_byte(6), None);
    assert_eq!(PacketTag::from_byte(255), None);
}

fn tiny_snapshot() -> rlgym_rs::state::GameSnapshot {
    rlgym_rs::state::GameSnapshot {
        tick_count: 1,
        tick_rate_bits: 120.0f32.to_bits(),
        ball: rlgym_rs::state::BallState {
            pos: rlgym_rs::state::Vec3 { x_bits: 0, y_bits: 0, z_bits: 0 },
            vel: rlgym_rs::state::Vec3 { x_bits: 0, y_bits: 0, z_bits: 0 },
            ang_vel: rlgym_rs::state::Vec3 { x_bits: 0, y_bits: 0, z_bits: 0 },
        },
        cars: vec![],
    }
}

#[test]
fn connection_first_then_state_then_quit_last() {
    let (mut session, first) = RenderSession::start(8);
    assert_eq!(first, PacketTag::Connection.to_byte());

    let (tag, payload) = session.mirror_state(&tiny_snapshot());
    assert_eq!(tag, PacketTag::GameState.to_byte());
    assert_eq!(payload, rlgym_rs::codec::encode_snapshot(&tiny_snapshot()));

    let last = session.quit();
    assert_eq!(last, PacketTag::Quit.to_byte());
}

#[test]
fn inbound_tags_map_to_actions() {
    let (session, _) = RenderSession::start(8);
    assert_eq!(session.handle_tag(1), InboundAction::ReadState);
    assert_eq!(session.handle_tag(2), InboundAction::Acknowledge);
    assert_eq!(session.handle_tag(3), InboundAction::ReadPaused);
    assert_eq!(session.handle_tag(4), InboundAction::ReadSpeed);
    assert_eq!(session.handle_tag(0), InboundAction::Fatal);
    assert_eq!(session.handle_tag(5), InboundAction::Fatal);
    assert_eq!(session.handle_tag(77), InboundAction::Malformed);
}

#[test]
fn speed_two_at_tick_skip_eight_sets_one_thirtieth_second() {
    // 8 / (120 * 2.0) seconds = 33,333,333 whole nanoseconds
    let bits = 2.0f32.to_bits();
    assert_eq!(interval_nanos_from_speed(8, bits), 33_333_333);

    let (mut session, _) = RenderSession::start(8);
    session.apply_speed(&2.0f32.to_le_bytes());
    assert_eq!(session.step_interval_nanos(), 33_333_333);
}

#[test]
fn speed_one_keeps_base_cadence() {
    let bits = 1.0f32.to_bits();
    assert_eq!(interval_nanos_from_speed(8, bits), 66_666_666);
    assert_eq!(interval_nanos_from_speed(120, bits), 1_000_000_000);
}

#[test]
fn speed_handles_extremes_exactly() {
    // a quarter speed: 8 / (120 * 0.25) = 4 / 15 s
    assert_eq!(interval_nanos_from_speed(8, 0.25f32.to_bits()), 266_666_666);
    // huge multiplier: interval rounds down to zero
    assert_eq!(interval_nanos_from_speed(8, f32::MAX.to_bits()), 0);
    // tiny normal multiplier: interval saturates
    assert_eq!(interval_nanos_from_speed(8, f32::MIN_POSITIVE.to_bits()), u64::MAX);
    // zero ticks per step: zero interval whatever the speed
    assert_eq!(interval_nanos_from_speed(0, 2.0f32.to_bits()), 0);
}

#[test]
fn invalid_speed_is_ignored() {
    let (mut session, _) = RenderSession::start(8);
    let before = session.step_interval_nanos();
    session.apply_speed(&0.0f32.to_le_bytes());
    assert_eq!(session.step_interval_nanos(), before);
    session.apply_speed(&(-2.0f32).to_le_bytes());
    assert_eq!(session.step_interval_nanos(), before);
    session.apply_speed(&f32::NAN.to_le_bytes());
    assert_eq!(session.step_interval_nanos(), before);
    session.apply_speed(&f32::INFINITY.to_le_bytes());
    assert_eq!(session.step_interval_nanos(), before);
}

#[test]
fn session_starts_at_base_interval_unpaused() {
    let (session, _) = RenderSession::start(8);
    assert!(!session.is_paused());
    assert_eq!(session.step_interval_nanos(), 8 * 1_000_000_000 / 120);
}

#[test]
fn pause_flag_follows_payload_byte() {
    let (mut session, _) = RenderSession::start(8);
    session.apply_paused(1);
    assert!(session.is_paused());
    session.apply_paused(0);
    assert!(!session.is_paused());
    session.apply_paused(2);
    assert!(!session.is_paused());
}
