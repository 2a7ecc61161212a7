//! Tests of the snapshot wire form: round trips, the self-describing length
//! prefix, and rejection of malformed payloads.

use rlgym_rs::codec::{decode_snapshot, encode_snapshot, min_num_bytes, num_bytes_from_prefix};
use rlgym_rs::state::{BallState, CarData, GameSnapshot, Team, Vec3};

fn v3(x: f32, y: f32, z: f32) -> Vec3 {
    Vec3 { x_bits: x.to_bits(), y_bits: y.to_bits(), z_bits: z.to_bits() }
}

fn sample_snapshot() -> GameSnapshot {
    GameSnapshot {
        tick_count: 987_654_321,
        tick_rate_bits: 120.0f32.to_bits(),
        ball: BallState {
            pos: v3(1.5, -2.25, 93.15),
            vel: v3(-0.0, 3.75, f32::MIN_POSITIVE),
            ang_vel: v3(0.1, 0.2, -0.3),
        },
        cars: vec![
            CarData {
                id: 42,
                team: Team::Blue,
                pos: v3(100.0, 200.0, 17.0),
                vel: v3(-1.0, 0.5, 0.25),
                ang_vel: v3(0.0, 0.0, 1.0),
            },
            CarData {
                id: 7,
                team: Team::Orange,
                pos: v3(-100.0, -200.0, 17.0),
                vel: v3(1.0, -0.5, -0.25),
                ang_vel: v3(0.5, -0.5, 0.0),
            },
        ],
    }
}

#[test]
fn round_trip_preserves_kinematics_bit_for_bit() {
    let snap = sample_snapshot();
    let bytes = encode_snapshot(&snap);
    let decoded = decode_snapshot(bytes.as_slice()).expect("a valid payload decodes");

    assert_eq!(decoded.tick_count, snap.tick_count);
    assert_eq!(decoded.tick_rate_bits, snap.tick_rate_bits);
    assert_eq!(decoded.ball.pos, snap.ball.pos);
    assert_eq!(decoded.ball.vel, snap.ball.vel);
    assert_eq!(decoded.ball.ang_vel, snap.ball.ang_vel);
    assert_eq!(decoded.cars.len(), snap.cars.len());
    for (a, b) in decoded.cars.iter().zip(snap.cars.iter()) {
        assert_eq!(a, b);
    }
    // re-encoding reproduces the exact bytes
    assert_eq!(encode_snapshot(&decoded), bytes);
}

#[test]
fn round_trip_empty_roster() {
    let snap = GameSnapshot {
        tick_count: 0,
        tick_rate_bits: 120.0f32.to_bits(),
        ball: BallState { pos: v3(0.0, 0.0, 0.0), vel: v3(0.0, 0.0, 0.0), ang_vel: v3(0.0, 0.0, 0.0) },
        cars: vec![],
    };
    let bytes = encode_snapshot(&snap);
    assert_eq!(bytes.len(), 52);
    let decoded = decode_snapshot(bytes.as_slice()).unwrap();
    assert_eq!(decoded.cars.len(), 0);
    assert_eq!(decoded.tick_count, 0);
}

#[test]
fn prefix_announces_total_size() {
    let snap = sample_snapshot();
    let bytes = encode_snapshot(&snap);
    assert_eq!(min_num_bytes(), 16);
    let prefix = &bytes[..min_num_bytes()];
    assert_eq!(num_bytes_from_prefix(prefix), bytes.len() as u64);
}

#[test]
fn layout_is_little_endian_with_counts() {
    let snap = sample_snapshot();
    let bytes = encode_snapshot(&snap);
    assert_eq!(&bytes[0..8], &987_654_321u64.to_le_bytes());
    assert_eq!(&bytes[8..12], &120.0f32.to_bits().to_le_bytes());
    assert_eq!(&bytes[12..16], &2u32.to_le_bytes());
    // first car record starts after the 36-byte ball block
    assert_eq!(&bytes[52..56], &42u32.to_le_bytes());
    assert_eq!(bytes[56], 0); // blue team tag
    assert_eq!(bytes.len(), 52 + 41 * 2);
}

#[test]
fn decode_rejects_short_payload() {
    assert!(decode_snapshot(&[]).is_none());
    assert!(decode_snapshot(&[1, 2, 3]).is_none());
    assert!(decode_snapshot(&[0u8; 51]).is_none());
}

#[test]
fn decode_rejects_length_mismatch() {
    let snap = sample_snapshot();
    let mut bytes = encode_snapshot(&snap);
    bytes.pop();
    assert!(decode_snapshot(bytes.as_slice()).is_none());
    let mut longer = encode_snapshot(&snap);
    longer.push(0);
    assert!(decode_snapshot(longer.as_slice()).is_none());
}

#[test]
fn decode_rejects_bad_team_byte() {
    let snap = sample_snapshot();
    let mut bytes = encode_snapshot(&snap);
    bytes[56] = 9; // not a team tag
    assert!(decode_snapshot(bytes.as_slice()).is_none());
}
