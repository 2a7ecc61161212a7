//! The wire form of a snapshot, as the render bridge sends and receives it.
//!
//! The payload is self-describing in length: a fixed-size prefix holds the
//! tick counter, the tick rate and the roster size, from which the total
//! payload size is computed before the rest is read. After the prefix come
//! the ball's nine kinematic words and one 41-byte record per agent.
//!
//! All multi-byte integers are little-endian.

use vstd::prelude::*;
use vstd::bytes::{
    lemma_auto_spec_u32_to_from_le_bytes, lemma_auto_spec_u64_to_from_le_bytes,
    spec_u32_from_le_bytes, spec_u32_to_le_bytes, spec_u64_from_le_bytes, spec_u64_to_le_bytes,
    u32_from_le_bytes, u32_to_le_bytes, u64_from_le_bytes, u64_to_le_bytes,
};
use vstd::slice::slice_subrange;
use crate::state::{BallState, CarData, GameSnapshot, Team, Vec3};

verus! {

/// Bytes in the fixed prefix: tick counter (8), tick rate (4), roster size (4).
pub const MIN_NUM_BYTES: usize = 16;

/// Bytes in one agent record: id (4), team (1), nine kinematic words (36).
pub const CAR_NUM_BYTES: usize = 41;

/// Bytes before the agent records: the prefix plus the ball's nine words.
pub const HEADER_NUM_BYTES: usize = 52;

/// Roster sizes above this bound are not encoded; the bound keeps every
/// payload size within `usize` on any target.
pub const MAX_ENCODED_CARS: usize = 0x0100_0000;

/// The wire form of one kinematic vector: three little-endian 32-bit words.
pub open spec fn spec_vec3_bytes(v: Vec3) -> Seq<u8> {
    spec_u32_to_le_bytes(v.x_bits) + spec_u32_to_le_bytes(v.y_bits)
        + spec_u32_to_le_bytes(v.z_bits)
}

/// The wire form of the ball: position, velocity, angular velocity.
pub open spec fn spec_ball_bytes(b: BallState) -> Seq<u8> {
    spec_vec3_bytes(b.pos) + spec_vec3_bytes(b.vel) + spec_vec3_bytes(b.ang_vel)
}

/// The byte that encodes a team tag.
pub open spec fn spec_team_byte(t: Team) -> u8 {
    match t {
        Team::Blue => 0u8,
        Team::Orange => 1u8,
    }
}

/// The wire form of one agent record.
pub open spec fn spec_car_bytes(c: CarData) -> Seq<u8> {
    spec_u32_to_le_bytes(c.id) + seq![spec_team_byte(c.team)] + spec_vec3_bytes(c.pos)
        + spec_vec3_bytes(c.vel) + spec_vec3_bytes(c.ang_vel)
}

/// The concatenated wire form of a roster, in order.
pub open spec fn spec_cars_bytes(cars: Seq<CarData>) -> Seq<u8>
    decreases cars.len(),
{
    if cars.len() == 0 {
        Seq::<u8>::empty()
    } else {
        spec_car_bytes(cars[0]) + spec_cars_bytes(cars.drop_first())
    }
}

/// Whether a snapshot fits the wire form: the roster size must fit the
/// prefix's 32-bit count and keep the payload size within `usize`.
pub open spec fn spec_encodable(s: GameSnapshot) -> bool {
    s.cars@.len() < MAX_ENCODED_CARS
}

/// The full wire form of a snapshot.
pub open spec fn spec_snapshot_bytes(s: GameSnapshot) -> Seq<u8> {
    spec_u64_to_le_bytes(s.tick_count) + spec_u32_to_le_bytes(s.tick_rate_bits)
        + spec_u32_to_le_bytes(s.cars@.len() as u32) + spec_ball_bytes(s.ball)
        + spec_cars_bytes(s.cars@)
}

/// Whether `bytes` is the wire form of some encodable snapshot.
pub open spec fn spec_some_snapshot_matches(bytes: Seq<u8>) -> bool {
    exists|s: GameSnapshot| spec_encodable(s) && spec_snapshot_bytes(s) == bytes
}

/// A roster's wire form is 41 bytes per agent.
pub proof fn lemma_cars_bytes_len(cars: Seq<CarData>)
    ensures
        spec_cars_bytes(cars).len() == CAR_NUM_BYTES * cars.len(),
    decreases cars.len(),
{
    lemma_auto_spec_u32_to_from_le_bytes();
    if cars.len() > 0 {
        lemma_cars_bytes_len(cars.drop_first());
    }
}

/// A snapshot's wire form is the 52-byte header plus 41 bytes per agent.
pub proof fn lemma_snapshot_bytes_len(s: GameSnapshot)
    ensures
        spec_snapshot_bytes(s).len() == HEADER_NUM_BYTES + CAR_NUM_BYTES * s.cars@.len(),
{
    lemma_auto_spec_u32_to_from_le_bytes();
    lemma_auto_spec_u64_to_from_le_bytes();
    lemma_cars_bytes_len(s.cars@);
}

/// Appending one agent to a roster appends its record to the wire form.
pub proof fn lemma_cars_bytes_push(cars: Seq<CarData>, c: CarData)
    ensures
        spec_cars_bytes(cars.push(c)) == spec_cars_bytes(cars) + spec_car_bytes(c),
    decreases cars.len(),
{
    if cars.len() == 0 {
        let p = cars.push(c);
        assert(p.len() == 1);
        assert(p[0] == c);
        assert(p.drop_first() =~= Seq::<CarData>::empty());
        assert(spec_cars_bytes(p.drop_first()) == Seq::<u8>::empty());
        assert(spec_cars_bytes(p) == spec_car_bytes(c) + Seq::<u8>::empty());
        assert(spec_cars_bytes(p) =~= spec_cars_bytes(cars) + spec_car_bytes(c));
    } else {
        assert(cars.push(c).drop_first() =~= cars.drop_first().push(c));
        lemma_cars_bytes_push(cars.drop_first(), c);
        assert(spec_cars_bytes(cars.push(c)) =~= spec_cars_bytes(cars) + spec_car_bytes(c));
    }
}

/// The record of agent `i` sits at offset `41 * i` of the roster's wire form.
pub proof fn lemma_cars_bytes_index(cars: Seq<CarData>, i: int)
    requires
        0 <= i < cars.len(),
    ensures
        spec_cars_bytes(cars).subrange(
            CAR_NUM_BYTES * i,
            CAR_NUM_BYTES * i + CAR_NUM_BYTES,
        ) == spec_car_bytes(cars[i]),
    decreases cars.len(),
{
    lemma_cars_bytes_len(cars);
    lemma_cars_bytes_len(cars.drop_first());
    lemma_car_bytes_len(cars[0]);
    if i == 0 {
        assert(spec_cars_bytes(cars).subrange(0, CAR_NUM_BYTES as int) =~= spec_car_bytes(
            cars[0],
        ));
    } else {
        lemma_cars_bytes_index(cars.drop_first(), i - 1);
        assert(spec_cars_bytes(cars).subrange(
            CAR_NUM_BYTES * i,
            CAR_NUM_BYTES * i + CAR_NUM_BYTES,
        ) =~= spec_cars_bytes(cars.drop_first()).subrange(
            CAR_NUM_BYTES * (i - 1),
            CAR_NUM_BYTES * (i - 1) + CAR_NUM_BYTES,
        ));
        assert(cars.drop_first()[i - 1] == cars[i]);
    }
}

/// One agent record is 41 bytes.
pub proof fn lemma_car_bytes_len(c: CarData)
    ensures
        spec_car_bytes(c).len() == CAR_NUM_BYTES,
{
    lemma_auto_spec_u32_to_from_le_bytes();
}

/// Append the wire form of one kinematic vector.
fn encode_vec3_into(out: &mut Vec<u8>, v: &Vec3)
    ensures
        final(out)@ == old(out)@ + spec_vec3_bytes(*v),
{
    let mut xs = u32_to_le_bytes(v.x_bits);
    out.append(&mut xs);
    let mut ys = u32_to_le_bytes(v.y_bits);
    out.append(&mut ys);
    let mut zs = u32_to_le_bytes(v.z_bits);
    out.append(&mut zs);
    assert(out@ =~= old(out)@ + spec_vec3_bytes(*v));
}

/// Encode a snapshot into its wire form.
pub fn encode_snapshot(s: &GameSnapshot) -> (out: Vec<u8>)
    requires
        spec_encodable(*s),
    ensures
        out@ == spec_snapshot_bytes(*s),
{
    proof {
        lemma_auto_spec_u32_to_from_le_bytes();
        lemma_auto_spec_u64_to_from_le_bytes();
    }
    let mut out: Vec<u8> = Vec::new();
    let mut tc = u64_to_le_bytes(s.tick_count);
    out.append(&mut tc);
    let mut tr = u32_to_le_bytes(s.tick_rate_bits);
    out.append(&mut tr);
    let mut nc = u32_to_le_bytes(s.cars.len() as u32);
    out.append(&mut nc);
    encode_vec3_into(&mut out, &s.ball.pos);
    encode_vec3_into(&mut out, &s.ball.vel);
    encode_vec3_into(&mut out, &s.ball.ang_vel);
    let ghost header = spec_u64_to_le_bytes(s.tick_count) + spec_u32_to_le_bytes(
        s.tick_rate_bits,
    ) + spec_u32_to_le_bytes(s.cars@.len() as u32) + spec_ball_bytes(s.ball);
    assert(out@ =~= header);
    let mut i: usize = 0;
    while i < s.cars.len()
        invariant
            0 <= i <= s.cars@.len(),
            out@ == header + spec_cars_bytes(s.cars@.take(i as int)),
        decreases s.cars@.len() - i,
    {
        let c = &s.cars[i];
        let mut ids = u32_to_le_bytes(c.id);
        out.append(&mut ids);
        out.push(team_byte(c.team));
        encode_vec3_into(&mut out, &c.pos);
        encode_vec3_into(&mut out, &c.vel);
        encode_vec3_into(&mut out, &c.ang_vel);
        proof {
            lemma_cars_bytes_push(s.cars@.take(i as int), s.cars@[i as int]);
            assert(s.cars@.take(i + 1) =~= s.cars@.take(i as int).push(s.cars@[i as int]));
            assert(out@ =~= header + spec_cars_bytes(s.cars@.take(i + 1)));
        }
        i = i + 1;
    }
    proof {
        assert(s.cars@.take(s.cars@.len() as int) =~= s.cars@);
        assert(out@ =~= spec_snapshot_bytes(*s));
    }
    out
}

/// Encode a team tag as its wire byte.
pub fn team_byte(t: Team) -> (b: u8)
    ensures
        b == spec_team_byte(t),
{
    match t {
        Team::Blue => 0u8,
        Team::Orange => 1u8,
    }
}

/// The smallest number of bytes a receiver must peek to learn a payload's
/// total size.
pub fn min_num_bytes() -> (n: usize)
    ensures
        n == MIN_NUM_BYTES,
{
    MIN_NUM_BYTES
}

/// The total payload size announced by a peeked prefix: the 32-bit roster
/// size at offset 12 determines everything after the header.
pub open spec fn spec_num_bytes(prefix: Seq<u8>) -> int {
    HEADER_NUM_BYTES + CAR_NUM_BYTES * spec_u32_from_le_bytes(prefix.subrange(12, 16))
}

/// Compute the total payload size from a peeked prefix. Returned as `u64`:
/// an adversarial roster count may announce a size beyond `usize`.
pub fn num_bytes_from_prefix(prefix: &[u8]) -> (n: u64)
    requires
        prefix@.len() >= MIN_NUM_BYTES,
    ensures
        n == spec_num_bytes(prefix@),
{
    let count = u32_from_le_bytes(slice_subrange(prefix, 12, 16));
    HEADER_NUM_BYTES as u64 + CAR_NUM_BYTES as u64 * count as u64
}

/// Where each field of an encodable snapshot sits in its wire form.
pub proof fn lemma_snapshot_bytes_fields(s: GameSnapshot)
    requires
        spec_encodable(s),
    ensures
        spec_snapshot_bytes(s).len() == HEADER_NUM_BYTES + CAR_NUM_BYTES * s.cars@.len(),
        spec_snapshot_bytes(s).subrange(0, 8) == spec_u64_to_le_bytes(s.tick_count),
        spec_snapshot_bytes(s).subrange(8, 12) == spec_u32_to_le_bytes(s.tick_rate_bits),
        spec_snapshot_bytes(s).subrange(12, 16) == spec_u32_to_le_bytes(s.cars@.len() as u32),
        spec_snapshot_bytes(s).subrange(16, 28) == spec_vec3_bytes(s.ball.pos),
        spec_snapshot_bytes(s).subrange(28, 40) == spec_vec3_bytes(s.ball.vel),
        spec_snapshot_bytes(s).subrange(40, 52) == spec_vec3_bytes(s.ball.ang_vel),
        spec_snapshot_bytes(s).subrange(
            HEADER_NUM_BYTES as int,
            spec_snapshot_bytes(s).len() as int,
        ) == spec_cars_bytes(s.cars@),
{
    lemma_auto_spec_u32_to_from_le_bytes();
    lemma_auto_spec_u64_to_from_le_bytes();
    lemma_cars_bytes_len(s.cars@);
    let b = spec_snapshot_bytes(s);
    assert(b.subrange(0, 8) =~= spec_u64_to_le_bytes(s.tick_count));
    assert(b.subrange(8, 12) =~= spec_u32_to_le_bytes(s.tick_rate_bits));
    assert(b.subrange(12, 16) =~= spec_u32_to_le_bytes(s.cars@.len() as u32));
    assert(b.subrange(16, 28) =~= spec_vec3_bytes(s.ball.pos));
    assert(b.subrange(28, 40) =~= spec_vec3_bytes(s.ball.vel));
    assert(b.subrange(40, 52) =~= spec_vec3_bytes(s.ball.ang_vel));
    assert(b.subrange(HEADER_NUM_BYTES as int, b.len() as int) =~= spec_cars_bytes(s.cars@));
}

/// Where each field of an agent record sits in its 41 bytes.
pub proof fn lemma_car_bytes_fields(c: CarData)
    ensures
        spec_car_bytes(c).len() == CAR_NUM_BYTES,
        spec_car_bytes(c).subrange(0, 4) == spec_u32_to_le_bytes(c.id),
        spec_car_bytes(c)[4] == spec_team_byte(c.team),
        spec_car_bytes(c).subrange(5, 17) == spec_vec3_bytes(c.pos),
        spec_car_bytes(c).subrange(17, 29) == spec_vec3_bytes(c.vel),
        spec_car_bytes(c).subrange(29, 41) == spec_vec3_bytes(c.ang_vel),
{
    lemma_auto_spec_u32_to_from_le_bytes();
    let b = spec_car_bytes(c);
    assert(b.subrange(0, 4) =~= spec_u32_to_le_bytes(c.id));
    assert(b.subrange(5, 17) =~= spec_vec3_bytes(c.pos));
    assert(b.subrange(17, 29) =~= spec_vec3_bytes(c.vel));
    assert(b.subrange(29, 41) =~= spec_vec3_bytes(c.ang_vel));
}

/// Two kinematic vectors with the same wire form are the same.
pub proof fn lemma_vec3_bytes_injective(v1: Vec3, v2: Vec3)
    requires
        spec_vec3_bytes(v1) == spec_vec3_bytes(v2),
    ensures
        v1 == v2,
{
    lemma_auto_spec_u32_to_from_le_bytes();
    let b1 = spec_vec3_bytes(v1);
    let b2 = spec_vec3_bytes(v2);
    assert(b1.subrange(0, 4) =~= spec_u32_to_le_bytes(v1.x_bits));
    assert(b1.subrange(4, 8) =~= spec_u32_to_le_bytes(v1.y_bits));
    assert(b1.subrange(8, 12) =~= spec_u32_to_le_bytes(v1.z_bits));
    assert(b2.subrange(0, 4) =~= spec_u32_to_le_bytes(v2.x_bits));
    assert(b2.subrange(4, 8) =~= spec_u32_to_le_bytes(v2.y_bits));
    assert(b2.subrange(8, 12) =~= spec_u32_to_le_bytes(v2.z_bits));
    assert(spec_u32_from_le_bytes(spec_u32_to_le_bytes(v1.x_bits)) == v1.x_bits);
}

/// Two agent records with the same wire form are the same.
pub proof fn lemma_car_bytes_injective(c1: CarData, c2: CarData)
    requires
        spec_car_bytes(c1) == spec_car_bytes(c2),
    ensures
        c1 == c2,
{
    lemma_auto_spec_u32_to_from_le_bytes();
    lemma_car_bytes_fields(c1);
    lemma_car_bytes_fields(c2);
    assert(spec_u32_from_le_bytes(spec_u32_to_le_bytes(c1.id)) == c1.id);
    assert(spec_team_byte(c1.team) == spec_team_byte(c2.team));
    assert(c1.team == c2.team);
    lemma_vec3_bytes_injective(c1.pos, c2.pos);
    lemma_vec3_bytes_injective(c1.vel, c2.vel);
    lemma_vec3_bytes_injective(c1.ang_vel, c2.ang_vel);
}

/// Round trip: two encodable snapshots with the same wire form agree on the
/// tick counter, the tick rate, the ball and every agent record, bit for bit.
/// A snapshot sent out and fed back as an override therefore re-reads to the
/// same kinematics.
pub proof fn lemma_snapshot_bytes_injective(s1: GameSnapshot, s2: GameSnapshot)
    requires
        spec_encodable(s1),
        spec_encodable(s2),
        spec_snapshot_bytes(s1) == spec_snapshot_bytes(s2),
    ensures
        s1.tick_count == s2.tick_count,
        s1.tick_rate_bits == s2.tick_rate_bits,
        s1.ball == s2.ball,
        s1.cars@ == s2.cars@,
{
    lemma_auto_spec_u32_to_from_le_bytes();
    lemma_auto_spec_u64_to_from_le_bytes();
    lemma_snapshot_bytes_fields(s1);
    lemma_snapshot_bytes_fields(s2);
    assert(spec_u64_from_le_bytes(spec_u64_to_le_bytes(s1.tick_count)) == s1.tick_count);
    assert(spec_u32_from_le_bytes(spec_u32_to_le_bytes(s1.tick_rate_bits))
        == s1.tick_rate_bits);
    lemma_vec3_bytes_injective(s1.ball.pos, s2.ball.pos);
    lemma_vec3_bytes_injective(s1.ball.vel, s2.ball.vel);
    lemma_vec3_bytes_injective(s1.ball.ang_vel, s2.ball.ang_vel);
    let n1 = s1.cars@.len();
    let n2 = s2.cars@.len();
    assert(spec_u32_from_le_bytes(spec_u32_to_le_bytes(n1 as u32)) == n1 as u32);
    assert(spec_u32_from_le_bytes(spec_u32_to_le_bytes(n2 as u32)) == n2 as u32);
    assert(n1 == n2);
    assert forall|i: int| 0 <= i < n1 implies s1.cars@[i] == s2.cars@[i] by {
        lemma_cars_bytes_index(s1.cars@, i);
        lemma_cars_bytes_index(s2.cars@, i);
        lemma_car_bytes_injective(s1.cars@[i], s2.cars@[i]);
    }
    assert(s1.cars@ =~= s2.cars@);
}

/// Read one kinematic vector from its 12 bytes at `off`.
fn decode_vec3(bytes: &[u8], off: usize) -> (v: Vec3)
    requires
        off + 12 <= bytes@.len(),
    ensures
        spec_vec3_bytes(v) == bytes@.subrange(off as int, off + 12),
{
    proof {
        lemma_auto_spec_u32_to_from_le_bytes();
    }
    let _blen = bytes.len();
    let x_bits = u32_from_le_bytes(slice_subrange(bytes, off, off + 4));
    let y_bits = u32_from_le_bytes(slice_subrange(bytes, off + 4, off + 8));
    let z_bits = u32_from_le_bytes(slice_subrange(bytes, off + 8, off + 12));
    let v = Vec3 { x_bits, y_bits, z_bits };
    proof {
        assert(spec_vec3_bytes(v) =~= bytes@.subrange(off as int, off + 12));
    }
    v
}

/// Decode a payload back into a snapshot. Returns the snapshot whose wire
/// form is exactly `bytes`; a payload that is the wire form of no encodable
/// snapshot is malformed and yields `None`.
pub fn decode_snapshot(bytes: &[u8]) -> (r: Option<GameSnapshot>)
    ensures
        (match r {
            Some(s) => spec_encodable(s) && spec_snapshot_bytes(s) == bytes@,
            None => !spec_some_snapshot_matches(bytes@),
        }),
{
    proof {
        lemma_auto_spec_u32_to_from_le_bytes();
        lemma_auto_spec_u64_to_from_le_bytes();
    }
    if bytes.len() < HEADER_NUM_BYTES {
        proof {
            assert forall|s: GameSnapshot|
                !(spec_encodable(s) && spec_snapshot_bytes(s) == bytes@) by {
                if spec_encodable(s) {
                    lemma_snapshot_bytes_len(s);
                }
            }
        }
        return None;
    }
    let tick_count = u64_from_le_bytes(slice_subrange(bytes, 0, 8));
    let tick_rate_bits = u32_from_le_bytes(slice_subrange(bytes, 8, 12));
    let count = u32_from_le_bytes(slice_subrange(bytes, 12, 16));
    if count as u64 >= MAX_ENCODED_CARS as u64 {
        proof {
            assert forall|s: GameSnapshot|
                !(spec_encodable(s) && spec_snapshot_bytes(s) == bytes@) by {
                if spec_encodable(s) && spec_snapshot_bytes(s) == bytes@ {
                    lemma_snapshot_bytes_fields(s);
                }
            }
        }
        return None;
    }
    let n = count as usize;
    let expected: u64 = HEADER_NUM_BYTES as u64 + CAR_NUM_BYTES as u64 * count as u64;
    if bytes.len() as u64 != expected {
        proof {
            assert forall|s: GameSnapshot|
                !(spec_encodable(s) && spec_snapshot_bytes(s) == bytes@) by {
                if spec_encodable(s) && spec_snapshot_bytes(s) == bytes@ {
                    lemma_snapshot_bytes_fields(s);
                }
            }
        }
        return None;
    }
    let ball = BallState {
        pos: decode_vec3(bytes, 16),
        vel: decode_vec3(bytes, 28),
        ang_vel: decode_vec3(bytes, 40),
    };
    let mut cars: Vec<CarData> = Vec::new();
    let mut i: usize = 0;
    while i < n
        invariant
            0 <= i <= n,
            n == count,
            n < MAX_ENCODED_CARS,
            bytes@.len() == HEADER_NUM_BYTES + CAR_NUM_BYTES * n,
            cars@.len() == i,
            spec_cars_bytes(cars@) == bytes@.subrange(
                HEADER_NUM_BYTES as int,
                HEADER_NUM_BYTES + CAR_NUM_BYTES * i,
            ),
        decreases n - i,
    {
        proof {
            lemma_auto_spec_u32_to_from_le_bytes();
            lemma_auto_spec_u64_to_from_le_bytes();
        }
        let _blen = bytes.len();
        let off = HEADER_NUM_BYTES + CAR_NUM_BYTES * i;
        let id = u32_from_le_bytes(slice_subrange(bytes, off, off + 4));
        let team_b = *vstd::slice::slice_index_get(bytes, off + 4);
        let team = if team_b == 0 {
            Team::Blue
        } else if team_b == 1 {
            Team::Orange
        } else {
            proof {
                assert forall|s: GameSnapshot|
                    !(spec_encodable(s) && spec_snapshot_bytes(s) == bytes@) by {
                    if spec_encodable(s) && spec_snapshot_bytes(s) == bytes@ {
                        lemma_snapshot_bytes_fields(s);
                        lemma_auto_spec_u32_to_from_le_bytes();
                        assert(s.cars@.len() == n);
                        lemma_cars_bytes_index(s.cars@, i as int);
                        lemma_car_bytes_fields(s.cars@[i as int]);
                        assert(spec_cars_bytes(s.cars@)[CAR_NUM_BYTES * i + 4]
                            == spec_car_bytes(s.cars@[i as int])[4]);
                        assert(bytes@[off + 4] == spec_team_byte(s.cars@[i as int].team));
                    }
                }
            }
            return None;
        };
        let pos = decode_vec3(bytes, off + 5);
        let vel = decode_vec3(bytes, off + 17);
        let ang_vel = decode_vec3(bytes, off + 29);
        let car = CarData { id, team, pos, vel, ang_vel };
        proof {
            lemma_car_bytes_fields(car);
            assert(spec_car_bytes(car) =~= bytes@.subrange(off as int, off + CAR_NUM_BYTES));
            lemma_cars_bytes_push(cars@, car);
            assert(spec_cars_bytes(cars@.push(car)) =~= bytes@.subrange(
                HEADER_NUM_BYTES as int,
                HEADER_NUM_BYTES + CAR_NUM_BYTES * (i + 1),
            ));
        }
        cars.push(car);
        i = i + 1;
    }
    let s = GameSnapshot { tick_count, tick_rate_bits, ball, cars };
    proof {
        assert(spec_snapshot_bytes(s) =~= bytes@);
    }
    Some(s)
}

/// The size a snapshot's own prefix announces is the size of its wire form:
/// the encoding is self-describing in length.
pub proof fn lemma_encoding_self_describing(s: GameSnapshot)
    requires
        spec_encodable(s),
    ensures
        spec_snapshot_bytes(s).len() >= MIN_NUM_BYTES,
        spec_num_bytes(spec_snapshot_bytes(s)) == spec_snapshot_bytes(s).len(),
{
    lemma_auto_spec_u32_to_from_le_bytes();
    lemma_auto_spec_u64_to_from_le_bytes();
    lemma_snapshot_bytes_len(s);
    assert(spec_snapshot_bytes(s).subrange(12, 16) =~= spec_u32_to_le_bytes(
        s.cars@.len() as u32,
    ));
}

} // verus!
