//! The render bridge: the one-byte-tagged datagram protocol spoken with the
//! external viewer, and the session state the bridge keeps between steps.
//!
//! The transport is lossy and never waited on; the session only decides what
//! is sent, in which order, and what each inbound packet means. The driving
//! loop owns the socket, performs the sends and the non-blocking drain, and
//! feeds received bytes back in.

use vstd::prelude::*;
use crate::state::GameSnapshot;

verus! {

/// The tag byte that leads every datagram exchanged with the viewer.
#[derive(Clone, Copy, PartialEq, Eq, Structural, Debug)]
pub enum PacketTag {
    /// Outbound: the bridge is shutting down.
    Quit,
    /// Either direction: a serialized snapshot follows in the next datagram.
    GameState,
    /// Outbound handshake announcing presence; informational when received.
    Connection,
    /// Inbound: a one-byte pause flag follows.
    Paused,
    /// Inbound: a four-byte speed multiplier follows.
    Speed,
    /// Reserved; never sent and never expected.
    Render,
}

/// The byte value that encodes a tag on the wire.
pub open spec fn tag_byte_spec(t: PacketTag) -> u8 {
    match t {
        PacketTag::Quit => 0u8,
        PacketTag::GameState => 1u8,
        PacketTag::Connection => 2u8,
        PacketTag::Paused => 3u8,
        PacketTag::Speed => 4u8,
        PacketTag::Render => 5u8,
    }
}

/// The tag a received byte decodes to; bytes outside the table are malformed.
pub open spec fn tag_of_byte_spec(b: u8) -> Option<PacketTag> {
    if b == 0 {
        Some(PacketTag::Quit)
    } else if b == 1 {
        Some(PacketTag::GameState)
    } else if b == 2 {
        Some(PacketTag::Connection)
    } else if b == 3 {
        Some(PacketTag::Paused)
    } else if b == 4 {
        Some(PacketTag::Speed)
    } else if b == 5 {
        Some(PacketTag::Render)
    } else {
        None
    }
}

impl PacketTag {
    /// Encode the tag as its wire byte.
    pub fn to_byte(self) -> (r: u8)
        ensures
            r == tag_byte_spec(self),
    {
        match self {
            PacketTag::Quit => 0u8,
            PacketTag::GameState => 1u8,
            PacketTag::Connection => 2u8,
            PacketTag::Paused => 3u8,
            PacketTag::Speed => 4u8,
            PacketTag::Render => 5u8,
        }
    }

    /// Decode a received byte; an unknown byte is a malformed packet, not a
    /// crash.
    pub fn from_byte(b: u8) -> (r: Option<PacketTag>)
        ensures
            r == tag_of_byte_spec(b),
    {
        if b == 0 {
            Some(PacketTag::Quit)
        } else if b == 1 {
            Some(PacketTag::GameState)
        } else if b == 2 {
            Some(PacketTag::Connection)
        } else if b == 3 {
            Some(PacketTag::Paused)
        } else if b == 4 {
            Some(PacketTag::Speed)
        } else if b == 5 {
            Some(PacketTag::Render)
        } else {
            None
        }
    }
}

/// Encoding then decoding a tag gives the tag back.
pub proof fn lemma_tag_byte_round_trip(t: PacketTag)
    ensures
        tag_of_byte_spec(tag_byte_spec(t)) == Some(t),
{
}

/// What the driving loop must do next with a received tag.
#[derive(Clone, Copy, PartialEq, Eq, Structural, Debug)]
pub enum InboundAction {
    /// An override snapshot follows: peek its prefix, size a buffer from it,
    /// read the whole payload, then decode and apply it best-effort.
    ReadState,
    /// The peer confirmed the connection; nothing follows.
    Acknowledge,
    /// A four-byte speed multiplier follows.
    ReadSpeed,
    /// A one-byte pause flag follows.
    ReadPaused,
    /// An unknown tag byte: a malformed packet, to be skipped.
    Malformed,
    /// A tag the bridge never expects to receive: a protocol violation, and
    /// fatal to the caller.
    Fatal,
}

/// One rendering session with the external viewer: the protocol state the
/// bridge keeps between steps. The transport itself (socket, peer address)
/// lives with the driving loop; the session decides what is sent, in which
/// order, and what each inbound packet means.
pub struct RenderSession {
    /// Whether the peer asked to pause stepping.
    pub paused: bool,
    /// Ticks advanced per environment step, fixed for the session.
    pub tick_skip: u32,
    /// The step interval the peer last commanded, in nanoseconds.
    pub interval_nanos: u64,
    /// Whether the closing `Quit` packet has been issued.
    pub closed: bool,
    /// The tags of every outbound packet issued so far, in order.
    pub sent: Ghost<Seq<PacketTag>>,
}

impl RenderSession {
    /// The outbound discipline: the trace starts with one `Connection`
    /// packet, every later packet is a snapshot mirror, except that a closed
    /// session's last packet is `Quit`.
    pub open spec fn wf(self) -> bool {
        &&& self.sent@.len() >= 1
        &&& self.sent@[0] == PacketTag::Connection
        &&& (if self.closed {
            &&& self.sent@.last() == PacketTag::Quit
            &&& forall|i: int|
                1 <= i < self.sent@.len() - 1 ==> self.sent@[i] == PacketTag::GameState
        } else {
            forall|i: int| 1 <= i < self.sent@.len() ==> self.sent@[i] == PacketTag::GameState
        })
    }

    /// Open a session: the returned byte is the handshake `Connection`
    /// packet, to be sent before anything else. The interval starts at one
    /// step per `tick_skip` ticks at the base rate.
    pub fn start(tick_skip: u32) -> (r: (RenderSession, u8))
        ensures
            r.0.wf(),
            !r.0.closed,
            !r.0.paused,
            r.0.tick_skip == tick_skip,
            r.0.interval_nanos == tick_skip * crate::speed::NANOS_PER_SEC as int
                / crate::speed::BASE_TICK_RATE as int,
            r.0.sent@ == seq![PacketTag::Connection],
            r.1 == tag_byte_spec(PacketTag::Connection),
    {
        let interval_nanos = tick_skip as u64 * crate::speed::NANOS_PER_SEC
            / crate::speed::BASE_TICK_RATE as u64;
        let ghost trace = seq![PacketTag::Connection];
        let s = RenderSession {
            paused: false,
            tick_skip,
            interval_nanos,
            closed: false,
            sent: Ghost(trace),
        };
        (s, PacketTag::Connection.to_byte())
    }

    /// Whether the peer asked to pause stepping.
    pub fn is_paused(&self) -> (r: bool)
        ensures
            r == self.paused,
    {
        self.paused
    }

    /// The step interval the peer last commanded, in nanoseconds.
    pub fn step_interval_nanos(&self) -> (r: u64)
        ensures
            r == self.interval_nanos,
    {
        self.interval_nanos
    }

    /// Mirror a snapshot to the viewer: a `GameState` tag packet, then the
    /// serialized snapshot as a second packet.
    pub fn mirror_state(&mut self, snap: &GameSnapshot) -> (r: (u8, Vec<u8>))
        requires
            old(self).wf(),
            !old(self).closed,
            crate::codec::spec_encodable(*snap),
        ensures
            final(self).wf(),
            r.0 == tag_byte_spec(PacketTag::GameState),
            r.1@ == crate::codec::spec_snapshot_bytes(*snap),
            final(self).sent@ == old(self).sent@.push(PacketTag::GameState),
            final(self).closed == old(self).closed,
            final(self).paused == old(self).paused,
            final(self).tick_skip == old(self).tick_skip,
            final(self).interval_nanos == old(self).interval_nanos,
    {
        let payload = crate::codec::encode_snapshot(snap);
        proof {
            self.sent@ = self.sent@.push(PacketTag::GameState);
        }
        (PacketTag::GameState.to_byte(), payload)
    }

    /// Decide what a received tag byte asks of the driving loop. `Quit` and
    /// `Render` are never expected from the peer and are fatal; an unknown
    /// byte is merely malformed.
    pub fn handle_tag(&self, b: u8) -> (act: InboundAction)
        ensures
            act == (match tag_of_byte_spec(b) {
                Some(PacketTag::GameState) => InboundAction::ReadState,
                Some(PacketTag::Connection) => InboundAction::Acknowledge,
                Some(PacketTag::Speed) => InboundAction::ReadSpeed,
                Some(PacketTag::Paused) => InboundAction::ReadPaused,
                Some(PacketTag::Quit) => InboundAction::Fatal,
                Some(PacketTag::Render) => InboundAction::Fatal,
                None => InboundAction::Malformed,
            }),
    {
        match PacketTag::from_byte(b) {
            Some(PacketTag::GameState) => InboundAction::ReadState,
            Some(PacketTag::Connection) => InboundAction::Acknowledge,
            Some(PacketTag::Speed) => InboundAction::ReadSpeed,
            Some(PacketTag::Paused) => InboundAction::ReadPaused,
            Some(PacketTag::Quit) => InboundAction::Fatal,
            Some(PacketTag::Render) => InboundAction::Fatal,
            None => InboundAction::Malformed,
        }
    }

    /// Apply a received four-byte speed multiplier: a valid multiplier sets
    /// the step interval to `tick_skip / (120 * multiplier)` seconds; any
    /// other is ignored.
    pub fn apply_speed(&mut self, payload: &[u8])
        requires
            payload@.len() == 4,
        ensures
            ({
                let bits = vstd::bytes::spec_u32_from_le_bytes(payload@);
                final(self).interval_nanos == (if crate::speed::spec_speed_valid(bits) {
                    crate::speed::spec_interval_nanos(old(self).tick_skip, bits)
                } else {
                    old(self).interval_nanos
                })
            }),
            final(self).paused == old(self).paused,
            final(self).closed == old(self).closed,
            final(self).tick_skip == old(self).tick_skip,
            final(self).sent == old(self).sent,
    {
        let bits = vstd::bytes::u32_from_le_bytes(payload);
        let e: u32 = bits >> 23u32;
        if bits < 0x8000_0000 && 1 <= e && e < 255 {
            self.interval_nanos = crate::speed::interval_nanos_from_speed(self.tick_skip, bits);
        }
    }

    /// Apply a received one-byte pause flag: the byte one pauses, any other
    /// byte resumes.
    pub fn apply_paused(&mut self, b: u8)
        ensures
            final(self).paused == (b == 1),
            final(self).closed == old(self).closed,
            final(self).tick_skip == old(self).tick_skip,
            final(self).interval_nanos == old(self).interval_nanos,
            final(self).sent == old(self).sent,
    {
        self.paused = b == 1;
    }

    /// Close the session: the returned byte is the `Quit` packet, the last
    /// packet of the session; nothing may be issued after it.
    pub fn quit(&mut self) -> (b: u8)
        requires
            old(self).wf(),
            !old(self).closed,
        ensures
            final(self).wf(),
            final(self).closed,
            b == tag_byte_spec(PacketTag::Quit),
            final(self).sent@ == old(self).sent@.push(PacketTag::Quit),
            final(self).paused == old(self).paused,
            final(self).tick_skip == old(self).tick_skip,
            final(self).interval_nanos == old(self).interval_nanos,
    {
        self.closed = true;
        proof {
            self.sent@ = self.sent@.push(PacketTag::Quit);
        }
        PacketTag::Quit.to_byte()
    }
}

/// The handshake discipline, read off a well-formed session: the first
/// packet ever sent is the one `Connection` packet, no later packet is a
/// `Connection`, and a `Quit` can only be the last packet of a session that
/// is closed.
pub proof fn lemma_session_trace(s: RenderSession)
    requires
        s.wf(),
    ensures
        s.sent@[0] == PacketTag::Connection,
        forall|i: int| 0 < i < s.sent@.len() ==> s.sent@[i] != PacketTag::Connection,
        forall|i: int|
            0 <= i < s.sent@.len() && s.sent@[i] == PacketTag::Quit ==> i == s.sent@.len() - 1
                && s.closed,
{
}

} // verus!
