//! The state of a single turtle connection and how incoming packets and
//! stream events change it.

use vstd::prelude::*;

use crate::models::simplify_digging::{Facing, Fuel, Position, SimplifyPacket, States};
use crate::websockets::clock::{utc_now, Timestamp};

verus! {

/// Complete state snapshot of a turtle's digging operation.
#[derive(Debug, Clone, PartialEq, Eq)]
pub struct DiggingData {
    /// Computer ID of the turtle
    pub turtle_id: u16,
    /// Current 3D position in the world
    pub pos: Position,
    /// Direction the turtle is facing
    pub facing: Facing,
    /// Current fuel level
    pub fuel: Fuel,
    /// Current operational state
    pub state: States,
    /// Progress percentage (0.0 to 100.0), as the bit pattern of a 32-bit float
    pub completion_percent_bits: u32,
    /// Arguments passed when the turtle program started, as JSON text
    pub program_arguments: String,
}

/// The snapshot of a turtle that has reported nothing yet.
pub open spec fn initial_data(d: DiggingData) -> bool {
    &&& d.turtle_id == 0
    &&& d.pos == Position { x: 0, y: 0, z: 0 }
    &&& d.facing == Facing::North
    &&& d.fuel == Fuel::Limited(0)
    &&& d.state == States::Init
    &&& d.completion_percent_bits == 0
    &&& d.program_arguments@ == "null"@
}

impl Default for DiggingData {
    fn default() -> (d: Self)
        ensures
            initial_data(d),
    {
        DiggingData {
            turtle_id: 0,
            pos: Position { x: 0, y: 0, z: 0 },
            facing: Facing::North,
            fuel: Fuel::Limited(0),
            state: States::Init,
            completion_percent_bits: 0,
            program_arguments: String::from_str("null"),
        }
    }
}

/// The snapshot after a packet: `Init` sets the turtle id and arguments,
/// `State` the state, `Status` position, facing and fuel, `Completion` the
/// progress; every other packet leaves the snapshot as it was.
pub open spec fn data_after(d: DiggingData, packet: SimplifyPacket) -> DiggingData {
    match packet {
        SimplifyPacket::Init { program_arguments, turtle_id } => DiggingData {
            turtle_id,
            program_arguments,
            ..d
        },
        SimplifyPacket::State { state } => DiggingData { state, ..d },
        SimplifyPacket::Status { pos, facing, fuel } => DiggingData { pos, facing, fuel, ..d },
        SimplifyPacket::Completion { completion_percent_bits } => DiggingData {
            completion_percent_bits,
            ..d
        },
        _ => d,
    }
}

/// What each packet does to the snapshot, field by field: `Init` sets the
/// turtle id and arguments, `State` the state, `Status` the position, facing
/// and fuel, `Completion` the progress, and every other field keeps its value;
/// the other packets change nothing.
pub proof fn lemma_packet_sets_its_fields(d: DiggingData, p: SimplifyPacket)
    ensures
            p matches SimplifyPacket::Init { program_arguments, turtle_id } ==> {
                &&& data_after(d, p).turtle_id == turtle_id
                &&& data_after(d, p).program_arguments == program_arguments
                &&& data_after(d, p).pos == d.pos && data_after(d, p).facing == d.facing && data_after(d, p).fuel == d.fuel
                &&& data_after(d, p).state == d.state
                &&& data_after(d, p).completion_percent_bits == d.completion_percent_bits
            },
            p matches SimplifyPacket::State { state } ==> {
                &&& data_after(d, p).state == state
                &&& data_after(d, p).turtle_id == d.turtle_id
                &&& data_after(d, p).program_arguments == d.program_arguments
                &&& data_after(d, p).pos == d.pos && data_after(d, p).facing == d.facing && data_after(d, p).fuel == d.fuel
                &&& data_after(d, p).completion_percent_bits == d.completion_percent_bits
            },
            p matches SimplifyPacket::Status { pos, facing, fuel } ==> {
                &&& data_after(d, p).pos == pos && data_after(d, p).facing == facing && data_after(d, p).fuel == fuel
                &&& data_after(d, p).turtle_id == d.turtle_id
                &&& data_after(d, p).program_arguments == d.program_arguments
                &&& data_after(d, p).state == d.state
                &&& data_after(d, p).completion_percent_bits == d.completion_percent_bits
            },
            p matches SimplifyPacket::Completion { completion_percent_bits } ==> {
                &&& data_after(d, p).completion_percent_bits == completion_percent_bits
                &&& data_after(d, p).turtle_id == d.turtle_id
                &&& data_after(d, p).program_arguments == d.program_arguments
                &&& data_after(d, p).pos == d.pos && data_after(d, p).facing == d.facing && data_after(d, p).fuel == d.fuel
                &&& data_after(d, p).state == d.state
            },
            (p is Keepalive || p is Complete || p is Panic || p is Error) ==> data_after(d, p) == d,
{
}

/// Receiving the same packet twice leaves the same snapshot as receiving it
/// once.
pub proof fn lemma_packet_repeat_is_idempotent(d: DiggingData, p: SimplifyPacket)
    ensures
        data_after(data_after(d, p), p) == data_after(d, p),
{
}

/// Keepalives and the completion, panic and error reports leave the
/// snapshot as it was.
pub proof fn lemma_reports_without_data_keep_snapshot(d: DiggingData, p: SimplifyPacket)
    requires
        p is Keepalive || p is Complete || p is Panic || p is Error,
    ensures
        data_after(d, p) == d,
{
}

/// Packets of different kinds change different parts of the snapshot, so
/// the order in which two of them arrive does not matter.
pub proof fn lemma_packets_of_different_kinds_commute(
    d: DiggingData,
    p: SimplifyPacket,
    q: SimplifyPacket,
)
    requires
        !(p is Init && q is Init),
        !(p is State && q is State),
        !(p is Status && q is Status),
        !(p is Completion && q is Completion),
    ensures
        data_after(data_after(d, p), q) == data_after(data_after(d, q), p),
{
}

/// What one connection has learned about its turtle.
pub struct WebSocketSessionActor {
    /// Unique identifier for this session
    pub uuid: u128,
    /// Instant of the last keepalive message received
    pub last_keepalive: Timestamp,
    /// Current digging state data for this turtle
    pub data: DiggingData,
}

/// Something that happened on a connection's message stream.
#[derive(Debug, Clone, PartialEq, Eq)]
pub enum SessionEvent {
    /// The stream started.
    Started,
    /// A text message that parsed as a packet.
    Packet(SimplifyPacket),
    /// A text message that did not parse as a packet.
    UnreadableText,
    /// A binary message.
    Binary,
    /// A ping.
    Ping,
    /// A pong.
    Pong,
    /// The client closed the connection.
    Close,
    /// The stream reported an error.
    StreamError,
    /// The stream ended.
    Finished,
}

/// What the connection should do after an event.
#[derive(Debug, Clone, Copy, PartialEq, Eq, Structural)]
pub enum SessionAction {
    /// Keep reading the stream.
    Continue,
    /// Stop the session.
    Stop,
}

/// The events after which a session stops.
pub open spec fn ends_session(event: SessionEvent) -> bool {
    event is Close || event is StreamError || event is Finished
}

impl WebSocketSessionActor {
    /// A new session, whose last keepalive is the given instant.
    pub fn new_at(uuid: u128, now: Timestamp) -> (s: Self)
        ensures
            s.uuid == uuid,
            s.last_keepalive == now,
            initial_data(s.data),
    {
        WebSocketSessionActor { uuid, last_keepalive: now, data: DiggingData::default() }
    }

    /// A new session, whose last keepalive is the time of creation.
    pub fn new(uuid: u128) -> (s: Self)
        ensures
            s.uuid == uuid,
            s.last_keepalive.wf(),
            s.last_keepalive.secs >= 0,
            initial_data(s.data),
    {
        let now = utc_now();
        Self::new_at(uuid, now)
    }

    /// Applies a packet received at instant `now`: a keepalive records `now`,
    /// the other packets change the snapshot as `data_after` says.
    pub fn handle_packet_at(&mut self, packet: SimplifyPacket, now: Timestamp)
        ensures
            final(self).uuid == old(self).uuid,
            final(self).data == data_after(old(self).data, packet),
            packet matches SimplifyPacket::Init { program_arguments, turtle_id } ==> {
                &&& final(self).data.turtle_id == turtle_id
                &&& final(self).data.program_arguments == program_arguments
                &&& final(self).data.pos == old(self).data.pos && final(self).data.facing == old(self).data.facing && final(self).data.fuel == old(self).data.fuel
                &&& final(self).data.state == old(self).data.state
                &&& final(self).data.completion_percent_bits == old(self).data.completion_percent_bits
            },
            packet matches SimplifyPacket::State { state } ==> {
                &&& final(self).data.state == state
                &&& final(self).data.turtle_id == old(self).data.turtle_id
                &&& final(self).data.program_arguments == old(self).data.program_arguments
                &&& final(self).data.pos == old(self).data.pos && final(self).data.facing == old(self).data.facing && final(self).data.fuel == old(self).data.fuel
                &&& final(self).data.completion_percent_bits == old(self).data.completion_percent_bits
            },
            packet matches SimplifyPacket::Status { pos, facing, fuel } ==> {
                &&& final(self).data.pos == pos && final(self).data.facing == facing && final(self).data.fuel == fuel
                &&& final(self).data.turtle_id == old(self).data.turtle_id
                &&& final(self).data.program_arguments == old(self).data.program_arguments
                &&& final(self).data.state == old(self).data.state
                &&& final(self).data.completion_percent_bits == old(self).data.completion_percent_bits
            },
            packet matches SimplifyPacket::Completion { completion_percent_bits } ==> {
                &&& final(self).data.completion_percent_bits == completion_percent_bits
                &&& final(self).data.turtle_id == old(self).data.turtle_id
                &&& final(self).data.program_arguments == old(self).data.program_arguments
                &&& final(self).data.pos == old(self).data.pos && final(self).data.facing == old(self).data.facing && final(self).data.fuel == old(self).data.fuel
                &&& final(self).data.state == old(self).data.state
            },
            (packet is Keepalive || packet is Complete || packet is Panic || packet is Error) ==> final(self).data == old(self).data,
            final(self).last_keepalive == (if packet is Keepalive {
                now
            } else {
                old(self).last_keepalive
            }),
    {
        match packet {
            SimplifyPacket::Init { program_arguments, turtle_id } => {
                self.data.turtle_id = turtle_id;
                self.data.program_arguments = program_arguments;
            },
            SimplifyPacket::Keepalive => {
                self.last_keepalive = now;
            },
            SimplifyPacket::State { state } => {
                self.data.state = state;
            },
            SimplifyPacket::Status { pos, facing, fuel } => {
                self.data.pos = pos;
                self.data.facing = facing;
                self.data.fuel = fuel;
            },
            SimplifyPacket::Completion { completion_percent_bits } => {
                self.data.completion_percent_bits = completion_percent_bits;
            },
            _ => {},
        }
    }

    /// Applies a packet as it arrives; a keepalive records the current time.
    pub fn handle_packet(&mut self, packet: SimplifyPacket)
        ensures
            final(self).uuid == old(self).uuid,
            final(self).data == data_after(old(self).data, packet),
            packet is Keepalive ==> final(self).last_keepalive.wf()
                && final(self).last_keepalive.secs >= 0,
            !(packet is Keepalive) ==> final(self).last_keepalive == old(self).last_keepalive,
    {
        let now = if matches!(packet, SimplifyPacket::Keepalive) {
            utc_now()
        } else {
            self.last_keepalive
        };
        self.handle_packet_at(packet, now);
    }

    /// Handles one event of the message stream at instant `now`: a packet is
    /// applied, a close, a stream error or the end of the stream stop the
    /// session, and every other event changes nothing.
    pub fn handle_stream_event_at(&mut self, event: SessionEvent, now: Timestamp) -> (action:
        SessionAction)
        ensures
            action == (if ends_session(event) {
                SessionAction::Stop
            } else {
                SessionAction::Continue
            }),
            final(self).uuid == old(self).uuid,
            event matches SessionEvent::Packet(p) ==> {
                &&& final(self).data == data_after(old(self).data, p)
                &&& final(self).last_keepalive == (if p is Keepalive {
                    now
                } else {
                    old(self).last_keepalive
                })
            },
            !(event is Packet) ==> final(self).data == old(self).data
                && final(self).last_keepalive == old(self).last_keepalive,
    {
        match event {
            SessionEvent::Packet(packet) => {
                self.handle_packet_at(packet, now);
                SessionAction::Continue
            },
            SessionEvent::Close => SessionAction::Stop,
            SessionEvent::StreamError => SessionAction::Stop,
            SessionEvent::Finished => SessionAction::Stop,
            _ => SessionAction::Continue,
        }
    }

    /// Handles one event of the message stream as it arrives.
    pub fn handle_stream_event(&mut self, event: SessionEvent) -> (action: SessionAction)
        ensures
            action == (if ends_session(event) {
                SessionAction::Stop
            } else {
                SessionAction::Continue
            }),
            final(self).uuid == old(self).uuid,
            event matches SessionEvent::Packet(p) ==> {
                &&& final(self).data == data_after(old(self).data, p)
                &&& p is Keepalive ==> final(self).last_keepalive.wf()
                    && final(self).last_keepalive.secs >= 0
                &&& !(p is Keepalive) ==> final(self).last_keepalive
                    == old(self).last_keepalive
            },
            !(event is Packet) ==> final(self).data == old(self).data
                && final(self).last_keepalive == old(self).last_keepalive,
    {
        let now = if matches!(event, SessionEvent::Packet(SimplifyPacket::Keepalive)) {
            utc_now()
        } else {
            self.last_keepalive
        };
        self.handle_stream_event_at(event, now)
    }

    /// The current snapshot of the turtle.
    pub fn digging_data(&self) -> (d: &DiggingData)
        ensures
            *d == self.data,
    {
        &self.data
    }

    /// The instant of the last keepalive.
    pub fn last_keepalive(&self) -> (t: Timestamp)
        ensures
            t == self.last_keepalive,
    {
        self.last_keepalive
    }
}

} // verus!
