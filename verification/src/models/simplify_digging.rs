//! The SimplifyDigging wire model: packets sent by turtles and the values
//! they carry.

use vstd::prelude::*;

verus! {

/// The current state of the turtle.
#[derive(Debug, Clone, Copy, PartialEq, Eq, Structural)]
pub enum States {
    /// The turtle is initializing (recovering or just starting up).
    Init,
    /// The turtle is idle, waiting for work (or in between states).
    Idle,
    /// The turtle is actively digging.
    Digging,
    /// The turtle is returning home to refuel/dump items.
    ReturnHome,
    /// The turtle is returning to the mine after going home to refuel/dump items.
    ReturnMine,
    /// The turtle is stuck and cannot continue without intervention.
    Stuck,
    /// The turtle has encountered an error and cannot continue.
    Error,
    /// Dig is complete.
    Done,
    /// Easter egg state
    Teapot,
}

impl Default for States {
    fn default() -> (s: Self)
        ensures
            s == States::Init,
    {
        States::Init
    }
}

/// A position in the world.
#[derive(Debug, Clone, Copy, PartialEq, Eq, Structural)]
pub struct Position {
    pub x: i32,
    pub y: i32,
    pub z: i32,
}

impl Default for Position {
    fn default() -> (p: Self)
        ensures
            p == (Position { x: 0, y: 0, z: 0 }),
    {
        Position { x: 0, y: 0, z: 0 }
    }
}

/// The direction a turtle faces. On the wire it is the number 0 to 3.
#[derive(Debug, Clone, Copy, PartialEq, Eq, Structural)]
pub enum Facing {
    North,
    East,
    South,
    West,
}

/// The wire number of a direction.
pub open spec fn facing_number(f: Facing) -> u8 {
    match f {
        Facing::North => 0,
        Facing::East => 1,
        Facing::South => 2,
        Facing::West => 3,
    }
}

/// The direction a wire number stands for, if any.
pub open spec fn facing_of_number(n: u8) -> Option<Facing> {
    if n == 0 {
        Some(Facing::North)
    } else if n == 1 {
        Some(Facing::East)
    } else if n == 2 {
        Some(Facing::South)
    } else if n == 3 {
        Some(Facing::West)
    } else {
        None
    }
}

/// The text of the error for a wire number out of range.
pub open spec fn facing_range_message() -> Seq<char> {
    "Facing must be 0..=3"@
}

/// A direction read back from the number it is written as is the same
/// direction, and the numbers 0 to 3 are exactly those of directions.
pub proof fn lemma_facing_wire_round_trip(f: Facing, n: u8)
    ensures
        facing_of_number(facing_number(f)) == Some(f),
        (facing_of_number(n) is Some) <==> n <= 3,
        facing_of_number(n) matches Some(g) ==> facing_number(g) == n,
{
}

impl Default for Facing {
    fn default() -> (f: Self)
        ensures
            f == Facing::North,
    {
        Facing::North
    }
}

impl Facing {
    /// The number this direction is written as.
    pub fn to_u8(&self) -> (n: u8)
        ensures
            n == facing_number(*self),
            n <= 3,
    {
        match self {
            Facing::North => 0,
            Facing::East => 1,
            Facing::South => 2,
            Facing::West => 3,
        }
    }

    /// Reads a direction from its wire number; numbers above 3 are refused.
    pub fn try_from(value: u8) -> (r: Result<Facing, &'static str>)
        ensures
            (r is Ok) <==> value <= 3,
            r matches Ok(f) ==> facing_of_number(value) == Some(f),
            r matches Err(e) ==> e@ == facing_range_message(),
    {
        match value {
            0 => Ok(Facing::North),
            1 => Ok(Facing::East),
            2 => Ok(Facing::South),
            3 => Ok(Facing::West),
            _ => Err("Facing must be 0..=3"),
        }
    }
}

/// Fuel level: an amount, or unlimited.
#[derive(Debug, Clone, Copy, PartialEq, Eq, Structural)]
pub enum Fuel {
    Limited(i32),
    Unlimited,
}

impl Default for Fuel {
    fn default() -> (f: Self)
        ensures
            f == Fuel::Limited(0),
    {
        Fuel::Limited(0)
    }
}

/// The one text a fuel value may be written as on the wire.
pub open spec fn unlimited_name() -> Seq<char> {
    "unlimited"@
}

/// The text of the error for a fuel text that is not `unlimited`.
pub open spec fn invalid_fuel_message(text: Seq<char>) -> Seq<char> {
    "Invalid fuel value: "@ + text
}

/// How a fuel value is written on the wire: a limited amount as that
/// number, unlimited fuel as a text.
#[derive(Debug, Clone, Copy, PartialEq, Eq)]
pub enum FuelWire {
    Amount(i32),
    Text(&'static str),
}

/// The fuel value a wire text stands for, if any.
pub open spec fn fuel_of_text(text: Seq<char>) -> Option<Fuel> {
    if text == unlimited_name() {
        Some(Fuel::Unlimited)
    } else {
        None
    }
}

/// The fuel value a wire form stands for, if any.
pub open spec fn fuel_of_wire(w: FuelWire) -> Option<Fuel> {
    match w {
        FuelWire::Amount(a) => Some(Fuel::Limited(a)),
        FuelWire::Text(t) => fuel_of_text(t@),
    }
}

/// The wire form of a fuel value: the amount, or the text `unlimited`.
pub open spec fn wire_of_fuel(f: Fuel) -> FuelWire {
    match f {
        Fuel::Limited(a) => FuelWire::Amount(a),
        Fuel::Unlimited => FuelWire::Text("unlimited"),
    }
}

impl Fuel {
    /// Reads a fuel value written as text: only `unlimited` is accepted.
    pub fn from_name(text: &str) -> (r: Result<Fuel, String>)
        ensures
            (r is Ok) <==> fuel_of_text(text@) is Some,
            r matches Ok(f) ==> fuel_of_text(text@) == Some(f),
            r matches Err(e) ==> e@ == invalid_fuel_message(text@),
    {
        let given = String::from_str(text);
        let name = String::from_str("unlimited");
        if given == name {
            Ok(Fuel::Unlimited)
        } else {
            let mut message = String::from_str("Invalid fuel value: ");
            message.append(text);
            Err(message)
        }
    }

    /// The wire form of this fuel value.
    pub fn to_wire(&self) -> (w: FuelWire)
        ensures
            w == wire_of_fuel(*self),
    {
        match self {
            Fuel::Limited(a) => FuelWire::Amount(*a),
            Fuel::Unlimited => FuelWire::Text("unlimited"),
        }
    }
}

/// A fuel value read back from its wire form is the same value.
pub proof fn lemma_fuel_wire_round_trip(f: Fuel)
    ensures
        fuel_of_wire(wire_of_fuel(f)) == Some(f),
{
}

/// A packet sent by a turtle. The JSON arguments of `Init` are carried as
/// their JSON text, and the completion percentage of `Completion` as the bit
/// pattern of its 32-bit float.
#[derive(Debug, Clone, PartialEq, Eq)]
pub enum SimplifyPacket {
    Init { program_arguments: String, turtle_id: u16 },
    Keepalive,
    State { state: States },
    Status { pos: Position, facing: Facing, fuel: Fuel },
    Completion { completion_percent_bits: u32 },
    Complete,
    Panic { reason: String, pos: Position, facing: Facing, fuel: Fuel },
    Error { message: String, pos: Position, facing: Facing, fuel: Fuel },
}

} // verus!
