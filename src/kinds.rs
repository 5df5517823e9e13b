//! Closed enumerations carried on the wire as small integer discriminants.
use vstd::prelude::*;

verus! {

/// The kind of a ship. Its gameplay meaning is decided by the game engine.
#[derive(Clone, Copy, Debug, PartialEq, Eq, Structural)]
pub enum ShipType {
    MotherShip,
    SuckerShip,
    DrillShip,
    TankerShip,
    TruckShip,
    BattleShip,
}

/// The kind of an asteroid.
#[derive(Clone, Copy, Debug, PartialEq, Eq, Structural)]
pub enum AsteroidType {
    RockAsteroid,
    FuelAsteroid,
}

/// The kind of an action, one per variant of the turn protocol.
#[derive(Clone, Copy, Debug, PartialEq, Eq, Structural)]
pub enum TurnKind {
    Buy,
    Move,
    Load,
    Siphon,
    Shoot,
    Repair,
}

/// The wire discriminant of a ship type.
pub open spec fn ship_type_code(t: ShipType) -> u8 {
    match t {
        ShipType::MotherShip => 0,
        ShipType::SuckerShip => 1,
        ShipType::DrillShip => 2,
        ShipType::TankerShip => 3,
        ShipType::TruckShip => 4,
        ShipType::BattleShip => 5,
    }
}

/// The wire discriminant of an asteroid type.
pub open spec fn asteroid_type_code(t: AsteroidType) -> u8 {
    match t {
        AsteroidType::RockAsteroid => 0,
        AsteroidType::FuelAsteroid => 1,
    }
}

/// The wire discriminant of an action kind.
pub open spec fn turn_kind_code(k: TurnKind) -> u8 {
    match k {
        TurnKind::Buy => 0,
        TurnKind::Move => 1,
        TurnKind::Load => 2,
        TurnKind::Siphon => 3,
        TurnKind::Shoot => 4,
        TurnKind::Repair => 5,
    }
}

impl ShipType {
    /// The discriminant that encodes this ship type.
    pub fn code(&self) -> (r: u8)
        ensures
            r == ship_type_code(*self),
    {
        match self {
            ShipType::MotherShip => 0,
            ShipType::SuckerShip => 1,
            ShipType::DrillShip => 2,
            ShipType::TankerShip => 3,
            ShipType::TruckShip => 4,
            ShipType::BattleShip => 5,
        }
    }

    /// Decodes a discriminant; `None` for one that names no ship type.
    pub fn from_code(code: u8) -> (r: Option<ShipType>)
        ensures
            r is Some <==> code <= 5,
            r matches Some(t) ==> ship_type_code(t) == code,
    {
        match code {
            0 => Some(ShipType::MotherShip),
            1 => Some(ShipType::SuckerShip),
            2 => Some(ShipType::DrillShip),
            3 => Some(ShipType::TankerShip),
            4 => Some(ShipType::TruckShip),
            5 => Some(ShipType::BattleShip),
            _ => None,
        }
    }
}

impl AsteroidType {
    /// The discriminant that encodes this asteroid type.
    pub fn code(&self) -> (r: u8)
        ensures
            r == asteroid_type_code(*self),
    {
        match self {
            AsteroidType::RockAsteroid => 0,
            AsteroidType::FuelAsteroid => 1,
        }
    }

    /// Decodes a discriminant; `None` for one that names no asteroid type.
    pub fn from_code(code: u8) -> (r: Option<AsteroidType>)
        ensures
            r is Some <==> code <= 1,
            r matches Some(t) ==> asteroid_type_code(t) == code,
    {
        match code {
            0 => Some(AsteroidType::RockAsteroid),
            1 => Some(AsteroidType::FuelAsteroid),
            _ => None,
        }
    }
}

impl TurnKind {
    /// The discriminant that tags an action of this kind on the wire.
    pub fn code(&self) -> (r: u8)
        ensures
            r == turn_kind_code(*self),
    {
        match self {
            TurnKind::Buy => 0,
            TurnKind::Move => 1,
            TurnKind::Load => 2,
            TurnKind::Siphon => 3,
            TurnKind::Shoot => 4,
            TurnKind::Repair => 5,
        }
    }
}

} // verus!
