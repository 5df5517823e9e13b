//! Per-kind entity identifiers. Each kind is its own nominal type, so an
//! identifier of one kind cannot stand where another kind is expected.
use vstd::prelude::*;

verus! {

/// Identifies a ship within one snapshot: its slot in the ship array.
#[derive(Clone, Copy, Debug, PartialEq, Eq, Structural, Hash)]
pub struct ShipId(pub usize);

/// Identifies an asteroid within one snapshot: its slot in the asteroid array.
#[derive(Clone, Copy, Debug, PartialEq, Eq, Structural, Hash)]
pub struct AsteroidId(pub usize);

/// Identifies a wormhole within one snapshot: its slot in the wormhole array.
#[derive(Clone, Copy, Debug, PartialEq, Eq, Structural, Hash)]
pub struct WormholeId(pub usize);

/// Identifies a player within one snapshot: its slot in the player array.
#[derive(Clone, Copy, Debug, PartialEq, Eq, Structural, Hash)]
pub struct PlayerId(pub usize);

} // verus!
