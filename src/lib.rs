//! Client-side core of a tick-based space-strategy bot: entity identifiers,
//! wire discriminants, sparse-slot ingestion and sentinel-framed messages.
pub mod frame;
pub mod ids;
pub mod kinds;
pub mod slots;
pub mod text;
pub mod turns;

pub use frame::{AdapterError, frame_turns, is_sentinel_line, read_frame};
pub use ids::{AsteroidId, PlayerId, ShipId, WormholeId};
pub use kinds::{AsteroidType, ShipType, TurnKind};
pub use slots::{check_own_player, present_slots};
pub use turns::{BuyTurn, LoadTurn, RepairTurn, ShootTurn, SiphonTurn};
