//! Payloads of the actions that a bot submits in a tick. Each travels on the
//! wire tagged with the discriminant of its `TurnKind`.
use vstd::prelude::*;
use crate::ids::ShipId;
use crate::kinds::{ShipType, ship_type_code};
use crate::text::{dec_string, dec_text, int_string, int_text};
use vstd::string::StringExecFns;

verus! {

/// Buys a new ship of the given type.
#[derive(Clone, Copy, Debug, PartialEq, Eq, Structural)]
pub struct BuyTurn {
    pub ship_type: ShipType,
}

/// Moves `amount` of cargo from one ship to another.
#[derive(Clone, Copy, Debug, PartialEq, Eq, Structural)]
pub struct LoadTurn {
    pub source_id: ShipId,
    pub destination_id: ShipId,
    pub amount: i64,
}

/// Siphons `amount` of fuel from one ship to another.
#[derive(Clone, Copy, Debug, PartialEq, Eq, Structural)]
pub struct SiphonTurn {
    pub source_id: ShipId,
    pub destination_id: ShipId,
    pub amount: i64,
}

/// Fires from one ship at another.
#[derive(Clone, Copy, Debug, PartialEq, Eq, Structural)]
pub struct ShootTurn {
    pub source_id: ShipId,
    pub destination_id: ShipId,
}

/// Repairs a ship.
#[derive(Clone, Copy, Debug, PartialEq, Eq, Structural)]
pub struct RepairTurn {
    pub ship_id: ShipId,
}

/// The `data` object of a buy action: `{"type":<ship type discriminant>}`.
pub open spec fn buy_text(t: BuyTurn) -> Seq<char> {
    "{\"type\":"@ + dec_text(ship_type_code(t.ship_type) as nat) + "}"@
}

/// The fields that name a source and a destination ship, without braces.
pub open spec fn ends_text(source: ShipId, destination: ShipId) -> Seq<char> {
    "\"source_id\":"@ + dec_text(source.0 as nat) + ",\"destination_id\":"@ + dec_text(
        destination.0 as nat,
    )
}

/// The `data` object of a load action.
pub open spec fn load_text(t: LoadTurn) -> Seq<char> {
    "{"@ + ends_text(t.source_id, t.destination_id) + ",\"amount\":"@ + int_text(t.amount as int)
        + "}"@
}

/// The `data` object of a siphon action.
pub open spec fn siphon_text(t: SiphonTurn) -> Seq<char> {
    "{"@ + ends_text(t.source_id, t.destination_id) + ",\"amount\":"@ + int_text(t.amount as int)
        + "}"@
}

/// The `data` object of a shoot action.
pub open spec fn shoot_text(t: ShootTurn) -> Seq<char> {
    "{"@ + ends_text(t.source_id, t.destination_id) + "}"@
}

/// The `data` object of a repair action: `{"ship_id":<id>}`.
pub open spec fn repair_text(t: RepairTurn) -> Seq<char> {
    "{\"ship_id\":"@ + dec_text(t.ship_id.0 as nat) + "}"@
}

fn ends_string(source: ShipId, destination: ShipId) -> (r: String)
    ensures
        r@ == ends_text(source, destination),
{
    proof {
        reveal_strlit("\"source_id\":");
        reveal_strlit(",\"destination_id\":");
    }
    let mut s = "\"source_id\":".to_owned();
    s.append(dec_string(source.0 as u64).as_str());
    s.append(",\"destination_id\":");
    s.append(dec_string(destination.0 as u64).as_str());
    s
}

fn amount_payload(source: ShipId, destination: ShipId, amount: i64) -> (r: String)
    ensures
        r@ == "{"@ + ends_text(source, destination) + ",\"amount\":"@ + int_text(amount as int)
            + "}"@,
{
    proof {
        reveal_strlit("{");
        reveal_strlit(",\"amount\":");
        reveal_strlit("}");
    }
    let mut s = "{".to_owned();
    s.append(ends_string(source, destination).as_str());
    s.append(",\"amount\":");
    s.append(int_string(amount).as_str());
    s.append("}");
    s
}

impl BuyTurn {
    /// The action's `data` object as JSON text.
    pub fn payload(&self) -> (r: String)
        ensures
            r@ == buy_text(*self),
    {
        proof {
            reveal_strlit("{\"type\":");
            reveal_strlit("}");
        }
        let mut s = "{\"type\":".to_owned();
        s.append(dec_string(self.ship_type.code() as u64).as_str());
        s.append("}");
        s
    }
}

impl LoadTurn {
    /// The action's `data` object as JSON text.
    pub fn payload(&self) -> (r: String)
        ensures
            r@ == load_text(*self),
    {
        amount_payload(self.source_id, self.destination_id, self.amount)
    }
}

impl SiphonTurn {
    /// The action's `data` object as JSON text.
    pub fn payload(&self) -> (r: String)
        ensures
            r@ == siphon_text(*self),
    {
        amount_payload(self.source_id, self.destination_id, self.amount)
    }
}

impl ShootTurn {
    /// The action's `data` object as JSON text.
    pub fn payload(&self) -> (r: String)
        ensures
            r@ == shoot_text(*self),
    {
        proof {
            reveal_strlit("{");
            reveal_strlit("}");
        }
        let mut s = "{".to_owned();
        s.append(ends_string(self.source_id, self.destination_id).as_str());
        s.append("}");
        s
    }
}

impl RepairTurn {
    /// The action's `data` object as JSON text.
    pub fn payload(&self) -> (r: String)
        ensures
            r@ == repair_text(*self),
    {
        proof {
            reveal_strlit("{\"ship_id\":");
            reveal_strlit("}");
        }
        let mut s = "{\"ship_id\":".to_owned();
        s.append(dec_string(self.ship_id.0 as u64).as_str());
        s.append("}");
        s
    }
}

} // verus!
