//! The data carried by a soldier on the field.

use std::cmp::Ordering;
use vstd::prelude::*;
use vstd::std_specs::cmp::PartialOrdSpec;

verus! {

/// The force a unit fights for.
#[derive(Clone, Copy, Debug, PartialEq, Eq, Structural)]
pub enum Side {
    Blue,
    Red,
}

/// Military rank, listed from the lowest to the highest.
#[derive(Clone, Copy, Debug, PartialEq, Eq, Ord, Structural)]
pub enum Rank {
    Private,
    Sergeant,
    Lieutenant,
    Colonel,
    Commander,
}

impl Rank {
    /// The place of the rank in the chain of command, counted from the
    /// lowest.
    pub open spec fn spec_seniority(self) -> u8 {
        match self {
            Rank::Private => 0,
            Rank::Sergeant => 1,
            Rank::Lieutenant => 2,
            Rank::Colonel => 3,
            Rank::Commander => 4,
        }
    }

    /// The place of the rank in the chain of command, counted from the
    /// lowest.
    #[verifier::when_used_as_spec(spec_seniority)]
    pub fn seniority(self) -> (place: u8)
        ensures
            place == self.spec_seniority(),
    {
        match self {
            Rank::Private => 0,
            Rank::Sergeant => 1,
            Rank::Lieutenant => 2,
            Rank::Colonel => 3,
            Rank::Commander => 4,
        }
    }

    /// From private to commander, each rank is below the next.
    pub proof fn lemma_chain_of_command()
        ensures
            Rank::Private.partial_cmp_spec(&Rank::Sergeant) == Some(Ordering::Less),
            Rank::Sergeant.partial_cmp_spec(&Rank::Lieutenant) == Some(Ordering::Less),
            Rank::Lieutenant.partial_cmp_spec(&Rank::Colonel) == Some(Ordering::Less),
            Rank::Colonel.partial_cmp_spec(&Rank::Commander) == Some(Ordering::Less),
    {
    }

    /// No two ranks hold the same place.
    pub proof fn lemma_seniority_tells_ranks_apart(a: Rank, b: Rank)
        ensures
            a.seniority() == b.seniority() <==> a == b,
    {
    }
}

impl PartialOrd for Rank {
    /// Ranks compare as their places in the chain of command do.
    fn partial_cmp(&self, other: &Rank) -> (order: Option<Ordering>) {
        let mine = self.seniority();
        let theirs = other.seniority();
        if mine < theirs {
            Some(Ordering::Less)
        } else if mine == theirs {
            Some(Ordering::Equal)
        } else {
            Some(Ordering::Greater)
        }
    }
}

impl vstd::std_specs::cmp::PartialOrdSpecImpl for Rank {
    open spec fn obeys_partial_cmp_spec() -> bool {
        true
    }

    open spec fn partial_cmp_spec(&self, other: &Rank) -> Option<Ordering> {
        if self.seniority() < other.seniority() {
            Some(Ordering::Less)
        } else if self.seniority() == other.seniority() {
            Some(Ordering::Equal)
        } else {
            Some(Ordering::Greater)
        }
    }
}

/// What a soldier is trained to do.
#[derive(Clone, Copy, Debug, PartialEq, Eq, Structural)]
pub enum Role {
    Rifleman,
    Communications,
    Medic,
}

/// A piece of equipment.
#[derive(Clone, Debug, PartialEq, Eq)]
pub struct Item {
    pub name: String,
}

impl View for Item {
    type V = Seq<char>;

    /// An item is known by its name.
    open spec fn view(&self) -> Seq<char> {
        self.name@
    }
}

/// The side a unit belongs to.
#[derive(Clone, Copy, Debug, PartialEq, Eq, Structural)]
pub struct Allegiance {
    pub side: Side,
}

/// Rank and role of an individual soldier.
#[derive(Clone, Copy, Debug, PartialEq, Eq, Structural)]
pub struct Soldier {
    pub rank: Rank,
    pub role: Role,
}

/// Hit points: what is left, and what a unit has when unharmed.
#[derive(Clone, Copy, Debug, PartialEq, Eq, Structural)]
pub struct Health {
    pub current: i32,
    pub max: i32,
}

/// Movement stats of a unit.
#[derive(Clone, Copy, Debug, PartialEq, Eq, Structural)]
pub struct Mobility {
    pub speed: i32,
}

/// Where a unit stands on the map.
#[derive(Clone, Copy, Debug, PartialEq, Eq, Structural)]
pub struct Position {
    pub x: i32,
    pub y: i32,
    pub z: i32,
}

/// What a unit carries, in the order it was picked up.
#[derive(Clone, Debug, PartialEq, Eq)]
pub struct Inventory {
    pub items: Vec<Item>,
}

impl View for Inventory {
    type V = Seq<Seq<char>>;

    /// The names of the items carried, in order.
    open spec fn view(&self) -> Seq<Seq<char>> {
        self.items@.map_values(|item: Item| item@)
    }
}

/// Everything a soldier entity is made of.
#[derive(Clone, Debug, PartialEq, Eq)]
pub struct SoldierBundle {
    pub soldier: Soldier,
    pub allegiance: Allegiance,
    pub health: Health,
    pub mobility: Mobility,
    pub inventory: Inventory,
}

/// The mathematical value of a [`SoldierBundle`].
pub struct SoldierBundleView {
    pub soldier: Soldier,
    pub allegiance: Allegiance,
    pub health: Health,
    pub mobility: Mobility,
    pub inventory: Seq<Seq<char>>,
}

impl View for SoldierBundle {
    type V = SoldierBundleView;

    open spec fn view(&self) -> SoldierBundleView {
        SoldierBundleView {
            soldier: self.soldier,
            allegiance: self.allegiance,
            health: self.health,
            mobility: self.mobility,
            inventory: self.inventory@,
        }
    }
}

} // verus!
