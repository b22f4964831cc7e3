//! Elf races and the magic bonuses that each race starts with.

use vstd::prelude::*;

verus! {

/// An elf of one of four races, carrying the character's name.
#[derive(Debug)]
pub enum Elf {
    Dark(String),
    High(String),
    Orc(String),
    Wood(String),
}

/// Bonus points granted to each school of magic.
#[derive(Debug, Clone, Copy, PartialEq, Eq, Structural)]
pub struct MagicBonus {
    pub alteration: u8,
    pub conjuration: u8,
    pub destruction: u8,
    pub illusion: u8,
}

/// The bonus table, by race.
pub open spec fn bonus_of(race: Elf) -> MagicBonus {
    match race {
        Elf::Dark(_) => MagicBonus { alteration: 5, conjuration: 0, destruction: 10, illusion: 5 },
        Elf::High(_) => MagicBonus { alteration: 5, conjuration: 5, destruction: 5, illusion: 5 },
        Elf::Orc(_) => MagicBonus { alteration: 0, conjuration: 0, destruction: 0, illusion: 0 },
        Elf::Wood(_) => MagicBonus { alteration: 5, conjuration: 0, destruction: 0, illusion: 5 },
    }
}

impl Elf {
    /// The character's name, whatever the race.
    pub open spec fn name_view(&self) -> Seq<char> {
        match self {
            Elf::Dark(n) => n@,
            Elf::High(n) => n@,
            Elf::Orc(n) => n@,
            Elf::Wood(n) => n@,
        }
    }

    /// Borrows the character's name.
    pub fn name(&self) -> (r: &str)
        ensures
            r@ == self.name_view(),
    {
        match self {
            Elf::Dark(n) => n.as_str(),
            Elf::High(n) => n.as_str(),
            Elf::Orc(n) => n.as_str(),
            Elf::Wood(n) => n.as_str(),
        }
    }
}

/// Looks up the starting magic bonus of a race; the name plays no part.
pub fn set_magic_bonus(race: &Elf) -> (r: MagicBonus)
    ensures
        r == bonus_of(*race),
{
    match race {
        Elf::Dark(_) => MagicBonus { alteration: 5, conjuration: 0, destruction: 10, illusion: 5 },
        Elf::High(_) => MagicBonus { alteration: 5, conjuration: 5, destruction: 5, illusion: 5 },
        Elf::Orc(_) => MagicBonus { alteration: 0, conjuration: 0, destruction: 0, illusion: 0 },
        Elf::Wood(_) => MagicBonus { alteration: 5, conjuration: 0, destruction: 0, illusion: 5 },
    }
}

} // verus!
