//! Advantages: the secondary numbers of a sheet, most of them derived from
//! attributes and skills.
use vstd::prelude::*;
use crate::tracks::{Tracker, TrackerModel};

verus! {

/// The advantages that can be edited directly.
#[derive(Clone, Copy, Debug, PartialEq, Eq, Structural, Hash)]
pub enum BaseAdvantageType {
    Defense,
    Health,
    Initiative,
    Size,
    Speed,
    Willpower,
}

/// The advantages of one character. `health` and `willpower` record the boxes
/// that are filled; their `max` is the number of boxes the character has.
#[derive(Clone, Debug)]
pub struct BaseAdvantages {
    pub defense: u64,
    pub health: Tracker,
    pub initiative: u64,
    pub size: u8,
    pub speed: u64,
    pub willpower: Tracker,
}

/// What a set of advantages is, mathematically.
pub ghost struct AdvantagesModel {
    pub defense: int,
    pub health: TrackerModel,
    pub initiative: int,
    pub size: int,
    pub speed: int,
    pub willpower: TrackerModel,
}

impl View for BaseAdvantages {
    type V = AdvantagesModel;

    open spec fn view(&self) -> AdvantagesModel {
        AdvantagesModel {
            defense: self.defense as int,
            health: self.health@,
            initiative: self.initiative as int,
            size: self.size as int,
            speed: self.speed as int,
            willpower: self.willpower@,
        }
    }
}

/// The smallest size a character can have.
pub const SIZE_MIN: u8 = 1;

/// The largest size a character can have.
pub const SIZE_MAX: u8 = 10;

/// The size of a character for whom none was chosen.
pub const SIZE_DEFAULT: u8 = 5;

/// The size nearest to `value` that a character can have.
pub open spec fn clamped_size(value: int) -> int {
    if value < SIZE_MIN {
        SIZE_MIN as int
    } else if value > SIZE_MAX {
        SIZE_MAX as int
    } else {
        value
    }
}

/// Defense: the lower of dexterity and wits, plus athletics.
pub open spec fn defense_from(dexterity: int, wits: int, athletics: int) -> int {
    if dexterity <= wits {
        dexterity + athletics
    } else {
        wits + athletics
    }
}

/// Initiative: dexterity plus composure.
pub open spec fn initiative_from(dexterity: int, composure: int) -> int {
    dexterity + composure
}

/// Speed: size plus dexterity plus strength.
pub open spec fn speed_from(size: int, dexterity: int, strength: int) -> int {
    size + dexterity + strength
}

/// The number of health boxes: size plus stamina.
pub open spec fn health_max_from(size: int, stamina: int) -> int {
    size + stamina
}

/// The number of willpower boxes: resolve plus composure.
pub open spec fn willpower_max_from(resolve: int, composure: int) -> int {
    resolve + composure
}

/// Brings a size into the range that a character can have.
pub fn clampSize(value: u64) -> (size: u8)
    ensures
        size == clamped_size(value as int),
{
    if value < SIZE_MIN as u64 {
        SIZE_MIN
    } else if value > SIZE_MAX as u64 {
        SIZE_MAX
    } else {
        value as u8
    }
}

/// Computes defense from the ranks it rests on.
pub fn deriveDefense(dexterity: u32, wits: u32, athletics: u32) -> (defense: u64)
    ensures
        defense == defense_from(dexterity as int, wits as int, athletics as int),
{
    let lower: u32 = if dexterity <= wits {
        dexterity
    } else {
        wits
    };
    lower as u64 + athletics as u64
}

/// Computes initiative from the ranks it rests on.
pub fn deriveInitiative(dexterity: u32, composure: u32) -> (initiative: u64)
    ensures
        initiative == initiative_from(dexterity as int, composure as int),
{
    dexterity as u64 + composure as u64
}

/// Computes speed from the size and the ranks it rests on.
pub fn deriveSpeed(size: u8, dexterity: u32, strength: u32) -> (speed: u64)
    ensures
        speed == speed_from(size as int, dexterity as int, strength as int),
{
    size as u64 + dexterity as u64 + strength as u64
}

/// Computes the number of health boxes.
pub fn deriveHealthMax(size: u8, stamina: u32) -> (max: u64)
    ensures
        max == health_max_from(size as int, stamina as int),
{
    size as u64 + stamina as u64
}

/// Computes the number of willpower boxes.
pub fn deriveWillpowerMax(resolve: u32, composure: u32) -> (max: u64)
    ensures
        max == willpower_max_from(resolve as int, composure as int),
{
    resolve as u64 + composure as u64
}

} // verus!
