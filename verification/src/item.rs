//! Items found through the event generator and worn by the player.

use vstd::prelude::*;
use crate::rng::{random_bool, random_i8_in, random_u8_in};

verus! {

/// The body slot an item is worn on.
#[derive(Debug, Clone, Copy, PartialEq, Eq, Structural)]
pub enum Location {
    Head,
    Chest,
    Leg,
    Arm,
    Foot,
    Hand,
}

/// A wearable item: a slot plus one additive modifier per player stat.
#[derive(Debug, Clone)]
pub struct Item {
    pub location: Location,
    pub health_mod: i8,
    pub mana_mod: i8,
    pub attack_mod: i8,
    pub defense_mod: i8,
    pub strength_mod: i8,
    pub dexterity_mod: i8,
    pub intelligence_mod: i8,
    pub speed_mod: i8,
}

impl Item {
    /// Rolls a fresh item. A budget of one to three positive modifiers is
    /// drawn first; each stat then rolls against the remaining budget, and
    /// the last stats are forced positive while budget is left over.
    /// Every modifier lands in `-3 ..= 3`.
    pub fn new() -> (item: Self)
        ensures
            item.location == Location::Head,
            -3 <= item.health_mod <= 3,
            -3 <= item.mana_mod <= 3,
            -3 <= item.attack_mod <= 3,
            -3 <= item.defense_mod <= 3,
            -3 <= item.strength_mod <= 3,
            -3 <= item.dexterity_mod <= 3,
            -3 <= item.intelligence_mod <= 3,
            -3 <= item.speed_mod <= 3,
    {
        let mut parameters = random_u8_in(1, 3);
        let location = Location::Head;

        let health_mod = Self::get_random_parmeter(&mut parameters);
        let mana_mod = Self::get_random_parmeter(&mut parameters);
        let attack_mod = Self::get_random_parmeter(&mut parameters);
        let defense_mod = Self::get_random_parmeter(&mut parameters);
        let strength_mod = Self::get_random_parmeter(&mut parameters);
        let dexterity_mod = if parameters == 3 {
            parameters -= 1;
            random_i8_in(1, 3)
        } else {
            Self::get_random_parmeter(&mut parameters)
        };
        let intelligence_mod = if parameters == 2 {
            parameters -= 1;
            random_i8_in(1, 3)
        } else {
            Self::get_random_parmeter(&mut parameters)
        };
        let speed_mod = if parameters == 1 {
            random_i8_in(1, 3)
        } else {
            Self::get_random_parmeter(&mut parameters)
        };

        Self {
            location,
            health_mod,
            mana_mod,
            attack_mod,
            defense_mod,
            strength_mod,
            dexterity_mod,
            intelligence_mod,
            speed_mod,
        }
    }

    /// Draws one stat modifier against the remaining budget, then applies
    /// the draws through [`Self::parameter_from_draws`].
    fn get_random_parmeter(parameters: &mut u8) -> (value: i8)
        ensures
            -3 <= value <= 3,
            *final(parameters) == if value > 0 {
                *old(parameters) - 1
            } else {
                *old(parameters) as int
            },
            value != 0 ==> *old(parameters) > 0,
    {
        let roll = random_bool();
        let drawn = random_i8_in(-3, 3);
        Self::parameter_from_draws(roll, drawn, parameters)
    }

    /// The deterministic core of one modifier roll: `roll` decides whether
    /// the slot participates at all, `drawn` is the candidate modifier.
    /// A positive modifier spends one point of the budget; with no budget
    /// left the modifier is zero.
    pub fn parameter_from_draws(roll: bool, drawn: i8, parameters: &mut u8) -> (value: i8)
        requires
            -3 <= drawn <= 3,
        ensures
            value == if *old(parameters) > 0 && roll {
                drawn as int
            } else {
                0int
            },
            *final(parameters) == if value > 0 {
                *old(parameters) - 1
            } else {
                *old(parameters) as int
            },
    {
        if *parameters > 0 && roll {
            if drawn > 0 {
                *parameters -= 1;
            }
            drawn
        } else {
            0
        }
    }
}

} // verus!
