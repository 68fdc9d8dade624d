//! Enemies met through the event generator.

use vstd::prelude::*;
use crate::rng::random_u8_in;

verus! {

/// An enemy with randomly rolled combat stats.
#[derive(Debug, Clone)]
pub struct Enemy {
    health: u8,
    attack: u8,
    defense: u8,
}

impl Enemy {
    pub closed spec fn spec_health(self) -> u8 {
        self.health
    }

    pub closed spec fn spec_attack(self) -> u8 {
        self.attack
    }

    pub closed spec fn spec_defense(self) -> u8 {
        self.defense
    }

    /// Rolls a fresh enemy. The stat ranges are fixed; the values within
    /// them are random.
    pub fn new() -> (e: Self)
        ensures
            5 <= e.spec_health() <= 15,
            1 <= e.spec_attack() <= 5,
            e.spec_defense() <= 5,
    {
        Self {
            health: random_u8_in(5, 15),
            attack: random_u8_in(1, 5),
            defense: random_u8_in(0, 5),
        }
    }

    pub fn health(&self) -> (r: u8)
        ensures
            r == self.spec_health(),
    {
        self.health
    }

    pub fn attack(&self) -> (r: u8)
        ensures
            r == self.spec_attack(),
    {
        self.attack
    }

    pub fn defense(&self) -> (r: u8)
        ensures
            r == self.spec_defense(),
    {
        self.defense
    }

    /// Applies an incoming attack: damage beyond this enemy's defense is
    /// subtracted from its health, which bottoms out at zero.
    pub fn hit_by(&mut self, attack: u8)
        ensures
            final(self).spec_attack() == old(self).spec_attack(),
            final(self).spec_defense() == old(self).spec_defense(),
            final(self).spec_health() == if old(self).spec_defense() >= attack {
                old(self).spec_health() as int
            } else if attack - old(self).spec_defense() > old(self).spec_health() {
                0int
            } else {
                old(self).spec_health() - (attack - old(self).spec_defense())
            },
    {
        if self.defense >= attack {
            return;
        }

        let damage = attack - self.defense;
        if damage > self.health {
            self.health = 0;
        } else {
            self.health -= damage;
        }
    }

    pub fn is_dead(&self) -> (r: bool)
        ensures
            r == (self.spec_health() == 0),
    {
        self.health == 0
    }
}

} // verus!
