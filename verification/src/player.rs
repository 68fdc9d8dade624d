//! The player: identity, position, base attributes, equipment slots and
//! inventory, and the derived stats folded over the equipped items.

use vstd::prelude::*;
use crate::item::Item;
use crate::vector::Vec2;

verus! {

/// One derived player stat.
#[derive(Debug, Clone, Copy, PartialEq, Eq, Structural)]
pub enum StatKind {
    Health,
    Mana,
    Attack,
    Defense,
    Strength,
    Dexterity,
    Intelligence,
    Speed,
}

/// The modifier an item contributes to one stat.
pub open spec fn spec_item_mod(item: Item, stat: StatKind) -> i8 {
    match stat {
        StatKind::Health => item.health_mod,
        StatKind::Mana => item.mana_mod,
        StatKind::Attack => item.attack_mod,
        StatKind::Defense => item.defense_mod,
        StatKind::Strength => item.strength_mod,
        StatKind::Dexterity => item.dexterity_mod,
        StatKind::Intelligence => item.intelligence_mod,
        StatKind::Speed => item.speed_mod,
    }
}

/// The modifier an equipment slot contributes to one stat.
pub open spec fn spec_slot_mod(slot: Option<Item>, stat: StatKind) -> int {
    match slot {
        Some(item) => spec_item_mod(item, stat) as int,
        None => 0int,
    }
}

/// The modifier an item contributes to one stat, as executed.
pub fn item_stat_mod(item: &Item, stat: StatKind) -> (m: i8)
    ensures
        m == spec_item_mod(*item, stat),
{
    match stat {
        StatKind::Health => item.health_mod,
        StatKind::Mana => item.mana_mod,
        StatKind::Attack => item.attack_mod,
        StatKind::Defense => item.defense_mod,
        StatKind::Strength => item.strength_mod,
        StatKind::Dexterity => item.dexterity_mod,
        StatKind::Intelligence => item.intelligence_mod,
        StatKind::Speed => item.speed_mod,
    }
}

/// The modifier an equipment slot contributes to one stat, as executed.
fn slot_stat_mod(slot: &Option<Item>, stat: StatKind) -> (m: i32)
    ensures
        m == spec_slot_mod(*slot, stat),
        -128 <= m <= 127,
{
    match slot {
        Some(item) => item_stat_mod(item, stat) as i32,
        None => 0,
    }
}

pub struct Player {
    name: String,
    position: Vec2,
    level: u8,
    current_xp: u8,
    max_health: u8,
    current_health: u8,
    max_mana: u8,
    current_mana: u8,
    strenght: u8,
    dexterity: u8,
    intelligence: u8,
    speed: u8,
    remaining_moves: u8,
    head: Option<Item>,
    chest: Option<Item>,
    legs: Option<Item>,
    arms: Option<Item>,
    foots: Option<Item>,
    left_hand: Option<Item>,
    right_hand: Option<Item>,
    inventory: Vec<Item>,
}

impl Player {
    pub closed spec fn spec_name(self) -> Seq<char> {
        self.name@
    }

    pub closed spec fn spec_position(self) -> Vec2 {
        self.position
    }

    pub closed spec fn spec_level(self) -> u8 {
        self.level
    }

    pub closed spec fn spec_current_xp(self) -> u8 {
        self.current_xp
    }

    pub closed spec fn spec_max_health(self) -> u8 {
        self.max_health
    }

    pub closed spec fn spec_current_health(self) -> u8 {
        self.current_health
    }

    pub closed spec fn spec_max_mana(self) -> u8 {
        self.max_mana
    }

    pub closed spec fn spec_current_mana(self) -> u8 {
        self.current_mana
    }

    pub closed spec fn spec_strenght(self) -> u8 {
        self.strenght
    }

    pub closed spec fn spec_dexterity(self) -> u8 {
        self.dexterity
    }

    pub closed spec fn spec_intelligence(self) -> u8 {
        self.intelligence
    }

    pub closed spec fn spec_speed(self) -> u8 {
        self.speed
    }

    pub closed spec fn spec_remaining_moves(self) -> u8 {
        self.remaining_moves
    }

    pub closed spec fn spec_head(self) -> Option<Item> {
        self.head
    }

    pub closed spec fn spec_chest(self) -> Option<Item> {
        self.chest
    }

    pub closed spec fn spec_legs(self) -> Option<Item> {
        self.legs
    }

    pub closed spec fn spec_arms(self) -> Option<Item> {
        self.arms
    }

    pub closed spec fn spec_foots(self) -> Option<Item> {
        self.foots
    }

    pub closed spec fn spec_left_hand(self) -> Option<Item> {
        self.left_hand
    }

    pub closed spec fn spec_right_hand(self) -> Option<Item> {
        self.right_hand
    }

    pub closed spec fn spec_inventory(self) -> Seq<Item> {
        self.inventory@
    }

    /// The base attribute a stat grows from.
    pub open spec fn spec_base(self, stat: StatKind) -> u8 {
        match stat {
            StatKind::Health => self.spec_max_health(),
            StatKind::Mana => self.spec_max_mana(),
            StatKind::Attack => self.spec_strenght(),
            StatKind::Defense => self.spec_dexterity(),
            StatKind::Strength => self.spec_strenght(),
            StatKind::Dexterity => self.spec_dexterity(),
            StatKind::Intelligence => self.spec_intelligence(),
            StatKind::Speed => self.spec_speed(),
        }
    }

    /// The summed modifier of the seven equipment slots for one stat.
    pub open spec fn spec_equip_total(self, stat: StatKind) -> int {
        spec_slot_mod(self.spec_head(), stat) + spec_slot_mod(self.spec_chest(), stat)
            + spec_slot_mod(self.spec_legs(), stat) + spec_slot_mod(self.spec_arms(), stat)
            + spec_slot_mod(self.spec_foots(), stat) + spec_slot_mod(self.spec_left_hand(), stat)
            + spec_slot_mod(self.spec_right_hand(), stat)
    }

    /// A derived stat before clamping: base attribute plus level plus the
    /// equipment modifiers.
    pub open spec fn spec_stat_value(self, stat: StatKind) -> int {
        self.spec_base(stat) + self.spec_level() + self.spec_equip_total(stat)
    }

    /// A derived stat as reported: the raw value clamped into `0 ..= 255`.
    pub open spec fn spec_stat(self, stat: StatKind) -> u8 {
        if self.spec_stat_value(stat) < 0 {
            0u8
        } else if self.spec_stat_value(stat) > 255 {
            255u8
        } else {
            self.spec_stat_value(stat) as u8
        }
    }

    /// Everything but the current health is untouched.
    pub open spec fn spec_same_but_health(a: Player, b: Player) -> bool {
        &&& a.spec_name() == b.spec_name()
        &&& a.spec_position() == b.spec_position()
        &&& a.spec_level() == b.spec_level()
        &&& a.spec_current_xp() == b.spec_current_xp()
        &&& a.spec_max_health() == b.spec_max_health()
        &&& a.spec_max_mana() == b.spec_max_mana()
        &&& a.spec_current_mana() == b.spec_current_mana()
        &&& a.spec_strenght() == b.spec_strenght()
        &&& a.spec_dexterity() == b.spec_dexterity()
        &&& a.spec_intelligence() == b.spec_intelligence()
        &&& a.spec_speed() == b.spec_speed()
        &&& a.spec_remaining_moves() == b.spec_remaining_moves()
        &&& Self::spec_same_gear(a, b)
    }

    /// The equipment slots and the inventory are untouched.
    pub open spec fn spec_same_gear(a: Player, b: Player) -> bool {
        &&& a.spec_head() == b.spec_head()
        &&& a.spec_chest() == b.spec_chest()
        &&& a.spec_legs() == b.spec_legs()
        &&& a.spec_arms() == b.spec_arms()
        &&& a.spec_foots() == b.spec_foots()
        &&& a.spec_left_hand() == b.spec_left_hand()
        &&& a.spec_right_hand() == b.spec_right_hand()
        &&& a.spec_inventory() == b.spec_inventory()
    }

    /// A fresh level-zero player with full health and mana, no equipment
    /// and an empty inventory, standing at the origin.
    pub fn new(
        name: String,
        max_health: u8,
        max_mana: u8,
        strenght: u8,
        dexterity: u8,
        intelligence: u8,
        speed: u8,
    ) -> (p: Self)
        ensures
            p.spec_name() == name@,
            p.spec_position() == (Vec2 { x: 0i32, y: 0i32 }),
            p.spec_level() == 0,
            p.spec_current_xp() == 0,
            p.spec_max_health() == max_health,
            p.spec_current_health() == max_health,
            p.spec_max_mana() == max_mana,
            p.spec_current_mana() == max_mana,
            p.spec_strenght() == strenght,
            p.spec_dexterity() == dexterity,
            p.spec_intelligence() == intelligence,
            p.spec_speed() == speed,
            p.spec_remaining_moves() == speed,
            p.spec_head() is None,
            p.spec_chest() is None,
            p.spec_legs() is None,
            p.spec_arms() is None,
            p.spec_foots() is None,
            p.spec_left_hand() is None,
            p.spec_right_hand() is None,
            p.spec_inventory() == Seq::<Item>::empty(),
    {
        let inventory: Vec<Item> = Vec::new();
        proof {
            assert(inventory@ =~= Seq::<Item>::empty());
        }
        Self {
            name,
            position: Vec2::zero(),
            level: 0,
            current_xp: 0,
            max_health,
            current_health: max_health,
            max_mana,
            current_mana: max_mana,
            strenght,
            dexterity,
            intelligence,
            speed,
            remaining_moves: speed,
            head: None,
            chest: None,
            legs: None,
            arms: None,
            foots: None,
            left_hand: None,
            right_hand: None,
            inventory,
        }
    }

    /// The summed equipment modifier for one stat, as executed.
    fn equip_total(&self, stat: StatKind) -> (t: i32)
        ensures
            t == self.spec_equip_total(stat),
    {
        slot_stat_mod(&self.head, stat) + slot_stat_mod(&self.chest, stat) + slot_stat_mod(
            &self.legs,
            stat,
        ) + slot_stat_mod(&self.arms, stat) + slot_stat_mod(&self.foots, stat) + slot_stat_mod(
            &self.left_hand,
            stat,
        ) + slot_stat_mod(&self.right_hand, stat)
    }

    /// One derived stat: base plus level plus equipment, clamped into the
    /// reportable range.
    fn stat(&self, stat: StatKind) -> (v: u8)
        ensures
            v == self.spec_stat(stat),
    {
        let base = match stat {
            StatKind::Health => self.max_health,
            StatKind::Mana => self.max_mana,
            StatKind::Attack => self.strenght,
            StatKind::Defense => self.dexterity,
            StatKind::Strength => self.strenght,
            StatKind::Dexterity => self.dexterity,
            StatKind::Intelligence => self.intelligence,
            StatKind::Speed => self.speed,
        };
        let total: i32 = base as i32 + self.level as i32 + self.equip_total(stat);
        if total < 0 {
            0
        } else if total > 255 {
            255
        } else {
            total as u8
        }
    }

    /// Starts the player's turn: the move allowance is refilled from the
    /// derived speed stat.
    pub fn turn(&mut self)
        ensures
            final(self).spec_remaining_moves() == old(self).spec_stat(StatKind::Speed),
            final(self).spec_current_health() == old(self).spec_current_health(),
            final(self).spec_name() == old(self).spec_name(),
            final(self).spec_position() == old(self).spec_position(),
            final(self).spec_level() == old(self).spec_level(),
            final(self).spec_current_xp() == old(self).spec_current_xp(),
            final(self).spec_max_health() == old(self).spec_max_health(),
            final(self).spec_max_mana() == old(self).spec_max_mana(),
            final(self).spec_current_mana() == old(self).spec_current_mana(),
            final(self).spec_strenght() == old(self).spec_strenght(),
            final(self).spec_dexterity() == old(self).spec_dexterity(),
            final(self).spec_intelligence() == old(self).spec_intelligence(),
            final(self).spec_speed() == old(self).spec_speed(),
            Self::spec_same_gear(*old(self), *final(self)),
    {
        self.remaining_moves = self.stat(StatKind::Speed);
    }

    /// Applies an incoming attack: damage beyond the derived defense is
    /// subtracted from the current health, which bottoms out at zero.
    pub fn hit_by(&mut self, attack: u8)
        ensures
            Self::spec_same_but_health(*old(self), *final(self)),
            final(self).spec_current_health() == {
                let def = old(self).spec_stat(StatKind::Defense);
                if def >= attack {
                    old(self).spec_current_health() as int
                } else if attack - def < old(self).spec_current_health() {
                    old(self).spec_current_health() - (attack - def)
                } else {
                    0int
                }
            },
    {
        let player_def = self.stat(StatKind::Defense);
        if player_def >= attack {
            return;
        }

        let remaining_damage = attack - player_def;
        if remaining_damage < self.current_health {
            self.current_health -= remaining_damage;
        } else {
            self.current_health = 0;
        }
    }

    pub fn is_dead(&self) -> (r: bool)
        ensures
            r == (self.spec_current_health() == 0),
    {
        self.current_health == 0
    }

    pub fn name(&self) -> (r: &str)
        ensures
            r@ == self.spec_name(),
    {
        self.name.as_str()
    }

    pub fn position(&self) -> (r: Vec2)
        ensures
            r == self.spec_position(),
    {
        self.position
    }

    pub fn set_position(&mut self, position: Vec2)
        ensures
            final(self).spec_position() == position,
            Self::spec_same_gear(*old(self), *final(self)),
            final(self).spec_name() == old(self).spec_name(),
            final(self).spec_level() == old(self).spec_level(),
            final(self).spec_current_xp() == old(self).spec_current_xp(),
            final(self).spec_max_health() == old(self).spec_max_health(),
            final(self).spec_current_health() == old(self).spec_current_health(),
            final(self).spec_max_mana() == old(self).spec_max_mana(),
            final(self).spec_current_mana() == old(self).spec_current_mana(),
            final(self).spec_strenght() == old(self).spec_strenght(),
            final(self).spec_dexterity() == old(self).spec_dexterity(),
            final(self).spec_intelligence() == old(self).spec_intelligence(),
            final(self).spec_speed() == old(self).spec_speed(),
            final(self).spec_remaining_moves() == old(self).spec_remaining_moves(),
    {
        self.position = position;
    }

    /// Moves the player by a direction vector.
    pub fn move_vec(&mut self, vec: Vec2)
        requires
            i32::MIN <= old(self).spec_position().x + vec.x <= i32::MAX,
            i32::MIN <= old(self).spec_position().y + vec.y <= i32::MAX,
        ensures
            final(self).spec_position() == (Vec2 {
                x: (old(self).spec_position().x + vec.x) as i32,
                y: (old(self).spec_position().y + vec.y) as i32,
            }),
            Self::spec_same_gear(*old(self), *final(self)),
            final(self).spec_name() == old(self).spec_name(),
            final(self).spec_level() == old(self).spec_level(),
            final(self).spec_current_xp() == old(self).spec_current_xp(),
            final(self).spec_max_health() == old(self).spec_max_health(),
            final(self).spec_current_health() == old(self).spec_current_health(),
            final(self).spec_max_mana() == old(self).spec_max_mana(),
            final(self).spec_current_mana() == old(self).spec_current_mana(),
            final(self).spec_strenght() == old(self).spec_strenght(),
            final(self).spec_dexterity() == old(self).spec_dexterity(),
            final(self).spec_intelligence() == old(self).spec_intelligence(),
            final(self).spec_speed() == old(self).spec_speed(),
            final(self).spec_remaining_moves() == old(self).spec_remaining_moves(),
    {
        self.position = self.position.add(vec);
    }

    pub fn level(&self) -> (r: u8)
        ensures
            r == self.spec_level(),
    {
        self.level
    }

    pub fn current_xp(&self) -> (r: u8)
        ensures
            r == self.spec_current_xp(),
    {
        self.current_xp
    }

    /// The experience needed for the next level; leveling is not wired up
    /// yet, so the threshold is fixed at zero.
    pub fn next_level_xp(&self) -> (r: u8)
        ensures
            r == 0,
    {
        0
    }

    /// The derived maximum health.
    pub fn max_health(&self) -> (r: u8)
        ensures
            r == self.spec_stat(StatKind::Health),
    {
        self.stat(StatKind::Health)
    }

    pub fn current_health(&self) -> (r: u8)
        ensures
            r == self.spec_current_health(),
    {
        self.current_health
    }

    /// The derived maximum mana.
    pub fn max_mana(&self) -> (r: u8)
        ensures
            r == self.spec_stat(StatKind::Mana),
    {
        self.stat(StatKind::Mana)
    }

    pub fn current_mana(&self) -> (r: u8)
        ensures
            r == self.spec_current_mana(),
    {
        self.current_mana
    }

    /// The derived attack stat, grown from strength.
    pub fn attack(&self) -> (r: u8)
        ensures
            r == self.spec_stat(StatKind::Attack),
    {
        self.stat(StatKind::Attack)
    }

    /// The derived defense stat, grown from dexterity.
    pub fn defense(&self) -> (r: u8)
        ensures
            r == self.spec_stat(StatKind::Defense),
    {
        self.stat(StatKind::Defense)
    }

    /// The derived strength stat.
    pub fn strenght(&self) -> (r: u8)
        ensures
            r == self.spec_stat(StatKind::Strength),
    {
        self.stat(StatKind::Strength)
    }

    /// The derived dexterity stat.
    pub fn dexterity(&self) -> (r: u8)
        ensures
            r == self.spec_stat(StatKind::Dexterity),
    {
        self.stat(StatKind::Dexterity)
    }

    /// The derived intelligence stat.
    pub fn intelligence(&self) -> (r: u8)
        ensures
            r == self.spec_stat(StatKind::Intelligence),
    {
        self.stat(StatKind::Intelligence)
    }

    /// The raw base speed attribute.
    pub fn speed(&self) -> (r: u8)
        ensures
            r == self.spec_speed(),
    {
        self.speed
    }

    /// The derived move allowance per turn, grown from speed.
    pub fn max_moves(&self) -> (r: u8)
        ensures
            r == self.spec_stat(StatKind::Speed),
    {
        self.stat(StatKind::Speed)
    }

    pub fn remaining_moves(&self) -> (r: u8)
        ensures
            r == self.spec_remaining_moves(),
    {
        self.remaining_moves
    }

    pub fn head(&self) -> (r: &Option<Item>)
        ensures
            *r == self.spec_head(),
    {
        &self.head
    }

    pub fn chest(&self) -> (r: &Option<Item>)
        ensures
            *r == self.spec_chest(),
    {
        &self.chest
    }

    pub fn legs(&self) -> (r: &Option<Item>)
        ensures
            *r == self.spec_legs(),
    {
        &self.legs
    }

    pub fn arms(&self) -> (r: &Option<Item>)
        ensures
            *r == self.spec_arms(),
    {
        &self.arms
    }

    pub fn foots(&self) -> (r: &Option<Item>)
        ensures
            *r == self.spec_foots(),
    {
        &self.foots
    }

    pub fn left_hand(&self) -> (r: &Option<Item>)
        ensures
            *r == self.spec_left_hand(),
    {
        &self.left_hand
    }

    pub fn right_hand(&self) -> (r: &Option<Item>)
        ensures
            *r == self.spec_right_hand(),
    {
        &self.right_hand
    }

    pub fn inventory(&self) -> (r: &Vec<Item>)
        ensures
            r@ == self.spec_inventory(),
    {
        &self.inventory
    }

    /// Appends a found item to the inventory.
    pub fn add_to_inventory(&mut self, item: Item)
        ensures
            final(self).spec_inventory() == old(self).spec_inventory().push(item),
            Self::spec_same_but_inventory(*old(self), *final(self)),
    {
        self.inventory.push(item);
    }

    /// Drops the inventory item at `index`; an out-of-range index is
    /// ignored.
    pub fn remove_from_inventory(&mut self, index: usize)
        ensures
            final(self).spec_inventory() == if index < old(self).spec_inventory().len() {
                old(self).spec_inventory().remove(index as int)
            } else {
                old(self).spec_inventory()
            },
            Self::spec_same_but_inventory(*old(self), *final(self)),
    {
        if index < self.inventory.len() {
            self.inventory.remove(index);
        }
    }

    /// Everything but the inventory is untouched.
    pub open spec fn spec_same_but_inventory(a: Player, b: Player) -> bool {
        &&& a.spec_name() == b.spec_name()
        &&& a.spec_position() == b.spec_position()
        &&& a.spec_level() == b.spec_level()
        &&& a.spec_current_xp() == b.spec_current_xp()
        &&& a.spec_max_health() == b.spec_max_health()
        &&& a.spec_current_health() == b.spec_current_health()
        &&& a.spec_max_mana() == b.spec_max_mana()
        &&& a.spec_current_mana() == b.spec_current_mana()
        &&& a.spec_strenght() == b.spec_strenght()
        &&& a.spec_dexterity() == b.spec_dexterity()
        &&& a.spec_intelligence() == b.spec_intelligence()
        &&& a.spec_speed() == b.spec_speed()
        &&& a.spec_remaining_moves() == b.spec_remaining_moves()
        &&& a.spec_head() == b.spec_head()
        &&& a.spec_chest() == b.spec_chest()
        &&& a.spec_legs() == b.spec_legs()
        &&& a.spec_arms() == b.spec_arms()
        &&& a.spec_foots() == b.spec_foots()
        &&& a.spec_left_hand() == b.spec_left_hand()
        &&& a.spec_right_hand() == b.spec_right_hand()
    }
}

} // verus!
