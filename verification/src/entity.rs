//! The player, the weapons, and the arithmetic of a blow.

use crate::monsters::Monster;
use crate::monsters::MonsterStatsView;
use crate::random::random_in;
use crate::text::decimal;
use crate::text::decimal_text;
use crate::text::same_text;
use crate::text::trim;
use crate::text::trimmed;
use vstd::prelude::*;

verus! {

/// True of a number that a 32-bit signed field can hold.
pub open spec fn fits_i32(value: int) -> bool {
    i32::MIN <= value <= i32::MAX
}

/// The damage of a blow by the player: attack and weapon bonus less the
/// target's defence, and never under 0.
pub open spec fn player_damage(attack: int, bonus: int, defence: int) -> int {
    if attack + bonus - defence < 0 {
        0
    } else {
        attack + bonus - defence
    }
}

/// The damage of a blow by a monster: its attack less the target's defence,
/// and never under 1.
pub open spec fn monster_damage(attack: int, defence: int) -> int {
    if attack - defence < 1 {
        1
    } else {
        attack - defence
    }
}

/// No blow heals: the player's damage is at least 0 and a monster's at
/// least 1, whatever the attack, the bonus and the defence are.
pub proof fn lemma_damage_floors(attack: int, bonus: int, defence: int)
    ensures
        player_damage(attack, bonus, defence) >= 0,
        player_damage(attack, bonus, defence) >= attack + bonus - defence,
        monster_damage(attack, defence) >= 1,
        monster_damage(attack, defence) >= attack - defence,
{
}

/// The kinds of weapon.
#[derive(Debug, PartialEq, Eq, Clone, Copy, Structural)]
pub enum WeaponType {
    Sword,
    Dagger,
    Axe,
}

impl WeaponType {
    /// The attack value of a weapon of this kind in plain condition.
    pub open spec fn base_attack(self) -> int {
        match self {
            WeaponType::Sword => 10,
            WeaponType::Dagger => 5,
            WeaponType::Axe => 15,
        }
    }

    /// The word that names the kind on screen.
    pub open spec fn label_text(self) -> Seq<char> {
        match self {
            WeaponType::Sword => "Sword"@,
            WeaponType::Dagger => "Dagger"@,
            WeaponType::Axe => "Axe"@,
        }
    }

    /// The kind as text.
    pub fn label(&self) -> (text: String)
        ensures
            text@ == self.label_text(),
    {
        match self {
            WeaponType::Sword => String::from_str("Sword"),
            WeaponType::Dagger => String::from_str("Dagger"),
            WeaponType::Axe => String::from_str("Axe"),
        }
    }
}

/// How rare a weapon is.
#[derive(Debug, PartialEq, Eq, Clone, Copy, Structural)]
pub enum Rarity {
    Common,
    Rare,
    Epic,
    Legendary,
    Mythical,
}

impl Rarity {
    /// The word that names the rarity on screen.
    pub open spec fn label_text(self) -> Seq<char> {
        match self {
            Rarity::Common => "common"@,
            Rarity::Rare => "rare"@,
            Rarity::Epic => "epic"@,
            Rarity::Legendary => "legendary"@,
            Rarity::Mythical => "mythical"@,
        }
    }

    /// The rarity as text.
    pub fn label(&self) -> (text: String)
        ensures
            text@ == self.label_text(),
    {
        match self {
            Rarity::Common => String::from_str("common"),
            Rarity::Rare => String::from_str("rare"),
            Rarity::Epic => String::from_str("epic"),
            Rarity::Legendary => String::from_str("legendary"),
            Rarity::Mythical => String::from_str("mythical"),
        }
    }
}

/// The condition in which a weapon is found. It gives the weapon the first
/// word of its name and shifts its attack value.
#[derive(Debug, PartialEq, Eq, Clone, Copy, Structural)]
pub enum WeaponQuality {
    Broken,
    Rusty,
    Plain,
    Sharp,
}

impl WeaponQuality {
    /// The condition at a place of the list Broken, Rusty, Plain, Sharp.
    pub open spec fn at(index: int) -> Self {
        if index == 0 {
            WeaponQuality::Broken
        } else if index == 1 {
            WeaponQuality::Rusty
        } else if index == 2 {
            WeaponQuality::Plain
        } else {
            WeaponQuality::Sharp
        }
    }

    /// The first word of the weapon's name; empty for a plain weapon.
    pub open spec fn prefix(self) -> Seq<char> {
        match self {
            WeaponQuality::Broken => "Broken"@,
            WeaponQuality::Rusty => "Rusty"@,
            WeaponQuality::Plain => ""@,
            WeaponQuality::Sharp => "Sharp"@,
        }
    }

    /// The attack value of a weapon in this condition whose value in plain
    /// condition is `base`, which is not negative: a broken weapon has half
    /// of it, rounded down, a rusty one 2 less, a sharp one 2 more.
    pub open spec fn adjust(self, base: int) -> int {
        match self {
            WeaponQuality::Broken => base / 2,
            WeaponQuality::Rusty => base - 2,
            WeaponQuality::Plain => base,
            WeaponQuality::Sharp => base + 2,
        }
    }

    /// The condition at a place of the list of four.
    pub fn from_index(index: u32) -> (quality: Self)
        requires
            index < 4,
        ensures
            quality == Self::at(index as int),
    {
        if index == 0 {
            WeaponQuality::Broken
        } else if index == 1 {
            WeaponQuality::Rusty
        } else if index == 2 {
            WeaponQuality::Plain
        } else {
            WeaponQuality::Sharp
        }
    }
}

/// A weapon. It does not change once it is made.
#[derive(Debug)]
pub struct Weapon {
    pub name: String,
    pub weapon_type: WeaponType,
    pub attack_value: i32,
    pub rarity: Rarity,
}

/// A weapon as the contracts see it.
pub struct WeaponView {
    pub name: Seq<char>,
    pub weapon_type: WeaponType,
    pub attack_value: int,
    pub rarity: Rarity,
}

impl View for Weapon {
    type V = WeaponView;

    open spec fn view(&self) -> WeaponView {
        WeaponView {
            name: self.name@,
            weapon_type: self.weapon_type,
            attack_value: self.attack_value as int,
            rarity: self.rarity,
        }
    }
}

impl Clone for Weapon {
    fn clone(&self) -> (copy: Self)
        ensures
            copy == *self,
    {
        Weapon {
            name: self.name.clone(),
            weapon_type: self.weapon_type,
            attack_value: self.attack_value,
            rarity: self.rarity,
        }
    }
}

/// The common weapon of a kind in a condition. Its name is the condition's
/// prefix, a space, and the word Sword, whatever the kind.
pub open spec fn forged(weapon_type: WeaponType, quality: WeaponQuality) -> WeaponView {
    WeaponView {
        name: quality.prefix() + " "@ + "Sword"@,
        weapon_type,
        attack_value: quality.adjust(weapon_type.base_attack()),
        rarity: Rarity::Common,
    }
}

/// The weapon that stands for "none": a common sword without a name, worth 0.
pub open spec fn empty_weapon() -> WeaponView {
    WeaponView {
        name: Seq::empty(),
        weapon_type: WeaponType::Sword,
        attack_value: 0,
        rarity: Rarity::Common,
    }
}

/// Every weapon that can be found is worth at least 2 and at most 17.
pub proof fn lemma_forged_attack_bounds(weapon_type: WeaponType, quality: WeaponQuality)
    ensures
        2 <= forged(weapon_type, quality).attack_value <= 17,
{
}

impl Weapon {
    /// A common weapon of the given kind in a condition drawn at random,
    /// each of the four with the same chance.
    pub fn new(weapon_type: WeaponType) -> (weapon: Self)
        ensures
            exists|quality: WeaponQuality| weapon@ == forged(weapon_type, quality),
    {
        let mut generator = rand::rng();
        let index = random_in(&mut generator, 0, 3);
        Self::with_quality(weapon_type, WeaponQuality::from_index(index))
    }

    /// The common weapon of the given kind in the given condition.
    pub fn with_quality(weapon_type: WeaponType, quality: WeaponQuality) -> (weapon: Self)
        ensures
            weapon@ == forged(weapon_type, quality),
    {
        let prefix = match quality {
            WeaponQuality::Broken => "Broken",
            WeaponQuality::Rusty => "Rusty",
            WeaponQuality::Plain => "",
            WeaponQuality::Sharp => "Sharp",
        };
        let name = String::from_str(prefix).concat(" ").concat("Sword");
        let base: i32 = match weapon_type {
            WeaponType::Sword => 10,
            WeaponType::Dagger => 5,
            WeaponType::Axe => 15,
        };
        let attack_value: i32 = match quality {
            WeaponQuality::Broken => base / 2,
            WeaponQuality::Rusty => base - 2,
            WeaponQuality::Plain => base,
            WeaponQuality::Sharp => base + 2,
        };
        Weapon { name, weapon_type, attack_value, rarity: Rarity::Common }
    }

    /// The weapon that stands for "none".
    pub fn empty() -> (weapon: Self)
        ensures
            weapon@ == empty_weapon(),
    {
        Weapon {
            name: String::new(),
            weapon_type: WeaponType::Sword,
            attack_value: 0,
            rarity: Rarity::Common,
        }
    }

    /// The line that names the weapon on screen: "A", its rarity, its kind.
    pub fn describe(&self) -> (text: String)
        ensures
            text@ == "A "@ + self.rarity.label_text() + " "@ + self.weapon_type.label_text(),
    {
        let rarity = self.rarity.label();
        let kind = self.weapon_type.label();
        String::from_str("A ").concat(rarity.as_str()).concat(" ").concat(kind.as_str())
    }
}

/// What the player does in a turn of a fight.
#[derive(Debug, PartialEq, Eq, Clone, Copy, Structural)]
pub enum Action {
    Attack,
    Run,
}

impl Action {
    /// What a typed line asks for: to run if, the white space around it
    /// taken away, it reads 2, and to attack otherwise.
    pub open spec fn asked_by(line: Seq<char>) -> Action {
        if trimmed(line) == "2"@ {
            Action::Run
        } else {
            Action::Attack
        }
    }

    /// What a line asks for that has no white space around it: to run if
    /// it reads 2, and to attack otherwise.
    pub fn from_trimmed(line: &str) -> (action: Self)
        ensures
            action == (if line@ == "2"@ {
                Action::Run
            } else {
                Action::Attack
            }),
    {
        if same_text(line, "2") {
            Action::Run
        } else {
            Action::Attack
        }
    }

    /// What a typed line asks for.
    pub fn from_input(line: &str) -> (action: Self)
        ensures
            action == Self::asked_by(line@),
    {
        Self::from_trimmed(trim(line))
    }
}

/// The hero of a run.
#[derive(Debug)]
pub struct Player {
    pub name: String,
    pub max_health: i32,
    pub health: i32,
    pub attack: i32,
    pub defence: i32,
    pub speed: i32,
    pub weapon: Option<Weapon>,
}

impl Default for Player {
    fn default() -> (player: Self)
        ensures
            player.name@ == Seq::<char>::empty(),
            player.max_health == 0,
            player.health == 0,
            player.attack == 0,
            player.defence == 0,
            player.speed == 0,
            player.weapon is None,
    {
        Player {
            name: String::new(),
            max_health: 0,
            health: 0,
            attack: 0,
            defence: 0,
            speed: 0,
            weapon: None,
        }
    }
}

impl Player {
    /// What the weapon in hand adds to the attack; 0 with bare hands.
    pub open spec fn weapon_bonus(&self) -> int {
        match self.weapon {
            Some(weapon) => weapon.attack_value as int,
            None => 0,
        }
    }

    /// The attack with the weapon in hand.
    pub open spec fn total_attack(&self) -> int {
        self.attack + self.weapon_bonus()
    }

    /// The damage that a blow of this player does to a target of the given
    /// defence.
    pub open spec fn damage_to(&self, defence: int) -> int {
        player_damage(self.attack as int, self.weapon_bonus(), defence)
    }

    /// True when a blow at the target can be computed in 32 bits: the total
    /// attack, its difference to the target's defence, and the health that
    /// is left to the target.
    pub open spec fn can_strike(&self, target: MonsterStatsView) -> bool {
        &&& fits_i32(self.total_attack())
        &&& fits_i32(self.total_attack() - target.defence)
        &&& fits_i32(target.health - self.damage_to(target.defence))
    }

    /// True of a player whose health is used up.
    pub open spec fn dead(&self) -> bool {
        self.health <= 0
    }

    /// A fresh hero: 10 health of 10, attack 1, defence 0, speed 1, bare
    /// hands.
    pub fn new(name: &str) -> (player: Self)
        ensures
            player.name@ == name@,
            player.max_health == 10,
            player.health == 10,
            player.attack == 1,
            player.defence == 0,
            player.speed == 1,
            player.weapon is None,
    {
        Player {
            name: String::from_str(name),
            max_health: 10,
            health: 10,
            attack: 1,
            defence: 0,
            speed: 1,
            weapon: None,
        }
    }

    /// Strikes the target once. The target loses `damage_to` its defence in
    /// health, which is never a gain, and nothing else of it changes.
    pub fn attack<M: Monster>(&self, target: &mut M)
        requires
            self.can_strike(old(target).stats()),
        ensures
            final(target).stats() == (MonsterStatsView {
                health: old(target).stats().health - self.damage_to(old(target).stats().defence),
                ..old(target).stats()
            }),
            final(target).stats().health <= old(target).stats().health,
    {
        let target_stats = target.get_stats();
        let damage: i32 = match &self.weapon {
            Some(weapon) => (self.attack + weapon.attack_value) - target_stats.defence,
            None => self.attack - target_stats.defence,
        };
        let damage: i32 = if damage < 0 {
            0
        } else {
            damage
        };
        target.take_damage(damage);
    }

    /// The attack with the weapon in hand.
    pub fn get_attack(&self) -> (attack: i32)
        requires
            fits_i32(self.total_attack()),
        ensures
            attack == self.total_attack(),
    {
        match &self.weapon {
            Some(weapon) => self.attack + weapon.attack_value,
            None => self.attack,
        }
    }

    /// The attack that the player would have with another weapon in hand.
    pub fn attack_with(&self, weapon: &Weapon) -> (attack: i32)
        requires
            fits_i32(self.attack + weapon.attack_value),
        ensures
            attack == self.attack + weapon.attack_value,
    {
        self.attack + weapon.attack_value
    }

    /// The card of the player as it is printed: a line with the name
    /// between two rows of five equal signs, then a line each for health,
    /// attack, defence and speed.
    pub open spec fn card(&self) -> Seq<char> {
        "===== "@ + self.name@ + " =====\nHealth: "@ + decimal(self.health as int)
            + "\nAttack: "@ + decimal(self.attack as int) + "\nDefense: "@ + decimal(
            self.defence as int,
        ) + "\nSpeed: "@ + decimal(self.speed as int) + "\n"@
    }

    /// The card of the player as text.
    pub fn describe(&self) -> (text: String)
        ensures
            text@ == self.card(),
    {
        let health = decimal_text(self.health);
        let attack = decimal_text(self.attack);
        let defence = decimal_text(self.defence);
        let speed = decimal_text(self.speed);
        String::from_str("===== ").concat(self.name.as_str()).concat(" =====\nHealth: ").concat(
            health.as_str(),
        ).concat("\nAttack: ").concat(attack.as_str()).concat("\nDefense: ").concat(
            defence.as_str(),
        ).concat("\nSpeed: ").concat(speed.as_str()).concat("\n")
    }

    /// True exactly when the health is 0 or less.
    pub fn is_dead(&self) -> (dead: bool)
        ensures
            dead == self.dead(),
            dead == (self.health <= 0),
    {
        self.health <= 0
    }

    /// Takes the weapon in hand; the one held before is gone.
    pub fn equip(&mut self, weapon: Weapon)
        ensures
            *final(self) == (Player { weapon: Some(weapon), ..*old(self) }),
    {
        self.weapon = Some(weapon);
    }
}

} // verus!
