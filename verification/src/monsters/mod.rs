//! The monsters: what every species can do, the figures of each, and the
//! making of one from the name of its species.

pub mod balancer;
pub mod jungle;

use crate::entity::fits_i32;
use crate::entity::monster_damage;
use crate::entity::Player;
use crate::monsters::jungle::goblin::Goblin;
use crate::monsters::jungle::ogre::Ogre;
use crate::monsters::jungle::slime::Slime;
use crate::text::same_text;
use vstd::prelude::*;

verus! {

/// The figures of one monster.
#[derive(Debug)]
pub struct MonsterStats {
    pub name: String,
    pub level: i32,
    pub health: i32,
    pub attack: i32,
    pub defence: i32,
    pub speed: i32,
}

/// The figures of a monster as the contracts see them.
pub struct MonsterStatsView {
    pub name: Seq<char>,
    pub level: int,
    pub health: int,
    pub attack: int,
    pub defence: int,
    pub speed: int,
}

impl View for MonsterStats {
    type V = MonsterStatsView;

    open spec fn view(&self) -> MonsterStatsView {
        MonsterStatsView {
            name: self.name@,
            level: self.level as int,
            health: self.health as int,
            attack: self.attack as int,
            defence: self.defence as int,
            speed: self.speed as int,
        }
    }
}

impl Clone for MonsterStats {
    fn clone(&self) -> (copy: Self)
        ensures
            copy == *self,
    {
        MonsterStats {
            name: self.name.clone(),
            level: self.level,
            health: self.health,
            attack: self.attack,
            defence: self.defence,
            speed: self.speed,
        }
    }
}

/// True when each figure can be held in 32 bits.
pub open spec fn stats_fit(stats: MonsterStatsView) -> bool {
    &&& fits_i32(stats.level)
    &&& fits_i32(stats.health)
    &&& fits_i32(stats.attack)
    &&& fits_i32(stats.defence)
    &&& fits_i32(stats.speed)
}

/// Half of a level, rounded towards 0.
pub open spec fn half(level: int) -> int {
    if level >= 0 {
        level / 2
    } else {
        -((-level) / 2)
    }
}

/// The figures of a slime of a level.
pub open spec fn slime_stats(level: int) -> MonsterStatsView {
    MonsterStatsView {
        name: "Slime"@,
        level,
        health: 4 + level,
        attack: level,
        defence: 0,
        speed: level,
    }
}

/// The figures of a goblin of a level.
pub open spec fn goblin_stats(level: int) -> MonsterStatsView {
    MonsterStatsView {
        name: "Goblin"@,
        level,
        health: 8 + level * 2,
        attack: 2 + level,
        defence: half(level),
        speed: 3 + level * 2,
    }
}

/// The figures of an ogre of a level.
pub open spec fn ogre_stats(level: int) -> MonsterStatsView {
    MonsterStatsView {
        name: "Ogre"@,
        level,
        health: 15 + level * 3,
        attack: 3 + level * 2,
        defence: 1 + level,
        speed: half(level),
    }
}

/// The figures of the species of a name at a level; `None` for a name that
/// belongs to no species.
pub open spec fn species_stats(name: Seq<char>, level: int) -> Option<MonsterStatsView> {
    if name == "Slime"@ {
        Some(slime_stats(level))
    } else if name == "Goblin"@ {
        Some(goblin_stats(level))
    } else if name == "Ogre"@ {
        Some(ogre_stats(level))
    } else {
        None
    }
}

/// True of the names Slime, Goblin and Ogre.
pub open spec fn known_species(name: Seq<char>) -> bool {
    name == "Slime"@ || name == "Goblin"@ || name == "Ogre"@
}

/// True when a monster of this attack can strike the target within 32
/// bits: the difference of attack and defence, and the health that is left.
pub open spec fn can_strike(attack: int, target: Player) -> bool {
    &&& fits_i32(attack - target.defence)
    &&& fits_i32(target.health - monster_damage(attack, target.defence as int))
}

/// What every species can do.
pub trait Monster {
    /// The figures of this monster.
    spec fn stats(&self) -> MonsterStatsView;

    /// True exactly when the health is above 0.
    fn is_alive(&self) -> (alive: bool)
        ensures
            alive == (self.stats().health > 0),
    ;

    /// Strikes the player once. The player loses the monster's attack less
    /// the player's defence in health, and at least 1; nothing else of the
    /// player changes.
    fn attack(&self, target: &mut Player)
        requires
            can_strike(self.stats().attack, *old(target)),
        ensures
            *final(target) == (Player {
                health: (old(target).health - monster_damage(
                    self.stats().attack,
                    old(target).defence as int,
                )) as i32,
                ..*old(target)
            }),
            final(target).health < old(target).health,
    ;

    /// A copy of the figures.
    fn get_stats(&self) -> (stats: MonsterStats)
        ensures
            stats@ == self.stats(),
    ;

    /// Takes the damage off the health; nothing else changes.
    fn take_damage(&mut self, damage: i32)
        requires
            fits_i32(old(self).stats().health - damage),
        ensures
            final(self).stats() == (MonsterStatsView {
                health: old(self).stats().health - damage,
                ..old(self).stats()
            }),
    ;
}

/// The blow that every species deals: the attack less the player's
/// defence, and at least 1, comes off the player's health.
pub fn strike(attack: i32, target: &mut Player)
    requires
        can_strike(attack as int, *old(target)),
    ensures
        *final(target) == (Player {
            health: (old(target).health - monster_damage(
                attack as int,
                old(target).defence as int,
            )) as i32,
            ..*old(target)
        }),
        final(target).health < old(target).health,
{
    let damage = attack - target.defence;
    let damage: i32 = if damage < 1 {
        1
    } else {
        damage
    };
    target.health = target.health - damage;
}

/// A monster of one of the three species.
#[derive(Debug)]
pub enum AnyMonster {
    Slime(Slime),
    Goblin(Goblin),
    Ogre(Ogre),
}

impl Monster for AnyMonster {
    open spec fn stats(&self) -> MonsterStatsView {
        match self {
            AnyMonster::Slime(slime) => slime.stats(),
            AnyMonster::Goblin(goblin) => goblin.stats(),
            AnyMonster::Ogre(ogre) => ogre.stats(),
        }
    }

    fn is_alive(&self) -> (alive: bool) {
        match self {
            AnyMonster::Slime(slime) => slime.is_alive(),
            AnyMonster::Goblin(goblin) => goblin.is_alive(),
            AnyMonster::Ogre(ogre) => ogre.is_alive(),
        }
    }

    fn attack(&self, target: &mut Player) {
        match self {
            AnyMonster::Slime(slime) => slime.attack(target),
            AnyMonster::Goblin(goblin) => goblin.attack(target),
            AnyMonster::Ogre(ogre) => ogre.attack(target),
        }
    }

    fn get_stats(&self) -> (stats: MonsterStats) {
        match self {
            AnyMonster::Slime(slime) => slime.get_stats(),
            AnyMonster::Goblin(goblin) => goblin.get_stats(),
            AnyMonster::Ogre(ogre) => ogre.get_stats(),
        }
    }

    fn take_damage(&mut self, damage: i32) {
        match self {
            AnyMonster::Slime(slime) => slime.take_damage(damage),
            AnyMonster::Goblin(goblin) => goblin.take_damage(damage),
            AnyMonster::Ogre(ogre) => ogre.take_damage(damage),
        }
    }
}

/// True when the name belongs to no species, or the figures of its species
/// at the level can be held in 32 bits.
pub open spec fn level_fits(name: Seq<char>, level: int) -> bool {
    species_stats(name, level) matches Some(stats) ==> stats_fit(stats)
}

/// A fresh monster of the species of the given name at the given level;
/// `None` when the name belongs to no species.
pub fn create_monster(name: &str, level: i32) -> (monster: Option<AnyMonster>)
    requires
        level_fits(name@, level as int),
    ensures
        monster is Some <==> known_species(name@),
        monster matches Some(made) ==> Some(made.stats()) == species_stats(name@, level as int),
{
    if same_text(name, "Slime") {
        Some(AnyMonster::Slime(Slime::new(level)))
    } else if same_text(name, "Goblin") {
        Some(AnyMonster::Goblin(Goblin::new(level)))
    } else if same_text(name, "Ogre") {
        Some(AnyMonster::Ogre(Ogre::new(level)))
    } else {
        None
    }
}

} // verus!
