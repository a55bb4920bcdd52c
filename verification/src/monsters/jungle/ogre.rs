//! The ogre: slow, tough, and heavy-handed.

use crate::entity::Player;
use crate::monsters::ogre_stats;
use crate::monsters::stats_fit;
use crate::monsters::strike;
use crate::monsters::Monster;
use crate::monsters::MonsterStats;
use crate::monsters::MonsterStatsView;
use vstd::prelude::*;

verus! {

/// One ogre.
#[derive(Debug)]
pub struct Ogre {
    stats: MonsterStats,
}

impl Ogre {
    /// A fresh ogre of a level: health 15 and three times the level, attack
    /// 3 and twice the level, defence 1 and the level, speed half the level.
    pub fn new(level: i32) -> (ogre: Self)
        requires
            stats_fit(ogre_stats(level as int)),
        ensures
            ogre.stats() == ogre_stats(level as int),
    {
        let wide = level as i64;
        Ogre {
            stats: MonsterStats {
                name: String::from_str("Ogre"),
                level,
                health: (15 + wide * 3) as i32,
                attack: (3 + wide * 2) as i32,
                defence: 1 + level,
                speed: level / 2,
            },
        }
    }
}

impl Monster for Ogre {
    closed spec fn stats(&self) -> MonsterStatsView {
        self.stats@
    }

    fn is_alive(&self) -> (alive: bool) {
        self.stats.health > 0
    }

    fn attack(&self, target: &mut Player) {
        strike(self.stats.attack, target);
    }

    fn get_stats(&self) -> (stats: MonsterStats) {
        self.stats.clone()
    }

    fn take_damage(&mut self, damage: i32) {
        self.stats.health = self.stats.health - damage;
    }
}

} // verus!
