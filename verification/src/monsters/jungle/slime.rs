//! The slime: weak, without defence, and as fast as its level.

use crate::entity::Player;
use crate::monsters::slime_stats;
use crate::monsters::stats_fit;
use crate::monsters::strike;
use crate::monsters::Monster;
use crate::monsters::MonsterStats;
use crate::monsters::MonsterStatsView;
use vstd::prelude::*;

verus! {

/// One slime.
#[derive(Debug)]
pub struct Slime {
    stats: MonsterStats,
}

impl Slime {
    /// A fresh slime of a level: health 4 and the level, attack and speed
    /// the level, no defence.
    pub fn new(level: i32) -> (slime: Self)
        requires
            stats_fit(slime_stats(level as int)),
        ensures
            slime.stats() == slime_stats(level as int),
    {
        Slime {
            stats: MonsterStats {
                name: String::from_str("Slime"),
                level,
                health: 4 + level,
                attack: level,
                defence: 0,
                speed: level,
            },
        }
    }
}

impl Monster for Slime {
    closed spec fn stats(&self) -> MonsterStatsView {
        self.stats@
    }

    fn is_alive(&self) -> (alive: bool) {
        self.stats.health > 0
    }

    fn attack(&self, target: &mut Player) {
        strike(self.stats.attack, target);
    }

    fn get_stats(&self) -> (stats: MonsterStats) {
        self.stats.clone()
    }

    fn take_damage(&mut self, damage: i32) {
        self.stats.health = self.stats.health - damage;
    }
}

} // verus!
