//! The goblin: quick, and harder to hurt as it grows.

use crate::entity::Player;
use crate::monsters::goblin_stats;
use crate::monsters::stats_fit;
use crate::monsters::strike;
use crate::monsters::Monster;
use crate::monsters::MonsterStats;
use crate::monsters::MonsterStatsView;
use vstd::prelude::*;

verus! {

/// One goblin.
#[derive(Debug)]
pub struct Goblin {
    stats: MonsterStats,
}

impl Goblin {
    /// A fresh goblin of a level: health 8 and twice the level, attack 2
    /// and the level, defence half the level, speed 3 and twice the level.
    pub fn new(level: i32) -> (goblin: Self)
        requires
            stats_fit(goblin_stats(level as int)),
        ensures
            goblin.stats() == goblin_stats(level as int),
    {
        let wide = level as i64;
        Goblin {
            stats: MonsterStats {
                name: String::from_str("Goblin"),
                level,
                health: (8 + wide * 2) as i32,
                attack: 2 + level,
                defence: level / 2,
                speed: (3 + wide * 2) as i32,
            },
        }
    }
}

impl Monster for Goblin {
    closed spec fn stats(&self) -> MonsterStatsView {
        self.stats@
    }

    fn is_alive(&self) -> (alive: bool) {
        self.stats.health > 0
    }

    fn attack(&self, target: &mut Player) {
        strike(self.stats.attack, target);
    }

    fn get_stats(&self) -> (stats: MonsterStats) {
        self.stats.clone()
    }

    fn take_damage(&mut self, damage: i32) {
        self.stats.health = self.stats.health - damage;
    }
}

} // verus!
