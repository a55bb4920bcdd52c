//! One exchange of blows between the player and a monster.
//!
//! The faster of the two strikes first, and the player on a tie. The other
//! strikes back only if the first blow has left it alive.

use crate::entity::monster_damage;
use crate::entity::Player;
use crate::monsters::can_strike;
use crate::monsters::Monster;
use crate::monsters::MonsterStatsView;
use vstd::prelude::*;

verus! {

/// True when the monster strikes first: when it is strictly faster than
/// the player.
pub open spec fn monster_leads(player: Player, monster: MonsterStatsView) -> bool {
    monster.speed > player.speed
}

/// The health of the player after the exchange. A monster that leads
/// strikes if it is alive; a monster that follows strikes if the player's
/// blow has left it alive.
pub open spec fn player_health_after(player: Player, monster: MonsterStatsView) -> int {
    let hurt = player.health - monster_damage(monster.attack, player.defence as int);
    if monster_leads(player, monster) {
        if monster.health > 0 {
            hurt
        } else {
            player.health as int
        }
    } else {
        if monster.health - player.damage_to(monster.defence) > 0 {
            hurt
        } else {
            player.health as int
        }
    }
}

/// The health of the monster after the exchange. A player who leads
/// strikes; a player who follows strikes if the monster's blow has left
/// the player alive.
pub open spec fn monster_health_after(player: Player, monster: MonsterStatsView) -> int {
    let hurt = monster.health - player.damage_to(monster.defence);
    if monster_leads(player, monster) {
        if player_health_after(player, monster) > 0 {
            hurt
        } else {
            monster.health
        }
    } else {
        hurt
    }
}

/// True when every blow of the exchange can be computed in 32 bits.
pub open spec fn can_exchange(player: Player, monster: MonsterStatsView) -> bool {
    if monster_leads(player, monster) {
        &&& monster.health > 0 ==> can_strike(monster.attack, player)
        &&& player_health_after(player, monster) > 0 ==> player.can_strike(monster)
    } else {
        &&& player.can_strike(monster)
        &&& monster.health - player.damage_to(monster.defence) > 0 ==> can_strike(
            monster.attack,
            player,
        )
    }
}

/// No exchange heals anyone.
pub proof fn lemma_exchange_never_heals(player: Player, monster: MonsterStatsView)
    ensures
        player_health_after(player, monster) <= player.health,
        monster_health_after(player, monster) <= monster.health,
{
}

/// On a tie of speed the player strikes first: the monster is hit whatever
/// becomes of the player, and a monster that this blow kills does not
/// strike back.
pub proof fn lemma_ties_favor_the_player(player: Player, monster: MonsterStatsView)
    requires
        monster.speed == player.speed,
    ensures
        monster_health_after(player, monster) == monster.health - player.damage_to(
            monster.defence,
        ),
        monster_health_after(player, monster) <= 0 ==> player_health_after(player, monster)
            == player.health,
{
}

/// When both are alive before the exchange, at most one of them is dead
/// after it: a player who falls leaves the monster alive, and a monster
/// that falls has not struck after its death.
pub proof fn lemma_one_falls_at_most(player: Player, monster: MonsterStatsView)
    requires
        player.health > 0,
        monster.health > 0,
    ensures
        player_health_after(player, monster) <= 0 ==> monster_health_after(player, monster) > 0,
        monster_health_after(player, monster) <= 0 ==> player_health_after(player, monster) > 0,
{
}

/// Resolves one exchange of blows. Of the player only the health changes,
/// and of the monster only the health.
pub fn exchange<M: Monster>(player: &mut Player, monster: &mut M)
    requires
        can_exchange(*old(player), old(monster).stats()),
    ensures
        *final(player) == (Player {
            health: player_health_after(*old(player), old(monster).stats()) as i32,
            ..*old(player)
        }),
        final(monster).stats() == (MonsterStatsView {
            health: monster_health_after(*old(player), old(monster).stats()),
            ..old(monster).stats()
        }),
{
    let monster_speed = monster.get_stats().speed;
    if monster_speed > player.speed {
        if monster.is_alive() {
            monster.attack(player);
        }
        if !player.is_dead() {
            player.attack(monster);
        }
    } else {
        player.attack(monster);
        if monster.is_alive() {
            monster.attack(player);
        }
    }
}

} // verus!
