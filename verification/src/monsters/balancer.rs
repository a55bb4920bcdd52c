//! The balancer: which species may appear in a room, at which level, and
//! the filling of a room with monsters.

use crate::monsters::create_monster;
use crate::monsters::half;
use crate::monsters::known_species;
use crate::monsters::species_stats;
use crate::monsters::AnyMonster;
use crate::monsters::Monster;
use crate::monsters::MonsterStatsView;
use crate::random::pick_name;
use crate::room::roster_of;
use crate::room::RoomType;
use crate::zones::zone::Zone;
use vstd::prelude::*;

verus! {

/// What the balancer needs to know of a room.
#[derive(Debug)]
pub struct RoomData {
    pub zone: Zone,
    pub room_type: RoomType,
    pub room_number: i32,
}

impl Clone for RoomData {
    fn clone(&self) -> (copy: Self)
        ensures
            copy.zone@ == self.zone@,
            copy.room_type == self.room_type,
            copy.room_number == self.room_number,
    {
        RoomData {
            zone: self.zone.clone(),
            room_type: self.room_type,
            room_number: self.room_number,
        }
    }
}

/// What the archetype of a room adds to the level of its monsters.
pub open spec fn level_bonus(room_type: RoomType) -> int {
    match room_type {
        RoomType::Entrance => -1,
        RoomType::Normal => 0,
        RoomType::Elite => 2,
        RoomType::Treasure => 1,
        RoomType::Boss => 5,
    }
}

/// The value, held within the bounds.
pub open spec fn clamped(value: int, low: int, high: int) -> int {
    if value < low {
        low
    } else if value > high {
        high
    } else {
        value
    }
}

/// The level of the monsters of a room of an archetype in a zone whose
/// levels run from `low` to `high`: the middle of the two, rounded towards
/// 0, and the bonus of the archetype, held within the two.
pub open spec fn monster_level(low: int, high: int, room_type: RoomType) -> int {
    clamped(half(low + high) + level_bonus(room_type), low, high)
}

/// The species that may appear anywhere.
pub open spec fn base_pool() -> Seq<Seq<char>> {
    seq!["Slime"@, "Goblin"@, "Ogre"@]
}

/// The names from which the species of a monster is drawn: in the first
/// room the slime alone, in the second the slime and the goblin, elsewhere
/// the three common species followed by the zone's own.
pub open spec fn monster_pool(unique_monsters: Seq<Seq<char>>, room_number: int) -> Seq<
    Seq<char>,
> {
    if room_number == 1 {
        seq!["Slime"@]
    } else if room_number == 2 {
        seq!["Slime"@, "Goblin"@]
    } else {
        base_pool() + unique_monsters
    }
}

/// The monsters that a list of drawn names gives at a level, in the order
/// of the names. A name that belongs to no species gives none.
pub open spec fn roster_for(level: int, picks: Seq<Seq<char>>) -> Seq<MonsterStatsView>
    decreases picks.len(),
{
    if picks.len() == 0 {
        Seq::empty()
    } else {
        let before = roster_for(level, picks.drop_last());
        match species_stats(picks.last(), level) {
            Some(stats) => before.push(stats),
            None => before,
        }
    }
}

impl RoomData {
    /// The level of the room's monsters.
    pub open spec fn level(&self) -> int {
        monster_level(
            self.zone.difficulty.level_range().0,
            self.zone.difficulty.level_range().1,
            self.room_type,
        )
    }

    /// The names from which the species of the room's monsters are drawn.
    pub open spec fn pool(&self) -> Seq<Seq<char>> {
        monster_pool(self.zone@.unique_monsters, self.room_number as int)
    }

    /// True when every name of the pool belongs to a species.
    pub open spec fn pool_is_known(&self) -> bool {
        forall|i: int| 0 <= i < self.pool().len() ==> known_species(#[trigger] self.pool()[i])
    }

    /// True of the figures of a fresh monster of a species of the pool at
    /// the level of the room.
    pub open spec fn may_spawn(&self, stats: MonsterStatsView) -> bool {
        exists|i: int|
            0 <= i < self.pool().len() && species_stats(#[trigger] self.pool()[i], self.level())
                == Some(stats)
    }
}

/// The level of a monster is never outside the bounds of its zone, whatever
/// the archetype of the room adds to it.
pub proof fn lemma_level_within_range(low: int, high: int, room_type: RoomType)
    requires
        low <= high,
    ensures
        low <= monster_level(low, high, room_type) <= high,
{
}

/// The pool is never empty, and the pools of the first two rooms hold
/// known species only.
pub proof fn lemma_pool_is_never_empty(unique_monsters: Seq<Seq<char>>, room_number: int)
    ensures
        monster_pool(unique_monsters, room_number).len() >= 1,
        room_number == 1 ==> monster_pool(unique_monsters, room_number) == seq!["Slime"@],
        room_number == 2 ==> monster_pool(unique_monsters, room_number) == seq![
            "Slime"@,
            "Goblin"@,
        ],
{
}

/// A roster holds at most one monster for each drawn name, and exactly one
/// for each when every name belongs to a species.
pub proof fn lemma_roster_length(level: int, picks: Seq<Seq<char>>)
    ensures
        roster_for(level, picks).len() <= picks.len(),
        (forall|i: int| 0 <= i < picks.len() ==> known_species(#[trigger] picks[i]))
            ==> roster_for(level, picks).len() == picks.len(),
    decreases picks.len(),
{
    if picks.len() > 0 {
        let before = picks.drop_last();
        lemma_roster_length(level, before);
        assert forall|i: int| 0 <= i < before.len() implies before[i] == picks[i] by {}
        if forall|i: int| 0 <= i < picks.len() ==> known_species(#[trigger] picks[i]) {
            assert(known_species(picks[picks.len() - 1]));
            assert forall|i: int| 0 <= i < before.len() implies known_species(
                #[trigger] before[i],
            ) by {
                assert(known_species(picks[i]));
            }
        }
    }
}

/// Every monster of a roster is a fresh monster, at the level, of the
/// species of one of the drawn names.
pub proof fn lemma_roster_comes_from_picks(level: int, picks: Seq<Seq<char>>, slot: int)
    requires
        0 <= slot < roster_for(level, picks).len(),
    ensures
        exists|i: int|
            0 <= i < picks.len() && species_stats(#[trigger] picks[i], level) == Some(
                roster_for(level, picks)[slot],
            ),
    decreases picks.len(),
{
    if picks.len() > 0 {
        let before = picks.drop_last();
        let last = picks.len() - 1;
        if slot < roster_for(level, before).len() {
            lemma_roster_comes_from_picks(level, before, slot);
            let i = choose|i: int|
                0 <= i < before.len() && species_stats(#[trigger] before[i], level) == Some(
                    roster_for(level, before)[slot],
                );
            assert(before[i] == picks[i]);
            assert(species_stats(picks[i], level) == Some(roster_for(level, picks)[slot]));
        } else {
            assert(species_stats(picks[last], level) == Some(roster_for(level, picks)[slot]));
        }
    }
}

/// The names from which the species of a monster of the room is drawn.
pub fn get_monster_pool(room_data: &RoomData) -> (pool: Vec<String>)
    ensures
        pool.deep_view() == room_data.pool(),
        pool.len() == room_data.pool().len(),
        forall|i: int| 0 <= i < pool.len() ==> (#[trigger] pool[i])@ == room_data.pool()[i],
        pool.len() >= 1,
{
    if room_data.room_number == 1 {
        let pool: Vec<String> = vec![String::from_str("Slime")];
        assert(pool.deep_view() =~= room_data.pool());
        pool
    } else if room_data.room_number == 2 {
        let pool: Vec<String> = vec![String::from_str("Slime"), String::from_str("Goblin")];
        assert(pool.deep_view() =~= room_data.pool());
        pool
    } else {
        let mut pool: Vec<String> = vec![
            String::from_str("Slime"),
            String::from_str("Goblin"),
            String::from_str("Ogre"),
        ];
        let unique = &room_data.zone.unique_monsters;
        let mut i: usize = 0;
        while i < unique.len()
            invariant
                i <= unique.len(),
                pool.len() == 3 + i,
                pool[0]@ == "Slime"@,
                pool[1]@ == "Goblin"@,
                pool[2]@ == "Ogre"@,
                forall|j: int| 0 <= j < i ==> pool[3 + j]@ == unique[j]@,
            decreases unique.len() - i,
        {
            pool.push(unique[i].clone());
            i += 1;
        }
        assert(pool.deep_view() =~= base_pool() + unique.deep_view());
        pool
    }
}

/// The level of the monsters of the room. It lies within the bounds of the
/// zone.
pub fn calculate_monster_level(room_data: &RoomData) -> (level: i32)
    ensures
        level == room_data.level(),
        room_data.zone.difficulty.level_range().0 <= level
            <= room_data.zone.difficulty.level_range().1,
{
    let (min_level, max_level) = room_data.zone.get_monster_level_range();
    let base_level: i64 = (min_level as i64 + max_level as i64) / 2;
    let room_bonus: i64 = match room_data.room_type {
        RoomType::Entrance => -1,
        RoomType::Normal => 0,
        RoomType::Elite => 2,
        RoomType::Treasure => 1,
        RoomType::Boss => 5,
    };
    let raw = base_level + room_bonus;
    if raw < min_level as i64 {
        min_level
    } else if raw > max_level as i64 {
        max_level
    } else {
        raw as i32
    }
}

/// The monster that a drawn name gives in the room: a fresh monster of the
/// species of that name at the level of the room. No name, or a name that
/// belongs to no species, gives no monster.
pub fn monster_for_pick(room_data: &RoomData, picked: Option<&String>) -> (monster: Option<
    AnyMonster,
>)
    ensures
        picked is None ==> monster is None,
        picked matches Some(name) ==> (monster is Some <==> known_species(name@)),
        picked matches Some(name) ==> (monster matches Some(made) ==> Some(made.stats())
            == species_stats(name@, room_data.level())),
{
    match picked {
        None => None,
        Some(name) => {
            let monster_level = calculate_monster_level(room_data);
            create_monster(name.as_str(), monster_level)
        },
    }
}

/// One monster for the room, of a species drawn from the pool, each entry
/// of the pool with the same chance.
pub fn generate_monster_for_room(room_data: &RoomData) -> (monster: Option<AnyMonster>)
    ensures
        monster matches Some(made) ==> room_data.may_spawn(made.stats()),
        room_data.pool_is_known() ==> monster is Some,
{
    let mut generator = rand::rng();
    let monster_pool = get_monster_pool(room_data);
    let picked = pick_name(&mut generator, &monster_pool);
    let monster = monster_for_pick(room_data, picked);
    proof {
        let i = choose|i: int| 0 <= i < monster_pool.len() && monster_pool[i] == *picked->0;
        assert(room_data.pool()[i] == picked->0@);
        if room_data.pool_is_known() {
            assert(known_species(room_data.pool()[i]));
        }
    }
    monster
}

/// Fills rooms with monsters.
#[derive(Debug)]
pub struct MonsterBalancer;

impl Default for MonsterBalancer {
    fn default() -> Self {
        MonsterBalancer
    }
}

impl MonsterBalancer {
    /// A balancer.
    pub fn new() -> Self {
        MonsterBalancer
    }

    /// The monsters of a room with `room_size` places, each drawn from the
    /// pool. A place whose drawn name belongs to no species stays empty, so
    /// the list is never longer than asked for, and it is exactly that long
    /// when every name of the pool belongs to a species. Every monster is a
    /// fresh one of a species of the pool at the level of the room.
    pub fn generate_monsters_for_room(&self, room_data: &RoomData, room_size: usize) -> (monsters:
        Vec<AnyMonster>)
        ensures
            monsters.len() <= room_size,
            room_data.pool_is_known() ==> monsters.len() == room_size,
            forall|i: int|
                0 <= i < monsters.len() ==> room_data.may_spawn(#[trigger] monsters[i].stats()),
    {
        let mut monsters: Vec<AnyMonster> = Vec::new();
        let mut place: usize = 0;
        while place < room_size
            invariant
                place <= room_size,
                monsters.len() <= place,
                room_data.pool_is_known() ==> monsters.len() == place,
                forall|i: int|
                    0 <= i < monsters.len() ==> room_data.may_spawn(
                        #[trigger] monsters[i].stats(),
                    ),
            decreases room_size - place,
        {
            match generate_monster_for_room(room_data) {
                Some(monster) => {
                    monsters.push(monster);
                },
                None => {},
            }
            place += 1;
        }
        monsters
    }

    /// The monsters that a list of drawn names gives in the room, in the
    /// order of the names. A name that belongs to no species gives none.
    pub fn monsters_for_picks(&self, room_data: &RoomData, picks: &Vec<String>) -> (monsters: Vec<
        AnyMonster,
    >)
        ensures
            roster_of(monsters@) == roster_for(room_data.level(), picks.deep_view()),
    {
        let mut monsters: Vec<AnyMonster> = Vec::new();
        let mut place: usize = 0;
        assert(picks.deep_view().take(0) =~= Seq::<Seq<char>>::empty());
        assert(roster_of(monsters@) =~= Seq::<MonsterStatsView>::empty());
        while place < picks.len()
            invariant
                place <= picks.len(),
                roster_of(monsters@) == roster_for(
                    room_data.level(),
                    picks.deep_view().take(place as int),
                ),
            decreases picks.len() - place,
        {
            let ghost before = roster_of(monsters@);
            proof {
                let taken = picks.deep_view().take(place + 1);
                assert(taken.drop_last() =~= picks.deep_view().take(place as int));
                assert(taken.last() == picks[place as int]@);
            }
            match monster_for_pick(room_data, Some(&picks[place])) {
                Some(monster) => {
                    monsters.push(monster);
                    assert(roster_of(monsters@) =~= before.push(monster.stats()));
                },
                None => {},
            }
            place += 1;
        }
        assert(picks.deep_view().take(place as int) =~= picks.deep_view());
        monsters
    }
}

} // verus!
