//! The making of rooms: the archetype of a room from its number and a
//! roll, the number of its monsters from the archetype, and the room itself.

use crate::entity::Weapon;
use crate::entity::WeaponQuality;
use crate::entity::WeaponType;
use crate::monsters::balancer::lemma_roster_comes_from_picks;
use crate::monsters::balancer::lemma_roster_length;
use crate::monsters::balancer::monster_level;
use crate::monsters::balancer::monster_pool;
use crate::monsters::balancer::roster_for;
use crate::monsters::balancer::MonsterBalancer;
use crate::monsters::balancer::RoomData;
use crate::monsters::known_species;
use crate::monsters::species_stats;
use crate::monsters::Monster;
use crate::monsters::MonsterStatsView;
use crate::random::random_in;
use crate::room::is_room_loot;
use crate::room::room_loot;
use crate::room::Room;
use crate::room::RoomType;
use crate::room::Treasure;
use crate::zones::zone::Zone;
use crate::zones::zone::ZoneView;
use vstd::prelude::*;

verus! {

/// The archetype of the room of a number for a roll from 0 to 99. The
/// tenth room is the boss's. A room whose number is a multiple of 5 is a
/// treasure room on a roll under 30. Else the first room is the entrance;
/// rooms 2 to 4 are normal on a roll under 80 and elite above; rooms 5 to 9
/// are normal under 70, elite under 90 and treasure rooms above; every other
/// room is normal under 60, elite under 85 and a treasure room above.
pub open spec fn room_type_for(room_number: int, roll: int) -> RoomType {
    if room_number == 10 {
        RoomType::Boss
    } else if room_number % 5 == 0 && roll < 30 {
        RoomType::Treasure
    } else if room_number == 1 {
        RoomType::Entrance
    } else if 2 <= room_number <= 4 {
        if roll < 80 {
            RoomType::Normal
        } else {
            RoomType::Elite
        }
    } else if 5 <= room_number <= 9 {
        if roll < 70 {
            RoomType::Normal
        } else if roll < 90 {
            RoomType::Elite
        } else {
            RoomType::Treasure
        }
    } else {
        if roll < 60 {
            RoomType::Normal
        } else if roll < 85 {
            RoomType::Elite
        } else {
            RoomType::Treasure
        }
    }
}

/// True of an archetype that some roll from 0 to 99 gives the room.
pub open spec fn possible_type(room_number: int, room_type: RoomType) -> bool {
    exists|roll: int| 0 <= roll < 100 && room_type == #[trigger] room_type_for(room_number, roll)
}

/// The least and the greatest number of places for monsters in a room of
/// an archetype, both included.
pub open spec fn size_bounds(room_type: RoomType) -> (int, int) {
    match room_type {
        RoomType::Entrance => (1, 2),
        RoomType::Normal => (2, 4),
        RoomType::Elite => (1, 3),
        RoomType::Treasure => (1, 1),
        RoomType::Boss => (1, 1),
    }
}

/// The monsters of the room that a roll and a list of drawn names give in a
/// zone: those that the names give at the level of the room's archetype.
pub open spec fn generated_roster(
    zone: ZoneView,
    room_number: int,
    roll: int,
    picks: Seq<Seq<char>>,
) -> Seq<MonsterStatsView> {
    roster_for(
        monster_level(
            zone.difficulty.level_range().0,
            zone.difficulty.level_range().1,
            room_type_for(room_number, roll),
        ),
        picks,
    )
}

/// True of a room that generation may give for a number in a zone. Its
/// archetype is one that a roll gives the number. Its monsters are at most
/// as many as the archetype has places, and at least as many as its least
/// when every name of the pool belongs to a species; each is a fresh monster
/// of a species of the pool at the level of the room. Its loot is one piece:
/// a sword and gold. No monster is slain and the room is not cleared.
pub open spec fn is_generated(room: Room, zone: ZoneView, room_number: int) -> bool {
    &&& room.room_number == room_number
    &&& room.zone@ == zone
    &&& possible_type(room_number, room.room_type)
    &&& room.monsters.len() <= size_bounds(room.room_type).1
    &&& room.data().pool_is_known() ==> size_bounds(room.room_type).0 <= room.monsters.len()
    &&& forall|i: int|
        0 <= i < room.monsters.len() ==> room.data().may_spawn(#[trigger] room.monsters[i].stats())
    &&& room.treasures.len() == 1
    &&& is_room_loot(room.treasures[0]@)
    &&& !room.is_cleared
    &&& room.current_monster == 0
}

/// The tenth room is the boss's and the first is the entrance, whatever the
/// roll.
pub proof fn lemma_fixed_archetypes(roll: int)
    ensures
        room_type_for(10, roll) == RoomType::Boss,
        room_type_for(1, roll) == RoomType::Entrance,
{
}

/// Only the tenth room is a boss's room and only the first an entrance,
/// and rooms 2 to 4 are never treasure rooms.
pub proof fn lemma_archetype_bands(room_number: int, roll: int)
    ensures
        room_type_for(room_number, roll) == RoomType::Boss <==> room_number == 10,
        room_type_for(room_number, roll) == RoomType::Entrance <==> room_number == 1,
        2 <= room_number <= 4 ==> room_type_for(room_number, roll) != RoomType::Treasure,
{
}

/// A generated room of number 10 is the boss's, one of number 1 is the
/// entrance, and no generated room holds more than four monsters.
pub proof fn lemma_generated_rooms(room: Room, zone: ZoneView, room_number: int)
    requires
        is_generated(room, zone, room_number),
    ensures
        room_number == 10 ==> room.room_type == RoomType::Boss,
        room_number == 1 ==> room.room_type == RoomType::Entrance,
        room.monsters.len() <= 4,
        room.has_opponent() <==> room.monsters.len() > 0,
{
}

/// A name of the pool whose species, at the level of the room, has the
/// given figures.
pub open spec fn name_drawn_for(data: RoomData, stats: MonsterStatsView) -> Seq<char> {
    let i = choose|i: int|
        0 <= i < data.pool().len() && species_stats(#[trigger] data.pool()[i], data.level())
            == Some(stats);
    data.pool()[i]
}

/// A list of names each of which gives the monster at its place gives the
/// whole list of monsters.
pub proof fn lemma_roster_of_known_picks(
    level: int,
    picks: Seq<Seq<char>>,
    roster: Seq<MonsterStatsView>,
)
    requires
        picks.len() == roster.len(),
        forall|i: int|
            0 <= i < picks.len() ==> species_stats(#[trigger] picks[i], level) == Some(roster[i]),
    ensures
        roster_for(level, picks) == roster,
    decreases picks.len(),
{
    if picks.len() > 0 {
        let last = picks.len() - 1;
        assert forall|i: int| 0 <= i < last implies species_stats(
            #[trigger] picks.drop_last()[i],
            level,
        ) == Some(roster.drop_last()[i]) by {
            assert(picks.drop_last()[i] == picks[i]);
        }
        lemma_roster_of_known_picks(level, picks.drop_last(), roster.drop_last());
        assert(species_stats(picks[last], level) == Some(roster[last]));
        assert(roster.drop_last().push(roster[last]) =~= roster);
    } else {
        assert(roster =~= Seq::<MonsterStatsView>::empty());
    }
}

/// Every room that generation may give is the room of some roll and of
/// some names drawn from its pool: what is proved of the rooms made from
/// given draws holds of every generated room.
pub proof fn lemma_generated_room_has_draws(room: Room, zone: ZoneView, room_number: int)
    requires
        is_generated(room, zone, room_number),
    ensures
        exists|roll: int, picks: Seq<Seq<char>>|
            {
                &&& 0 <= roll < 100
                &&& room.room_type == room_type_for(room_number, roll)
                &&& picks.len() == room.monsters.len()
                &&& forall|i: int|
                    0 <= i < picks.len() ==> room.data().pool().contains(#[trigger] picks[i])
                &&& room.roster() == #[trigger] generated_roster(zone, room_number, roll, picks)
            },
{
    let data = room.data();
    let roll = choose|roll: int|
        0 <= roll < 100 && room.room_type == #[trigger] room_type_for(room_number, roll);
    let picks = Seq::new(
        room.monsters.len() as nat,
        |i: int| name_drawn_for(data, room.monsters[i].stats()),
    );
    assert forall|i: int| 0 <= i < picks.len() implies species_stats(
        #[trigger] picks[i],
        data.level(),
    ) == Some(room.roster()[i]) && data.pool().contains(picks[i]) by {
        assert(data.may_spawn(room.monsters[i].stats()));
    }
    lemma_roster_of_known_picks(data.level(), picks, room.roster());
    assert(room.roster() == generated_roster(zone, room_number, roll, picks));
}

/// Every room has a place for at least one monster and for at most four.
pub proof fn lemma_size_bounds(room_type: RoomType)
    ensures
        1 <= size_bounds(room_type).0 <= size_bounds(room_type).1 <= 4,
{
}

/// Generation has no hidden input: the monsters of a room follow from the
/// difficulty of the zone, the room number, the roll and the drawn names
/// alone. Two generations that agree in these give the same monsters and
/// the same number of them, whatever else differs between the two.
pub proof fn lemma_generation_is_deterministic(
    zone: ZoneView,
    other_zone: ZoneView,
    room_number: int,
    roll: int,
    picks: Seq<Seq<char>>,
)
    requires
        zone.difficulty == other_zone.difficulty,
    ensures
        generated_roster(zone, room_number, roll, picks) == generated_roster(
            other_zone,
            room_number,
            roll,
            picks,
        ),
        generated_roster(zone, room_number, roll, picks).len() == generated_roster(
            other_zone,
            room_number,
            roll,
            picks,
        ).len(),
{
}

/// The archetype of the room of a number for a roll.
pub fn room_type_for_roll(room_number: i32, roll: u32) -> (room_type: RoomType)
    ensures
        room_type == room_type_for(room_number as int, roll as int),
        room_number == 10 ==> room_type == RoomType::Boss,
        room_number == 1 ==> room_type == RoomType::Entrance,
{
    if room_number == 10 {
        return RoomType::Boss;
    }
    if room_number % 5 == 0 && roll < 30 {
        return RoomType::Treasure;
    }
    if room_number == 1 {
        RoomType::Entrance
    } else if 2 <= room_number && room_number <= 4 {
        if roll < 80 {
            RoomType::Normal
        } else {
            RoomType::Elite
        }
    } else if 5 <= room_number && room_number <= 9 {
        if roll < 70 {
            RoomType::Normal
        } else if roll < 90 {
            RoomType::Elite
        } else {
            RoomType::Treasure
        }
    } else {
        if roll < 60 {
            RoomType::Normal
        } else if roll < 85 {
            RoomType::Elite
        } else {
            RoomType::Treasure
        }
    }
}

/// What chance decides of one room: the roll for its archetype, the name
/// drawn for each of its places, and the condition of the sword and the
/// sum of gold in its loot.
#[derive(Debug)]
pub struct RoomDraws {
    pub roll: u32,
    pub picks: Vec<String>,
    pub quality: WeaponQuality,
    pub gold: u32,
}

impl RoomDraws {
    /// True of draws that the generator of random numbers may give for the
    /// room of a number in a zone: a roll under 100, as many names as one
    /// draw from the bounds of the roll's archetype allows, each from the
    /// pool of the room, and from 10 to 49 pieces of gold.
    pub open spec fn fit(&self, zone: ZoneView, room_number: int) -> bool {
        let room_type = room_type_for(room_number, self.roll as int);
        &&& self.roll < 100
        &&& size_bounds(room_type).0 <= self.picks.len() <= size_bounds(room_type).1
        &&& forall|i: int|
            0 <= i < self.picks.len() ==> monster_pool(zone.unique_monsters, room_number).contains(
                #[trigger] self.picks[i]@,
            )
        &&& 10 <= self.gold < 50
    }
}

/// Makes the rooms of a zone.
#[derive(Debug)]
pub struct RoomGenerator {
    balancer: MonsterBalancer,
}

impl Default for RoomGenerator {
    fn default() -> Self {
        RoomGenerator { balancer: MonsterBalancer::new() }
    }
}

impl RoomGenerator {
    /// A generator.
    pub fn new() -> Self {
        RoomGenerator { balancer: MonsterBalancer::new() }
    }

    /// A fresh room of the given number in the zone, with everything that
    /// is left to chance drawn anew. The archetype is one that a roll gives
    /// the number; the monsters are at most as many as the archetype has
    /// places, and as many as one draw from its bounds when every name of
    /// the pool belongs to a species; each is a fresh monster of a species
    /// of the pool at the level of the room. Nothing but the generator of
    /// random numbers is changed, so a room may be made to be looked at and
    /// thrown away.
    pub fn generate_room(&self, zone: &Zone, room_number: i32) -> (room: Room)
        ensures
            is_generated(room, zone@, room_number as int),
            room_number == 10 ==> room.room_type == RoomType::Boss,
            room_number == 1 ==> room.room_type == RoomType::Entrance,
    {
        let room_type = self.determine_room_type(room_number);
        let room_size = self.determine_room_size(&room_type);
        let difficulty = RoomData { zone: zone.clone(), room_type, room_number };
        let monsters = self.balancer.generate_monsters_for_room(&difficulty, room_size);
        let room = Room::new(room_number, zone.clone(), room_type, monsters);
        proof {
            assert(room.data().pool() == difficulty.pool());
            assert(room.data().level() == difficulty.level());
            assert forall|i: int| 0 <= i < room.monsters.len() implies room.data().may_spawn(
                #[trigger] room.monsters[i].stats(),
            ) by {
                assert(difficulty.may_spawn(monsters[i].stats()));
            }
        }
        room
    }

    /// The room of the given number in the zone that the given draws give.
    /// The archetype is the one of the roll; the monsters are those of the
    /// drawn names, in their order, at the level of the room; the loot is a
    /// sword in the drawn condition and the drawn gold.
    pub fn generate_room_with(&self, zone: &Zone, room_number: i32, draws: &RoomDraws) -> (room:
        Room)
        ensures
            room.room_number == room_number,
            room.zone@ == zone@,
            room.room_type == room_type_for(room_number as int, draws.roll as int),
            room.roster() == generated_roster(
                zone@,
                room_number as int,
                draws.roll as int,
                draws.picks.deep_view(),
            ),
            room.treasures.len() == 1,
            room.treasures[0]@ == room_loot(draws.quality, draws.gold),
            !room.is_cleared,
            room.current_monster == 0,
            draws.fit(zone@, room_number as int) ==> is_generated(room, zone@, room_number as int),
    {
        let room_type = room_type_for_roll(room_number, draws.roll);
        let difficulty = RoomData { zone: zone.clone(), room_type, room_number };
        let monsters = self.balancer.monsters_for_picks(&difficulty, &draws.picks);
        let weapon = Weapon::with_quality(WeaponType::Sword, draws.quality);
        let treasure = Treasure::new(Some(weapon), Some(draws.gold), None);
        let room = Room::with_treasure(room_number, zone.clone(), room_type, monsters, treasure);
        proof {
            if draws.fit(zone@, room_number as int) {
                let picks = draws.picks.deep_view();
                let level = room.data().level();
                lemma_roster_length(level, picks);
                assert forall|i: int| 0 <= i < room.monsters.len() implies room.data().may_spawn(
                    #[trigger] room.monsters[i].stats(),
                ) by {
                    assert(room.roster()[i] == room.monsters[i].stats());
                    lemma_roster_comes_from_picks(level, picks, i);
                    let k = choose|k: int|
                        0 <= k < picks.len() && species_stats(#[trigger] picks[k], level) == Some(
                            roster_for(level, picks)[i],
                        );
                    assert(room.data().pool().contains(draws.picks[k]@));
                }
                if room.data().pool_is_known() {
                    assert forall|k: int| 0 <= k < picks.len() implies known_species(
                        #[trigger] picks[k],
                    ) by {
                        assert(room.data().pool().contains(draws.picks[k]@));
                        let j = choose|j: int|
                            0 <= j < room.data().pool().len() && room.data().pool()[j]
                                == draws.picks[k]@;
                        assert(known_species(room.data().pool()[j]));
                    }
                }
                assert(room.treasures[0]@ == room_loot(draws.quality, draws.gold));
                assert(room_type == room_type_for(room_number as int, draws.roll as int));
            }
        }
        room
    }

    /// The archetype of the room of a number, on a roll from 0 to 99 drawn
    /// at random, each with the same chance.
    pub fn determine_room_type(&self, room_number: i32) -> (room_type: RoomType)
        ensures
            possible_type(room_number as int, room_type),
            room_number == 10 ==> room_type == RoomType::Boss,
            room_number == 1 ==> room_type == RoomType::Entrance,
    {
        let mut generator = rand::rng();
        let roll = random_in(&mut generator, 0, 99);
        room_type_for_roll(room_number, roll)
    }

    /// The number of places for monsters in a room of an archetype, drawn
    /// at random from its bounds, each number with the same chance.
    pub fn determine_room_size(&self, room_type: &RoomType) -> (room_size: usize)
        ensures
            size_bounds(*room_type).0 <= room_size <= size_bounds(*room_type).1,
    {
        let mut generator = rand::rng();
        match room_type {
            RoomType::Entrance => random_in(&mut generator, 1, 2) as usize,
            RoomType::Normal => random_in(&mut generator, 2, 4) as usize,
            RoomType::Elite => random_in(&mut generator, 1, 3) as usize,
            RoomType::Treasure => 1,
            RoomType::Boss => 1,
        }
    }
}

} // verus!
