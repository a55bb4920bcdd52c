//! A room of the dungeon: its monsters, in the order in which they are
//! fought, and the loot that waits behind them.

use crate::entity::forged;
use crate::entity::Weapon;
use crate::entity::WeaponQuality;
use crate::entity::WeaponType;
use crate::entity::WeaponView;
use crate::monsters::balancer::RoomData;
use crate::monsters::jungle::slime::Slime;
use crate::monsters::slime_stats;
use crate::monsters::AnyMonster;
use crate::monsters::Monster;
use crate::monsters::MonsterStatsView;
use crate::random::random_in;
use crate::text::decimal;
use crate::text::decimal_text;
use crate::zones::zone::blank_zone;
use crate::zones::zone::Zone;
use vstd::prelude::*;

verus! {

/// The archetype of a room. It decides how many monsters the room holds
/// and how strong they are.
#[derive(Debug, PartialEq, Eq, Clone, Copy, Structural)]
pub enum RoomType {
    Entrance,
    Normal,
    Elite,
    Treasure,
    Boss,
}

/// A grade of difficulty.
#[derive(Debug, PartialEq, Eq, Clone, Copy, Structural)]
pub enum Difficulty {
    Easy,
    Medium,
    Hard,
}

impl Default for Difficulty {
    fn default() -> (difficulty: Self)
        ensures
            difficulty == Difficulty::Easy,
    {
        Difficulty::Easy
    }
}

impl Difficulty {
    /// The word that names the grade on screen.
    pub open spec fn label_text(self) -> Seq<char> {
        match self {
            Difficulty::Easy => "Easy"@,
            Difficulty::Medium => "Medium"@,
            Difficulty::Hard => "Hard"@,
        }
    }

    /// The grade as text.
    pub fn label(&self) -> (text: String)
        ensures
            text@ == self.label_text(),
    {
        match self {
            Difficulty::Easy => String::from_str("Easy"),
            Difficulty::Medium => String::from_str("Medium"),
            Difficulty::Hard => String::from_str("Hard"),
        }
    }
}

/// How the visit of a room ended.
#[derive(Debug, PartialEq, Eq, Clone, Copy, Structural)]
pub enum RoomResult {
    Sucess,
    Died,
    Ran,
}

/// A potion that gives health back.
#[derive(Debug, PartialEq, Eq, Clone, Copy, Structural)]
pub struct HealthPotion {
    heal_amount: i32,
}

impl HealthPotion {
    /// A potion that heals the given amount.
    pub fn new(heal_amount: i32) -> (potion: Self)
        ensures
            potion.amount() == heal_amount,
    {
        HealthPotion { heal_amount }
    }

    /// The health that the potion gives back.
    pub closed spec fn amount(&self) -> int {
        self.heal_amount as int
    }

    /// The line that names the potion on screen.
    pub fn describe(&self) -> (text: String)
        ensures
            text@ == "A potion that heals "@ + decimal(self.amount()) + "hp"@,
    {
        let amount = decimal_text(self.heal_amount);
        String::from_str("A potion that heals ").concat(amount.as_str()).concat("hp")
    }

    /// The health that the potion gives back.
    pub fn heal_amount(&self) -> (amount: i32)
        ensures
            amount == self.amount(),
    {
        self.heal_amount
    }
}

/// One piece of loot. Each of its three parts may be missing.
#[derive(Debug)]
pub struct Treasure {
    pub weapon: Option<Weapon>,
    pub gold: Option<u32>,
    pub health_potion: Option<HealthPotion>,
}

/// A piece of loot as the contracts see it.
pub struct TreasureView {
    pub weapon: Option<WeaponView>,
    pub gold: Option<u32>,
    pub health_potion: Option<HealthPotion>,
}

impl View for Treasure {
    type V = TreasureView;

    open spec fn view(&self) -> TreasureView {
        TreasureView {
            weapon: match self.weapon {
                Some(weapon) => Some(weapon@),
                None => None,
            },
            gold: self.gold,
            health_potion: self.health_potion,
        }
    }
}

impl Clone for Treasure {
    fn clone(&self) -> (copy: Self)
        ensures
            copy == *self,
    {
        let weapon = match &self.weapon {
            Some(weapon) => Some(weapon.clone()),
            None => None,
        };
        Treasure { weapon, gold: self.gold, health_potion: self.health_potion }
    }
}

/// The loot of a fresh room for a drawn condition and a drawn sum of gold:
/// a sword in that condition, the gold, and no potion.
pub open spec fn room_loot(quality: WeaponQuality, gold: u32) -> TreasureView {
    TreasureView {
        weapon: Some(forged(WeaponType::Sword, quality)),
        gold: Some(gold),
        health_potion: None,
    }
}

/// True of the loot that a fresh room may hold: a sword in one of the four
/// conditions, from 10 to 49 pieces of gold, and no potion.
pub open spec fn is_room_loot(treasure: TreasureView) -> bool {
    exists|quality: WeaponQuality, gold: u32|
        10 <= gold < 50 && treasure == #[trigger] room_loot(quality, gold)
}

impl Treasure {
    /// The loot with the given parts.
    pub fn new(weapon: Option<Weapon>, gold: Option<u32>, health_potion: Option<HealthPotion>) -> (treasure:
        Self)
        ensures
            treasure.weapon == weapon,
            treasure.gold == gold,
            treasure.health_potion == health_potion,
    {
        Treasure { weapon, gold, health_potion }
    }

    /// True when at least one of the three parts is there.
    pub open spec fn filled(&self) -> bool {
        self.weapon is Some || self.gold is Some || self.health_potion is Some
    }
}

impl Default for Treasure {
    /// The loot of a fresh room: a sword in a condition drawn at random,
    /// from 10 to 49 pieces of gold, each sum with the same chance, and no
    /// potion.
    fn default() -> (treasure: Self)
        ensures
            is_room_loot(treasure@),
    {
        let weapon = Weapon::new(WeaponType::Sword);
        let mut generator = rand::rng();
        let gold = random_in(&mut generator, 10, 49);
        let treasure = Treasure::new(Some(weapon), Some(gold), None);
        proof {
            let quality = choose|quality: WeaponQuality|
                weapon@ == forged(WeaponType::Sword, quality);
            assert(treasure@ == room_loot(quality, gold));
        }
        treasure
    }
}

/// How many of the pieces of loot hold anything.
pub open spec fn filled_count(treasures: Seq<Treasure>) -> nat
    decreases treasures.len(),
{
    if treasures.len() == 0 {
        0
    } else {
        filled_count(treasures.drop_last()) + if treasures.last().filled() {
            1nat
        } else {
            0nat
        }
    }
}

/// The weapon of the first piece of loot that has one.
pub open spec fn first_weapon(treasures: Seq<Treasure>) -> Option<Weapon>
    decreases treasures.len(),
{
    if treasures.len() == 0 {
        None
    } else if treasures.first().weapon is Some {
        treasures.first().weapon
    } else {
        first_weapon(treasures.drop_first())
    }
}

/// Counting further pieces never lowers the count, and the count is never
/// above the number of pieces.
pub proof fn lemma_filled_count_grows(treasures: Seq<Treasure>, shorter: int, longer: int)
    requires
        0 <= shorter <= longer <= treasures.len(),
    ensures
        filled_count(treasures.take(shorter)) <= filled_count(treasures.take(longer)) <= longer,
    decreases longer,
{
    if longer == 0 {
        assert(treasures.take(shorter) =~= treasures.take(longer));
    } else {
        assert(treasures.take(longer).drop_last() =~= treasures.take(longer - 1));
        if shorter < longer {
            lemma_filled_count_grows(treasures, shorter, longer - 1);
        } else {
            lemma_filled_count_grows(treasures, longer - 1, longer - 1);
        }
    }
}

/// A weapon is found exactly when some piece of loot holds one, and the
/// weapon found is held by a piece before which no piece holds any.
pub proof fn lemma_first_weapon_is_first(treasures: Seq<Treasure>)
    ensures
        first_weapon(treasures) is Some <==> exists|i: int|
            0 <= i < treasures.len() && (#[trigger] treasures[i]).weapon is Some,
        first_weapon(treasures) is Some ==> exists|i: int|
            0 <= i < treasures.len() && (#[trigger] treasures[i]).weapon == first_weapon(treasures)
                && forall|j: int| 0 <= j < i ==> (#[trigger] treasures[j]).weapon is None,
    decreases treasures.len(),
{
    if treasures.len() == 0 {
    } else if treasures.first().weapon is Some {
        assert(treasures[0].weapon == first_weapon(treasures));
    } else {
        let rest = treasures.drop_first();
        lemma_first_weapon_is_first(rest);
        assert forall|i: int| 0 <= i < rest.len() implies rest[i] == treasures[i + 1] by {}
        if first_weapon(rest) is Some {
            let i = choose|i: int|
                0 <= i < rest.len() && (#[trigger] rest[i]).weapon == first_weapon(rest) && forall|
                    j: int,
                | 0 <= j < i ==> (#[trigger] rest[j]).weapon is None;
            assert(treasures[i + 1].weapon == first_weapon(treasures));
            assert forall|j: int| 0 <= j < i + 1 implies (#[trigger] treasures[j]).weapon
                is None by {
                if j > 0 {
                    assert(rest[j - 1].weapon is None);
                }
            }
        } else {
            assert forall|i: int| 0 <= i < treasures.len() implies (#[trigger] treasures[i]).weapon
                is None by {
                if i > 0 {
                    assert(rest[i - 1] == treasures[i]);
                }
            }
        }
    }
}

/// Counting the loot of a room.
pub trait TreasureUtils {
    /// How many pieces hold anything.
    spec fn filled_pieces(&self) -> nat;

    /// The number of pieces that hold anything.
    fn treasure_len(&self) -> (count: u16)
        requires
            self.filled_pieces() <= u16::MAX,
        ensures
            count == self.filled_pieces(),
    ;
}

impl TreasureUtils for Vec<Treasure> {
    open spec fn filled_pieces(&self) -> nat {
        filled_count(self@)
    }

    fn treasure_len(&self) -> (count: u16) {
        let mut count: u16 = 0;
        let mut i: usize = 0;
        assert(self@.take(self@.len() as int) =~= self@);
        while i < self.len()
            invariant
                i <= self.len(),
                count == filled_count(self@.take(i as int)),
                filled_count(self@) <= u16::MAX,
            decreases self.len() - i,
        {
            proof {
                lemma_filled_count_grows(self@, i + 1, self@.len() as int);
                assert(self@.take(self@.len() as int) =~= self@);
                assert(self@.take(i + 1).drop_last() =~= self@.take(i as int));
            }
            let treasure = &self[i];
            if treasure.weapon.is_some() || treasure.gold.is_some()
                || treasure.health_potion.is_some() {
                count += 1;
            }
            i += 1;
        }
        assert(self@.take(i as int) =~= self@);
        count
    }
}

/// Finding the weapon in the loot of a room.
pub trait WeaponUtils {
    /// The weapon that would be found.
    spec fn weapon_found(&self) -> Option<Weapon>;

    /// A copy of the weapon of the first piece that has one.
    fn get_weapon(&self) -> (weapon: Option<Weapon>)
        ensures
            weapon == self.weapon_found(),
    ;

    /// True exactly when some piece holds a weapon.
    fn contains_weapon(&self) -> (found: bool)
        ensures
            found == (self.weapon_found() is Some),
    ;
}

impl WeaponUtils for Vec<Treasure> {
    open spec fn weapon_found(&self) -> Option<Weapon> {
        first_weapon(self@)
    }

    fn get_weapon(&self) -> (weapon: Option<Weapon>) {
        let mut i: usize = 0;
        assert(self@.skip(0) =~= self@);
        while i < self.len()
            invariant
                i <= self.len(),
                first_weapon(self@) == first_weapon(self@.skip(i as int)),
            decreases self.len() - i,
        {
            assert(self@.skip(i as int).drop_first() =~= self@.skip(i + 1));
            match &self[i].weapon {
                Some(weapon) => {
                    return Some(weapon.clone());
                },
                None => {},
            }
            i += 1;
        }
        None
    }

    fn contains_weapon(&self) -> (found: bool) {
        let mut i: usize = 0;
        assert(self@.skip(0) =~= self@);
        while i < self.len()
            invariant
                i <= self.len(),
                first_weapon(self@) == first_weapon(self@.skip(i as int)),
            decreases self.len() - i,
        {
            assert(self@.skip(i as int).drop_first() =~= self@.skip(i + 1));
            if self[i].weapon.is_some() {
                return true;
            }
            i += 1;
        }
        false
    }
}

/// One room. A room lives from the moment the run enters it to the moment
/// the run leaves it.
#[derive(Debug)]
pub struct Room {
    pub room_number: i32,
    pub zone: Zone,
    pub room_type: RoomType,
    pub monsters: Vec<AnyMonster>,
    pub treasures: Vec<Treasure>,
    pub is_cleared: bool,
    pub current_monster: usize,
}

/// The figures of each of a list of monsters, in order.
pub open spec fn roster_of(monsters: Seq<AnyMonster>) -> Seq<MonsterStatsView> {
    Seq::new(monsters.len(), |i: int| monsters[i].stats())
}

impl Room {
    /// The figures of the room's monsters, in the order of the fights.
    pub open spec fn roster(&self) -> Seq<MonsterStatsView> {
        roster_of(self.monsters@)
    }

    /// What the balancer knows of the room.
    pub open spec fn data(&self) -> RoomData {
        RoomData { zone: self.zone, room_type: self.room_type, room_number: self.room_number }
    }

    /// True when every monster of the room is slain.
    pub open spec fn empty(&self) -> bool {
        self.monsters.len() == self.current_monster
    }

    /// True when the room has a monster left and it is the one to fight.
    pub open spec fn has_opponent(&self) -> bool {
        self.current_monster < self.monsters.len()
    }

    /// A fresh room with the given monsters and one piece of loot, drawn as
    /// `Treasure::default` draws it. No monster is slain yet and the room is
    /// not cleared.
    pub fn new(room_number: i32, zone: Zone, room_type: RoomType, monsters: Vec<AnyMonster>) -> (room:
        Self)
        ensures
            room.room_number == room_number,
            room.zone == zone,
            room.room_type == room_type,
            room.monsters == monsters,
            room.treasures.len() == 1,
            is_room_loot(room.treasures[0]@),
            !room.is_cleared,
            room.current_monster == 0,
    {
        Self::with_treasure(room_number, zone, room_type, monsters, Treasure::default())
    }

    /// A fresh room with the given monsters and the given piece of loot.
    pub fn with_treasure(
        room_number: i32,
        zone: Zone,
        room_type: RoomType,
        monsters: Vec<AnyMonster>,
        treasure: Treasure,
    ) -> (room: Self)
        ensures
            room.room_number == room_number,
            room.zone == zone,
            room.room_type == room_type,
            room.monsters == monsters,
            room.treasures@ == seq![treasure],
            !room.is_cleared,
            room.current_monster == 0,
    {
        Room {
            room_number,
            zone,
            room_type,
            monsters,
            treasures: vec![treasure],
            is_cleared: false,
            current_monster: 0,
        }
    }

    /// Marks the monster in turn as slain: the next one is in turn.
    pub fn monster_slain(&mut self)
        requires
            old(self).current_monster < usize::MAX,
        ensures
            *final(self) == (Room {
                current_monster: (old(self).current_monster + 1) as usize,
                ..*old(self)
            }),
    {
        self.current_monster += 1;
    }

    /// True exactly when as many monsters are slain as the room holds.
    pub fn is_empty(&mut self) -> (empty: bool)
        ensures
            empty == old(self).empty(),
            *final(self) == *old(self),
    {
        self.monsters.len() == self.current_monster
    }

    /// The monster to fight, if one is left.
    pub fn opponent(&self) -> (monster: Option<&AnyMonster>)
        ensures
            monster is Some <==> self.has_opponent(),
            monster matches Some(found) ==> *found == self.monsters[self.current_monster as int],
    {
        if self.current_monster < self.monsters.len() {
            Some(&self.monsters[self.current_monster])
        } else {
            None
        }
    }

    /// The monster that was slain last, if any was.
    pub fn last_slain(&self) -> (monster: Option<&AnyMonster>)
        ensures
            monster is Some <==> 0 < self.current_monster <= self.monsters.len(),
            monster matches Some(found) ==> *found == self.monsters[self.current_monster - 1],
    {
        if 0 < self.current_monster && self.current_monster <= self.monsters.len() {
            Some(&self.monsters[self.current_monster - 1])
        } else {
            None
        }
    }
}

impl Default for Room {
    /// The room that stands in before a run has begun: the first room of
    /// the blank zone, an entrance with one slime of level 1 and the loot of
    /// a fresh room, marked as cleared.
    fn default() -> (room: Self)
        ensures
            room.room_number == 1,
            room.zone@ == blank_zone(),
            room.room_type == RoomType::Entrance,
            room.monsters.len() == 1,
            room.roster() == seq![slime_stats(1)],
            room.treasures.len() == 1,
            is_room_loot(room.treasures[0]@),
            room.is_cleared,
            room.current_monster == 0,
    {
        let monsters: Vec<AnyMonster> = vec![AnyMonster::Slime(Slime::new(1))];
        let room = Room {
            room_number: 1,
            zone: Zone::default(),
            room_type: RoomType::Entrance,
            monsters,
            treasures: vec![Treasure::default()],
            is_cleared: true,
            current_monster: 0,
        };
        assert(room.roster() =~= seq![slime_stats(1)]);
        room
    }
}

} // verus!
