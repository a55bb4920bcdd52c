//! The run through a zone: which room the player is in, and whether the
//! run is still under way.

use crate::monsters::slime_stats;
use crate::room::is_room_loot;
use crate::room::Room;
use crate::room::RoomType;
use crate::zones::generator::is_generated;
use crate::zones::generator::RoomGenerator;
use crate::zones::zone::blank_zone;
use crate::zones::zone::Zone;
use vstd::prelude::*;

verus! {

/// The number of the last room of a zone.
pub const MAX_ROOM_NUMBER: i32 = 10;

/// One run. Exactly one room is current at any time; the room before it is
/// gone with all that was left in it.
#[derive(Debug)]
pub struct Dungeon {
    pub current_zone: Zone,
    pub current_room_number: i32,
    pub room_generator: RoomGenerator,
    pub is_active: bool,
    pub current_room: Room,
}

impl Default for Dungeon {
    /// The run that stands in before a game has begun: not under way, at
    /// room 0 of the blank zone.
    fn default() -> (dungeon: Self)
        ensures
            dungeon.current_zone@ == blank_zone(),
            dungeon.current_room_number == 0,
            !dungeon.is_active,
            dungeon.current_room.room_number == 1,
            dungeon.current_room.room_type == RoomType::Entrance,
            dungeon.current_room.monsters.len() == 1,
            dungeon.current_room.roster() == seq![slime_stats(1)],
            dungeon.current_room.treasures.len() == 1,
            is_room_loot(dungeon.current_room.treasures[0]@),
            dungeon.current_room.is_cleared,
            dungeon.current_room.current_monster == 0,
    {
        Dungeon {
            current_zone: Zone::default(),
            current_room_number: 0,
            room_generator: RoomGenerator::default(),
            is_active: false,
            current_room: Room::default(),
        }
    }
}

impl Dungeon {
    /// True when the current room is a freshly generated room of the
    /// current number in the current zone.
    pub open spec fn in_fresh_room(&self) -> bool {
        is_generated(self.current_room, self.current_zone@, self.current_room_number as int)
    }

    /// True while a room comes after the current one.
    pub open spec fn rooms_left(&self) -> bool {
        self.current_room_number < MAX_ROOM_NUMBER
    }

    /// A run through the zone, under way and in its first room, which is
    /// freshly generated.
    pub fn new(zone: Zone) -> (dungeon: Self)
        ensures
            dungeon.current_zone == zone,
            dungeon.current_room_number == 1,
            dungeon.is_active,
            dungeon.in_fresh_room(),
    {
        let room_generator = RoomGenerator::new();
        let current_room = room_generator.generate_room(&zone, 1);
        Dungeon {
            current_zone: zone,
            current_room_number: 1,
            room_generator,
            current_room,
            is_active: true,
        }
    }

    /// Generates the current room anew. Zone, room number and activity stay.
    pub fn start(&mut self)
        ensures
            final(self).current_zone == old(self).current_zone,
            final(self).current_room_number == old(self).current_room_number,
            final(self).room_generator == old(self).room_generator,
            final(self).is_active == old(self).is_active,
            final(self).in_fresh_room(),
    {
        self.current_room =
        self.room_generator.generate_room(&self.current_zone, self.current_room_number);
    }

    /// A room as the current one could have been generated, to look at. The
    /// run is not changed.
    pub fn generate_current_room(&self) -> (room: Room)
        ensures
            is_generated(room, self.current_zone@, self.current_room_number as int),
    {
        self.room_generator.generate_room(&self.current_zone, self.current_room_number)
    }

    /// Goes on to the next room, which is freshly generated; the room that
    /// is left is gone. Only a run that is under way goes on.
    pub fn next_room(&mut self)
        requires
            old(self).is_active,
            old(self).current_room_number < i32::MAX,
        ensures
            final(self).current_zone == old(self).current_zone,
            final(self).current_room_number == old(self).current_room_number + 1,
            final(self).room_generator == old(self).room_generator,
            final(self).is_active,
            final(self).in_fresh_room(),
    {
        self.current_room_number += 1;
        self.current_room =
        self.room_generator.generate_room(&self.current_zone, self.current_room_number);
    }

    /// Ends the run because the zone is completed.
    pub fn complete_zone(&mut self)
        ensures
            *final(self) == (Dungeon { is_active: false, ..*old(self) }),
    {
        self.is_active = false;
    }

    /// Ends the run because the player died.
    pub fn handle_player_death(&mut self)
        ensures
            *final(self) == (Dungeon { is_active: false, ..*old(self) }),
    {
        self.is_active = false;
    }

    /// True while the current room is not the last one of the zone.
    pub fn is_there_rooms_left(&mut self) -> (left: bool)
        ensures
            left == old(self).rooms_left(),
            left == (old(self).current_room_number < 10),
            *final(self) == *old(self),
    {
        self.current_room_number < MAX_ROOM_NUMBER
    }

    /// The current room, to change it.
    pub fn get_current_room_mutable(&mut self) -> (room: &mut Room)
        ensures
            *room == old(self).current_room,
            *final(self) == (Dungeon { current_room: *final(room), ..*old(self) }),
    {
        &mut self.current_room
    }

    /// The current room, to look at it.
    pub fn get_current_room_immutable(&self) -> (room: &Room)
        ensures
            *room == self.current_room,
    {
        &self.current_room
    }
}

} // verus!
