use ardentia::dungeon::Dungeon;
use ardentia::dungeon::MAX_ROOM_NUMBER;
use ardentia::monsters::Monster;
use ardentia::room::RoomType;
use ardentia::zones::zone::Zone;
use ardentia::zones::zone::ZoneDifficulty;
use ardentia::zones::zone::ZoneType;

fn jungle() -> Zone {
    Zone::new(ZoneType::Jungle, ZoneDifficulty::Normal)
}

#[test]
fn new_dungeon_is_under_way_in_its_first_room() {
    let dungeon = Dungeon::new(jungle());
    assert_eq!(dungeon.current_zone.name, "Jungle");
    assert_eq!(dungeon.current_room_number, 1);
    assert!(dungeon.is_active);
    let room = dungeon.get_current_room_immutable();
    assert_eq!(room.room_number, 1);
    assert_eq!(room.room_type, RoomType::Entrance);
    assert!(room.monsters.len() == 1 || room.monsters.len() == 2);
    for monster in &room.monsters {
        assert_eq!(monster.get_stats().name, "Slime");
        assert_eq!(monster.get_stats().level, 1);
    }
    assert_eq!(room.current_monster, 0);
    assert!(!room.is_cleared);
}

#[test]
fn default_dungeon_is_not_under_way() {
    let dungeon = Dungeon::default();
    assert_eq!(dungeon.current_room_number, 0);
    assert!(!dungeon.is_active);
    assert_eq!(dungeon.current_zone.name, "");
    assert!(dungeon.current_room.is_cleared);
    assert_eq!(dungeon.current_room.monsters.len(), 1);
}

#[test]
fn start_generates_the_current_room_anew() {
    let mut dungeon = Dungeon::new(jungle());
    dungeon.get_current_room_mutable().current_monster = 1;
    dungeon.get_current_room_mutable().is_cleared = true;
    dungeon.start();
    assert_eq!(dungeon.current_room_number, 1);
    assert!(dungeon.is_active);
    assert_eq!(dungeon.current_room.room_number, 1);
    assert_eq!(dungeon.current_room.current_monster, 0);
    assert!(!dungeon.current_room.is_cleared);
}

#[test]
fn next_room_advances_the_counter_and_replaces_the_room() {
    let mut dungeon = Dungeon::new(jungle());
    dungeon.get_current_room_mutable().current_monster = 1;
    dungeon.next_room();
    assert_eq!(dungeon.current_room_number, 2);
    assert!(dungeon.is_active);
    assert_eq!(dungeon.current_room.room_number, 2);
    assert_eq!(dungeon.current_room.current_monster, 0);
    for monster in &dungeon.current_room.monsters {
        let name = monster.get_stats().name;
        assert!(name == "Slime" || name == "Goblin");
    }
    while dungeon.is_there_rooms_left() {
        dungeon.next_room();
    }
    assert_eq!(dungeon.current_room_number, 10);
    assert_eq!(dungeon.current_room.room_number, 10);
    assert_eq!(dungeon.current_room.room_type, RoomType::Boss);
    assert_eq!(dungeon.current_room.monsters.len(), 1);
}

#[test]
fn rooms_are_left_at_room_nine_and_none_at_room_ten() {
    let mut dungeon = Dungeon::new(jungle());
    dungeon.current_room_number = 9;
    assert!(dungeon.is_there_rooms_left());
    assert_eq!(dungeon.current_room_number, 9);
    dungeon.current_room_number = 10;
    assert!(!dungeon.is_there_rooms_left());
    dungeon.current_room_number = 11;
    assert!(!dungeon.is_there_rooms_left());
    dungeon.current_room_number = 1;
    assert!(dungeon.is_there_rooms_left());
    assert_eq!(MAX_ROOM_NUMBER, 10);
}

#[test]
fn completing_the_zone_ends_the_run() {
    let mut dungeon = Dungeon::new(jungle());
    dungeon.current_room_number = 10;
    dungeon.complete_zone();
    assert!(!dungeon.is_active);
    assert_eq!(dungeon.current_room_number, 10);
    assert_eq!(dungeon.current_zone.name, "Jungle");
}

#[test]
fn death_of_the_player_ends_the_run() {
    let mut dungeon = Dungeon::new(jungle());
    let monsters = dungeon.current_room.monsters.len();
    dungeon.handle_player_death();
    assert!(!dungeon.is_active);
    assert_eq!(dungeon.current_room_number, 1);
    assert_eq!(dungeon.current_room.monsters.len(), monsters);
}

#[test]
fn peek_at_the_current_room_leaves_the_run_alone() {
    let mut dungeon = Dungeon::new(jungle());
    dungeon.next_room();
    dungeon.next_room();
    dungeon.get_current_room_mutable().current_monster = 1;
    let monsters = dungeon.current_room.monsters.len();
    for _ in 0..20 {
        let peek = dungeon.generate_current_room();
        assert_eq!(peek.room_number, 3);
        assert_eq!(peek.current_monster, 0);
        assert!(peek.room_type == RoomType::Normal || peek.room_type == RoomType::Elite);
    }
    assert_eq!(dungeon.current_room_number, 3);
    assert_eq!(dungeon.current_room.current_monster, 1);
    assert_eq!(dungeon.current_room.monsters.len(), monsters);
    assert!(dungeon.is_active);
}
