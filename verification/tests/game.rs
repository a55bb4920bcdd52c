use ardentia::app::App;
use ardentia::combat::exchange;
use ardentia::entity::Player;
use ardentia::entity::Weapon;
use ardentia::entity::WeaponQuality;
use ardentia::entity::WeaponType;
use ardentia::game_loop::LoopAction;
use ardentia::game_loop::LoopEvent;
use ardentia::keybinds::KeyCode;
use ardentia::keybinds::KeyEvent;
use ardentia::keybinds::KeyEventKind;
use ardentia::monsters::create_monster;
use ardentia::monsters::AnyMonster;
use ardentia::monsters::Monster;
use ardentia::room::Room;
use ardentia::room::RoomType;
use ardentia::room::Treasure;
use ardentia::screen::Screen;
use ardentia::utils::ChangeWeaponOption;
use ardentia::utils::CombatOption;
use ardentia::utils::MainMenuOption;
use ardentia::zones::zone::Zone;
use ardentia::zones::zone::ZoneDifficulty;
use ardentia::zones::zone::ZoneType;

fn press(code: KeyCode) -> KeyEvent {
    KeyEvent::press(code)
}

fn monsters(names: &[&str], level: i32) -> Vec<AnyMonster> {
    names.iter().map(|name| create_monster(name, level).expect("a known species")).collect()
}

fn sword() -> Treasure {
    Treasure::new(Some(Weapon::with_quality(WeaponType::Sword, WeaponQuality::Sharp)), Some(20), None)
}

/// A game in the given room of the jungle, on the given screen.
fn game_in(screen: Screen, room_number: i32, names: &[&str], level: i32, loot: Treasure) -> App {
    let mut app = App::default();
    app.create_player();
    app.create_dungeon();
    app.dungeon.current_room_number = room_number;
    app.dungeon.current_room = Room::with_treasure(
        room_number,
        Zone::new(ZoneType::Jungle, ZoneDifficulty::Normal),
        RoomType::Normal,
        monsters(names, level),
        loot,
    );
    app.switch_screen(screen);
    app
}

fn health_of(app: &App, place: usize) -> i32 {
    app.dungeon.current_room.monsters[place].get_stats().health
}

#[test]
fn game_starts_on_the_main_menu() {
    let app = App::default();
    assert_eq!(app.current_screen, Screen::MainMenu);
    assert_eq!(app.current_main_menu_option, MainMenuOption::NewGame);
    assert_eq!(app.current_combat_option, CombatOption::Attack);
    assert_eq!(app.current_change_weapon_option, ChangeWeaponOption::Yes);
    assert!(!app.dungeon.is_active);
    assert_eq!(app.player.name, "");
    assert_eq!(Screen::default(), Screen::MainMenu);
}

#[test]
fn main_menu_selection_is_clamped() {
    let mut app = App::default();
    app.option_up();
    assert_eq!(app.current_main_menu_option, MainMenuOption::NewGame);
    app.option_down();
    assert_eq!(app.current_main_menu_option, MainMenuOption::LoadGame);
    app.option_down();
    assert_eq!(app.current_main_menu_option, MainMenuOption::Quit);
    app.option_down();
    assert_eq!(app.current_main_menu_option, MainMenuOption::Quit);
    app.option_up();
    assert_eq!(app.current_main_menu_option, MainMenuOption::LoadGame);
    app.option_up();
    assert_eq!(app.current_main_menu_option, MainMenuOption::NewGame);
    assert_eq!(MainMenuOption::NewGame.up(), MainMenuOption::NewGame);
    assert_eq!(MainMenuOption::Quit.down(), MainMenuOption::Quit);
    assert_eq!(MainMenuOption::LoadGame.down(), MainMenuOption::Quit);
    assert_eq!(MainMenuOption::LoadGame.up(), MainMenuOption::NewGame);
}

#[test]
fn selection_moves_on_the_screen_shown_only() {
    let mut app = App::default();
    app.switch_screen(Screen::Combat);
    app.option_down();
    assert_eq!(app.current_combat_option, CombatOption::Run);
    assert_eq!(app.current_main_menu_option, MainMenuOption::NewGame);
    assert_eq!(app.current_change_weapon_option, ChangeWeaponOption::Yes);
    app.option_down();
    assert_eq!(app.current_combat_option, CombatOption::Run);
    app.option_up();
    assert_eq!(app.current_combat_option, CombatOption::Attack);
    app.switch_screen(Screen::RoomResult);
    app.option_down();
    assert_eq!(app.current_change_weapon_option, ChangeWeaponOption::No);
    assert_eq!(app.current_combat_option, CombatOption::Attack);
    app.option_up();
    assert_eq!(app.current_change_weapon_option, ChangeWeaponOption::Yes);
    app.switch_screen(Screen::Room);
    app.option_down();
    app.option_up();
    assert_eq!(app.current_main_menu_option, MainMenuOption::NewGame);
    assert_eq!(app.current_combat_option, CombatOption::Attack);
    assert_eq!(app.current_change_weapon_option, ChangeWeaponOption::Yes);
}

#[test]
fn enter_on_new_game_creates_player_and_dungeon() {
    let mut app = App::default();
    let quit = app.handle_main_screen(press(KeyCode::Enter));
    assert!(!quit);
    assert_eq!(app.current_screen, Screen::DungeonLoading);
    assert_eq!(app.player.name, "You");
    assert_eq!(app.player.health, 10);
    assert!(app.player.weapon.is_none());
    assert!(app.dungeon.is_active);
    assert_eq!(app.dungeon.current_room_number, 1);
    assert_eq!(app.dungeon.current_zone.name, "Jungle");
    assert_eq!(app.dungeon.current_room.room_type, RoomType::Entrance);
    assert_eq!(app.dungeon.current_room.current_monster, 0);
}

#[test]
fn enter_on_load_game_or_quit_asks_to_leave() {
    let mut app = App::default();
    assert!(!app.handle_main_screen(press(KeyCode::Down)));
    assert_eq!(app.current_main_menu_option, MainMenuOption::LoadGame);
    assert!(app.handle_main_screen(press(KeyCode::Enter)));
    assert_eq!(app.current_screen, Screen::MainMenu);
    assert!(!app.handle_main_screen(press(KeyCode::Down)));
    assert_eq!(app.current_main_menu_option, MainMenuOption::Quit);
    assert!(app.handle_main_screen(press(KeyCode::Enter)));
    assert!(!app.handle_main_screen(press(KeyCode::Other)));
    assert!(!app.handle_main_screen(press(KeyCode::Esc)));
    assert!(!app.handle_main_screen(press(KeyCode::Up)));
    assert_eq!(app.current_main_menu_option, MainMenuOption::LoadGame);
    assert!(!app.dungeon.is_active);
}

#[test]
fn enter_in_a_room_with_monsters_announces_the_fight() {
    let mut app = game_in(Screen::Room, 3, &["Slime"], 2, sword());
    app.handle_room(press(KeyCode::Up));
    app.handle_room(press(KeyCode::Other));
    assert_eq!(app.current_screen, Screen::Room);
    app.handle_room(press(KeyCode::Enter));
    assert_eq!(app.current_screen, Screen::CombatLoading);
}

#[test]
fn enter_in_a_room_without_monsters_does_nothing() {
    let mut app = game_in(Screen::Room, 3, &[], 2, sword());
    app.handle_room(press(KeyCode::Enter));
    assert_eq!(app.current_screen, Screen::Room);
    assert_eq!(app.step(LoopEvent::Key(press(KeyCode::Enter))), LoopAction::Draw);
    assert_eq!(app.current_screen, Screen::Room);
}

#[test]
fn exchange_on_a_tie_of_speed_lets_the_player_strike_first() {
    let mut player = Player::new("You");
    let mut slime = create_monster("Slime", 1).expect("a slime");
    assert_eq!(slime.get_stats().speed, player.speed);
    exchange(&mut player, &mut slime);
    assert_eq!(slime.get_stats().health, 4);
    assert_eq!(player.health, 9);
    slime.take_damage(3);
    exchange(&mut player, &mut slime);
    assert_eq!(slime.get_stats().health, 0);
    assert_eq!(player.health, 9);
}

#[test]
fn exchange_with_a_faster_monster_lets_it_strike_first() {
    let mut player = Player::new("You");
    let mut goblin = create_monster("Goblin", 1).expect("a goblin");
    exchange(&mut player, &mut goblin);
    assert_eq!(player.health, 7);
    assert_eq!(goblin.get_stats().health, 9);
    player.health = 3;
    exchange(&mut player, &mut goblin);
    assert_eq!(player.health, 0);
    assert_eq!(goblin.get_stats().health, 9);
}

#[test]
fn exchange_with_a_slower_monster() {
    let mut player = Player::new("You");
    let mut ogre = create_monster("Ogre", 1).expect("an ogre");
    exchange(&mut player, &mut ogre);
    assert_eq!(ogre.get_stats().health, 18);
    assert_eq!(player.health, 5);
    player.equip(Weapon::with_quality(WeaponType::Axe, WeaponQuality::Sharp));
    exchange(&mut player, &mut ogre);
    assert_eq!(ogre.get_stats().health, 2);
    assert_eq!(player.health, 0);
}

#[test]
fn attack_that_kills_the_monster_shows_the_victory() {
    let mut app = game_in(Screen::Combat, 3, &["Slime", "Goblin"], 1, sword());
    app.player.equip(Weapon::with_quality(WeaponType::Sword, WeaponQuality::Plain));
    app.handle_combat(press(KeyCode::Enter));
    assert_eq!(app.current_screen, Screen::DefeatMonster);
    assert_eq!(app.dungeon.current_room.current_monster, 1);
    assert_eq!(health_of(&app, 0), -6);
    assert_eq!(health_of(&app, 1), 10);
    assert_eq!(app.player.health, 10);
    assert!(app.dungeon.is_active);
    assert_eq!(app.dungeon.current_room.monsters.len(), 2);
}

#[test]
fn attack_that_kills_nobody_keeps_the_fight() {
    let mut app = game_in(Screen::Combat, 3, &["Ogre"], 1, sword());
    app.handle_combat(press(KeyCode::Enter));
    assert_eq!(app.current_screen, Screen::Combat);
    assert_eq!(app.dungeon.current_room.current_monster, 0);
    assert_eq!(health_of(&app, 0), 18);
    assert_eq!(app.player.health, 5);
    assert!(app.dungeon.is_active);
}

#[test]
fn player_health_driven_to_zero_shows_the_death() {
    let mut app = game_in(Screen::Combat, 3, &["Ogre"], 1, sword());
    app.player.health = 5;
    app.handle_combat(press(KeyCode::Enter));
    assert_eq!(app.player.health, 0);
    assert!(app.player.is_dead());
    assert_eq!(app.current_screen, Screen::DeadPlayer);
    assert_ne!(app.current_screen, Screen::Combat);
    assert!(!app.dungeon.is_active);
    assert_eq!(app.dungeon.current_room.current_monster, 0);
    assert_eq!(app.step(LoopEvent::Drawn), LoopAction::Sleep(5));
    assert_eq!(app.step(LoopEvent::Slept), LoopAction::Draw);
    assert_eq!(app.current_screen, Screen::MainMenu);
}

#[test]
fn run_shows_the_flight_and_leads_back_to_the_main_menu() {
    let mut app = game_in(Screen::Combat, 3, &["Ogre"], 1, sword());
    app.handle_combat(press(KeyCode::Down));
    assert_eq!(app.current_combat_option, CombatOption::Run);
    app.handle_combat(press(KeyCode::Enter));
    assert_eq!(app.current_screen, Screen::RunScreen);
    assert_eq!(app.player.health, 10);
    assert_eq!(health_of(&app, 0), 18);
    assert_eq!(app.step(LoopEvent::Drawn), LoopAction::Sleep(1));
    assert_eq!(app.step(LoopEvent::Slept), LoopAction::Draw);
    assert_eq!(app.current_screen, Screen::MainMenu);
}

#[test]
fn other_keys_in_a_fight_change_nothing() {
    let mut app = game_in(Screen::Combat, 3, &["Ogre"], 1, sword());
    app.handle_combat(press(KeyCode::Other));
    app.handle_combat(press(KeyCode::Esc));
    app.handle_combat(press(KeyCode::Up));
    assert_eq!(app.current_screen, Screen::Combat);
    assert_eq!(app.current_combat_option, CombatOption::Attack);
    assert_eq!(app.player.health, 10);
    assert_eq!(health_of(&app, 0), 18);
}

#[test]
fn yes_equips_the_weapon_found_and_goes_on_to_the_next_fight() {
    let mut app = game_in(Screen::RoomResult, 3, &["Slime", "Goblin"], 1, sword());
    app.dungeon.current_room.current_monster = 1;
    app.handle_change_weapon(press(KeyCode::Enter));
    assert_eq!(app.player.weapon.as_ref().map(|weapon| weapon.attack_value), Some(12));
    assert_eq!(app.player.get_attack(), 13);
    assert_eq!(app.current_screen, Screen::CombatLoading);
    assert_eq!(app.dungeon.current_room_number, 3);
    assert_eq!(app.dungeon.current_room.current_monster, 1);
    assert!(app.dungeon.current_room.treasures[0].weapon.is_some());
}

#[test]
fn no_discards_the_weapon_found() {
    let mut app = game_in(Screen::RoomResult, 3, &["Slime", "Goblin"], 1, sword());
    app.dungeon.current_room.current_monster = 1;
    app.handle_change_weapon(press(KeyCode::Down));
    assert_eq!(app.current_change_weapon_option, ChangeWeaponOption::No);
    app.handle_change_weapon(press(KeyCode::Enter));
    assert!(app.player.weapon.is_none());
    assert_eq!(app.current_screen, Screen::CombatLoading);
}

#[test]
fn cleared_room_leads_to_the_next_room() {
    let mut app = game_in(Screen::RoomResult, 9, &["Slime"], 1, sword());
    app.dungeon.current_room.current_monster = 1;
    app.handle_change_weapon(press(KeyCode::Enter));
    assert_eq!(app.current_screen, Screen::RoomLoading);
    assert_eq!(app.dungeon.current_room_number, 10);
    assert_eq!(app.dungeon.current_room.room_number, 10);
    assert_eq!(app.dungeon.current_room.room_type, RoomType::Boss);
    assert_eq!(app.dungeon.current_room.current_monster, 0);
    assert!(app.dungeon.is_active);
    assert_eq!(app.player.get_attack(), 13);
}

#[test]
fn cleared_last_room_completes_the_zone() {
    let mut app = game_in(Screen::RoomResult, 10, &["Ogre"], 4, sword());
    app.dungeon.current_room.current_monster = 1;
    app.handle_change_weapon(press(KeyCode::Enter));
    assert_eq!(app.current_screen, Screen::MainMenu);
    assert_eq!(app.dungeon.current_room_number, 10);
    assert!(!app.dungeon.is_active);
}

#[test]
fn loot_without_a_weapon_answers_no_key() {
    let mut app = game_in(
        Screen::RoomResult,
        3,
        &["Slime"],
        1,
        Treasure::new(None, Some(12), None),
    );
    app.dungeon.current_room.current_monster = 1;
    for code in [KeyCode::Enter, KeyCode::Down, KeyCode::Up, KeyCode::Other] {
        app.handle_change_weapon(press(code));
        assert_eq!(app.current_screen, Screen::RoomResult);
        assert_eq!(app.current_change_weapon_option, ChangeWeaponOption::Yes);
        assert_eq!(app.dungeon.current_room_number, 3);
    }
}

#[test]
fn timed_screens_pass_to_their_successors() {
    let cases = [
        (Screen::RoomLoading, 1, Screen::Room),
        (Screen::DungeonLoading, 1, Screen::RoomLoading),
        (Screen::CombatLoading, 1, Screen::Combat),
        (Screen::DefeatMonster, 1, Screen::RoomResult),
        (Screen::DeadPlayer, 5, Screen::MainMenu),
        (Screen::RunScreen, 1, Screen::MainMenu),
    ];
    for (screen, seconds, next) in cases {
        assert_eq!(screen.timed_transition(), Some((seconds, next)));
    }
    for screen in [Screen::MainMenu, Screen::Room, Screen::Combat, Screen::RoomResult] {
        assert_eq!(screen.timed_transition(), None);
    }
}

#[test]
fn only_the_press_of_a_key_counts() {
    let mut app = App::default();
    for kind in [KeyEventKind::Repeat, KeyEventKind::Release] {
        for code in [KeyCode::Enter, KeyCode::Down, KeyCode::Esc] {
            assert!(!app.handle_key(KeyEvent { code, kind }));
            assert_eq!(app.current_screen, Screen::MainMenu);
            assert_eq!(app.current_main_menu_option, MainMenuOption::NewGame);
        }
    }
    assert!(!app.handle_key(press(KeyCode::Down)));
    assert_eq!(app.current_main_menu_option, MainMenuOption::LoadGame);
}

#[test]
fn escape_ends_the_game_on_every_screen() {
    for screen in [
        Screen::MainMenu,
        Screen::DungeonLoading,
        Screen::RoomLoading,
        Screen::Room,
        Screen::RoomResult,
        Screen::Combat,
        Screen::CombatLoading,
        Screen::DefeatMonster,
        Screen::DeadPlayer,
        Screen::RunScreen,
    ] {
        let mut app = game_in(screen, 3, &["Slime", "Goblin"], 1, sword());
        app.dungeon.current_room.current_monster = 1;
        assert_eq!(app.step(LoopEvent::Key(press(KeyCode::Esc))), LoopAction::Quit);
        assert_eq!(app.current_screen, screen);
    }
}

#[test]
fn keys_on_timed_screens_do_nothing() {
    for screen in [Screen::DungeonLoading, Screen::RoomLoading, Screen::CombatLoading] {
        let mut app = game_in(screen, 3, &["Slime"], 1, sword());
        assert_eq!(app.step(LoopEvent::Key(press(KeyCode::Enter))), LoopAction::Draw);
        assert_eq!(app.current_screen, screen);
        assert_eq!(app.step(LoopEvent::OtherInput), LoopAction::Draw);
        assert_eq!(app.current_screen, screen);
    }
}

#[test]
fn loop_walks_from_the_menu_through_a_whole_run() {
    let mut app = App::default();
    assert_eq!(app.step(LoopEvent::Drawn), LoopAction::ReadInput);
    assert_eq!(app.step(LoopEvent::Slept), LoopAction::Draw);
    assert_eq!(app.current_screen, Screen::MainMenu);
    assert_eq!(app.step(LoopEvent::Key(press(KeyCode::Enter))), LoopAction::Draw);
    assert_eq!(app.current_screen, Screen::DungeonLoading);
    let mut event = LoopEvent::Drawn;
    let mut turns = 0;
    let mut rooms_seen = 1;
    loop {
        turns += 1;
        assert!(turns < 100000);
        let before = app.current_screen;
        let action = app.step(event);
        if app.current_screen == Screen::RoomLoading && before == Screen::RoomResult {
            rooms_seen += 1;
            assert_eq!(app.dungeon.current_room_number, rooms_seen);
        }
        if app.current_screen == Screen::Combat || app.current_screen == Screen::CombatLoading {
            let room = &app.dungeon.current_room;
            assert!(room.current_monster < room.monsters.len());
            assert!(room.monsters[room.current_monster].is_alive());
            assert!(!app.player.is_dead());
        }
        if app.current_screen == Screen::DefeatMonster {
            assert!(app.dungeon.current_room.current_monster >= 1);
            assert!(!app.player.is_dead());
        }
        if app.current_screen == Screen::DeadPlayer {
            assert!(app.player.is_dead());
            assert!(!app.dungeon.is_active);
        }
        if app.current_screen == Screen::MainMenu {
            assert!(!app.dungeon.is_active);
            assert!(app.player.is_dead() || app.dungeon.current_room_number == 10);
            break;
        }
        event = match action {
            LoopAction::Draw => LoopEvent::Drawn,
            LoopAction::Sleep(seconds) => {
                assert_eq!(Some(seconds), app.current_screen.timed_transition().map(|t| t.0));
                LoopEvent::Slept
            },
            LoopAction::ReadInput => {
                assert_eq!(app.current_screen.timed_transition(), None);
                LoopEvent::Key(press(KeyCode::Enter))
            },
            LoopAction::Quit => panic!("nothing asked to quit"),
        };
    }
}

#[test]
fn selection_and_flight_need_no_monster_in_turn() {
    let mut app = game_in(Screen::Combat, 3, &[], 1, sword());
    app.handle_combat(press(KeyCode::Down));
    assert_eq!(app.current_combat_option, CombatOption::Run);
    app.handle_combat(press(KeyCode::Other));
    app.handle_combat(press(KeyCode::Enter));
    assert_eq!(app.current_screen, Screen::RunScreen);
    assert!(app.dungeon.is_active);
}

#[test]
fn sound_game_stays_sound_through_a_fight() {
    let mut app = game_in(Screen::Combat, 3, &["Goblin", "Slime"], 2, sword());
    assert!(app.is_sound());
    let mut turns = 0;
    while app.current_screen == Screen::Combat {
        turns += 1;
        assert!(turns < 1000);
        assert_eq!(app.step(LoopEvent::Key(press(KeyCode::Enter))), LoopAction::Draw);
        assert!(app.is_sound());
    }
    assert!(app.current_screen == Screen::DefeatMonster || app.current_screen == Screen::DeadPlayer);
}

#[test]
fn unsound_games_are_told_apart() {
    let mut app = game_in(Screen::Combat, 3, &["Goblin"], 2, sword());
    assert!(app.is_sound());
    app.dungeon.current_room.current_monster = 1;
    assert!(!app.is_sound());
    app.dungeon.current_room.current_monster = 0;
    app.player.attack = 1000001;
    assert!(!app.is_sound());
    app.player.attack = 1000000;
    assert!(app.is_sound());
    app.player.health = 0;
    assert!(!app.is_sound());
    app.player.health = 10;
    app.dungeon.is_active = false;
    assert!(!app.is_sound());
    app.switch_screen(Screen::MainMenu);
    assert!(app.is_sound());
    app.dungeon.current_room.monsters[0].take_damage(12);
    assert!(!app.is_sound());
    app.dungeon.current_room.current_monster = 1;
    assert!(app.is_sound());
    app.switch_screen(Screen::DefeatMonster);
    assert!(!app.is_sound());
    assert!(App::default().is_sound());
}
