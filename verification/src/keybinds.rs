//! What a key does on each screen.

use crate::app::App;
use crate::combat::can_exchange;
use crate::combat::exchange;
use crate::combat::monster_health_after;
use crate::combat::player_health_after;
use crate::dungeon::Dungeon;
use crate::entity::Player;
use crate::monsters::Monster;
use crate::monsters::MonsterStatsView;
use crate::room::Room;
use crate::room::WeaponUtils;
use crate::screen::Screen;
use crate::utils::ChangeWeaponOption;
use crate::utils::CombatOption;
use crate::utils::MainMenuOption;
use crate::zones::zone::catalog_entry;
use crate::zones::zone::ZoneDifficulty;
use crate::zones::zone::ZoneType;
use vstd::prelude::*;

verus! {

/// The keys that the game tells apart.
#[derive(Debug, PartialEq, Eq, Clone, Copy, Structural)]
pub enum KeyCode {
    Up,
    Down,
    Enter,
    Esc,
    Other,
}

/// Whether a key went down, is held, or came up.
#[derive(Debug, PartialEq, Eq, Clone, Copy, Structural)]
pub enum KeyEventKind {
    Press,
    Repeat,
    Release,
}

/// One event of the keyboard.
#[derive(Debug, PartialEq, Eq, Clone, Copy, Structural)]
pub struct KeyEvent {
    pub code: KeyCode,
    pub kind: KeyEventKind,
}

impl KeyEvent {
    /// The press of a key.
    pub fn press(code: KeyCode) -> (key: Self)
        ensures
            key == (KeyEvent { code, kind: KeyEventKind::Press }),
    {
        KeyEvent { code, kind: KeyEventKind::Press }
    }
}

/// The game after the selection has moved one line down on the screen
/// shown. Only the main menu, the fight and the result of a room have a
/// selection.
pub open spec fn moved_down(app: App) -> App {
    match app.current_screen {
        Screen::MainMenu => App {
            current_main_menu_option: app.current_main_menu_option.below(),
            ..app
        },
        Screen::Combat => App { current_combat_option: CombatOption::Run, ..app },
        Screen::RoomResult => App { current_change_weapon_option: ChangeWeaponOption::No, ..app },
        _ => app,
    }
}

/// The game after the selection has moved one line up on the screen shown.
pub open spec fn moved_up(app: App) -> App {
    match app.current_screen {
        Screen::MainMenu => App {
            current_main_menu_option: app.current_main_menu_option.above(),
            ..app
        },
        Screen::Combat => App { current_combat_option: CombatOption::Attack, ..app },
        Screen::RoomResult => App { current_change_weapon_option: ChangeWeaponOption::Yes, ..app },
        _ => app,
    }
}

/// True of the game before and after one exchange of blows in the fight
/// with the monster in turn. The healths of the two are those after the
/// exchange. If the monster is dead it counts as slain, the next monster
/// is in turn and the victory is shown; else, if the player is dead, the
/// run is over and the death is shown; else the screen stays. Nothing else
/// changes.
pub open spec fn fought(before: App, after: App) -> bool {
    let room = before.dungeon.current_room;
    let turn = room.current_monster as int;
    let player_health = player_health_after(before.player, before.opponent());
    let monster_health = monster_health_after(before.player, before.opponent());
    let monsters = after.dungeon.current_room.monsters;
    &&& after.player == (Player { health: player_health as i32, ..before.player })
    &&& monsters.len() == room.monsters.len()
    &&& monsters[turn].stats() == (MonsterStatsView {
        health: monster_health,
        ..before.opponent()
    })
    &&& forall|i: int| 0 <= i < monsters.len() && i != turn ==> monsters[i] == room.monsters[i]
    &&& after.dungeon == (Dungeon {
        current_room: Room {
            monsters,
            current_monster: if monster_health <= 0 {
                (turn + 1) as usize
            } else {
                turn as usize
            },
            ..room
        },
        is_active: before.dungeon.is_active && !(monster_health > 0 && player_health <= 0),
        ..before.dungeon
    })
    &&& after.current_screen == (if monster_health <= 0 {
        Screen::DefeatMonster
    } else if player_health <= 0 {
        Screen::DeadPlayer
    } else {
        before.current_screen
    })
    &&& after.current_main_menu_option == before.current_main_menu_option
    &&& after.current_combat_option == before.current_combat_option
    &&& after.current_change_weapon_option == before.current_change_weapon_option
}

/// True of the game before and after the player has answered whether to
/// take the weapon found. On yes the player holds a copy of it. If every
/// monster of the room is slain, the run goes on to a fresh next room, or,
/// after the last room, ends and the main menu is shown; else the next
/// fight is announced. Nothing else changes.
pub open spec fn answered(before: App, after: App) -> bool {
    let found = before.dungeon.current_room.treasures.weapon_found();
    &&& after.player == (if before.current_change_weapon_option == ChangeWeaponOption::Yes {
        Player { weapon: found, ..before.player }
    } else {
        before.player
    })
    &&& after.current_main_menu_option == before.current_main_menu_option
    &&& after.current_combat_option == before.current_combat_option
    &&& after.current_change_weapon_option == before.current_change_weapon_option
    &&& if !before.dungeon.current_room.empty() {
        &&& after.current_screen == Screen::CombatLoading
        &&& after.dungeon == before.dungeon
    } else if before.dungeon.rooms_left() {
        &&& after.current_screen == Screen::RoomLoading
        &&& after.dungeon.current_zone == before.dungeon.current_zone
        &&& after.dungeon.current_room_number == before.dungeon.current_room_number + 1
        &&& after.dungeon.room_generator == before.dungeon.room_generator
        &&& after.dungeon.is_active
        &&& after.dungeon.in_fresh_room()
    } else {
        &&& after.current_screen == Screen::MainMenu
        &&& after.dungeon == (Dungeon { is_active: false, ..before.dungeon })
    }
}

/// True of the game before and after a new game has begun: a fresh hero
/// named "You", a fresh run through the jungle in its first room, and the
/// screen that announces the dungeon. The selections stay.
pub open spec fn begun(before: App, after: App) -> bool {
    &&& after.current_screen == Screen::DungeonLoading
    &&& after.current_main_menu_option == before.current_main_menu_option
    &&& after.current_combat_option == before.current_combat_option
    &&& after.current_change_weapon_option == before.current_change_weapon_option
    &&& after.player.name@ == "You"@
    &&& after.player.max_health == 10
    &&& after.player.health == 10
    &&& after.player.attack == 1
    &&& after.player.defence == 0
    &&& after.player.speed == 1
    &&& after.player.weapon is None
    &&& after.dungeon.current_zone@ == catalog_entry(ZoneType::Jungle, ZoneDifficulty::Normal)
    &&& after.dungeon.current_room_number == 1
    &&& after.dungeon.is_active
    &&& after.dungeon.in_fresh_room()
}

/// A player whom an exchange of blows kills is shown dead, and the run is
/// over: a fight between two that were alive never goes on, nor shows a
/// victory, with a dead player.
pub proof fn lemma_dead_player_leaves_combat(before: App, after: App)
    requires
        fought(before, after),
        before.player.health > 0,
        before.opponent().health > 0,
        after.player.dead(),
    ensures
        after.current_screen == Screen::DeadPlayer,
        !after.dungeon.is_active,
        after.dungeon.current_room.current_monster == before.dungeon.current_room.current_monster,
{
}

/// After an exchange of blows the fight goes on only between two that are
/// alive: a dead monster gives way to the victory, a dead player to the
/// death.
pub proof fn lemma_fight_goes_on_between_the_living(before: App, after: App)
    requires
        fought(before, after),
        before.current_screen == Screen::Combat,
    ensures
        after.current_screen == Screen::Combat ==> !after.player.dead()
            && after.dungeon.current_room.monsters[before.dungeon.current_room.current_monster as int].stats().health
            > 0,
        after.current_screen == Screen::Combat || after.current_screen == Screen::DefeatMonster
            || after.current_screen == Screen::DeadPlayer,
{
}

/// True of the game before and after a key on the main menu. Up and Down
/// move the selection. Enter on the first entry begins a new game; Enter on
/// another entry changes nothing. No other key does anything.
pub open spec fn main_menu_key(before: App, key: KeyEvent, after: App) -> bool {
    match key.code {
        KeyCode::Up => after == moved_up(before),
        KeyCode::Down => after == moved_down(before),
        KeyCode::Enter => if before.current_main_menu_option == MainMenuOption::NewGame {
            begun(before, after)
        } else {
            after == before
        },
        _ => after == before,
    }
}

/// True of the game before and after a key on the screen of a room. Enter
/// announces the fight, but only in a room that holds a monster. No other
/// key does anything.
pub open spec fn room_key(before: App, key: KeyEvent, after: App) -> bool {
    after == (if key.code == KeyCode::Enter && before.dungeon.current_room.monsters.len() > 0 {
        App { current_screen: Screen::CombatLoading, ..before }
    } else {
        before
    })
}

/// True of the game before and after a key in a fight. Up and Down move
/// the selection. Enter on Attack resolves one exchange of blows; Enter on
/// Run shows the flight. No other key does anything.
pub open spec fn combat_key(before: App, key: KeyEvent, after: App) -> bool {
    match key.code {
        KeyCode::Up => after == moved_up(before),
        KeyCode::Down => after == moved_down(before),
        KeyCode::Enter => if before.current_combat_option == CombatOption::Attack {
            fought(before, after)
        } else {
            after == (App { current_screen: Screen::RunScreen, ..before })
        },
        _ => after == before,
    }
}

/// True of the game before and after a key on the result of a room.
/// Without a weapon in the loot no key does anything. With one, Up and
/// Down move the selection and Enter answers. No other key does anything.
pub open spec fn change_weapon_key(before: App, key: KeyEvent, after: App) -> bool {
    if before.dungeon.current_room.treasures.weapon_found() is None {
        after == before
    } else {
        match key.code {
            KeyCode::Up => after == moved_up(before),
            KeyCode::Down => after == moved_down(before),
            KeyCode::Enter => answered(before, after),
            _ => after == before,
        }
    }
}

/// Whether a key on the main menu asks to leave the game: Enter on an
/// entry other than the first.
pub open spec fn asks_to_quit(before: App, key: KeyEvent) -> bool {
    key.code == KeyCode::Enter && before.current_main_menu_option != MainMenuOption::NewGame
}

impl App {
    /// True when the key answers the question of the weapon in a room
    /// whose monsters are all slain and after which a room is left: when the
    /// key makes the run go on to the next room.
    pub open spec fn answer_leads_on(&self, key: KeyEvent) -> bool {
        &&& key.code == KeyCode::Enter
        &&& self.dungeon.current_room.treasures.weapon_found() is Some
        &&& self.dungeon.current_room.empty()
        &&& self.dungeon.rooms_left()
    }

    /// True when the room has a monster in turn and the exchange of blows
    /// with it can be computed in 32 bits.
    pub open spec fn can_fight(&self) -> bool {
        self.dungeon.current_room.has_opponent() && can_exchange(self.player, self.opponent())
    }

    /// A key on the main menu. Up and Down move the selection. Enter on
    /// the first entry begins a new game; Enter on any other entry asks to
    /// leave the game, which the result says.
    pub fn handle_main_screen(&mut self, key: KeyEvent) -> (quit: bool)
        ensures
            quit == asks_to_quit(*old(self), key),
            main_menu_key(*old(self), key, *final(self)),
            old(self).wf() && old(self).current_screen == Screen::MainMenu ==> final(self).wf(),
    {
        match key.code {
            KeyCode::Up => self.option_up(),
            KeyCode::Down => self.option_down(),
            KeyCode::Enter => match self.current_main_menu_option {
                MainMenuOption::NewGame => {
                    self.create_player();
                    self.create_dungeon();
                    self.switch_screen(Screen::DungeonLoading);
                },
                MainMenuOption::LoadGame => {
                    return true;
                },
                MainMenuOption::Quit => {
                    return true;
                },
            },
            _ => (),
        }
        false
    }

    /// A key on the screen of a room. Enter announces the fight, but only
    /// in a room that holds a monster; no other key does anything.
    pub fn handle_room(&mut self, key: KeyEvent)
        ensures
            room_key(*old(self), key, *final(self)),
            old(self).wf() && old(self).current_screen == Screen::Room ==> final(self).wf(),
    {
        if key.code == KeyCode::Enter && self.dungeon.current_room.monsters.len() > 0 {
            self.switch_screen(Screen::CombatLoading);
        }
    }

    /// A key in a fight. Up and Down move the selection. Enter on Attack
    /// resolves one exchange of blows with the monster in turn; Enter on
    /// Run shows the flight.
    pub fn handle_combat(&mut self, key: KeyEvent)
        requires
            key.code == KeyCode::Enter && old(self).current_combat_option == CombatOption::Attack
                ==> old(self).can_fight(),
        ensures
            combat_key(*old(self), key, *final(self)),
            old(self).wf() && old(self).current_screen == Screen::Combat ==> final(self).wf(),
    {
        match key.code {
            KeyCode::Enter => match self.current_combat_option {
                CombatOption::Attack => {
                    let turn = self.dungeon.current_room.current_monster;
                    exchange(&mut self.player, &mut self.dungeon.current_room.monsters[turn]);
                    if !self.dungeon.current_room.monsters[turn].is_alive() {
                        self.dungeon.current_room.monster_slain();
                        self.switch_screen(Screen::DefeatMonster);
                    } else if self.player.is_dead() {
                        self.dungeon.handle_player_death();
                        self.switch_screen(Screen::DeadPlayer);
                    }
                },
                CombatOption::Run => self.switch_screen(Screen::RunScreen),
            },
            KeyCode::Up => self.option_up(),
            KeyCode::Down => self.option_down(),
            _ => (),
        }
    }

    /// A key on the result of a room. Without a weapon in the loot no key
    /// does anything. With one, Up and Down move the selection, and Enter
    /// answers: see `answered`.
    pub fn handle_change_weapon(&mut self, key: KeyEvent)
        requires
            old(self).answer_leads_on(key) ==> old(self).dungeon.is_active,
        ensures
            change_weapon_key(*old(self), key, *final(self)),
            old(self).wf() && old(self).current_screen == Screen::RoomResult ==> final(self).wf(),
    {
        if self.dungeon.current_room.treasures.contains_weapon() {
            let weapon = self.dungeon.current_room.treasures.get_weapon().expect(
                "Should not be empty",
            );
            match key.code {
                KeyCode::Enter => {
                    match self.current_change_weapon_option {
                        ChangeWeaponOption::Yes => self.player.equip(weapon),
                        ChangeWeaponOption::No => (),
                    }
                    if self.dungeon.current_room.is_empty() {
                        if self.dungeon.is_there_rooms_left() {
                            self.dungeon.next_room();
                            self.switch_screen(Screen::RoomLoading);
                        } else {
                            self.dungeon.complete_zone();
                            self.switch_screen(Screen::MainMenu);
                        }
                    } else {
                        self.switch_screen(Screen::CombatLoading);
                    }
                },
                KeyCode::Up => self.option_up(),
                KeyCode::Down => self.option_down(),
                _ => (),
            }
        }
    }

    /// Moves the selection of the screen shown one line down.
    pub fn option_down(&mut self)
        ensures
            *final(self) == moved_down(*old(self)),
    {
        match self.current_screen {
            Screen::MainMenu => {
                self.current_main_menu_option = self.current_main_menu_option.down();
            },
            Screen::Combat => {
                self.current_combat_option = CombatOption::Run;
            },
            Screen::RoomResult => {
                self.current_change_weapon_option = ChangeWeaponOption::No;
            },
            _ => (),
        }
    }

    /// Moves the selection of the screen shown one line up.
    pub fn option_up(&mut self)
        ensures
            *final(self) == moved_up(*old(self)),
    {
        match self.current_screen {
            Screen::MainMenu => {
                self.current_main_menu_option = self.current_main_menu_option.up();
            },
            Screen::Combat => {
                self.current_combat_option = CombatOption::Attack;
            },
            Screen::RoomResult => {
                self.current_change_weapon_option = ChangeWeaponOption::Yes;
            },
            _ => (),
        }
    }
}

} // verus!
