//! The state of the game: the active screen, the selections of the menus,
//! the player and the run.

use crate::dungeon::Dungeon;
use crate::entity::forged;
use crate::entity::Player;
use crate::entity::WeaponQuality;
use crate::entity::WeaponType;
use crate::game_loop::modest_treasure;
use crate::monsters::slime_stats;
use crate::room::room_loot;
use crate::monsters::Monster;
use crate::monsters::MonsterStatsView;
use crate::screen::Screen;
use crate::utils::ChangeWeaponOption;
use crate::utils::CombatOption;
use crate::utils::MainMenuOption;
use crate::zones::zone::catalog_entry;
use crate::zones::zone::Zone;
use crate::zones::zone::ZoneDifficulty;
use crate::zones::zone::ZoneType;
use vstd::prelude::*;

verus! {

/// Everything the game knows. One value of this type is owned by the loop
/// that draws the screens and reads the keys.
#[derive(Debug)]
pub struct App {
    pub current_screen: Screen,
    pub current_main_menu_option: MainMenuOption,
    pub current_combat_option: CombatOption,
    pub current_change_weapon_option: ChangeWeaponOption,
    pub player: Player,
    pub dungeon: Dungeon,
}

impl Default for App {
    /// The game as it starts: the main menu with its first entry selected,
    /// a player without a name and a run that is not under way.
    fn default() -> (app: Self)
        ensures
            app.current_screen == Screen::MainMenu,
            app.current_main_menu_option == MainMenuOption::NewGame,
            app.current_combat_option == CombatOption::Attack,
            app.current_change_weapon_option == ChangeWeaponOption::Yes,
            !app.dungeon.is_active,
            app.wf(),
            app.sound(),
    {
        let app = App {
            current_screen: Screen::default(),
            current_main_menu_option: MainMenuOption::default(),
            current_combat_option: CombatOption::default(),
            current_change_weapon_option: ChangeWeaponOption::default(),
            player: Player::default(),
            dungeon: Dungeon::default(),
        };
        proof {
            let room = app.dungeon.current_room;
            assert(room.roster()[0] == slime_stats(1));
            let (quality, gold) = choose|quality: WeaponQuality, gold: u32|
                10 <= gold < 50 && room.treasures[0]@ == #[trigger] room_loot(quality, gold);
            assert(room.treasures[0]@.weapon == Some(forged(WeaponType::Sword, quality)));
            assert(modest_treasure(room.treasures[0]));
        }
        app
    }
}

impl App {
    /// What holds of every state that the game passes through. The
    /// monsters slain are never more than the room holds. A fight is only
    /// shown while the room has a monster in turn, and a victory only after
    /// one is slain. On the way into a room no monster is slain yet. The
    /// screens of a run are only shown while the run is under way.
    pub open spec fn wf(&self) -> bool {
        let room = self.dungeon.current_room;
        &&& room.current_monster <= room.monsters.len()
        &&& (self.current_screen == Screen::CombatLoading || self.current_screen == Screen::Combat)
            ==> room.has_opponent()
        &&& self.current_screen == Screen::DefeatMonster ==> room.current_monster > 0
        &&& (self.current_screen == Screen::DungeonLoading || self.current_screen
            == Screen::RoomLoading || self.current_screen == Screen::Room)
            ==> room.current_monster == 0
        &&& self.current_screen.in_run() ==> self.dungeon.is_active
    }

    /// The figures of the monster in turn.
    pub open spec fn opponent(&self) -> MonsterStatsView {
        self.dungeon.current_room.monsters[self.dungeon.current_room.current_monster as int].stats()
    }

    /// Shows another screen. Nothing else changes.
    pub fn switch_screen(&mut self, screen: Screen)
        ensures
            *final(self) == (App { current_screen: screen, ..*old(self) }),
    {
        self.current_screen = screen;
    }

    /// Replaces the player by a fresh hero named "You".
    pub fn create_player(&mut self)
        ensures
            final(self).player.name@ == "You"@,
            final(self).player.max_health == 10,
            final(self).player.health == 10,
            final(self).player.attack == 1,
            final(self).player.defence == 0,
            final(self).player.speed == 1,
            final(self).player.weapon is None,
            final(self).current_screen == old(self).current_screen,
            final(self).current_main_menu_option == old(self).current_main_menu_option,
            final(self).current_combat_option == old(self).current_combat_option,
            final(self).current_change_weapon_option == old(self).current_change_weapon_option,
            final(self).dungeon == old(self).dungeon,
    {
        self.player = Player::new("You");
    }

    /// Replaces the run by a fresh one through the first zone of the
    /// catalog: under way, in its first room, which is freshly generated.
    pub fn create_dungeon(&mut self)
        ensures
            final(self).dungeon.current_zone@ == catalog_entry(
                ZoneType::Jungle,
                ZoneDifficulty::Normal,
            ),
            final(self).dungeon.current_room_number == 1,
            final(self).dungeon.is_active,
            final(self).dungeon.in_fresh_room(),
            final(self).current_screen == old(self).current_screen,
            final(self).current_main_menu_option == old(self).current_main_menu_option,
            final(self).current_combat_option == old(self).current_combat_option,
            final(self).current_change_weapon_option == old(self).current_change_weapon_option,
            final(self).player == old(self).player,
    {
        let zones = Zone::get_available_zones();
        let zone = zones[0].clone();
        self.dungeon = Dungeon::new(zone);
        self.dungeon.start();
    }
}

} // verus!
