//! The decisions of the main loop. The program that owns the terminal
//! draws, sleeps and reads keys; after each of these it tells the game what
//! happened and is told what to do next.
//!
//! A game that starts from `App::default` and is only changed by `step`
//! stays sound, and a sound game can take every turn: no fight is ever
//! shown without a monster to fight, and no blow leaves the range of the
//! numbers that hold it.

use crate::app::App;
use crate::entity::forged;
use crate::entity::WeaponQuality;
use crate::entity::WeaponType;
use crate::keybinds::answered;
use crate::keybinds::asks_to_quit;
use crate::keybinds::begun;
use crate::keybinds::change_weapon_key;
use crate::keybinds::combat_key;
use crate::keybinds::fought;
use crate::keybinds::main_menu_key;
use crate::keybinds::room_key;
use crate::keybinds::KeyCode;
use crate::keybinds::KeyEvent;
use crate::keybinds::KeyEventKind;
use crate::monsters::balancer::RoomData;
use crate::monsters::Monster;
use crate::monsters::MonsterStatsView;
use crate::room::first_weapon;
use crate::room::lemma_first_weapon_is_first;
use crate::room::room_loot;
use crate::room::Room;
use crate::room::Treasure;
use crate::room::WeaponUtils;
use crate::screen::Screen;
use crate::utils::CombatOption;
use crate::zones::generator::is_generated;
use crate::zones::zone::ZoneView;
use vstd::prelude::*;

verus! {

/// No figure of a sound game is further from 0 than this.
pub const FIGURE_LIMIT: i32 = 1000000;

/// True of a figure within the limit on either side of 0.
pub open spec fn modest(value: int) -> bool {
    -FIGURE_LIMIT <= value <= FIGURE_LIMIT
}

/// True of a monster whose attack and defence are modest and whose health
/// is not above the limit.
pub open spec fn modest_monster(stats: MonsterStatsView) -> bool {
    modest(stats.attack) && modest(stats.defence) && stats.health <= FIGURE_LIMIT
}

/// True of a piece of loot whose weapon, if it has one, is of modest worth.
pub open spec fn modest_treasure(treasure: Treasure) -> bool {
    treasure.weapon matches Some(weapon) ==> modest(weapon.attack_value as int)
}

/// True of a room whose monsters and loot are modest and whose monsters
/// that are not yet slain are alive.
pub open spec fn sound_room(room: Room) -> bool {
    &&& forall|i: int|
        0 <= i < room.monsters.len() ==> modest_monster(#[trigger] room.monsters[i].stats())
    &&& forall|i: int|
        room.current_monster <= i < room.monsters.len() ==> (#[trigger] room.monsters[i]).stats().health
            > 0
    &&& forall|i: int|
        0 <= i < room.treasures.len() ==> modest_treasure(#[trigger] room.treasures[i])
}

impl App {
    /// What holds of every state of a game that the loop drives: it is
    /// well formed, the figures of the player, the monsters and the loot
    /// are modest, the monsters still to fight are alive, and so is the
    /// player while a run is shown.
    pub open spec fn sound(&self) -> bool {
        &&& self.wf()
        &&& modest(self.player.attack as int)
        &&& modest(self.player.defence as int)
        &&& modest(self.player.weapon_bonus())
        &&& self.player.health <= FIGURE_LIMIT
        &&& self.current_screen.in_run() ==> self.player.health > 0
        &&& sound_room(self.dungeon.current_room)
    }
}

impl App {
    /// True when the game can take the event of the keyboard: when the
    /// press of a key that asks for an exchange of blows finds a monster in
    /// turn with which the exchange can be computed, and the press of a key
    /// that makes the run go on finds the run under way.
    pub open spec fn can_take(&self, key: KeyEvent) -> bool {
        key.kind == KeyEventKind::Press ==> match self.current_screen {
            Screen::Combat => key.code == KeyCode::Enter && self.current_combat_option
                == CombatOption::Attack ==> self.can_fight(),
            Screen::RoomResult => self.answer_leads_on(key) ==> self.dungeon.is_active,
            _ => true,
        }
    }

    /// True when the game can take the turn of the loop.
    pub open spec fn can_step(&self, event: LoopEvent) -> bool {
        event matches LoopEvent::Key(key) ==> self.can_take(key)
    }
}

/// What the loop has just done.
#[derive(Debug, PartialEq, Eq, Clone, Copy, Structural)]
pub enum LoopEvent {
    /// The screen was drawn.
    Drawn,
    /// The delay of a timed screen has passed.
    Slept,
    /// An event of the keyboard was read.
    Key(KeyEvent),
    /// An event that is not of the keyboard was read.
    OtherInput,
}

/// What the loop is to do next.
#[derive(Debug, PartialEq, Eq, Clone, Copy, Structural)]
pub enum LoopAction {
    /// Draw the screen.
    Draw,
    /// Wait for so many seconds.
    Sleep(u64),
    /// Wait for the next event and read it.
    ReadInput,
    /// Leave the loop.
    Quit,
}

/// True of the game before and after an event of the keyboard. Only the
/// press of a key counts, and only on the main menu, in a room, in a fight
/// and on the result of a room.
pub open spec fn key_pressed(before: App, key: KeyEvent, after: App) -> bool {
    if key.kind != KeyEventKind::Press {
        after == before
    } else {
        match before.current_screen {
            Screen::MainMenu => main_menu_key(before, key, after),
            Screen::Room => room_key(before, key, after),
            Screen::Combat => combat_key(before, key, after),
            Screen::RoomResult => change_weapon_key(before, key, after),
            _ => after == before,
        }
    }
}

/// True when an event of the keyboard ends the game: the press of Escape
/// on any screen, or of Enter on an entry of the main menu other than the
/// first.
pub open spec fn key_quits(before: App, key: KeyEvent) -> bool {
    key.kind == KeyEventKind::Press && (key.code == KeyCode::Esc || (before.current_screen
        == Screen::MainMenu && asks_to_quit(before, key)))
}

/// The game after the delay of the screen shown has passed: a timed
/// screen gives way to its successor, any other screen stays.
pub open spec fn timed_out(before: App) -> App {
    match before.current_screen.timed() {
        Some((_, next)) => App { current_screen: next, ..before },
        None => before,
    }
}

/// True of the game before and after one turn of the loop, and of what the
/// loop is told to do. After drawing, a timed screen asks for its delay and
/// any other screen for input. After the delay the successor is shown.
/// After a key the game has reacted, and the loop ends if the key quits.
/// After each change the screen is drawn again.
pub open spec fn stepped(before: App, event: LoopEvent, after: App, action: LoopAction) -> bool {
    match event {
        LoopEvent::Drawn => {
            &&& after == before
            &&& action == (match before.current_screen.timed() {
                Some((seconds, _)) => LoopAction::Sleep(seconds),
                None => LoopAction::ReadInput,
            })
        },
        LoopEvent::Slept => after == timed_out(before) && action == LoopAction::Draw,
        LoopEvent::Key(key) => {
            &&& key_pressed(before, key, after)
            &&& action == (if key_quits(before, key) {
                LoopAction::Quit
            } else {
                LoopAction::Draw
            })
        },
        LoopEvent::OtherInput => after == before && action == LoopAction::Draw,
    }
}

/// A fresh monster of a room is modest and alive.
pub proof fn lemma_spawn_is_modest(data: RoomData, stats: MonsterStatsView)
    requires
        data.may_spawn(stats),
    ensures
        modest_monster(stats),
        stats.health > 0,
        1 <= stats.level <= 4,
{
    let level = data.level();
    assert(1 <= level <= 4);
}

/// A freshly generated room is sound.
pub proof fn lemma_fresh_room_is_sound(room: Room, zone: ZoneView, room_number: int)
    requires
        is_generated(room, zone, room_number),
    ensures
        sound_room(room),
{
    assert forall|i: int| 0 <= i < room.monsters.len() implies modest_monster(
        #[trigger] room.monsters[i].stats(),
    ) && room.monsters[i].stats().health > 0 by {
        lemma_spawn_is_modest(room.data(), room.monsters[i].stats());
    }
    let (quality, gold) = choose|quality: WeaponQuality, gold: u32|
        10 <= gold < 50 && room.treasures[0]@ == #[trigger] room_loot(quality, gold);
    assert(room.treasures[0]@.weapon == Some(forged(WeaponType::Sword, quality)));
    assert(modest_treasure(room.treasures[0]));
}

/// The weapon found in modest loot is of modest worth.
pub proof fn lemma_found_weapon_is_modest(treasures: Seq<Treasure>)
    requires
        forall|i: int| 0 <= i < treasures.len() ==> modest_treasure(#[trigger] treasures[i]),
    ensures
        first_weapon(treasures) matches Some(weapon) ==> modest(weapon.attack_value as int),
{
    lemma_first_weapon_is_first(treasures);
    if first_weapon(treasures) is Some {
        let i = choose|i: int|
            0 <= i < treasures.len() && (#[trigger] treasures[i]).weapon == first_weapon(treasures)
                && forall|j: int| 0 <= j < i ==> (#[trigger] treasures[j]).weapon is None;
        assert(modest_treasure(treasures[i]));
    }
}

/// In a sound game that shows a fight, the exchange of blows can be
/// computed.
pub proof fn lemma_sound_fight_fits(app: App)
    requires
        app.sound(),
        app.current_screen == Screen::Combat,
    ensures
        app.can_fight(),
{
    let room = app.dungeon.current_room;
    let turn = room.current_monster as int;
    assert(modest_monster(room.monsters[turn].stats()));
    assert(room.monsters[turn].stats().health > 0);
}

/// A sound game can take every turn of the loop.
pub proof fn lemma_sound_can_step(app: App, event: LoopEvent)
    requires
        app.sound(),
    ensures
        app.can_step(event),
{
    if app.current_screen == Screen::Combat {
        lemma_sound_fight_fits(app);
    }
}

/// A well-formed game is well formed after the delay of its screen has
/// passed.
pub proof fn lemma_timer_keeps_wf(before: App)
    requires
        before.wf(),
    ensures
        timed_out(before).wf(),
{
}

/// A sound game is sound after any event of the keyboard.
pub proof fn lemma_key_keeps_sound(before: App, key: KeyEvent, after: App)
    requires
        before.sound(),
        key_pressed(before, key, after),
    ensures
        after.sound(),
{
    let room = before.dungeon.current_room;
    let turn = room.current_monster as int;
    if key.kind == KeyEventKind::Press {
        if before.current_screen == Screen::MainMenu {
            if key.code == KeyCode::Enter && !asks_to_quit(before, key) {
                assert(begun(before, after));
                lemma_fresh_room_is_sound(
                    after.dungeon.current_room,
                    after.dungeon.current_zone@,
                    after.dungeon.current_room_number as int,
                );
            }
        } else if before.current_screen == Screen::Combat {
            if key.code == KeyCode::Enter && before.current_combat_option == CombatOption::Attack {
                assert(fought(before, after));
                assert(modest_monster(room.monsters[turn].stats()));
                assert(room.monsters[turn].stats().health > 0);
                let monsters = after.dungeon.current_room.monsters;
                assert forall|i: int| 0 <= i < monsters.len() implies modest_monster(
                    #[trigger] monsters[i].stats(),
                ) by {
                    if i != turn {
                        assert(monsters[i] == room.monsters[i]);
                        assert(modest_monster(room.monsters[i].stats()));
                    }
                }
                assert forall|i: int|
                    after.dungeon.current_room.current_monster <= i
                        < monsters.len() implies (#[trigger] monsters[i]).stats().health > 0 by {
                    if i != turn {
                        assert(monsters[i] == room.monsters[i]);
                        assert(room.monsters[i].stats().health > 0);
                    }
                }
                assert forall|i: int|
                    0 <= i < after.dungeon.current_room.treasures.len() implies modest_treasure(
                    #[trigger] after.dungeon.current_room.treasures[i],
                ) by {
                    assert(modest_treasure(room.treasures[i]));
                }
            }
        } else if before.current_screen == Screen::RoomResult {
            if key.code == KeyCode::Enter && room.treasures.weapon_found() is Some {
                assert(answered(before, after));
                lemma_found_weapon_is_modest(room.treasures@);
                if room.empty() && before.dungeon.rooms_left() {
                    lemma_fresh_room_is_sound(
                        after.dungeon.current_room,
                        after.dungeon.current_zone@,
                        after.dungeon.current_room_number as int,
                    );
                }
            }
        }
    }
}

/// A sound game is sound after the delay of its screen has passed.
pub proof fn lemma_timer_keeps_sound(before: App)
    requires
        before.sound(),
    ensures
        timed_out(before).sound(),
{
}

/// True exactly when the figure is modest.
pub fn is_modest(value: i32) -> (within: bool)
    ensures
        within == modest(value as int),
{
    -FIGURE_LIMIT <= value && value <= FIGURE_LIMIT
}

impl App {
    /// Tests whether the game is sound, for a caller that cannot know it.
    pub fn is_sound(&self) -> (sound: bool)
        ensures
            sound == self.sound(),
    {
        let room = &self.dungeon.current_room;
        let screen = self.current_screen;
        let turn = room.current_monster;
        let count = room.monsters.len();
        let in_run = screen != Screen::MainMenu && screen != Screen::DeadPlayer && screen
            != Screen::RunScreen;
        if turn > count {
            return false;
        }
        if (screen == Screen::CombatLoading || screen == Screen::Combat) && turn >= count {
            return false;
        }
        if screen == Screen::DefeatMonster && turn == 0 {
            return false;
        }
        if (screen == Screen::DungeonLoading || screen == Screen::RoomLoading || screen
            == Screen::Room) && turn != 0 {
            return false;
        }
        if in_run && !self.dungeon.is_active {
            return false;
        }
        let bonus_is_modest = match &self.player.weapon {
            Some(weapon) => is_modest(weapon.attack_value),
            None => true,
        };
        if !is_modest(self.player.attack) || !is_modest(self.player.defence) || !bonus_is_modest {
            return false;
        }
        if self.player.health > FIGURE_LIMIT || (in_run && self.player.health <= 0) {
            return false;
        }
        let mut i: usize = 0;
        while i < count
            invariant
                i <= count,
                *room == self.dungeon.current_room,
                count == room.monsters.len(),
                turn == room.current_monster,
                forall|j: int| 0 <= j < i ==> modest_monster(#[trigger] room.monsters[j].stats()),
                forall|j: int|
                    turn <= j < i ==> (#[trigger] room.monsters[j]).stats().health > 0,
            decreases count - i,
        {
            let stats = room.monsters[i].get_stats();
            if !is_modest(stats.attack) || !is_modest(stats.defence) || stats.health
                > FIGURE_LIMIT {
                assert(!modest_monster(room.monsters[i as int].stats()));
                return false;
            }
            if turn <= i && stats.health <= 0 {
                assert(!(room.monsters[i as int].stats().health > 0));
                return false;
            }
            i += 1;
        }
        let mut k: usize = 0;
        while k < room.treasures.len()
            invariant
                k <= room.treasures.len(),
                *room == self.dungeon.current_room,
                forall|j: int| 0 <= j < k ==> modest_treasure(#[trigger] room.treasures[j]),
            decreases room.treasures.len() - k,
        {
            let fine = match &room.treasures[k].weapon {
                Some(weapon) => is_modest(weapon.attack_value),
                None => true,
            };
            if !fine {
                assert(!modest_treasure(room.treasures[k as int]));
                return false;
            }
            k += 1;
        }
        true
    }

    /// Lets the game react to an event of the keyboard, and says whether
    /// the event ends the game.
    pub fn handle_key(&mut self, key: KeyEvent) -> (quit: bool)
        requires
            old(self).can_take(key),
        ensures
            key_pressed(*old(self), key, *final(self)),
            quit == key_quits(*old(self), key),
            old(self).wf() ==> final(self).wf(),
            old(self).sound() ==> final(self).sound(),
    {
        let mut is_quitting = false;
        if key.kind == KeyEventKind::Press {
            match self.current_screen {
                Screen::MainMenu => {
                    is_quitting = self.handle_main_screen(key);
                },
                Screen::Room => self.handle_room(key),
                Screen::Combat => self.handle_combat(key),
                Screen::RoomResult => self.handle_change_weapon(key),
                _ => (),
            }
            if key.code == KeyCode::Esc {
                is_quitting = true;
            }
        }
        proof {
            if old(self).sound() {
                lemma_key_keeps_sound(*old(self), key, *self);
            }
        }
        is_quitting
    }

    /// One turn of the loop: takes what the loop has just done, changes
    /// the game accordingly, and says what the loop is to do next. A game
    /// that is well formed stays so, and a game that is sound stays so; a
    /// sound game can take every turn.
    pub fn step(&mut self, event: LoopEvent) -> (action: LoopAction)
        requires
            old(self).can_step(event),
        ensures
            stepped(*old(self), event, *final(self), action),
            old(self).wf() ==> final(self).wf(),
            old(self).sound() ==> final(self).sound(),
    {
        match event {
            LoopEvent::Drawn => match self.current_screen.timed_transition() {
                Some((seconds, _)) => LoopAction::Sleep(seconds),
                None => LoopAction::ReadInput,
            },
            LoopEvent::Slept => {
                match self.current_screen.timed_transition() {
                    Some((_, next)) => self.switch_screen(next),
                    None => (),
                }
                proof {
                    if old(self).wf() {
                        lemma_timer_keeps_wf(*old(self));
                    }
                    if old(self).sound() {
                        lemma_timer_keeps_sound(*old(self));
                    }
                }
                LoopAction::Draw
            },
            LoopEvent::Key(key) => {
                if self.handle_key(key) {
                    LoopAction::Quit
                } else {
                    LoopAction::Draw
                }
            },
            LoopEvent::OtherInput => LoopAction::Draw,
        }
    }
}

} // verus!
