//! The screens of the game and the ones that pass by themselves.

use vstd::prelude::*;

verus! {

/// What the player is looking at. Exactly one screen is active at a time.
#[derive(Debug, PartialEq, Eq, Clone, Copy, Structural)]
pub enum Screen {
    MainMenu,
    DungeonLoading,
    RoomLoading,
    Room,
    RoomResult,
    Combat,
    CombatLoading,
    DefeatMonster,
    DeadPlayer,
    RunScreen,
}

impl Default for Screen {
    fn default() -> (screen: Self)
        ensures
            screen == Screen::MainMenu,
    {
        Screen::MainMenu
    }
}

impl Screen {
    /// For a screen that passes without a key press: how many seconds it
    /// stays, and the screen that follows it. `None` for a screen that waits
    /// for the player.
    pub open spec fn timed(self) -> Option<(u64, Screen)> {
        match self {
            Screen::RoomLoading => Some((1u64, Screen::Room)),
            Screen::DungeonLoading => Some((1u64, Screen::RoomLoading)),
            Screen::CombatLoading => Some((1u64, Screen::Combat)),
            Screen::DefeatMonster => Some((1u64, Screen::RoomResult)),
            Screen::DeadPlayer => Some((5u64, Screen::MainMenu)),
            Screen::RunScreen => Some((1u64, Screen::MainMenu)),
            _ => None,
        }
    }

    /// True of the screens on which a run is under way: from the loading of
    /// the dungeon to the result of a room.
    pub open spec fn in_run(self) -> bool {
        self != Screen::MainMenu && self != Screen::DeadPlayer && self != Screen::RunScreen
    }

    /// The delay and the successor of a timed screen.
    pub fn timed_transition(&self) -> (transition: Option<(u64, Screen)>)
        ensures
            transition == self.timed(),
    {
        match self {
            Screen::RoomLoading => Some((1, Screen::Room)),
            Screen::DungeonLoading => Some((1, Screen::RoomLoading)),
            Screen::CombatLoading => Some((1, Screen::Combat)),
            Screen::DefeatMonster => Some((1, Screen::RoomResult)),
            Screen::DeadPlayer => Some((5, Screen::MainMenu)),
            Screen::RunScreen => Some((1, Screen::MainMenu)),
            _ => None,
        }
    }
}

/// A timed screen never leads to another timed screen that comes later in
/// the same pass, and the two screens that end a run lead back to the main
/// menu.
pub proof fn lemma_timed_screens_lead_on(screen: Screen)
    ensures
        screen.timed() matches Some((_, next)) ==> next != screen && next.timed() != Some(
            (1u64, screen),
        ),
        Screen::DeadPlayer.timed() == Some((5u64, Screen::MainMenu)),
        Screen::RunScreen.timed() == Some((1u64, Screen::MainMenu)),
        Screen::MainMenu.timed() is None,
        Screen::Room.timed() is None,
        Screen::Combat.timed() is None,
        Screen::RoomResult.timed() is None,
{
}

} // verus!
