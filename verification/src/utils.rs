//! The choices that a screen offers.

use vstd::prelude::*;

verus! {

/// Marks a type as the set of options of one menu.
pub trait Choice {

}

/// The entries of the main menu, from top to bottom.
#[derive(Debug, PartialEq, Eq, Clone, Copy, Structural)]
pub enum MainMenuOption {
    NewGame,
    LoadGame,
    Quit,
}

impl Choice for MainMenuOption {

}

impl Default for MainMenuOption {
    fn default() -> (option: Self)
        ensures
            option == MainMenuOption::NewGame,
    {
        MainMenuOption::NewGame
    }
}

impl MainMenuOption {
    /// The entry one line down; the last entry stays where it is.
    pub open spec fn below(self) -> Self {
        match self {
            MainMenuOption::NewGame => MainMenuOption::LoadGame,
            _ => MainMenuOption::Quit,
        }
    }

    /// The entry one line up; the first entry stays where it is.
    pub open spec fn above(self) -> Self {
        match self {
            MainMenuOption::Quit => MainMenuOption::LoadGame,
            _ => MainMenuOption::NewGame,
        }
    }

    /// Moves the selection one line down, without wrapping around.
    pub fn down(self) -> (option: Self)
        ensures
            option == self.below(),
    {
        match self {
            MainMenuOption::NewGame => MainMenuOption::LoadGame,
            _ => MainMenuOption::Quit,
        }
    }

    /// Moves the selection one line up, without wrapping around.
    pub fn up(self) -> (option: Self)
        ensures
            option == self.above(),
    {
        match self {
            MainMenuOption::Quit => MainMenuOption::LoadGame,
            _ => MainMenuOption::NewGame,
        }
    }
}

/// Moving along the main menu never leaves it, and the two ends hold:
/// up from the first entry and down from the last change nothing.
pub proof fn lemma_main_menu_is_clamped(option: MainMenuOption)
    ensures
        MainMenuOption::NewGame.above() == MainMenuOption::NewGame,
        MainMenuOption::Quit.below() == MainMenuOption::Quit,
        option.below().above() == (if option == MainMenuOption::Quit {
            MainMenuOption::LoadGame
        } else {
            option
        }),
        option.above().below() == (if option == MainMenuOption::NewGame {
            MainMenuOption::LoadGame
        } else {
            option
        }),
{
}

/// What the player can do in a fight.
#[derive(Debug, PartialEq, Eq, Clone, Copy, Structural)]
pub enum CombatOption {
    Attack,
    Run,
}

impl Choice for CombatOption {

}

impl Default for CombatOption {
    fn default() -> (option: Self)
        ensures
            option == CombatOption::Attack,
    {
        CombatOption::Attack
    }
}

/// The answer to "take the weapon that was found?".
#[derive(Debug, PartialEq, Eq, Clone, Copy, Structural)]
pub enum ChangeWeaponOption {
    Yes,
    No,
}

impl Choice for ChangeWeaponOption {

}

impl Default for ChangeWeaponOption {
    fn default() -> (option: Self)
        ensures
            option == ChangeWeaponOption::Yes,
    {
        ChangeWeaponOption::Yes
    }
}

} // verus!
