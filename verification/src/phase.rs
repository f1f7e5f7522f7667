//! The top-level match phase machine and the menu selection core. The
//! driver owns a phase, polls inputs, and feeds them through one total
//! transition function per frame; an input that is meaningless in the
//! current phase is ignored, never an error.

use vstd::prelude::*;

use crate::ball::Side;
use crate::game::GameResult;

verus! {

/// What the menu reports for a frame: nothing yet, or a mode picked.
#[derive(Clone, Copy, PartialEq, Eq, Structural, Debug)]
pub enum MenuChoice {
    NoSelection,
    OnePlayer,
    TwoPlayers,
}

/// The phase of the whole program around one match.
#[derive(Clone, Copy, PartialEq, Eq, Structural, Debug)]
pub enum MatchPhase {
    Menu,
    Playing,
    Paused,
    GameOver(Side),
}

/// The menu cursor after one frame of up/down presses, applied in that
/// order; each press toggles between the two entries.
pub open spec fn menu_select_step_spec(selected: u8, up: bool, down: bool) -> u8 {
    let after_up: u8 = if up {
        if selected == 0 {
            1u8
        } else {
            0u8
        }
    } else {
        selected
    };
    if down {
        if after_up == 1 {
            0u8
        } else {
            1u8
        }
    } else {
        after_up
    }
}

/// The choice a confirm press lands on: entry 0 is a one-player match,
/// entry 1 a two-player match; without a confirm, no selection.
pub open spec fn menu_choice_spec(selected: u8, confirm: bool) -> MenuChoice {
    if confirm {
        if selected == 0 {
            MenuChoice::OnePlayer
        } else {
            MenuChoice::TwoPlayers
        }
    } else {
        MenuChoice::NoSelection
    }
}

/// One frame of the phase machine: Menu enters Playing on a selection;
/// Playing and Paused trade places on the pause toggle; Playing ends in
/// GameOver on a win result; GameOver returns to Menu on confirm. Any
/// other input is ignored in place.
pub open spec fn phase_step_spec(
    phase: MatchPhase,
    choice: MenuChoice,
    pause_pressed: bool,
    confirm_pressed: bool,
    result: GameResult,
) -> MatchPhase {
    match phase {
        MatchPhase::Menu => match choice {
            MenuChoice::NoSelection => MatchPhase::Menu,
            MenuChoice::OnePlayer => MatchPhase::Playing,
            MenuChoice::TwoPlayers => MatchPhase::Playing,
        },
        MatchPhase::Playing => if pause_pressed {
            MatchPhase::Paused
        } else {
            match result {
                GameResult::Continue => MatchPhase::Playing,
                GameResult::LeftWins => MatchPhase::GameOver(Side::Left),
                GameResult::RightWins => MatchPhase::GameOver(Side::Right),
            }
        },
        MatchPhase::Paused => if pause_pressed {
            MatchPhase::Playing
        } else {
            MatchPhase::Paused
        },
        MatchPhase::GameOver(winner) => if confirm_pressed {
            MatchPhase::Menu
        } else {
            MatchPhase::GameOver(winner)
        },
    }
}

/// The menu cursor after one frame of up/down presses.
pub fn menu_select_step(selected: u8, up: bool, down: bool) -> (r: u8)
    requires
        selected <= 1,
    ensures
        r == menu_select_step_spec(selected, up, down),
        r <= 1,
{
    let after_up: u8 = if up {
        if selected == 0 {
            1
        } else {
            0
        }
    } else {
        selected
    };
    if down {
        if after_up == 1 {
            0
        } else {
            1
        }
    } else {
        after_up
    }
}

/// The choice a confirm press lands on.
pub fn menu_choice(selected: u8, confirm: bool) -> (r: MenuChoice)
    ensures
        r == menu_choice_spec(selected, confirm),
{
    if confirm {
        if selected == 0 {
            MenuChoice::OnePlayer
        } else {
            MenuChoice::TwoPlayers
        }
    } else {
        MenuChoice::NoSelection
    }
}

/// One frame of the phase machine.
pub fn phase_step(
    phase: MatchPhase,
    choice: MenuChoice,
    pause_pressed: bool,
    confirm_pressed: bool,
    result: GameResult,
) -> (r: MatchPhase)
    ensures
        r == phase_step_spec(phase, choice, pause_pressed, confirm_pressed, result),
{
    match phase {
        MatchPhase::Menu => match choice {
            MenuChoice::NoSelection => MatchPhase::Menu,
            MenuChoice::OnePlayer => MatchPhase::Playing,
            MenuChoice::TwoPlayers => MatchPhase::Playing,
        },
        MatchPhase::Playing => if pause_pressed {
            MatchPhase::Paused
        } else {
            match result {
                GameResult::Continue => MatchPhase::Playing,
                GameResult::LeftWins => MatchPhase::GameOver(Side::Left),
                GameResult::RightWins => MatchPhase::GameOver(Side::Right),
            }
        },
        MatchPhase::Paused => if pause_pressed {
            MatchPhase::Playing
        } else {
            MatchPhase::Paused
        },
        MatchPhase::GameOver(winner) => if confirm_pressed {
            MatchPhase::Menu
        } else {
            MatchPhase::GameOver(winner)
        },
    }
}

} // verus!
