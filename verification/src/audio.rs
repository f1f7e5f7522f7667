//! Audio state tracking: which backing track should be playing. The
//! actual sound device is an external collaborator; the simulation only
//! keeps the flags it would drive, and the one-shot triggers are
//! fire-and-forget.

use vstd::prelude::*;

verus! {

/// Which of the two backing tracks is active.
pub struct AudioSystem {
    pub menu_playing: bool,
    pub game_playing: bool,
}

impl AudioSystem {
    /// Silence on both tracks.
    pub fn new() -> (r: AudioSystem)
        ensures
            !r.menu_playing,
            !r.game_playing,
    {
        AudioSystem { menu_playing: false, game_playing: false }
    }

    /// A menu frame keeps the menu track on.
    pub fn update_menu(&mut self, _dt: i64)
        ensures
            final(self).menu_playing,
            final(self).game_playing == old(self).game_playing,
    {
        self.menu_playing = true;
    }

    /// A game frame switches from the menu track to the game track once.
    pub fn update_game(&mut self, _dt: i64)
        ensures
            final(self).game_playing,
            final(self).menu_playing == (old(self).game_playing && old(self).menu_playing),
    {
        if !self.game_playing {
            self.game_playing = true;
            self.menu_playing = false;
        }
    }

    /// One-shot paddle-hit trigger; no tracked state changes.
    pub fn play_hit_sound(&mut self)
        ensures
            *final(self) == *old(self),
    {
    }

    /// One-shot menu-select trigger; no tracked state changes.
    pub fn play_select_sound(&mut self)
        ensures
            *final(self) == *old(self),
    {
    }

    /// One-shot score trigger; no tracked state changes.
    pub fn play_score_sound(&mut self)
        ensures
            *final(self) == *old(self),
    {
    }

    /// Silence both tracks.
    pub fn stop(&mut self)
        ensures
            !final(self).menu_playing,
            !final(self).game_playing,
    {
        self.menu_playing = false;
        self.game_playing = false;
    }
}

} // verus!
