use vstd::prelude::*;

use crate::session::{phase_rank, GameState, Score, ScoreModel};

verus! {

/// What a frame's mouse clicks ask to place in the world.
#[derive(Clone, Copy, Debug, PartialEq, Eq, Structural)]
pub struct ClickSpawns {
    pub hammer: bool,
    pub brick: bool,
}

/// Whether a released left button places a hammer: only while the game is
/// not over, and only where the cursor points into the world.
pub open spec fn places_hammer(s: ScoreModel, left_released: bool, cursor_in_world: bool) -> bool {
    left_released && cursor_in_world && s.state != GameState::GameOver
}

/// Whether a released right button places a brick: only before the first
/// hammer of a game, and only where the cursor points into the world.
pub open spec fn places_brick(s: ScoreModel, right_released: bool, cursor_in_world: bool) -> bool {
    right_released && cursor_in_world && s.state == GameState::NewGame
}

impl Score {
    /// Handles one frame's mouse buttons. A hammer is looked at first, so a
    /// hammer and a brick in the same frame leave the brick out, as the
    /// hammer has started the game. Returns what to place in the world.
    pub fn on_click(&mut self, left_released: bool, right_released: bool, cursor_in_world: bool) -> (r: ClickSpawns)
        requires
            old(self).hammers_created < u64::MAX,
            old(self).bricks_created < u64::MAX,
        ensures
            r.hammer == places_hammer(old(self)@, left_released, cursor_in_world),
            ({
                let mid = if r.hammer { old(self)@.hammered() } else { old(self)@ };
                &&& r.brick == places_brick(mid, right_released, cursor_in_world)
                &&& final(self)@ == if r.brick { mid.bricked() } else { mid }
            }),
            r.brick ==> old(self).state == GameState::NewGame,
            phase_rank(final(self).state) >= phase_rank(old(self).state),
    {
        let hammer = left_released && cursor_in_world && self.state != GameState::GameOver;
        if hammer {
            self.hammered();
        }
        let brick = right_released && cursor_in_world && self.state == GameState::NewGame;
        if brick {
            self.bricked();
        }
        ClickSpawns { hammer, brick }
    }

    /// Handles the reset key: a press starts a new game. Returns whether the
    /// session's placed objects must be removed.
    pub fn on_reset(&mut self, escape_pressed: bool) -> (r: bool)
        ensures
            r == escape_pressed,
            final(self)@ == if escape_pressed { old(self)@.reset() } else { old(self)@ },
    {
        if escape_pressed {
            self.reset();
        }
        escape_pressed
    }
}

} // verus!
