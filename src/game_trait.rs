use vstd::prelude::*;

verus! {

/// Create and initialise a game.
pub trait InitGame: Sized {
    fn init_game() -> Self;
}

/// Run the game loop until the window asks to close.
pub trait RunGame {
    fn run(&mut self) -> &mut Self;
}

/// Leave the game and release what it holds.
///
/// Resources are released when the game value is dropped, so the provided
/// method hands the game back untouched.
pub trait ExitGame: Sized {
    fn exit(&mut self) -> (r: &mut Self)
        default_ensures
            *r == *old(self),
            *final(self) == *final(r),
    {
        self
    }
}

/// Advance the game state by one frame.
pub trait GameLogic {
    fn update_tick(&mut self);
}

/// Draw the whole game for the current frame.
pub trait DrawGame {
    fn draw_game(&mut self);
}

} // verus!
