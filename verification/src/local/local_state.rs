use vstd::prelude::*;

verus! {

/// What the application keeps for the time it runs: the player's front,
/// which is a `Box<dyn Front>` where the application is put together.
pub struct LocalState<F> {
    player_front: F,
}

impl<F> LocalState<F> {
    /// The front that this state holds.
    pub closed spec fn front(&self) -> F {
        self.player_front
    }

    /// The state that holds `player_front`.
    pub fn new(player_front: F) -> (s: Self)
        ensures
            s.front() == player_front,
    {
        Self { player_front }
    }

    /// The front that this state holds.
    pub fn player_front(&self) -> (f: &F)
        ensures
            *f == self.front(),
    {
        &self.player_front
    }
}

} // verus!
