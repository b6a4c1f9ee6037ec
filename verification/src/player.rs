use vstd::prelude::*;

verus! {

/// The two seats at the table.
#[derive(Clone, Copy, Debug, Hash, PartialEq, Eq, Structural)]
pub enum Player {
    One,
    Two,
}

impl Player {
    /// The seat across the table from `self`.
    pub open spec fn opponent(self) -> Player {
        match self {
            Player::One => Player::Two,
            Player::Two => Player::One,
        }
    }

    /// The player who moves once `self` has moved.
    pub fn next(&self) -> (after: Player)
        ensures
            after == self.opponent(),
    {
        match self {
            Player::One => Player::Two,
            Player::Two => Player::One,
        }
    }

    /// Turns alternate: two moves later the same player is up again, and a
    /// player never follows themselves.
    pub proof fn lemma_turns_alternate(player: Player)
        ensures
            player.opponent() != player,
            player.opponent().opponent() == player,
    {
    }
}

} // verus!
