use vstd::prelude::*;

verus! {

/// A participant of the game, identified by the symbol that marks their cells.
/// Two players are the same player exactly when their symbols are equal.
#[derive(Clone, Copy, Debug, PartialEq, Eq, Structural)]
pub struct Player {
    pub name: char,
}

} // verus!
