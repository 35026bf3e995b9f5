//! A turn-based, two-player board game modelled as a network of reactive
//! signals: discrete event streams and continuous cells wired together with
//! combinators, including cyclic references resolved through forward-declared
//! placeholders.
//!
//! The crate is organised leaves-first:
//! - [`board`] holds the immutable 3x3 grid value type and win detection;
//! - [`input`] turns raw text lines into validated move indices or errors;
//! - [`engine`] is the reactive context: an arena of stream and cell nodes,
//!   transactional propagation, and two-phase binding of cyclic cells;
//! - [`network`] wires the game's signal graph on top of the engine and
//!   proves that one transaction behaves like a pure transition function;
//! - [`laws`] states and proves the game-wide properties.

pub mod board;
pub mod engine;
pub mod input;
pub mod laws;
pub mod network;

pub use board::Board;
pub use board::Mark;
pub use input::Error;
pub use network::GameNetwork;
pub use network::SequenceOfGames;
pub use network::TicTacToe;

use vstd::prelude::*;

verus! {

/// Which kind of input the running game currently accepts: player names,
/// or move indices.
///
/// The state moves once, from [`AppState::RegisterPlayer`] to
/// [`AppState::Playing`], when registration completes; it never moves back
/// within one matchup.
#[derive(Copy, Clone, Debug)]
pub enum AppState {
    RegisterPlayer,
    Playing,
}

impl AppState {
    /// Whether moves, rather than names, are accepted.
    pub open spec fn spec_is_playing(self) -> bool {
        self is Playing
    }

    /// Whether moves, rather than names, are accepted.
    pub fn is_playing(&self) -> (playing: bool)
        ensures
            playing == self.spec_is_playing(),
    {
        matches!(self, AppState::Playing)
    }
}

/// One registered player: a display name, created once per game.
#[derive(Clone, Debug)]
pub struct Player {
    pub name: String,
}

impl Player {
    /// A player with the given display name.
    pub fn new(name: String) -> (player: Player)
        ensures
            player.name == name,
    {
        Player { name }
    }

    /// An equal player value.
    pub fn duplicate(&self) -> (copy: Player)
        ensures
            copy == *self,
    {
        Player { name: self.name.clone() }
    }
}

/// The ordered pair of registered players: who plays X, who plays O.
#[derive(Clone, Debug)]
pub struct Players {
    pub x: Player,
    pub o: Player,
}

impl Players {
    /// The first registered name plays X, the second plays O.
    pub fn new(name1: String, name2: String) -> (players: Players)
        ensures
            players == (Players { x: Player { name: name1 }, o: Player { name: name2 } }),
    {
        Players { x: Player::new(name1), o: Player::new(name2) }
    }

    /// An equal players value.
    pub fn duplicate(&self) -> (copy: Players)
        ensures
            copy == *self,
    {
        Players { x: self.x.duplicate(), o: self.o.duplicate() }
    }

    /// The display name of the player holding `mark`.
    pub fn get_name(&self, mark: &Mark) -> (name: &String)
        ensures
            name == match mark {
                Mark::X => &self.x.name,
                Mark::O => &self.o.name,
            },
    {
        match mark {
            Mark::X => &self.x.name,
            Mark::O => &self.o.name,
        }
    }
}

impl Default for Players {
    /// Both names empty: the pair before registration completes.
    fn default() -> (players: Players)
        ensures
            players.x.name@ == Seq::<char>::empty(),
            players.o.name@ == Seq::<char>::empty(),
    {
        Players { x: Player { name: String::new() }, o: Player { name: String::new() } }
    }
}

} // verus!
