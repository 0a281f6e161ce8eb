//! The per-kind session shapes handed to the game-session service, and
//! their constructors.

use vstd::prelude::*;

use crate::game::GameType;

verus! {

/// A randomly drawn prepared game, reusable as any kind's session seed.
#[derive(Debug)]
pub struct RandomGame {
    pub id: i64,
    pub game_id: u128,
    pub rounds: Vec<String>,
    pub game_type: GameType,
}

/// A stored quiz: its rounds.
#[derive(Debug)]
pub struct QuizGame {
    pub id: u128,
    pub rounds: Vec<String>,
}

/// A live quiz session.
#[derive(Debug)]
pub struct QuizSession {
    pub game_id: u128,
    pub current_iteration: i32,
    pub rounds: Vec<String>,
}

impl QuizSession {
    /// A fresh session for the game: no rounds yet, at iteration zero.
    pub fn new(game_id: u128) -> (r: Self)
        ensures
            r.game_id == game_id,
            r.current_iteration == 0,
            r.rounds@.len() == 0,
    {
        Self { game_id, current_iteration: 0, rounds: Vec::new() }
    }

    /// A session replaying a stored quiz from its first iteration.
    pub fn from_game(game: QuizGame) -> (r: Self)
        ensures
            r.game_id == game.id,
            r.current_iteration == 0,
            r.rounds == game.rounds,
    {
        Self { game_id: game.id, current_iteration: 0, rounds: game.rounds }
    }

    /// A session over a randomly drawn game, from its first iteration.
    pub fn from_random(game: RandomGame) -> (r: Self)
        ensures
            r.game_id == game.game_id,
            r.current_iteration == 0,
            r.rounds == game.rounds,
    {
        Self { game_id: game.game_id, current_iteration: 0, rounds: game.rounds }
    }
}

/// A stored spin game: its rounds.
#[derive(Debug)]
pub struct SpinGame {
    pub id: u128,
    pub rounds: Vec<String>,
}

/// Where a spin session stands.
#[derive(Debug, Clone, Copy, PartialEq, Eq, Structural)]
pub enum SpinGameState {
    Created,
    Initialized,
    RoundStarted,
    RoundInProgress,
    RoundFinished,
    Finished,
}

/// A live spin session, shared by roulette and duel; the two kinds
/// differ only in how many players each round selects.
#[derive(Debug)]
pub struct SpinSession {
    pub game_id: u128,
    pub host_id: u128,
    pub state: SpinGameState,
    pub current_iteration: i32,
    pub selection_size: i32,
    pub rounds: Vec<String>,
    pub players: Vec<(u128, i32)>,
}

impl SpinSession {
    fn from_request(host_id: u128, game_id: u128, selection_size: i32) -> (r: Self)
        ensures
            r.game_id == game_id,
            r.host_id == host_id,
            r.state == SpinGameState::Created,
            r.current_iteration == 0,
            r.selection_size == selection_size,
            r.rounds@.len() == 0,
            r.players@ == seq![(host_id, 0i32)],
    {
        let mut players: Vec<(u128, i32)> = Vec::new();
        players.push((host_id, 0));
        proof {
            assert(players@ =~= seq![(host_id, 0i32)]);
        }
        Self {
            game_id,
            host_id,
            state: SpinGameState::Created,
            current_iteration: 0,
            selection_size,
            rounds: Vec::new(),
            players,
        }
    }

    /// A fresh duel session: each round selects two players.
    pub fn new_duel(host_id: u128, game_id: u128) -> (r: Self)
        ensures
            r.game_id == game_id,
            r.host_id == host_id,
            r.state == SpinGameState::Created,
            r.current_iteration == 0,
            r.selection_size == 2,
            r.rounds@.len() == 0,
            r.players@ == seq![(host_id, 0i32)],
    {
        Self::from_request(host_id, game_id, 2)
    }

    /// A fresh roulette session: each round selects one player.
    pub fn new_roulette(host_id: u128, game_id: u128) -> (r: Self)
        ensures
            r.game_id == game_id,
            r.host_id == host_id,
            r.state == SpinGameState::Created,
            r.current_iteration == 0,
            r.selection_size == 1,
            r.rounds@.len() == 0,
            r.players@ == seq![(host_id, 0i32)],
    {
        Self::from_request(host_id, game_id, 1)
    }

    fn from_random_game(user_id: u128, game: RandomGame, selection_size: i32) -> (r: Self)
        ensures
            r.game_id == game.game_id,
            r.host_id == user_id,
            r.state == SpinGameState::Initialized,
            r.current_iteration == 0,
            r.selection_size == selection_size,
            r.rounds == game.rounds,
            r.players@ == seq![(user_id, 0i32)],
    {
        let mut players: Vec<(u128, i32)> = Vec::new();
        players.push((user_id, 0));
        proof {
            assert(players@ =~= seq![(user_id, 0i32)]);
        }
        Self {
            game_id: game.game_id,
            host_id: user_id,
            state: SpinGameState::Initialized,
            current_iteration: 0,
            selection_size,
            rounds: game.rounds,
            players,
        }
    }

    /// A duel session over a randomly drawn game.
    pub fn from_random_duel(user_id: u128, game: RandomGame) -> (r: Self)
        ensures
            r.game_id == game.game_id,
            r.host_id == user_id,
            r.state == SpinGameState::Initialized,
            r.selection_size == 2,
            r.rounds == game.rounds,
            r.players@ == seq![(user_id, 0i32)],
    {
        Self::from_random_game(user_id, game, 2)
    }

    /// A roulette session over a randomly drawn game.
    pub fn from_random_roulette(user_id: u128, game: RandomGame) -> (r: Self)
        ensures
            r.game_id == game.game_id,
            r.host_id == user_id,
            r.state == SpinGameState::Initialized,
            r.selection_size == 1,
            r.rounds == game.rounds,
            r.players@ == seq![(user_id, 0i32)],
    {
        Self::from_random_game(user_id, game, 1)
    }

    fn from_game(user_id: u128, game: SpinGame, selection_size: i32) -> (r: Self)
        ensures
            r.game_id == game.id,
            r.host_id == user_id,
            r.state == SpinGameState::Initialized,
            r.current_iteration == 0,
            r.selection_size == selection_size,
            r.rounds == game.rounds,
            r.players@ == seq![(user_id, 0i32)],
    {
        let mut players: Vec<(u128, i32)> = Vec::new();
        players.push((user_id, 0));
        proof {
            assert(players@ =~= seq![(user_id, 0i32)]);
        }
        Self {
            game_id: game.id,
            host_id: user_id,
            state: SpinGameState::Initialized,
            current_iteration: 0,
            selection_size,
            rounds: game.rounds,
            players,
        }
    }

    /// A duel session replaying a stored spin game.
    pub fn from_duel(user_id: u128, game: SpinGame) -> (r: Self)
        ensures
            r.game_id == game.id,
            r.host_id == user_id,
            r.state == SpinGameState::Initialized,
            r.selection_size == 2,
            r.rounds == game.rounds,
            r.players@ == seq![(user_id, 0i32)],
    {
        Self::from_game(user_id, game, 2)
    }

    /// A roulette session replaying a stored spin game.
    pub fn from_roulette(user_id: u128, game: SpinGame) -> (r: Self)
        ensures
            r.game_id == game.id,
            r.host_id == user_id,
            r.state == SpinGameState::Initialized,
            r.selection_size == 1,
            r.rounds == game.rounds,
            r.players@ == seq![(user_id, 0i32)],
    {
        Self::from_game(user_id, game, 1)
    }
}

/// A stored imposter game: its rounds.
#[derive(Debug)]
pub struct ImposterGame {
    pub id: u128,
    pub rounds: Vec<String>,
}

/// Where an imposter session stands.
#[derive(Debug, Clone, Copy, PartialEq, Eq, Structural)]
pub enum ImposterGameState {
    Created,
    Initialized,
    Started,
    Finished,
}

/// A live imposter session.
#[derive(Debug)]
pub struct ImposterSession {
    pub game_id: u128,
    pub host_id: u128,
    pub state: ImposterGameState,
    pub current_iteration: i32,
    pub rounds: Vec<String>,
    pub players: Vec<(u128, i32)>,
}

impl ImposterSession {
    /// A fresh session for the game: no rounds yet, only the host.
    pub fn new(host_id: u128, game_id: u128) -> (r: Self)
        ensures
            r.game_id == game_id,
            r.host_id == host_id,
            r.state == ImposterGameState::Created,
            r.current_iteration == 0,
            r.rounds@.len() == 0,
            r.players@ == seq![(host_id, 0i32)],
    {
        let mut players: Vec<(u128, i32)> = Vec::new();
        players.push((host_id, 0));
        proof {
            assert(players@ =~= seq![(host_id, 0i32)]);
        }
        Self {
            game_id,
            host_id,
            state: ImposterGameState::Created,
            current_iteration: 0,
            rounds: Vec::new(),
            players,
        }
    }

    /// A session over a randomly drawn game.
    pub fn from_random(user_id: u128, game: RandomGame) -> (r: Self)
        ensures
            r.game_id == game.game_id,
            r.host_id == user_id,
            r.state == ImposterGameState::Initialized,
            r.current_iteration == 0,
            r.rounds == game.rounds,
            r.players@ == seq![(user_id, 0i32)],
    {
        let mut players: Vec<(u128, i32)> = Vec::new();
        players.push((user_id, 0));
        proof {
            assert(players@ =~= seq![(user_id, 0i32)]);
        }
        Self {
            game_id: game.game_id,
            host_id: user_id,
            state: ImposterGameState::Initialized,
            current_iteration: 0,
            rounds: game.rounds,
            players,
        }
    }
}

/// One session body, whichever kind it is.
#[derive(Debug)]
pub enum ResponseWrapper {
    Quiz(QuizSession),
    Spin(SpinSession),
    Imposter(ImposterSession),
}

/// The envelope a session creation posts to the game-session service;
/// the payload passes through opaquely.
#[derive(Debug)]
pub struct InteractiveEnvelope {
    pub game_type: GameType,
    pub host_id: u128,
    pub game_key: String,
    pub payload: serde_json::Value,
}

/// The body posted to the session-initiation endpoint of the
/// game-session service.
#[derive(Debug)]
pub struct InitiateGameRequest {
    pub key: String,
    pub value: serde_json::Value,
}

} // verus!
