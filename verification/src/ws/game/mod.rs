//! A single game: the Game Master, the players and the state machine of
//! question, answer, validation and choice of the next answerer.

use std::collections::{HashMap, HashSet};

use rand::seq::SliceRandom;
use vstd::prelude::*;
use vstd::string::*;

use crate::ws::game::message::GameMessageError;
use crate::ws::game::state::{state_debug, GameState};
use crate::ws::server::message::game_message::player_lost::PlayerLost;
use crate::ws::text::{decimal, usize_to_string};

pub mod message;
pub mod state;

verus! {

/// The Game Master of a game, by session id.
#[derive(Debug)]
pub struct Host {
    pub id: usize,
}

/// A player of a game and their score.
#[derive(Debug, Clone, Copy)]
pub struct Player {
    pub session_id: usize,
    pub points: usize,
    pub chances: usize,
    pub is_active: bool,
}

/// The rules of a game.
#[derive(Debug)]
pub struct GameConfig {
    /// answer timeout, in seconds
    pub timeout_secs: u64,
    /// how many chances players have
    pub init_chances: usize,
    /// how many points the answerer gets for valid answer
    pub valid_answer_reward: usize,
}

impl GameConfig {
    /// The rules every game is played by: five seconds to answer, three
    /// chances, ten points for a valid answer.
    pub open spec fn spec_default() -> GameConfig {
        GameConfig { timeout_secs: 5, init_chances: 3, valid_answer_reward: 10 }
    }

    /// The rules every game is played by.
    pub fn default() -> (res: Self)
        ensures
            res == Self::spec_default(),
    {
        Self { timeout_secs: 5, init_chances: 3, valid_answer_reward: 10 }
    }
}

/// A game played in a room.
#[derive(Debug)]
pub struct Game {
    pub id: usize,
    pub players: HashMap<usize, Player>,
    pub host: Host,
    pub config: GameConfig,
    pub state: GameState,
    pub room: String,
}

/// A player as they enter the game: no points, `chances` chances, active.
pub open spec fn fresh_player(id: usize, chances: usize) -> Player {
    Player { session_id: id, points: 0, chances, is_active: true }
}

/// The players of a new game with the given ids.
pub open spec fn initial_players(ids: Set<usize>, chances: usize) -> Map<usize, Player> {
    Map::new(|k: usize| ids.contains(k), |k: usize| fresh_player(k, chances))
}

/// The players of a new game are exactly the given ids.
pub proof fn lemma_initial_players_dom(ids: Set<usize>, chances: usize)
    ensures
        initial_players(ids, chances).dom() == ids,
{
    assert(initial_players(ids, chances).dom() =~= ids);
}

/// The player `p` after their answer was judged `is_valid`.
pub open spec fn scored_player(p: Player, is_valid: bool, reward: usize) -> Player {
    if is_valid {
        Player { points: (p.points + reward) as usize, ..p }
    } else {
        let chances = (p.chances - 1) as usize;
        Player { chances, is_active: if chances == 0 { false } else { p.is_active }, ..p }
    }
}

/// The player whose turn it is in state `s`, if any.
pub open spec fn answerer_of(s: GameState) -> Option<usize> {
    match s {
        GameState::AskQuestion(st) => Some(st.answerer_id),
        GameState::Answer(st) => Some(st.answerer_id),
        GameState::ChooseAnswerer(st) => Some(st.chooser_id),
        _ => None,
    }
}

/// `<kind> message error: given user (<given>) is not the host (<host>)`
pub open spec fn not_host_message(kind: Seq<char>, given: usize, host: usize) -> Seq<char> {
    kind + " message error: given user ("@ + decimal(given as nat) + ") is not the host ("@
        + decimal(host as nat) + ")"@
}

/// `<kind> message error: given user (<given>) is not the answerer`
pub open spec fn not_answerer_message(kind: Seq<char>, given: usize) -> Seq<char> {
    kind + " message error: given user ("@ + decimal(given as nat) + ") is not the answerer"@
}

/// `<kind> message error: there is no answerer set in the game`
pub open spec fn no_answerer_message(kind: Seq<char>) -> Seq<char> {
    kind + " message error: there is no answerer set in the game"@
}

/// `Received <kind> message, but the game state is <state:?>`
pub open spec fn wrong_state_message(kind: Seq<char>, state: GameState) -> Seq<char> {
    "Received "@ + kind + " message, but the game state is "@ + state_debug(state)
}

/// Picks one of `ids` at random.
///
/// Calls `SliceRandom::choose` of `rand` with the thread-local generator,
/// which gives `None` for an empty slice and otherwise one of its elements;
/// which one is left open.
#[verifier::external_body]
pub(crate) fn choose_id(ids: &Vec<usize>) -> (res: Option<usize>)
    ensures
        res is None <==> ids@.len() == 0,
        res matches Some(id) ==> ids@.contains(id),
{
    ids.choose(&mut rand::thread_rng()).copied()
}

/// Pushing onto a sequence adds the element to its set of elements.
pub(crate) proof fn lemma_push_to_set(s: Seq<usize>, x: usize)
    ensures
        s.push(x).to_set() == s.to_set().insert(x),
{
    assert forall|a: usize| s.push(x).contains(a) <==> s.to_set().insert(x).contains(a) by {
        if s.contains(a) {
            let j = choose|j: int| 0 <= j < s.len() && s[j] == a;
            assert(s.push(x)[j] == a);
        }
        if s.push(x).contains(a) {
            let j = choose|j: int| 0 <= j < s.len() + 1 && s.push(x)[j] == a;
            if j < s.len() {
                assert(s[j] == a);
            }
        }
        if a == x {
            assert(s.push(x)[s.len() as int] == x);
        }
    }
    assert(s.push(x).to_set() =~= s.to_set().insert(x));
}

/// The keys of `m`, each once.
pub(crate) fn key_list<V>(m: &HashMap<usize, V>) -> (ids: Vec<usize>)
    ensures
        ids@.to_set() == m@.dom(),
        ids@.len() == m@.dom().len(),
{
    let mut ids: Vec<usize> = Vec::new();
    for k in it: m.keys()
        invariant
            ids@ == it.seq().unref().take(it.index()),
            it.seq().unref().to_set() == m@.dom(),
            it.seq().len() == m@.dom().len(),
            it.index() == it.seq().len() ==> ids@.to_set() == m@.dom() && ids@.len()
                == m@.dom().len(),
    {
        ids.push(*k);
        assert(ids@ =~= it.seq().unref().take(it.index() + 1));
        assert(it.seq().unref().take(it.seq().len() as int) =~= it.seq().unref());
    }
    ids
}

impl Game {
    /// What every game keeps: each player is stored under their own id, and
    /// a player is active exactly while they have chances left.
    pub open spec fn wf(&self) -> bool {
        &&& forall|k: usize| #[trigger]
            self.players@.contains_key(k) ==> self.players@[k].session_id == k
        &&& forall|k: usize| #[trigger]
            self.players@.contains_key(k) ==> (self.players@[k].is_active
                <==> self.players@[k].chances > 0)
    }

    /// The answer of `answerer_id` can be scored: they are a player, and
    /// the score or the chances do not leave their range.
    #[verifier::when_used_as_spec(spec_can_score)]
    pub fn can_score(&self, is_valid: bool, answerer_id: usize) -> (res: bool)
        ensures
            res == self.spec_can_score(is_valid, answerer_id),
    {
        match self.players.get(&answerer_id) {
            Some(p) => if is_valid {
                p.points <= usize::MAX - self.config.valid_answer_reward
            } else {
                p.chances >= 1
            },
            None => false,
        }
    }

    /// The answer of `answerer_id` can be scored: they are a player, and
    /// the score or the chances do not leave their range.
    pub open spec fn spec_can_score(&self, is_valid: bool, answerer_id: usize) -> bool {
        &&& self.players@.contains_key(answerer_id)
        &&& is_valid ==> self.players@[answerer_id].points + self.config.valid_answer_reward
            <= usize::MAX
        &&& !is_valid ==> self.players@[answerer_id].chances >= 1
    }

    /// A new game in `room_name` with Game Master `host_id` and the players
    /// `player_ids`, waiting to be started.
    pub fn new(id: usize, room_name: &str, player_ids: &HashSet<usize>, host_id: usize) -> (res:
        Self)
        ensures
            res.wf(),
            res.id == id,
            res.room@ == room_name@,
            res.host.id == host_id,
            res.config == GameConfig::spec_default(),
            res.state == GameState::Starting,
            res.players@ == initial_players(player_ids@, 3),
    {
        let config = GameConfig::default();
        let players = Game::create_players(player_ids, &config);
        Self {
            id,
            config,
            players,
            state: GameState::Starting,
            room: room_name.to_owned(),
            host: Host { id: host_id },
        }
    }

    /// One fresh player for each id in `player_ids`.
    pub fn create_players(player_ids: &HashSet<usize>, config: &GameConfig) -> (res: HashMap<
        usize,
        Player,
    >)
        ensures
            res@ == initial_players(player_ids@, config.init_chances),
    {
        let mut players: HashMap<usize, Player> = HashMap::new();
        for id in it: player_ids.iter()
            invariant
                players@ == initial_players(
                    it.seq().unref().take(it.index()).to_set(),
                    config.init_chances,
                ),
                it.seq().unref().to_set() == player_ids@,
                it.index() == it.seq().len() ==> players@ == initial_players(
                    player_ids@,
                    config.init_chances,
                ),
        {
            players.insert(
                *id,
                Player { session_id: *id, points: 0, chances: config.init_chances, is_active: true },
            );
            proof {
                let s = it.seq().unref();
                assert(s.take(it.index() + 1) =~= s.take(it.index()).push(*id));
                lemma_push_to_set(s.take(it.index()), *id);
                assert(players@ =~= initial_players(
                    s.take(it.index() + 1).to_set(),
                    config.init_chances,
                ));
                assert(s.take(s.len() as int) =~= s);
            }
        }
        players
    }

    /// The player whose turn it is, if the state has one.
    pub fn get_answerer_id(&self) -> (res: Option<usize>)
        ensures
            res == answerer_of(self.state),
    {
        match &self.state {
            GameState::AskQuestion(s) => Some(s.answerer_id),
            GameState::Answer(s) => Some(s.answerer_id),
            GameState::ChooseAnswerer(s) => Some(s.chooser_id),
            _ => None,
        }
    }

    /// One of the players, chosen at random.
    pub fn get_random_player_id(&self) -> (res: usize)
        requires
            self.players@.len() > 0,
        ensures
            self.players@.contains_key(res),
    {
        let ids = key_list(&self.players);
        proof {
            let k = self.players@.dom().choose();
            assert(self.players@.dom().contains(k));
            assert(ids@.to_set().contains(k));
        }
        let picked = choose_id(&ids);
        let id = picked.unwrap();
        assert(ids@.to_set().contains(id));
        id
    }

    /// Accepts `host_id` if it is the Game Master of this game.
    pub fn verify_host_id(&self, host_id: usize, message_type: &str) -> (res: Result<
        (),
        GameMessageError,
    >)
        ensures
            res is Ok <==> self.host.id == host_id,
            res matches Err(e) ==> {
                &&& e.message@ == not_host_message(message_type@, host_id, self.host.id)
                &&& e.game_id == self.id
                &&& e.game_state == Some(self.state)
            },
    {
        if self.host.id == host_id {
            Ok(())
        } else {
            let mut m = String::from_str(message_type);
            m.append(" message error: given user (");
            m.append(usize_to_string(host_id).as_str());
            m.append(") is not the host (");
            m.append(usize_to_string(self.host.id).as_str());
            m.append(")");
            Err(GameMessageError::with_state(m.as_str(), self.id, self.state.snapshot()))
        }
    }

    /// Accepts `answerer_id` if it is the player whose turn it is.
    pub fn verify_answerer_id(&self, answerer_id: usize, message_type: &str) -> (res: Result<
        (),
        GameMessageError,
    >)
        ensures
            res is Ok <==> answerer_of(self.state) == Some(answerer_id),
            res matches Err(e) ==> {
                &&& e.message@ == match answerer_of(self.state) {
                    Some(_) => not_answerer_message(message_type@, answerer_id),
                    None => no_answerer_message(message_type@),
                }
                &&& e.game_id == self.id
                &&& e.game_state == Some(self.state)
            },
    {
        if let Some(actual_answerer_id) = self.get_answerer_id() {
            if actual_answerer_id == answerer_id {
                Ok(())
            } else {
                let mut m = String::from_str(message_type);
                m.append(" message error: given user (");
                m.append(usize_to_string(answerer_id).as_str());
                m.append(") is not the answerer");
                Err(GameMessageError::with_state(m.as_str(), self.id, self.state.snapshot()))
            }
        } else {
            let mut m = String::from_str(message_type);
            m.append(" message error: there is no answerer set in the game");
            Err(GameMessageError::with_state(m.as_str(), self.id, self.state.snapshot()))
        }
    }

    /// The error for a message that the current state does not expect.
    pub fn wrong_state_error(&self, message_type: &str) -> (res: GameMessageError)
        ensures
            res.message@ == wrong_state_message(message_type@, self.state),
            res.game_id == self.id,
            res.game_state == Some(self.state),
    {
        let mut m = String::from_str("Received ");
        m.append(message_type);
        m.append(" message, but the game state is ");
        m.append(self.state.debug_text().as_str());
        GameMessageError::with_state(m.as_str(), self.id, self.state.snapshot())
    }

    /// Scores the answer of `answerer_id`: points for a valid answer, one
    /// chance less for an invalid one; a player left without chances drops
    /// out, and the room is to be told.
    pub fn handle_answer(&mut self, is_valid: bool, answerer_id: usize) -> (lost: Option<
        PlayerLost,
    >)
        requires
            old(self).wf(),
            old(self).can_score(is_valid, answerer_id),
        ensures
            final(self).wf(),
            final(self).players@ == old(self).players@.insert(
                answerer_id,
                scored_player(
                    old(self).players@[answerer_id],
                    is_valid,
                    old(self).config.valid_answer_reward,
                ),
            ),
            is_valid ==> final(self).players@[answerer_id].points == old(self).players@[answerer_id].points
                + old(self).config.valid_answer_reward,
            is_valid ==> final(self).players@[answerer_id].chances == old(self).players@[answerer_id].chances,
            !is_valid ==> final(self).players@[answerer_id].points == old(self).players@[answerer_id].points,
            !is_valid ==> final(self).players@[answerer_id].chances == old(self).players@[answerer_id].chances - 1,
            final(self).players@[answerer_id].is_active <==> final(self).players@[answerer_id].chances > 0,
            final(self).players@[answerer_id].session_id == answerer_id,
            final(self).id == old(self).id,
            final(self).host == old(self).host,
            final(self).config == old(self).config,
            final(self).state == old(self).state,
            final(self).room == old(self).room,
            lost == (if !is_valid && old(self).players@[answerer_id].chances == 1 {
                Some(
                    PlayerLost {
                        game_id: old(self).id,
                        player_id: answerer_id,
                        points: old(self).players@[answerer_id].points,
                    },
                )
            } else {
                None
            }),
    {
        let mut player = *self.players.get(&answerer_id).unwrap();
        let mut lost = None;
        if is_valid {
            player.points = player.points + self.config.valid_answer_reward;
        } else {
            player.chances = player.chances - 1;
            if player.chances == 0 {
                player.is_active = false;
                lost = Some(
                    PlayerLost { game_id: self.id, player_id: player.session_id, points: player.points },
                );
            }
        }
        self.players.insert(answerer_id, player);
        lost
    }
}

} // verus!

verus! {

impl Game {
    /// `self` and `other` differ at most in their state.
    pub open spec fn same_but_state(self, other: Game) -> bool {
        &&& self.id == other.id
        &&& self.players@ == other.players@
        &&& self.host == other.host
        &&& self.config == other.config
        &&& self.room == other.room
    }

    /// `res` is the refusal with text `message`, recording the id and the
    /// state of `self`.
    pub open spec fn refused_with(self, res: Result<
        crate::ws::game::message::GameMessageResponse,
        GameMessageError,
    >, message: Seq<char>) -> bool {
        &&& res is Err
        &&& res->Err_0.message@ == message
        &&& res->Err_0.game_id == self.id
        &&& res->Err_0.game_state == Some(self.state)
    }
}

} // verus!
pub mod properties;
