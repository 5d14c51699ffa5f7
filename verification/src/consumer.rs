//! The game-state consumer: what each consumed message does to the stored games, scores and
//! moves. Reading the messages and writing the stores is done by the caller, which hands each
//! decoded message to the step for its topic.
use vstd::prelude::*;
use vstd::string::*;
use crate::accounts::same_string;
use crate::constants::{
    CREATE_USER_BET, TOPIC_USER_GAME_DELETION, TOPIC_USER_GAME_EVENTS, TOPIC_USER_SCORE_UPDATE,
};
use crate::fen::{
    chess_position, get_chess_position, spec_update_fen, spec_update_in_range,
    update_fen_with_timing, update_in_range, CellPosition,
};
use crate::accounts::copy_string;
use crate::events::UserGameDeletetionEvent;
use crate::ids::{parse_uuid, uuid_parse, uuid_text};

verus! {

/// The topics that the consumer acts on.
#[derive(Clone, Copy, Debug, PartialEq, Eq, Structural)]
pub enum ConsumerTopic {
    /// A finished game whose stored documents are removed.
    GameDeletion,
    /// A new score for an account.
    ScoreUpdate,
    /// A bet that is placed or raised.
    UserBet,
    /// A move played in a game.
    GameMove,
    /// Any other topic: the message is ignored.
    Unknown,
}

/// The topic that a topic name stands for.
pub open spec fn spec_consumer_topic(topic: Seq<char>) -> ConsumerTopic {
    if topic == TOPIC_USER_GAME_DELETION@ {
        ConsumerTopic::GameDeletion
    } else if topic == TOPIC_USER_SCORE_UPDATE@ {
        ConsumerTopic::ScoreUpdate
    } else if topic == CREATE_USER_BET@ {
        ConsumerTopic::UserBet
    } else if topic == TOPIC_USER_GAME_EVENTS@ {
        ConsumerTopic::GameMove
    } else {
        ConsumerTopic::Unknown
    }
}

/// The topic that a consumed message came from.
pub fn consumer_topic(topic: &String) -> (r: ConsumerTopic)
    ensures
        r == spec_consumer_topic(topic@),
{
    if same_string(topic, &String::from_str(TOPIC_USER_GAME_DELETION)) {
        ConsumerTopic::GameDeletion
    } else if same_string(topic, &String::from_str(TOPIC_USER_SCORE_UPDATE)) {
        ConsumerTopic::ScoreUpdate
    } else if same_string(topic, &String::from_str(CREATE_USER_BET)) {
        ConsumerTopic::UserBet
    } else if same_string(topic, &String::from_str(TOPIC_USER_GAME_EVENTS)) {
        ConsumerTopic::GameMove
    } else {
        ConsumerTopic::Unknown
    }
}

/// A new score for an account.
pub struct UserScoreUpdateEvent {
    pub user_id: String,
    pub score: i32,
}

/// The stored score to set, and the id of the account whose score it is.
#[derive(Clone, Copy, Debug, PartialEq, Eq, Structural)]
pub struct ScoreUpdate {
    pub user: u128,
    pub score: i32,
}

/// The score to store for a score event: the account is the one whose id the event names;
/// `None` where the event's account id is not an id.
pub fn score_update(ev: &UserScoreUpdateEvent) -> (r: Option<ScoreUpdate>)
    ensures
        r == (match uuid_parse(ev.user_id@) {
            Some(user) => Some(ScoreUpdate { user, score: ev.score }),
            None => None,
        }),
        forall|user: u128|
            ev.user_id@ == #[trigger] uuid_text(user) ==> r == Some(ScoreUpdate { user, score: ev.score }),
{
    match parse_uuid(ev.user_id.as_str()) {
        Some(user) => Some(ScoreUpdate { user, score: ev.score }),
        None => None,
    }
}

/// How a move message carries its move.
#[derive(Clone, Copy, Debug, PartialEq, Eq, Structural)]
pub enum MoveKind {
    /// A piece goes from one square to another.
    Normal,
    /// A pawn reaches the last rank and becomes another piece.
    Promotion,
}

/// A move type of `normal` is a plain move; every other one is a promotion.
pub fn move_kind(move_type: &String) -> (r: MoveKind)
    ensures
        r == (if move_type@ == "normal"@ {
            MoveKind::Normal
        } else {
            MoveKind::Promotion
        }),
{
    if same_string(move_type, &String::from_str("normal")) {
        MoveKind::Normal
    } else {
        MoveKind::Promotion
    }
}

/// What a move does to the stored record of a game.
#[derive(Debug)]
pub enum MoveOutcome {
    /// The record after the move, to be stored in place of the old one.
    Updated(String),
    /// The move is not applied; the record stays as it is.
    Rejected,
    /// A move counter of the record would pass its 32-bit limit; the record stays as it is.
    CounterLimit,
}

/// The promotion a move names: the first character of the piece it becomes, if any.
pub open spec fn promotion_of(promoted_to: Option<Seq<char>>) -> Option<char> {
    match promoted_to {
        Some(p) => Some(p[0]),
        None => None,
    }
}

/// Applies a played move to the stored record of its game: the piece is the first character
/// of `piece`, the squares are the client's cells turned into coordinates, and a promotion
/// is the first character of the piece the pawn becomes.
pub fn apply_game_move(
    chess_state: &String,
    piece: &String,
    from: &CellPosition,
    to: &CellPosition,
    promoted_to: &Option<String>,
) -> (r: MoveOutcome)
    requires
        piece@.len() > 0,
        promoted_to matches Some(p) ==> p@.len() > 0,
        from.y > i64::MIN + 8,
        to.y > i64::MIN + 8,
    ensures
        !spec_update_in_range(
            chess_state@,
            piece@[0],
            chess_position(*from),
            chess_position(*to),
            promotion_of(opt_view(*promoted_to)),
        ) ==> r is CounterLimit,
        spec_update_in_range(
            chess_state@,
            piece@[0],
            chess_position(*from),
            chess_position(*to),
            promotion_of(opt_view(*promoted_to)),
        ) ==> match spec_update_fen(
            chess_state@,
            piece@[0],
            chess_position(*from),
            chess_position(*to),
            promotion_of(opt_view(*promoted_to)),
        ) {
            Some(f) => r matches MoveOutcome::Updated(s) && s@ == f,
            None => r is Rejected,
        },
{
    let p = piece.as_str().get_char(0);
    let promo = match promoted_to {
        Some(s) => Some(s.as_str().get_char(0)),
        None => None,
    };
    let from_text = get_chess_position(from);
    let to_text = get_chess_position(to);
    if !update_in_range(chess_state.as_str(), p, from_text.as_str(), to_text.as_str(), promo) {
        return MoveOutcome::CounterLimit;
    }
    match update_fen_with_timing(chess_state.as_str(), p, from_text.as_str(), to_text.as_str(), promo) {
        Some(t) => MoveOutcome::Updated(t.fen),
        None => MoveOutcome::Rejected,
    }
}

/// The view of an optional text.
pub open spec fn opt_view(s: Option<String>) -> Option<Seq<char>> {
    match s {
        Some(t) => Some(t@),
        None => None,
    }
}

/// The documents that a deletion message removes: the game relations of the account, found
/// by its id, and the game that it hosts, found by the host's id as text.
pub struct AccountGameDeletion {
    pub user: u128,
    pub host_id: String,
}

/// What a deletion message removes: nothing when it came from another topic than the one
/// subscribed to; otherwise the account's relations and hosted game, or `None` where the
/// event's account id is not an id.
pub fn account_game_deletion(topic: &String, subscribed: &String, ev: &UserGameDeletetionEvent) -> (r:
    Option<AccountGameDeletion>)
    ensures
        topic@ != subscribed@ ==> r is None,
        topic@ == subscribed@ ==> match uuid_parse(ev.user_id@) {
            Some(user) => r matches Some(d) && d.user == user && d.host_id@ == ev.user_id@,
            None => r is None,
        },
{
    if !same_string(topic, subscribed) {
        return None;
    }
    match parse_uuid(ev.user_id.as_str()) {
        Some(user) => Some(AccountGameDeletion { user, host_id: copy_string(&ev.user_id) }),
        None => None,
    }
}

/// The documents that a game's deletion removes, as (collection, field, value): its players'
/// relations (`users` by `game_id`), the game (`games` by `id`) and its turn order
/// (`user_turns` by `game_id`).
pub fn game_deletion_ops(game_id: &String) -> (r: Vec<(String, String, String)>)
    ensures
        r@.len() == 3,
        r@[0].0@ == "users"@ && r@[0].1@ == "game_id"@ && r@[0].2@ == game_id@,
        r@[1].0@ == "games"@ && r@[1].1@ == "id"@ && r@[1].2@ == game_id@,
        r@[2].0@ == "user_turns"@ && r@[2].1@ == "game_id"@ && r@[2].2@ == game_id@,
{
    let mut v: Vec<(String, String, String)> = Vec::new();
    v.push((String::from_str("users"), String::from_str("game_id"), copy_string(game_id)));
    v.push((String::from_str("games"), String::from_str("id"), copy_string(game_id)));
    v.push((String::from_str("user_turns"), String::from_str("game_id"), copy_string(game_id)));
    v
}

} // verus!
