//! Names shared by the services: event names, topics and key suffixes.
use vstd::prelude::*;

verus! {

/// The event that announces a friend request.
pub const FRIEND_REQUEST_EVENT: &'static str = "friend-request-event";
/// The event that announces a game invite.
pub const GAME_INVITE_EVENT: &'static str = "game-invite-event";
/// The event that announces that an account came online.
pub const USER_ONLINE_EVENT: &'static str = "user-online-event";
/// The event that announces that an account joined a game room.
pub const USER_JOINED_ROOM: &'static str = "user-joined-room";
/// The event that announces that an account left a game room.
pub const USER_LEFT_ROOM: &'static str = "user-left-room";
/// The event that announces a player's ready status.
pub const USER_STATUS_EVENT: &'static str = "user-status-event";
/// The event that announces that a game's status is being verified.
pub const VERIFYING_GAME_STATUS: &'static str = "verifying-game-status";
/// The event that carries a move of a game.
pub const USER_GAME_MOVE: &'static str = "user-game-move";
/// The event that carries a general game event.
pub const GAME_GENERAL_EVENT: &'static str = "game-general-event";

/// The suffix of the key that holds the game an account is in.
pub const REDIS_USER_GAME_KEY: &'static str = "-user-game";
/// The suffix of the key that holds whether an account hosts its game or plays in it.
pub const REDIS_USER_PLAYER_KEY: &'static str = "-user-player";
/// The suffix of the key that counts the players who joined a game.
pub const GAME_ID_COUNT_KEY: &'static str = "-game-id-count";

/// The prefix of the key whose expiry starts the settlement of a game's bets.
pub const SETTLE_BET_KEY: &'static str = "settlebet_";
/// The prefix of the key that holds the data of a settlement.
pub const SETTLE_BET_KEY_DATA: &'static str = "settlebetdata_";
/// The prefix of the key whose expiry ends the staking time of a game.
pub const GAME_STAKE_TIME_OVER: &'static str = "stakeover_";
/// The prefix of the key that holds the data of a game whose staking time ended.
pub const GAME_STAKE_TIME_OVER_DATA: &'static str = "stakeoverdata_";

/// Topics of the message broker.
pub const TOPIC_USER: &'static str = "user";
pub const TOPIC_GAME: &'static str = "game";
pub const TOPIC_USER_GAME_EVENTS: &'static str = "user_game_events";
pub const TOPIC_USER_GAME_DELETION: &'static str = "user_game_deletion";
pub const TOPIC_USER_SCORE_UPDATE: &'static str = "user_score_update";
pub const CREATE_USER_BET: &'static str = "create_user_bet";
pub const GENERATE_GAME_BET_EVENTS: &'static str = "generate_game_bet_events";
pub const GAME_OVER_EVENT: &'static str = "game_over_event";
pub const GAME_BET_SETTLED: &'static str = "game_bet_settled";
pub const GAME_BET_SETTLED_ERROR: &'static str = "game_bet_settled_error";
pub const START_GAME_SETTLE_EVENT: &'static str = "start_game_settle_event";
pub const EXECUTOR_GAME_STAKE_TIME_OVER_EVENT: &'static str = "executor_game_stake_time_over_event";

/// Topic prefixes of the realtime (MQTT) broker.
pub const MQTT_USER_EVENTS: &'static str = "user/";
pub const MQTT_GAME_EVENTS: &'static str = "game/";

} // verus!
