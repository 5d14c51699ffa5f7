//! Game lobbies: creating, joining and leaving them, player status and starting a game.
//! The handlers are decision functions in the step style of the `accounts` module.
use vstd::prelude::*;
use vstd::string::*;
use crate::accounts::{blank, copy_string, is_blank};
use crate::api_error::Error;
use crate::constants::{GAME_ID_COUNT_KEY, REDIS_USER_GAME_KEY, REDIS_USER_PLAYER_KEY};
use crate::ids::new_uuid;

verus! {

/// A request to open a lobby.
pub struct CreateLobbyPayload {
    pub user_id: String,
    pub username: String,
    pub game_type: String,
    pub game_name: String,
}

/// A request to join a lobby (also used to leave one).
pub struct JoinLobbyPayload {
    pub user_id: String,
    pub username: String,
    pub game_id: String,
    pub game_name: String,
}

/// A request to leave a lobby.
pub struct LeaveLobbyPayload {
    pub user_id: String,
    pub game_id: String,
    pub game_name: String,
}

/// A request to set a player's status.
pub struct UpdatePlayerStatusPayload {
    pub game_id: String,
    pub user_id: String,
    pub game_name: String,
    pub status: String,
}

/// A request to check that a game exists.
pub struct VerifyGameStatusPayload {
    pub game_id: String,
    pub host_user_id: String,
    pub game_name: String,
    pub user_id: String,
}

/// A request to start a game.
pub struct StartGamePayload {
    pub game_id: String,
    pub game_name: String,
}

/// A request to remove an account from a game.
pub struct RemoveGameModelsPayload {
    pub game_id: String,
    pub host_user_id: String,
    pub game_name: String,
    pub user_id: String,
}

/// A request to invite an account to a game.
pub struct SendGameEventAPIPayload {
    pub game_id: String,
    pub game_name: String,
    pub user_sending_username: String,
    pub user_sending_id: String,
    pub user_receiving_id: String,
    pub game_type: String,
}

/// A request to delete a lobby and its game.
pub struct DestroyLobbyPayload {
    pub game_id: String,
}

/// A request for the players of a lobby.
pub struct GetLobbyPlayersPayload {
    pub game_id: String,
    pub host_user_id: String,
}

/// A request to broadcast a game event.
pub struct BrodcastGamePayload {
    pub game_id: String,
    pub user_id: String,
    pub event_name: String,
}

/// A message of the websocket.
pub struct WebsocketPayload {
    pub user_id: String,
    pub game_name: String,
    pub event: String,
}

/// A request for the games that an account's friends are playing.
pub struct GetUsersOngoingGamesPayload {
    pub user_id: String,
}

/// A request for the current state of a game.
pub struct GetGameCurrentStatePayload {
    pub game_id: String,
}

/// A request for the turn order of a game.
pub struct GetUserTurnMappingsPayload {
    pub game_id: String,
}

/// A request for the details of a game.
pub struct GetGameDetailsPayload {
    pub game_id: String,
}

/// An account's place in a game.
pub struct UserGameRelation {
    pub user_id: String,
    pub username: String,
    pub game_id: String,
    pub player_type: String,
    pub player_status: String,
}

/// A game.
pub struct Game {
    pub id: String,
    pub user_count: i64,
    pub host_id: String,
    pub name: String,
    pub game_type: String,
    pub is_staked: bool,
    pub current_state: String,
    pub state_index: i64,
    pub description: String,
}

/// A player's place in the turn order.
pub struct TurnModel {
    pub count_id: i64,
    pub user_id: String,
    pub username: String,
}

/// The turn order of a game.
pub struct UserTurnMapping {
    pub game_id: String,
    pub turn_mappings: Vec<TurnModel>,
    pub host_id: String,
}

/// The key that holds the game an account is in.
pub open spec fn user_game_key(user_id: Seq<char>) -> Seq<char> {
    user_id + REDIS_USER_GAME_KEY@
}

/// The key that holds whether an account hosts or plays.
pub open spec fn user_player_key(user_id: Seq<char>) -> Seq<char> {
    user_id + REDIS_USER_PLAYER_KEY@
}

/// The key that counts the players who joined a game.
pub open spec fn game_count_key(game_id: Seq<char>) -> Seq<char> {
    game_id + GAME_ID_COUNT_KEY@
}

/// `a` followed by `b`.
pub fn joined(a: &String, b: &str) -> (r: String)
    ensures
        r@ == a@ + b@,
{
    copy_string(a).concat(b)
}

/// A lobby to be stored: the counter and keys to set and the three documents to insert. The
/// counter is set to `count_value`, the account's game key to `game_id` and its player key to
/// `player_type`.
pub struct LobbyCreation {
    pub game_id: String,
    pub count_key: String,
    pub count_value: i64,
    pub user_game_key: String,
    pub user_player_key: String,
    pub player_type: String,
    pub user: UserGameRelation,
    pub game: Game,
    pub turns: UserTurnMapping,
}

/// Some field of a lobby request is empty.
pub open spec fn create_incomplete(p: CreateLobbyPayload) -> bool {
    blank(p.user_id@) || blank(p.game_name@) || blank(p.game_type@) || blank(p.username@)
}

/// Plans a new lobby: all fields must be given. The game gets a fresh id and one player,
/// the host, who is first in the turn order and not yet ready; the game is staked when the
/// requested type is `staked`.
pub fn create_lobby(payload: &CreateLobbyPayload) -> (r: Result<LobbyCreation, Error>)
    ensures
        create_incomplete(*payload) ==> r == Err::<LobbyCreation, Error>(Error::MissingParamsError),
        !create_incomplete(*payload) ==> (r matches Ok(c) && {
            let id = c.game_id@;
            &&& id.len() == 36
            &&& c.count_key@ == game_count_key(id)
            &&& c.count_value == 1
            &&& c.user_game_key@ == user_game_key(payload.user_id@)
            &&& c.user_player_key@ == user_player_key(payload.user_id@)
            &&& c.player_type@ == "host"@
            &&& c.user.user_id@ == payload.user_id@ && c.user.username@ == payload.username@
            &&& c.user.game_id@ == id && c.user.player_type@ == "host"@
            &&& c.user.player_status@ == "not-ready"@
            &&& c.game.id@ == id && c.game.user_count == 1 && c.game.host_id@ == payload.user_id@
            &&& c.game.name@ == payload.game_name@ && c.game.game_type@ == payload.game_name@
            &&& c.game.is_staked == (payload.game_type@ == "staked"@)
            &&& c.game.current_state@ == "none"@ && c.game.state_index == 0
            &&& c.game.description@ == "none"@
            &&& c.turns.game_id@ == id && c.turns.host_id@ == payload.user_id@
            &&& c.turns.turn_mappings@.len() == 1
            &&& c.turns.turn_mappings@[0].count_id == 1
            &&& c.turns.turn_mappings@[0].user_id@ == payload.user_id@
            &&& c.turns.turn_mappings@[0].username@ == payload.username@
        }),
{
    if is_blank(&payload.user_id) || is_blank(&payload.game_name) || is_blank(&payload.game_type)
        || is_blank(&payload.username) {
        return Err(Error::MissingParamsError);
    }
    let game_id = new_uuid();
    let staked = String::from_str("staked");
    let mut turns: Vec<TurnModel> = Vec::new();
    turns.push(
        TurnModel {
            count_id: 1,
            user_id: copy_string(&payload.user_id),
            username: copy_string(&payload.username),
        },
    );
    Ok(
        LobbyCreation {
            count_key: joined(&game_id, GAME_ID_COUNT_KEY),
            count_value: 1,
            user_game_key: joined(&payload.user_id, REDIS_USER_GAME_KEY),
            user_player_key: joined(&payload.user_id, REDIS_USER_PLAYER_KEY),
            player_type: String::from_str("host"),
            user: UserGameRelation {
                user_id: copy_string(&payload.user_id),
                username: copy_string(&payload.username),
                game_id: copy_string(&game_id),
                player_type: String::from_str("host"),
                player_status: String::from_str("not-ready"),
            },
            game: Game {
                id: copy_string(&game_id),
                user_count: 1,
                host_id: copy_string(&payload.user_id),
                name: copy_string(&payload.game_name),
                game_type: copy_string(&payload.game_name),
                is_staked: payload.game_type.eq(&staked),
                current_state: String::from_str("none"),
                state_index: 0,
                description: String::from_str("none"),
            },
            turns: UserTurnMapping {
                game_id: copy_string(&game_id),
                turn_mappings: turns,
                host_id: copy_string(&payload.user_id),
            },
            game_id,
        },
    )
}

/// How storing a new lobby ended: the counter must be set first, then the documents.
pub fn create_lobby_outcome(count_set: bool, documents_stored: bool) -> (r: Result<(), Error>)
    ensures
        !count_set ==> r == Err::<(), Error>(Error::CreateLobbyError),
        count_set && !documents_stored ==> r == Err::<(), Error>(Error::ErrorWhileCreatingEntities),
        count_set && documents_stored ==> r is Ok,
{
    if !count_set {
        Err(Error::CreateLobbyError)
    } else if !documents_stored {
        Err(Error::ErrorWhileCreatingEntities)
    } else {
        Ok(())
    }
}

/// The most players a lobby of the named game admits: two for chess, ten otherwise.
pub open spec fn lobby_capacity(game_name: Seq<char>) -> int {
    if game_name == "chess"@ {
        2
    } else {
        10
    }
}

/// The next step of joining a lobby.
pub enum JoinStep {
    /// Set the account's game key to `game_id` and its player key to `player_type`, read the
    /// lobby's player counter and then raise it by `count_increment`.
    SetKeysAndCount {
        user_game_key: String,
        game_id: String,
        user_player_key: String,
        player_type: String,
        count_key: String,
        count_increment: i64,
    },
    /// Look up the game.
    LookUpGame,
    /// Store the new player, raise the game's player count and append to the turn order.
    Store { user: UserGameRelation, new_user_count: i64, turn: TurnModel },
    /// Answer with the game's host and the player's place in the turn order.
    Joined { game_host_id: String, user_count_id: i64 },
    /// Answer with this error.
    Fail(Error),
}

/// Law: a chess lobby admits two players and a lobby of any other game ten.
pub proof fn law_lobby_capacity(game_name: Seq<char>)
    ensures
        game_name == "chess"@ ==> lobby_capacity(game_name) == 2,
        game_name != "chess"@ ==> lobby_capacity(game_name) == 10,
{
}

/// Some field of a join request is empty.
pub open spec fn join_incomplete(p: JoinLobbyPayload) -> bool {
    blank(p.user_id@) || blank(p.game_id@) || blank(p.game_name@) || blank(p.username@)
}

/// One step of joining a lobby: all fields must be given; the player counter must be read
/// (`Some(None)` when reading failed); the game must be found (`Some(Err(()))` when the lookup
/// failed, `Some(Ok(None))` when there is no such game); it must have room: fewer than two
/// players for chess, fewer than ten for any game. The new player is not yet ready and takes
/// the turn after the counter's value.
pub fn join_lobby(
    payload: &JoinLobbyPayload,
    count: Option<Option<i64>>,
    game: Option<Result<Option<Game>, ()>>,
    stored: Option<bool>,
) -> (r: JoinStep)
    requires
        count matches Some(Some(c)) ==> c < i64::MAX,
    ensures
        join_incomplete(*payload) ==> r == JoinStep::Fail(Error::MissingParamsError),
        !join_incomplete(*payload) ==> match count {
            None => r matches JoinStep::SetKeysAndCount {
                user_game_key: gk,
                game_id: gid,
                user_player_key: pk,
                player_type: pt,
                count_key: ck,
                count_increment: inc,
            } && gk@ == user_game_key(payload.user_id@) && gid@ == payload.game_id@ && pk@
                == user_player_key(payload.user_id@) && pt@ == "player"@ && ck@ == game_count_key(
                payload.game_id@,
            ) && inc == 1,
            Some(None) => r == JoinStep::Fail(Error::JoinLobbyError),
            Some(Some(c)) => match game {
                None => r is LookUpGame,
                Some(Err(())) => r == JoinStep::Fail(Error::ErrorWhileFetchingGameDetails),
                Some(Ok(None)) => r == JoinStep::Fail(Error::GameLobbyDeletedOrRequestIsInvalid),
                Some(Ok(Some(g))) => if g.user_count >= lobby_capacity(payload.game_name@) {
                    r == JoinStep::Fail(Error::LobbyIsFull)
                } else {
                    match stored {
                        None => r matches JoinStep::Store { user, new_user_count, turn } && {
                            &&& user.user_id@ == payload.user_id@
                            &&& user.username@ == payload.username@
                            &&& user.game_id@ == payload.game_id@
                            &&& user.player_type@ == "player"@
                            &&& user.player_status@ == "not-ready"@
                            &&& new_user_count == g.user_count + 1
                            &&& turn.count_id == c + 1
                            &&& turn.user_id@ == payload.user_id@
                            &&& turn.username@ == payload.username@
                        },
                        Some(false) => r == JoinStep::Fail(
                            Error::ErrorWhileUpdatingMongoUserAndGame,
                        ),
                        Some(true) => r matches JoinStep::Joined { game_host_id, user_count_id }
                            && game_host_id@ == g.host_id@ && user_count_id == c + 1,
                    }
                },
            },
        },
        r matches JoinStep::Store { new_user_count, .. } ==> new_user_count <= lobby_capacity(
            payload.game_name@,
        ),
{
    if is_blank(&payload.user_id) || is_blank(&payload.game_id) || is_blank(&payload.game_name)
        || is_blank(&payload.username) {
        return JoinStep::Fail(Error::MissingParamsError);
    }
    let cnt = match count {
        None => {
            return JoinStep::SetKeysAndCount {
                user_game_key: joined(&payload.user_id, REDIS_USER_GAME_KEY),
                game_id: copy_string(&payload.game_id),
                user_player_key: joined(&payload.user_id, REDIS_USER_PLAYER_KEY),
                player_type: String::from_str("player"),
                count_key: joined(&payload.game_id, GAME_ID_COUNT_KEY),
                count_increment: 1,
            }
        },
        Some(None) => return JoinStep::Fail(Error::JoinLobbyError),
        Some(Some(c)) => c,
    };
    let user_cnt_id = cnt + 1;
    let game = match game {
        None => return JoinStep::LookUpGame,
        Some(Err(())) => return JoinStep::Fail(Error::ErrorWhileFetchingGameDetails),
        Some(Ok(None)) => return JoinStep::Fail(Error::GameLobbyDeletedOrRequestIsInvalid),
        Some(Ok(Some(g))) => g,
    };
    let chess = String::from_str("chess");
    if payload.game_name.eq(&chess) && game.user_count >= 2 {
        return JoinStep::Fail(Error::LobbyIsFull);
    }
    if game.user_count >= 10 {
        return JoinStep::Fail(Error::LobbyIsFull);
    }
    match stored {
        None => JoinStep::Store {
            user: UserGameRelation {
                user_id: copy_string(&payload.user_id),
                username: copy_string(&payload.username),
                game_id: copy_string(&payload.game_id),
                player_type: String::from_str("player"),
                player_status: String::from_str("not-ready"),
            },
            new_user_count: game.user_count + 1,
            turn: TurnModel {
                count_id: user_cnt_id,
                user_id: copy_string(&payload.user_id),
                username: copy_string(&payload.username),
            },
        },
        Some(false) => JoinStep::Fail(Error::ErrorWhileUpdatingMongoUserAndGame),
        Some(true) => JoinStep::Joined { game_host_id: game.host_id, user_count_id: user_cnt_id },
    }
}


/// The event that invites an account to a game.
pub struct UserGameInviteKafkaEvent {
    pub user_who_send_request_id: String,
    pub user_who_send_request_username: String,
    pub user_who_we_are_sending_event: String,
    pub game_id: String,
    pub game_name: String,
    pub game_type: String,
}

/// Some field of an invite request is empty.
pub open spec fn invite_incomplete(p: SendGameEventAPIPayload) -> bool {
    blank(p.game_type@) || blank(p.game_id@) || blank(p.game_name@) || blank(p.user_receiving_id@)
        || blank(p.user_sending_id@) || blank(p.user_sending_username@)
}

/// The invite event of a request: all fields must be given; the event names the sender,
/// the receiver and the game.
pub fn send_game_invite(payload: &SendGameEventAPIPayload) -> (r: Result<UserGameInviteKafkaEvent, Error>)
    ensures
        invite_incomplete(*payload) ==> r is Err && r == Err::<UserGameInviteKafkaEvent, Error>(
            Error::MissingParamsError,
        ),
        !invite_incomplete(*payload) ==> (r matches Ok(e) && {
            &&& e.user_who_send_request_id@ == payload.user_sending_id@
            &&& e.user_who_send_request_username@ == payload.user_sending_username@
            &&& e.user_who_we_are_sending_event@ == payload.user_receiving_id@
            &&& e.game_id@ == payload.game_id@
            &&& e.game_name@ == payload.game_name@
            &&& e.game_type@ == payload.game_type@
        }),
{
    if is_blank(&payload.game_type) || is_blank(&payload.game_id) || is_blank(&payload.game_name)
        || is_blank(&payload.user_receiving_id) || is_blank(&payload.user_sending_id) || is_blank(
        &payload.user_sending_username,
    ) {
        return Err(Error::MissingParamsError);
    }
    Ok(
        UserGameInviteKafkaEvent {
            user_who_send_request_id: copy_string(&payload.user_sending_id),
            user_who_send_request_username: copy_string(&payload.user_sending_username),
            user_who_we_are_sending_event: copy_string(&payload.user_receiving_id),
            game_id: copy_string(&payload.game_id),
            game_name: copy_string(&payload.game_name),
            game_type: copy_string(&payload.game_type),
        },
    )
}

/// How sending an invite ended.
pub fn send_game_invite_outcome(sent: bool) -> (r: Result<(), Error>)
    ensures
        sent <==> r is Ok,
        !sent ==> r == Err::<(), Error>(Error::GameInviteSendError),
{
    if sent {
        Ok(())
    } else {
        Err(Error::GameInviteSendError)
    }
}

/// What leaving a lobby changes: the account's two keys are deleted, its place in the game
/// is deleted, the game's player count drops by one and its turn is removed.
pub struct LeavePlan {
    pub user_game_key: String,
    pub user_player_key: String,
    pub game_id: String,
    pub user_id: String,
}

/// Plans leaving a lobby: the account, game and game name must be given.
pub fn leave_lobby(payload: &JoinLobbyPayload) -> (r: Result<LeavePlan, Error>)
    ensures
        blank(payload.user_id@) || blank(payload.game_id@) || blank(payload.game_name@) ==> r
            == Err::<LeavePlan, Error>(Error::MissingParamsError),
        !(blank(payload.user_id@) || blank(payload.game_id@) || blank(payload.game_name@)) ==> (r matches Ok(p)
            && p.user_game_key@ == user_game_key(payload.user_id@) && p.user_player_key@
            == user_player_key(payload.user_id@) && p.game_id@ == payload.game_id@ && p.user_id@
            == payload.user_id@),
{
    if is_blank(&payload.user_id) || is_blank(&payload.game_id) || is_blank(&payload.game_name) {
        return Err(Error::MissingParamsError);
    }
    Ok(
        LeavePlan {
            user_game_key: joined(&payload.user_id, REDIS_USER_GAME_KEY),
            user_player_key: joined(&payload.user_id, REDIS_USER_PLAYER_KEY),
            game_id: copy_string(&payload.game_id),
            user_id: copy_string(&payload.user_id),
        },
    )
}

/// How a store change ended: any failed write answers with `failure`.
pub fn writes_outcome(all_written: bool, failure: Error) -> (r: Result<(), Error>)
    ensures
        all_written ==> r == Ok::<(), Error>(()),
        !all_written ==> r == Err::<(), Error>(failure),
{
    if all_written {
        Ok(())
    } else {
        Err(failure)
    }
}

/// The answer to leaving a lobby once the store was changed.
pub fn leave_lobby_outcome(all_written: bool) -> (r: Result<(), Error>)
    ensures
        all_written ==> r is Ok,
        !all_written ==> r == Err::<(), Error>(Error::ErrorWhileLeavingLobby),
{
    writes_outcome(all_written, Error::ErrorWhileLeavingLobby)
}

/// Deleting a lobby and its game needs the game id; a failed delete is refused.
pub fn destroy_lobby_and_game(payload: &DestroyLobbyPayload, deleted: Option<bool>) -> (r: Option<
    Result<(), Error>,
>)
    ensures
        blank(payload.game_id@) ==> r == Some(Err::<(), Error>(Error::MissingParamsError)),
        !blank(payload.game_id@) ==> match deleted {
            None => r is None,
            Some(true) => r == Some(Ok::<(), Error>(())),
            Some(false) => r == Some(Err::<(), Error>(Error::DeleteLobbyError)),
        },
{
    if is_blank(&payload.game_id) {
        return Some(Err(Error::MissingParamsError));
    }
    match deleted {
        None => None,
        Some(d) => Some(writes_outcome(d, Error::DeleteLobbyError)),
    }
}

/// Listing a lobby's players needs the game and host ids; a failed lookup is refused.
pub fn get_lobby_players(payload: &GetLobbyPlayersPayload, fetched: Option<bool>) -> (r: Option<
    Result<(), Error>,
>)
    ensures
        blank(payload.game_id@) || blank(payload.host_user_id@) ==> r == Some(
            Err::<(), Error>(Error::MissingParamsError),
        ),
        !(blank(payload.game_id@) || blank(payload.host_user_id@)) ==> match fetched {
            None => r is None,
            Some(true) => r == Some(Ok::<(), Error>(())),
            Some(false) => r == Some(Err::<(), Error>(Error::ErrorWhileRetrievingLobbyUsers)),
        },
{
    if is_blank(&payload.game_id) || is_blank(&payload.host_user_id) {
        return Some(Err(Error::MissingParamsError));
    }
    match fetched {
        None => None,
        Some(f) => Some(writes_outcome(f, Error::ErrorWhileRetrievingLobbyUsers)),
    }
}

/// The state that the API shows of a game: its current state, whatever the game.
pub fn get_current_state_of_game(game: &Game) -> (r: String)
    ensures
        r@ == game.current_state@,
{
    copy_string(&game.current_state)
}

/// `s` with every ASCII uppercase letter made lowercase (`str::to_ascii_lowercase`).
pub open spec fn ascii_lowercase(s: Seq<char>) -> Seq<char> {
    Seq::new(s.len(), |i: int| crate::text::ascii_lower(s[i]))
}

/// The lowercase form of a text.
pub fn to_ascii_lowercase(s: &String) -> (r: String)
    ensures
        r@ == ascii_lowercase(s@),
{
    let v = crate::text::str_chars(s.as_str());
    let mut out: Vec<char> = Vec::new();
    let mut i: usize = 0;
    while i < v.len()
        invariant
            i <= v.len(),
            out@ == Seq::new(i as nat, |j: int| crate::text::ascii_lower(v@[j])),
        decreases v.len() - i,
    {
        out.push(crate::text::to_ascii_lower(v[i]));
        i = i + 1;
        assert(out@ =~= Seq::new(i as nat, |j: int| crate::text::ascii_lower(v@[j])));
    }
    assert(out@ =~= ascii_lowercase(s@));
    crate::text::string_from_chars(&out)
}

/// Plans a player status change: the game, game name and account must be given, and the
/// status, in lowercase, must be `ready` or `not-ready`; that lowercase form is stored.
pub fn update_player_status(payload: &UpdatePlayerStatusPayload) -> (r: Result<String, Error>)
    ensures
        blank(payload.game_id@) || blank(payload.game_name@) || blank(payload.user_id@) ==> r
            == Err::<String, Error>(Error::MissingParamsError),
        !(blank(payload.game_id@) || blank(payload.game_name@) || blank(payload.user_id@)) ==> {
            let st = ascii_lowercase(payload.status@);
            if st == "ready"@ || st == "not-ready"@ {
                r matches Ok(s) && s@ == st
            } else {
                r == Err::<String, Error>(Error::InvalidStatusSendAsPayload)
            }
        },
{
    if is_blank(&payload.game_id) || is_blank(&payload.game_name) || is_blank(&payload.user_id) {
        return Err(Error::MissingParamsError);
    }
    let status = to_ascii_lowercase(&payload.status);
    let ready = String::from_str("ready");
    let not_ready = String::from_str("not-ready");
    if !status.eq(&ready) && !status.eq(&not_ready) {
        return Err(Error::InvalidStatusSendAsPayload);
    }
    Ok(status)
}

/// The answer to a player status change once the store was changed.
pub fn update_player_status_outcome(written: bool) -> (r: Result<(), Error>)
    ensures
        written ==> r is Ok,
        !written ==> r == Err::<(), Error>(Error::ErrorWhileUpdatingPlayerStatus),
{
    writes_outcome(written, Error::ErrorWhileUpdatingPlayerStatus)
}

/// Checking a game needs the game, host and game name; a failed lookup is refused.
pub fn verify_game_status(payload: &VerifyGameStatusPayload, looked_up: Option<bool>) -> (r: Option<
    Result<(), Error>,
>)
    ensures
        blank(payload.game_id@) || blank(payload.host_user_id@) || blank(payload.game_name@) ==> r
            == Some(Err::<(), Error>(Error::MissingParamsError)),
        !(blank(payload.game_id@) || blank(payload.host_user_id@) || blank(payload.game_name@))
            ==> match looked_up {
            None => r is None,
            Some(true) => r == Some(Ok::<(), Error>(())),
            Some(false) => r == Some(Err::<(), Error>(Error::GameNotFound)),
        },
{
    if is_blank(&payload.game_id) || is_blank(&payload.host_user_id) || is_blank(&payload.game_name) {
        return Some(Err(Error::MissingParamsError));
    }
    match looked_up {
        None => None,
        Some(ok) => Some(writes_outcome(ok, Error::GameNotFound)),
    }
}

/// The next step of removing an account from a game.
pub enum RemoveStep {
    /// Delete the account's game key, then look up its place in the game.
    DeleteKeyAndLookUp(String),
    /// The account has no place in any game.
    UserMissing,
    /// Delete the account's place in the game, and the game itself when `delete_game`.
    Delete { delete_game: bool },
    /// Answer with success.
    Done,
    /// Answer with this error.
    Fail(Error),
}

/// One step of removing an account from a game: all fields must be given; the account's
/// game key goes; when the account hosts the game, the game goes too; its place in the game
/// goes, and a failure there is refused.
pub fn remove_game_models(
    payload: &RemoveGameModelsPayload,
    relation: Option<Option<UserGameRelation>>,
    deleted: Option<bool>,
) -> (r: RemoveStep)
    ensures
        blank(payload.game_id@) || blank(payload.host_user_id@) || blank(payload.game_name@) || blank(
            payload.user_id@,
        ) ==> r == RemoveStep::Fail(Error::MissingParamsError),
        !(blank(payload.game_id@) || blank(payload.host_user_id@) || blank(payload.game_name@)
            || blank(payload.user_id@)) ==> match relation {
            None => r matches RemoveStep::DeleteKeyAndLookUp(k) && k@ == user_game_key(
                payload.user_id@,
            ),
            Some(None) => r is UserMissing,
            Some(Some(rel)) => match deleted {
                None => r == RemoveStep::Delete { delete_game: rel.player_type@ == "host"@ },
                Some(true) => r is Done,
                Some(false) => r == RemoveStep::Fail(Error::GameNotFound),
            },
        },
{
    if is_blank(&payload.game_id) || is_blank(&payload.host_user_id) || is_blank(&payload.game_name)
        || is_blank(&payload.user_id) {
        return RemoveStep::Fail(Error::MissingParamsError);
    }
    match relation {
        None => RemoveStep::DeleteKeyAndLookUp(joined(&payload.user_id, REDIS_USER_GAME_KEY)),
        Some(None) => RemoveStep::UserMissing,
        Some(Some(rel)) => match deleted {
            None => {
                let host = String::from_str("host");
                RemoveStep::Delete { delete_game: rel.player_type.eq(&host) }
            },
            Some(true) => RemoveStep::Done,
            Some(false) => RemoveStep::Fail(Error::GameNotFound),
        },
    }
}

/// Every player of the list is ready: none has the status `not-ready`.
pub open spec fn all_ready(players: Seq<UserGameRelation>) -> bool {
    forall|i: int| 0 <= i < players.len() ==> (#[trigger] players[i]).player_status@ != "not-ready"@
}

/// Law: a list of players with one `not-ready` player, at any place in it, is not all ready;
/// and a list in which no player is `not-ready` is.
pub proof fn law_not_ready_player_blocks(players: Seq<UserGameRelation>, i: int)
    requires
        0 <= i < players.len(),
    ensures
        players[i].player_status@ == "not-ready"@ ==> !all_ready(players),
        (forall|j: int| 0 <= j < players.len() ==> (#[trigger] players[j]).player_status@ != "not-ready"@)
            ==> all_ready(players),
{
}

/// Starting a game needs the game and game name; the players must be fetched (`Some(None)`
/// when that failed), and a game with a player who is `not-ready` cannot start.
#[verifier::loop_isolation(false)]
pub fn start_game(payload: &StartGamePayload, players: Option<Option<Vec<UserGameRelation>>>) -> (r:
    Option<Result<(), Error>>)
    ensures
        blank(payload.game_id@) || blank(payload.game_name@) ==> r == Some(
            Err::<(), Error>(Error::MissingParamsError),
        ),
        !(blank(payload.game_id@) || blank(payload.game_name@)) ==> match players {
            None => r is None,
            Some(None) => r == Some(Err::<(), Error>(Error::ErrorWhileRetrievingPlayersStatus)),
            Some(Some(ps)) => if all_ready(ps@) {
                r == Some(Ok::<(), Error>(()))
            } else {
                r == Some(Err::<(), Error>(Error::NotAllPlayersHaveReadyStatus))
            },
        },
        !(blank(payload.game_id@) || blank(payload.game_name@)) ==> (players matches Some(Some(ps))
            ==> (forall|i: int| 0 <= i < ps@.len() ==> #[trigger] ps@[i].player_status@ != "not-ready"@)
            == (r == Some(Ok::<(), Error>(())))),
        players matches Some(Some(ps)) ==> forall|i: int|
            0 <= i < ps@.len() && #[trigger] ps@[i].player_status@ == "not-ready"@ ==> r != Some(
                Ok::<(), Error>(()),
            ),
{
    if is_blank(&payload.game_id) || is_blank(&payload.game_name) {
        return Some(Err(Error::MissingParamsError));
    }
    let ps = match players {
        None => return None,
        Some(None) => return Some(Err(Error::ErrorWhileRetrievingPlayersStatus)),
        Some(Some(p)) => p,
    };
    let not_ready = String::from_str("not-ready");
    let mut i: usize = 0;
    while i < ps.len()
        invariant
            i <= ps.len(),
            not_ready@ == "not-ready"@,
            forall|j: int| 0 <= j < i ==> (#[trigger] ps@[j]).player_status@ != "not-ready"@,
        decreases ps.len() - i,
    {
        if ps[i].player_status.eq(&not_ready) {
            return Some(Err(Error::NotAllPlayersHaveReadyStatus));
        }
        i = i + 1;
    }
    Some(Ok(()))
}

/// The turn order of a game: the game id must be given, the lookup must succeed (`None` when
/// it failed), and some turn order must exist; the first one is the answer.
pub fn get_user_turn_mappings(
    payload: &GetUserTurnMappingsPayload,
    fetched: Option<Vec<UserTurnMapping>>,
) -> (r: Result<UserTurnMapping, Error>)
    ensures
        blank(payload.game_id@) ==> (r matches Err(e) && e == Error::MissingParamsError),
        !blank(payload.game_id@) && fetched is None ==> (r matches Err(e) && e
            == Error::ErrorWhileFetchingUserTurns),
        !blank(payload.game_id@) && fetched is Some && fetched->0@.len() == 0 ==> (r matches Err(e)
            && e == Error::NoMappingFound),
        !blank(payload.game_id@) && fetched is Some && fetched->0@.len() > 0 ==> (r matches Ok(m)
            && m == fetched->0@[0]),
{
    if is_blank(&payload.game_id) {
        return Err(Error::MissingParamsError);
    }
    let mut maps = match fetched {
        None => return Err(Error::ErrorWhileFetchingUserTurns),
        Some(m) => m,
    };
    if maps.len() == 0 {
        return Err(Error::NoMappingFound);
    }
    Ok(maps.remove(0))
}


/// A friend's place in a game: the game, and the friend's username.
pub struct FriendGame {
    pub game_id: String,
    pub username: String,
}

/// A game that friends play, with their usernames.
pub struct GameGroup {
    pub game_id: String,
    pub usernames: Vec<String>,
}

/// A game that friends are playing, as the API shows it.
pub struct GetUsersOngoingGamesResponseModel {
    pub game_id: String,
    pub game_type: String,
    pub is_staked: bool,
    pub usernames_playing: Vec<String>,
}

/// The usernames of the friends in `rels` who play the game `g`, in order.
pub open spec fn members(rels: Seq<FriendGame>, g: Seq<char>) -> Seq<Seq<char>>
    decreases rels.len(),
{
    if rels.len() == 0 {
        seq![]
    } else {
        let m = members(rels.drop_last(), g);
        if rels.last().game_id@ == g {
            m.push(rels.last().username@)
        } else {
            m
        }
    }
}

/// The groups are exactly the games of `rels`, each once, each with the usernames of the
/// friends who play it.
pub open spec fn grouped(groups: Seq<GameGroup>, rels: Seq<FriendGame>) -> bool {
    &&& forall|a: int, b: int|
        0 <= a < b < groups.len() ==> (#[trigger] groups[a]).game_id@ != (#[trigger] groups[b]).game_id@
    &&& forall|a: int|
        0 <= a < groups.len() ==> exists|k: int|
            0 <= k < rels.len() && (#[trigger] rels[k]).game_id@ == (#[trigger] groups[a]).game_id@
    &&& forall|k: int|
        0 <= k < rels.len() ==> exists|a: int|
            0 <= a < groups.len() && (#[trigger] groups[a]).game_id@ == (#[trigger] rels[k]).game_id@
    &&& forall|a: int|
        0 <= a < groups.len() ==> (#[trigger] groups[a]).usernames.deep_view() == members(
            rels,
            groups[a].game_id@,
        )
}

/// A copy of a list of strings with one more at its end.
fn with_name(names: &Vec<String>, name: &String) -> (r: Vec<String>)
    ensures
        r.deep_view() == names.deep_view().push(name@),
{
    let mut r: Vec<String> = Vec::new();
    let mut i: usize = 0;
    while i < names.len()
        invariant
            i <= names.len(),
            r.deep_view() == names.deep_view().subrange(0, i as int),
        decreases names.len() - i,
    {
        let ghost before = r.deep_view();
        r.push(copy_string(&names[i]));
        assert(r.deep_view() =~= before.push(names[i as int]@));
        i = i + 1;
        assert(r.deep_view() =~= names.deep_view().subrange(0, i as int));
    }
    let ghost before = r.deep_view();
    r.push(copy_string(name));
    assert(r.deep_view() =~= before.push(name@));
    assert(names.deep_view().subrange(0, names.len() as int) =~= names.deep_view());
    r
}

/// Adds a friend's username to the group of its game, which exists.
#[verifier::rlimit(40)]
fn extend_group(
    groups: &mut Vec<GameGroup>,
    j: usize,
    rel: &FriendGame,
    Ghost(before): Ghost<Seq<FriendGame>>,
    Ghost(after): Ghost<Seq<FriendGame>>,
)
    requires
        grouped(old(groups)@, before),
        after.drop_last() == before,
        after.len() > 0,
        after.last() == *rel,
        j < old(groups)@.len(),
        old(groups)@[j as int].game_id@ == rel.game_id@,
    ensures
        grouped(final(groups)@, after),
{
    let ghost old_groups = groups@;
    let names = with_name(&groups[j].usernames, &rel.username);
    let gid = copy_string(&groups[j].game_id);
    proof {
        lemma_members_step(before, after, rel.game_id@);
    }
    groups.set(j, GameGroup { game_id: gid, usernames: names });
    proof {
        lemma_extend_grouped(old_groups, groups@, j as int, before, after);
    }
}

/// One more friend's place keeps a grouping exact when its group gets the username.
#[verifier::spinoff_prover]
proof fn lemma_extend_grouped(
    old_groups: Seq<GameGroup>,
    groups: Seq<GameGroup>,
    j: int,
    before: Seq<FriendGame>,
    after: Seq<FriendGame>,
)
    requires
        grouped(old_groups, before),
        after.drop_last() == before,
        after.len() > 0,
        0 <= j < old_groups.len(),
        old_groups[j].game_id@ == after.last().game_id@,
        groups.len() == old_groups.len(),
        forall|a: int| 0 <= a < groups.len() && a != j ==> groups[a] == old_groups[a],
        groups[j].game_id@ == old_groups[j].game_id@,
        groups[j].usernames.deep_view() == old_groups[j].usernames.deep_view().push(after.last().username@),
    ensures
        grouped(groups, after),
{
    assert forall|a: int| 0 <= a < groups.len() implies (#[trigger] groups[a]).game_id@
        == old_groups[a].game_id@ by {}
    assert forall|a: int| 0 <= a < groups.len() implies (#[trigger] groups[a]).usernames.deep_view()
        == members(after, groups[a].game_id@) by {
        lemma_members_step(before, after, groups[a].game_id@);
        if a != j {
            assert(groups[a] == old_groups[a]);
        }
    }
    assert forall|a: int| 0 <= a < groups.len() implies exists|k: int|
        0 <= k < after.len() && (#[trigger] after[k]).game_id@ == (#[trigger] groups[a]).game_id@ by {
        let k = choose|k: int| 0 <= k < before.len() && (#[trigger] before[k]).game_id@ == (#[trigger] old_groups[a]).game_id@;
        assert(after[k] == before[k]);
    }
    assert forall|k: int| 0 <= k < after.len() implies exists|a: int|
        0 <= a < groups.len() && (#[trigger] groups[a]).game_id@ == (#[trigger] after[k]).game_id@ by {
        if k < before.len() {
            assert(after[k] == before[k]);
            let a = choose|a: int| 0 <= a < old_groups.len() && (#[trigger] old_groups[a]).game_id@ == (#[trigger] before[k]).game_id@;
            assert(groups[a].game_id@ == old_groups[a].game_id@);
        } else {
            assert(groups[j].game_id@ == after[k].game_id@);
        }
    }
    assert forall|a: int, b: int| 0 <= a < b < groups.len() implies (#[trigger] groups[a]).game_id@
        != (#[trigger] groups[b]).game_id@ by {
        assert(groups[a].game_id@ == old_groups[a].game_id@);
        assert(groups[b].game_id@ == old_groups[b].game_id@);
    }
}

/// The members of a game after one more friend's place.
proof fn lemma_members_step(before: Seq<FriendGame>, after: Seq<FriendGame>, g: Seq<char>)
    requires
        after.drop_last() == before,
        after.len() > 0,
    ensures
        members(after, g) == (if after.last().game_id@ == g {
            members(before, g).push(after.last().username@)
        } else {
            members(before, g)
        }),
{
}

/// Opens a group for a friend's game, which has none yet.
#[verifier::rlimit(40)]
fn open_group(
    groups: &mut Vec<GameGroup>,
    rel: &FriendGame,
    Ghost(before): Ghost<Seq<FriendGame>>,
    Ghost(after): Ghost<Seq<FriendGame>>,
)
    requires
        grouped(old(groups)@, before),
        after.drop_last() == before,
        after.len() > 0,
        after.last() == *rel,
        forall|a: int| 0 <= a < old(groups)@.len() ==> (#[trigger] old(groups)@[a]).game_id@ != rel.game_id@,
    ensures
        grouped(final(groups)@, after),
{
    let ghost old_groups = groups@;
    let mut names: Vec<String> = Vec::new();
    names.push(copy_string(&rel.username));
    let gid = copy_string(&rel.game_id);
    assert forall|k: int| 0 <= k < before.len() implies (#[trigger] before[k]).game_id@ != rel.game_id@ by {
        let a = choose|a: int| 0 <= a < old_groups.len() && (#[trigger] old_groups[a]).game_id@ == (#[trigger] before[k]).game_id@;
    }
    proof {
        lemma_members_absent(before, rel.game_id@);
    }
    assert(names.deep_view() =~= seq![rel.username@]);
    groups.push(GameGroup { game_id: gid, usernames: names });
    let ghost n = old_groups.len() as int;
    assert forall|a: int| 0 <= a < groups@.len() implies (#[trigger] groups@[a]).usernames.deep_view()
        == members(after, groups@[a].game_id@) by {
        assert(members(after, groups@[a].game_id@) == (if after.last().game_id@ == groups@[a].game_id@ {
            members(before, groups@[a].game_id@).push(after.last().username@)
        } else {
            members(before, groups@[a].game_id@)
        }));
        if a < n {
            assert(groups@[a] == old_groups[a]);
        } else {
            assert(members(before, rel.game_id@) =~= Seq::<Seq<char>>::empty());
        }
    }
    assert forall|a: int| 0 <= a < groups@.len() implies exists|k: int|
        0 <= k < after.len() && (#[trigger] after[k]).game_id@ == (#[trigger] groups@[a]).game_id@ by {
        if a < n {
            assert(groups@[a] == old_groups[a]);
            let k = choose|k: int| 0 <= k < before.len() && (#[trigger] before[k]).game_id@ == (#[trigger] old_groups[a]).game_id@;
            assert(after[k] == before[k]);
        } else {
            assert(after[after.len() - 1].game_id@ == groups@[a].game_id@);
        }
    }
    assert forall|k: int| 0 <= k < after.len() implies exists|a: int|
        0 <= a < groups@.len() && (#[trigger] groups@[a]).game_id@ == (#[trigger] after[k]).game_id@ by {
        if k < before.len() {
            assert(after[k] == before[k]);
            let a = choose|a: int| 0 <= a < old_groups.len() && (#[trigger] old_groups[a]).game_id@ == (#[trigger] before[k]).game_id@;
            assert(groups@[a] == old_groups[a]);
        } else {
            assert(groups@[n].game_id@ == after[k].game_id@);
        }
    }
    assert forall|a: int, b: int| 0 <= a < b < groups@.len() implies (#[trigger] groups@[a]).game_id@
        != (#[trigger] groups@[b]).game_id@ by {
        assert(groups@[a] == old_groups[a]);
        if b < n {
            assert(groups@[b] == old_groups[b]);
        }
    }
}

/// The games that friends play, grouped: every game once, with the usernames of the friends
/// who play it in the order the friends were listed.
pub fn group_ongoing_games(rels: &Vec<FriendGame>) -> (r: Vec<GameGroup>)
    ensures
        grouped(r@, rels@),
{
    let mut groups: Vec<GameGroup> = Vec::new();
    let mut i: usize = 0;
    while i < rels.len()
        invariant
            i <= rels.len(),
            grouped(groups@, rels@.take(i as int)),
        decreases rels.len() - i,
    {
        let rel = &rels[i];
        let ghost before = rels@.take(i as int);
        let ghost after = rels@.take(i + 1);
        assert(after.drop_last() =~= before);
        assert(after.last() == rels@[i as int]);
        let mut j: usize = 0;
        let mut found = false;
        while j < groups.len()
            invariant_except_break
                !found,
                forall|a: int| 0 <= a < j ==> (#[trigger] groups@[a]).game_id@ != rel.game_id@,
            invariant
                j <= groups.len(),
            ensures
                !found ==> forall|a: int| 0 <= a < groups@.len() ==> (#[trigger] groups@[a]).game_id@ != rel.game_id@,
                found ==> j < groups.len() && groups@[j as int].game_id@ == rel.game_id@,
            decreases groups.len() - j + (if found { 0int } else { 1int }),
        {
            if groups[j].game_id.eq(&rel.game_id) {
                found = true;
                break;
            }
            j = j + 1;
        }
        if found {
            extend_group(&mut groups, j, rel, Ghost(before), Ghost(after));
        } else {
            open_group(&mut groups, rel, Ghost(before), Ghost(after));
        }
        i = i + 1;
    }
    assert(rels@.take(rels@.len() as int) =~= rels@);
    groups
}

/// A game that no friend of the list plays has no members.
proof fn lemma_members_absent(rels: Seq<FriendGame>, g: Seq<char>)
    requires
        forall|k: int| 0 <= k < rels.len() ==> (#[trigger] rels[k]).game_id@ != g,
    ensures
        members(rels, g) == Seq::<Seq<char>>::empty(),
    decreases rels.len(),
{
    if rels.len() > 0 {
        assert forall|k: int| 0 <= k < rels.drop_last().len() implies (#[trigger] rels.drop_last()[k]).game_id@ != g by {
            assert(rels.drop_last()[k] == rels[k]);
        }
        lemma_members_absent(rels.drop_last(), g);
        assert(rels.last().game_id@ != g);
    }
}

/// The games that an account's friends play: the account id must be given and the friends'
/// places must be looked up (`None` when that failed); the games come grouped.
pub fn get_ongoing_games_for_user(
    payload: &GetUsersOngoingGamesPayload,
    friend_games: Option<Vec<FriendGame>>,
) -> (r: Result<Vec<GameGroup>, Error>)
    ensures
        blank(payload.user_id@) ==> (r matches Err(e) && e == Error::MissingParamsError),
        !blank(payload.user_id@) && friend_games is None ==> (r matches Err(e) && e
            == Error::ErrorWhileFetchingUserFriends),
        !blank(payload.user_id@) && friend_games is Some ==> (r matches Ok(gs) && grouped(
            gs@,
            friend_games->0@,
        )),
{
    if is_blank(&payload.user_id) {
        return Err(Error::MissingParamsError);
    }
    match friend_games {
        None => Err(Error::ErrorWhileFetchingUserFriends),
        Some(rels) => Ok(group_ongoing_games(&rels)),
    }
}

/// The shown form of a group of friends and the game they play, given the stored game that
/// the group's id names.
pub fn ongoing_game_model(group: GameGroup, game: &Game) -> (r: GetUsersOngoingGamesResponseModel)
    requires
        game.id@ == group.game_id@,
    ensures
        r.game_id@ == group.game_id@,
        r.game_id@ == game.id@,
        r.game_type@ == game.game_type@,
        r.is_staked == game.is_staked,
        r.usernames_playing == group.usernames,
{
    GetUsersOngoingGamesResponseModel {
        game_id: copy_string(&game.id),
        game_type: copy_string(&game.game_type),
        is_staked: game.is_staked,
        usernames_playing: group.usernames,
    }
}

} // verus!
