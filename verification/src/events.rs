//! Events: what the API publishes to the message broker, what the realtime socket
//! broadcasts, and what the realtime (MQTT) broker receives.
use vstd::prelude::*;
use vstd::string::*;
use crate::accounts::copy_string;
use crate::constants::{
    FRIEND_REQUEST_EVENT, GAME_GENERAL_EVENT, GAME_INVITE_EVENT, MQTT_GAME_EVENTS,
    MQTT_USER_EVENTS, REDIS_USER_GAME_KEY, REDIS_USER_PLAYER_KEY, TOPIC_GAME,
    TOPIC_USER, TOPIC_USER_GAME_DELETION, TOPIC_USER_GAME_EVENTS, USER_GAME_MOVE,
    USER_JOINED_ROOM, USER_LEFT_ROOM, USER_ONLINE_EVENT, USER_STATUS_EVENT, VERIFYING_GAME_STATUS,
};
use crate::lobby::{joined, user_game_key, user_player_key};

verus! {

/// A message for the broker: its topic, payload and key.
pub struct KafkaGeneralEvent {
    pub topic: String,
    pub payload: String,
    pub key: String,
}

/// A stored event as the broker relay reads it.
pub struct Event {
    pub _id: String,
    pub topic: String,
    pub partition: i32,
    pub key: Vec<u8>,
    pub payload: Vec<u8>,
    pub event_name: String,
}

/// A page of stored events.
pub struct EventList {
    pub has_more: bool,
    pub events: Vec<Event>,
}

/// A move or event of a game, as the socket receives it.
pub struct GameEventPayload {
    pub user_id: String,
    pub game_event: String,
    pub event_type: String,
    pub game_id: String,
}

/// A player's ready status, as the socket receives it.
pub struct UserReadyEventPayload {
    pub user_id: String,
    pub username: String,
    pub game_id: String,
}

/// A move of a game, as the broker carries it.
pub struct UserGameMove {
    pub game_id: String,
    pub user_id: String,
    pub user_move: String,
    pub move_type: String,
}

/// The event that asks for an account's game records to be deleted.
pub struct UserGameDeletetionEvent {
    pub user_id: String,
}

/// The message for the event named `key` on `topic`.
pub open spec fn event_is(e: KafkaGeneralEvent, topic: Seq<char>, payload: Seq<char>, key: Seq<char>) -> bool {
    e.topic@ == topic && e.payload@ == payload && e.key@ == key
}

/// A message for the broker.
fn general_event(topic: &str, payload: String, key: &str) -> (r: KafkaGeneralEvent)
    ensures
        event_is(r, topic@, payload@, key@),
{
    KafkaGeneralEvent { topic: String::from_str(topic), payload, key: String::from_str(key) }
}

/// The message that announces a friend request: topic `user`, key `friend-request-event`.
pub fn create_friend_request_event(payload: String) -> (r: Vec<KafkaGeneralEvent>)
    ensures
        r@.len() == 1,
        event_is(r@[0], TOPIC_USER@, payload@, "friend-request-event"@),
{
    let mut v = Vec::new();
    v.push(general_event(TOPIC_USER, payload, "friend-request-event"));
    v
}

/// The message that announces a game invite: topic `user`, key `game-invite-event`.
pub fn create_game_invite_event(payload: String) -> (r: Vec<KafkaGeneralEvent>)
    ensures
        r@.len() == 1,
        event_is(r@[0], TOPIC_USER@, payload@, "game-invite-event"@),
{
    let mut v = Vec::new();
    v.push(general_event(TOPIC_USER, payload, "game-invite-event"));
    v
}

/// The messages that an account event is published as: friend requests and game invites
/// have one each; any other event name has none, and nothing is published.
pub fn send_event_for_user_topic(event_name: &String, payload: String) -> (r: Vec<KafkaGeneralEvent>)
    ensures
        event_name@ == FRIEND_REQUEST_EVENT@ ==> r@.len() == 1 && event_is(
            r@[0],
            TOPIC_USER@,
            payload@,
            "friend-request-event"@,
        ),
        event_name@ == GAME_INVITE_EVENT@ && event_name@ != FRIEND_REQUEST_EVENT@ ==> r@.len() == 1
            && event_is(r@[0], TOPIC_USER@, payload@, "game-invite-event"@),
        event_name@ != FRIEND_REQUEST_EVENT@ && event_name@ != GAME_INVITE_EVENT@ ==> r@.len() == 0,
{
    if event_name.eq(&String::from_str(FRIEND_REQUEST_EVENT)) {
        create_friend_request_event(payload)
    } else if event_name.eq(&String::from_str(GAME_INVITE_EVENT)) {
        create_game_invite_event(payload)
    } else {
        Vec::new()
    }
}

/// The message that carries a general game event: topic `game`, keyed by the event's name.
pub fn send_game_general_events(event_name: String, payload: String) -> (r: Vec<KafkaGeneralEvent>)
    ensures
        r@.len() == 1,
        r@[0].topic@ == TOPIC_GAME@ && r@[0].payload@ == payload@ && r@[0].key@ == event_name@,
{
    let mut v = Vec::new();
    v.push(KafkaGeneralEvent { topic: String::from_str(TOPIC_GAME), payload, key: event_name });
    v
}

/// The move that a game event of the socket stands for.
pub fn game_move_of(p: &GameEventPayload) -> (r: UserGameMove)
    ensures
        r.game_id@ == p.game_id@,
        r.user_id@ == p.user_id@,
        r.user_move@ == p.game_event@,
        r.move_type@ == p.event_type@,
{
    UserGameMove {
        game_id: copy_string(&p.game_id),
        user_id: copy_string(&p.user_id),
        user_move: copy_string(&p.game_event),
        move_type: copy_string(&p.event_type),
    }
}

/// The message that carries a game move, given the move's serialized form: topic
/// `user_game_events`, key `user-game-move`.
pub fn send_game_move_events(serialized_move: String) -> (r: Vec<KafkaGeneralEvent>)
    ensures
        r@.len() == 1,
        event_is(r@[0], TOPIC_USER_GAME_EVENTS@, serialized_move@, USER_GAME_MOVE@),
{
    let mut v = Vec::new();
    v.push(general_event(TOPIC_USER_GAME_EVENTS, serialized_move, USER_GAME_MOVE));
    v
}

/// The message that asks for an account's game records to be deleted, given the event's
/// serialized form: topic `user_game_deletion`, key `user-game-deletion-event`.
pub fn produce_user_game_deletion_kafka_event(serialized: String) -> (r: Vec<KafkaGeneralEvent>)
    ensures
        r@.len() == 1,
        event_is(r@[0], TOPIC_USER_GAME_DELETION@, serialized@, "user-game-deletion-event"@),
{
    let mut v = Vec::new();
    v.push(general_event(TOPIC_USER_GAME_DELETION, serialized, "user-game-deletion-event"));
    v
}

/// What the socket broadcasts to a game room when it receives an event: the event name of
/// the broadcast, or `None` for an event it does not relay. A player leaving makes the room
/// drop everyone when the player hosts the game.
pub open spec fn spec_broadcast_for(event: Seq<char>, player_type: Seq<char>) -> Option<Seq<char>> {
    if event == "joined-room"@ {
        Some("new-user-joined"@)
    } else if event == "leaved-room"@ {
        if player_type == "host"@ {
            Some("remove-all-users"@)
        } else {
            Some("user-left-room"@)
        }
    } else if event == "update-user-status-in-room"@ {
        Some("user-status-update"@)
    } else if event == "game-event"@ {
        Some("send-user-game-event"@)
    } else if event == "verifying-game-status"@ {
        Some("verifying-game"@)
    } else if event == "start-game-event"@ {
        Some("start-game-for-all"@)
    } else if event == "user-message-in-game"@ {
        Some("someone-sent-a-message"@)
    } else if event == "get-turn-mappings"@ {
        Some("fetch-user-turn-mappings"@)
    } else if event == "error-event"@ {
        Some("error-event-occured"@)
    } else {
        None
    }
}

/// Law: every game-room event that the socket handles is relayed to the room under its own
/// broadcast name, whatever the player type, except that a player leaving makes the room drop
/// everyone exactly when that player hosts the game; account events are not relayed.
pub proof fn law_room_events_relayed(player_type: Seq<char>)
    ensures
        spec_broadcast_for("joined-room"@, player_type) == Some("new-user-joined"@),
        spec_broadcast_for("leaved-room"@, player_type) == Some(
            if player_type == "host"@ { "remove-all-users"@ } else { "user-left-room"@ },
        ),
        spec_broadcast_for("update-user-status-in-room"@, player_type) == Some("user-status-update"@),
        spec_broadcast_for("game-event"@, player_type) == Some("send-user-game-event"@),
        spec_broadcast_for("verifying-game-status"@, player_type) == Some("verifying-game"@),
        spec_broadcast_for("start-game-event"@, player_type) == Some("start-game-for-all"@),
        spec_broadcast_for("user-message-in-game"@, player_type) == Some("someone-sent-a-message"@),
        spec_broadcast_for("get-turn-mappings"@, player_type) == Some("fetch-user-turn-mappings"@),
        spec_broadcast_for("error-event"@, player_type) == Some("error-event-occured"@),
        spec_broadcast_for("user-connection-event"@, player_type) is None,
{
    reveal_strlit("joined-room");
    reveal_strlit("leaved-room");
    reveal_strlit("update-user-status-in-room");
    reveal_strlit("game-event");
    reveal_strlit("verifying-game-status");
    reveal_strlit("start-game-event");
    reveal_strlit("user-message-in-game");
    reveal_strlit("get-turn-mappings");
    reveal_strlit("error-event");
    reveal_strlit("user-connection-event");
    assert("leaved-room"@[0] != "joined-room"@[0]);
    assert("update-user-status-in-room"@.len() != "joined-room"@.len());
    assert("update-user-status-in-room"@.len() != "leaved-room"@.len());
    assert("game-event"@.len() != "joined-room"@.len());
    assert("game-event"@.len() != "leaved-room"@.len());
    assert("game-event"@.len() != "update-user-status-in-room"@.len());
    assert("verifying-game-status"@.len() != "joined-room"@.len());
    assert("verifying-game-status"@.len() != "leaved-room"@.len());
    assert("verifying-game-status"@.len() != "update-user-status-in-room"@.len());
    assert("verifying-game-status"@.len() != "game-event"@.len());
    assert("start-game-event"@.len() != "joined-room"@.len());
    assert("start-game-event"@.len() != "leaved-room"@.len());
    assert("start-game-event"@.len() != "update-user-status-in-room"@.len());
    assert("start-game-event"@.len() != "game-event"@.len());
    assert("start-game-event"@.len() != "verifying-game-status"@.len());
    assert("user-message-in-game"@.len() != "joined-room"@.len());
    assert("user-message-in-game"@.len() != "leaved-room"@.len());
    assert("user-message-in-game"@.len() != "update-user-status-in-room"@.len());
    assert("user-message-in-game"@.len() != "game-event"@.len());
    assert("user-message-in-game"@.len() != "verifying-game-status"@.len());
    assert("user-message-in-game"@.len() != "start-game-event"@.len());
    assert("get-turn-mappings"@.len() != "joined-room"@.len());
    assert("get-turn-mappings"@.len() != "leaved-room"@.len());
    assert("get-turn-mappings"@.len() != "update-user-status-in-room"@.len());
    assert("get-turn-mappings"@.len() != "game-event"@.len());
    assert("get-turn-mappings"@.len() != "verifying-game-status"@.len());
    assert("get-turn-mappings"@.len() != "start-game-event"@.len());
    assert("get-turn-mappings"@.len() != "user-message-in-game"@.len());
    assert("error-event"@[0] != "joined-room"@[0]);
    assert("error-event"@[0] != "leaved-room"@[0]);
    assert("error-event"@.len() != "update-user-status-in-room"@.len());
    assert("error-event"@.len() != "game-event"@.len());
    assert("error-event"@.len() != "verifying-game-status"@.len());
    assert("error-event"@.len() != "start-game-event"@.len());
    assert("error-event"@.len() != "user-message-in-game"@.len());
    assert("error-event"@.len() != "get-turn-mappings"@.len());
    assert("user-connection-event"@.len() != "joined-room"@.len());
    assert("user-connection-event"@.len() != "leaved-room"@.len());
    assert("user-connection-event"@.len() != "update-user-status-in-room"@.len());
    assert("user-connection-event"@.len() != "game-event"@.len());
    assert("user-connection-event"@[0] != "verifying-game-status"@[0]);
    assert("user-connection-event"@.len() != "start-game-event"@.len());
    assert("user-connection-event"@.len() != "user-message-in-game"@.len());
    assert("user-connection-event"@.len() != "get-turn-mappings"@.len());
    assert("user-connection-event"@.len() != "error-event"@.len());
    reveal_strlit("host");
}

/// Whether a string equals a literal.
fn is_text(s: &String, lit: &str) -> (r: bool)
    ensures
        r == (s@ == lit@),
{
    s.eq(&String::from_str(lit))
}

/// The event name that the socket broadcasts to the game room for a received event.
pub fn broadcast_for(event: &String, player_type: &String) -> (r: Option<String>)
    ensures
        match r {
            Some(s) => spec_broadcast_for(event@, player_type@) == Some(s@),
            None => spec_broadcast_for(event@, player_type@) is None,
        },
{
    if is_text(event, "joined-room") {
        Some(String::from_str("new-user-joined"))
    } else if is_text(event, "leaved-room") {
        if is_text(player_type, "host") {
            Some(String::from_str("remove-all-users"))
        } else {
            Some(String::from_str("user-left-room"))
        }
    } else if is_text(event, "update-user-status-in-room") {
        Some(String::from_str("user-status-update"))
    } else if is_text(event, "game-event") {
        Some(String::from_str("send-user-game-event"))
    } else if is_text(event, "verifying-game-status") {
        Some(String::from_str("verifying-game"))
    } else if is_text(event, "start-game-event") {
        Some(String::from_str("start-game-for-all"))
    } else if is_text(event, "user-message-in-game") {
        Some(String::from_str("someone-sent-a-message"))
    } else if is_text(event, "get-turn-mappings") {
        Some(String::from_str("fetch-user-turn-mappings"))
    } else if is_text(event, "error-event") {
        Some(String::from_str("error-event-occured"))
    } else {
        None
    }
}

/// The event name under which a received socket event is published to the account topic;
/// `None` for an event that is not published that way (a game move goes to the game topics).
pub open spec fn spec_published_event_for(event: Seq<char>) -> Option<Seq<char>> {
    if event == "user-connection-event"@ {
        Some(USER_ONLINE_EVENT@)
    } else if event == "joined-room"@ {
        Some(USER_JOINED_ROOM@)
    } else if event == "leaved-room"@ {
        Some(USER_LEFT_ROOM@)
    } else if event == "update-user-status-in-room"@ {
        Some(USER_STATUS_EVENT@)
    } else if event == "verifying-game-status"@ {
        Some(VERIFYING_GAME_STATUS@)
    } else {
        None
    }
}

/// Law: a connecting account is published as coming online, joining and leaving a room and
/// a status change as themselves, and a game status check as such; game moves and the other
/// room events are not published to the account topic.
pub proof fn law_published_events()
    ensures
        spec_published_event_for("user-connection-event"@) == Some("user-online-event"@),
        spec_published_event_for("joined-room"@) == Some("user-joined-room"@),
        spec_published_event_for("leaved-room"@) == Some("user-left-room"@),
        spec_published_event_for("update-user-status-in-room"@) == Some("user-status-event"@),
        spec_published_event_for("verifying-game-status"@) == Some("verifying-game-status"@),
        spec_published_event_for("game-event"@) is None,
        spec_published_event_for("start-game-event"@) is None,
{
    reveal_strlit("user-connection-event");
    reveal_strlit("joined-room");
    reveal_strlit("leaved-room");
    reveal_strlit("update-user-status-in-room");
    reveal_strlit("verifying-game-status");
    reveal_strlit("game-event");
    reveal_strlit("start-game-event");
    assert("joined-room"@.len() != "user-connection-event"@.len());
    assert("leaved-room"@.len() != "user-connection-event"@.len());
    assert("leaved-room"@[0] != "joined-room"@[0]);
    assert("update-user-status-in-room"@.len() != "user-connection-event"@.len());
    assert("update-user-status-in-room"@.len() != "joined-room"@.len());
    assert("update-user-status-in-room"@.len() != "leaved-room"@.len());
    assert("verifying-game-status"@[0] != "user-connection-event"@[0]);
    assert("verifying-game-status"@.len() != "joined-room"@.len());
    assert("verifying-game-status"@.len() != "leaved-room"@.len());
    assert("verifying-game-status"@.len() != "update-user-status-in-room"@.len());
    assert("game-event"@.len() != "user-connection-event"@.len());
    assert("game-event"@.len() != "joined-room"@.len());
    assert("game-event"@.len() != "leaved-room"@.len());
    assert("game-event"@.len() != "update-user-status-in-room"@.len());
    assert("game-event"@.len() != "verifying-game-status"@.len());
    assert("start-game-event"@.len() != "user-connection-event"@.len());
    assert("start-game-event"@.len() != "joined-room"@.len());
    assert("start-game-event"@.len() != "leaved-room"@.len());
    assert("start-game-event"@.len() != "update-user-status-in-room"@.len());
    assert("start-game-event"@.len() != "verifying-game-status"@.len());
}

/// The event name under which a received socket event is published to the account topic.
pub fn published_event_for(event: &String) -> (r: Option<String>)
    ensures
        match r {
            Some(s) => spec_published_event_for(event@) == Some(s@),
            None => spec_published_event_for(event@) is None,
        },
{
    if is_text(event, "user-connection-event") {
        Some(String::from_str(USER_ONLINE_EVENT))
    } else if is_text(event, "joined-room") {
        Some(String::from_str(USER_JOINED_ROOM))
    } else if is_text(event, "leaved-room") {
        Some(String::from_str(USER_LEFT_ROOM))
    } else if is_text(event, "update-user-status-in-room") {
        Some(String::from_str(USER_STATUS_EVENT))
    } else if is_text(event, "verifying-game-status") {
        Some(String::from_str(VERIFYING_GAME_STATUS))
    } else {
        None
    }
}

/// The keys that a connecting account's socket stores: the account is marked `online`, and
/// the socket id leads to the account.
pub fn connection_keys(socket_id: &String, user_id: &String) -> (r: Vec<(String, String)>)
    ensures
        r@.len() == 2,
        r@[0].0@ == user_id@ && r@[0].1@ == "online"@,
        r@[1].0@ == socket_id@ && r@[1].1@ == user_id@,
{
    let mut v: Vec<(String, String)> = Vec::new();
    v.push((copy_string(user_id), String::from_str("online")));
    v.push((copy_string(socket_id), copy_string(user_id)));
    v
}

/// The value that a key read gives the socket handlers: the stored value, or `nil` when
/// the read failed.
pub fn key_value_or_nil(read: Option<String>) -> (r: String)
    ensures
        match read {
            Some(v) => r@ == v@,
            None => r@ == "nil"@,
        },
{
    match read {
        Some(v) => v,
        None => String::from_str("nil"),
    }
}

/// What happens when a socket disconnects.
pub struct DisconnectPlan {
    /// Tell the game room to drop everyone.
    pub broadcast_remove_all: bool,
    /// The keys to delete.
    pub keys_to_delete: Vec<String>,
    /// Leave the game room and ask for the account's game records to be deleted.
    pub leave_game: bool,
}

/// Plans a disconnect from what the store holds: the socket's account (`nil` when the
/// lookup failed), that account's game and its player type. A host's room is told to drop
/// everyone; the account's online, game and player keys and the socket's key are deleted;
/// an account that is in a game leaves it and its game records are deleted.
pub fn disconnect_plan(socket_id: &String, user_id: &String, game_id: &String, user_type: &String) -> (r:
    DisconnectPlan)
    ensures
        r.broadcast_remove_all == (user_type@ == "host"@),
        r.keys_to_delete.deep_view() == seq![
            user_id@,
            user_game_key(user_id@),
            user_player_key(user_id@),
            socket_id@,
        ],
        r.leave_game == (game_id@ != "nil"@ && game_id@ != ""@),
{
    let mut keys: Vec<String> = Vec::new();
    keys.push(copy_string(user_id));
    keys.push(joined(user_id, REDIS_USER_GAME_KEY));
    keys.push(joined(user_id, REDIS_USER_PLAYER_KEY));
    keys.push(copy_string(socket_id));
    assert(keys.deep_view() =~= seq![
        user_id@,
        user_game_key(user_id@),
        user_player_key(user_id@),
        socket_id@,
    ]);
    DisconnectPlan {
        broadcast_remove_all: is_text(user_type, "host"),
        keys_to_delete: keys,
        leave_game: !is_text(game_id, "nil") && !is_text(game_id, ""),
    }
}

/// A message of the realtime broker: an event's name and its payload.
pub struct MQTTEventModel {
    pub event_name: String,
    pub payload: String,
}

/// The kinds of event that the realtime broker relays.
#[derive(Clone, Copy, Debug, PartialEq, Eq, Structural)]
pub enum MqttEventKind {
    UserOnline,
    UserJoinedRoom,
    UserLeftRoom,
    FriendRequest,
    GameInvite,
    GameMove,
    GameGeneral,
}

/// A message for the realtime broker, with its topic and quality of service.
pub struct MqttMessage {
    pub topic: String,
    pub qos: i32,
    pub model: MQTTEventModel,
}

/// Account events go to the account's topic at quality 0; room and game events go to the
/// game's topic at quality 1.
pub open spec fn mqtt_route(kind: MqttEventKind) -> (Seq<char>, i32, Seq<char>) {
    match kind {
        MqttEventKind::UserOnline => (MQTT_USER_EVENTS@, 0, USER_ONLINE_EVENT@),
        MqttEventKind::UserJoinedRoom => (MQTT_GAME_EVENTS@, 1, USER_JOINED_ROOM@),
        MqttEventKind::UserLeftRoom => (MQTT_GAME_EVENTS@, 1, USER_LEFT_ROOM@),
        MqttEventKind::FriendRequest => (MQTT_USER_EVENTS@, 0, FRIEND_REQUEST_EVENT@),
        MqttEventKind::GameInvite => (MQTT_USER_EVENTS@, 0, GAME_INVITE_EVENT@),
        MqttEventKind::GameMove => (MQTT_GAME_EVENTS@, 1, USER_GAME_MOVE@),
        MqttEventKind::GameGeneral => (MQTT_GAME_EVENTS@, 1, GAME_GENERAL_EVENT@),
    }
}

/// Law: events meant for one account (coming online, a friend request, a game invite) go to
/// that account's topic `user/` at quality 0, and events of a game room (joining, leaving, a
/// move, a general game event) go to the game's topic `game/` at quality 1; each carries its
/// own event name.
pub proof fn law_mqtt_routes(kind: MqttEventKind)
    ensures
        (kind is UserOnline || kind is FriendRequest || kind is GameInvite) ==> mqtt_route(kind).0
            == "user/"@ && mqtt_route(kind).1 == 0,
        (kind is UserJoinedRoom || kind is UserLeftRoom || kind is GameMove || kind is GameGeneral)
            ==> mqtt_route(kind).0 == "game/"@ && mqtt_route(kind).1 == 1,
        kind is UserOnline ==> mqtt_route(kind).2 == "user-online-event"@,
        kind is FriendRequest ==> mqtt_route(kind).2 == "friend-request-event"@,
        kind is GameInvite ==> mqtt_route(kind).2 == "game-invite-event"@,
        kind is UserJoinedRoom ==> mqtt_route(kind).2 == "user-joined-room"@,
        kind is UserLeftRoom ==> mqtt_route(kind).2 == "user-left-room"@,
        kind is GameMove ==> mqtt_route(kind).2 == "user-game-move"@,
        kind is GameGeneral ==> mqtt_route(kind).2 == "game-general-event"@,
{
}

/// The realtime message for an event: the topic is the kind's prefix followed by the id
/// that the payload names (the receiving account, or the game), and the message wraps the
/// payload with the kind's event name.
pub fn mqtt_message(kind: MqttEventKind, target_id: &String, payload: String) -> (r: MqttMessage)
    ensures
        r.topic@ == mqtt_route(kind).0 + target_id@,
        r.qos == mqtt_route(kind).1,
        r.model.event_name@ == mqtt_route(kind).2,
        r.model.payload@ == payload@,
        (kind is UserOnline || kind is FriendRequest || kind is GameInvite) ==> r.topic@ == "user/"@
            + target_id@ && r.qos == 0,
        (kind is UserJoinedRoom || kind is UserLeftRoom || kind is GameMove || kind is GameGeneral)
            ==> r.topic@ == "game/"@ + target_id@ && r.qos == 1,
{
    let (prefix, qos, name) = match kind {
        MqttEventKind::UserOnline => (MQTT_USER_EVENTS, 0, USER_ONLINE_EVENT),
        MqttEventKind::UserJoinedRoom => (MQTT_GAME_EVENTS, 1, USER_JOINED_ROOM),
        MqttEventKind::UserLeftRoom => (MQTT_GAME_EVENTS, 1, USER_LEFT_ROOM),
        MqttEventKind::FriendRequest => (MQTT_USER_EVENTS, 0, FRIEND_REQUEST_EVENT),
        MqttEventKind::GameInvite => (MQTT_USER_EVENTS, 0, GAME_INVITE_EVENT),
        MqttEventKind::GameMove => (MQTT_GAME_EVENTS, 1, USER_GAME_MOVE),
        MqttEventKind::GameGeneral => (MQTT_GAME_EVENTS, 1, GAME_GENERAL_EVENT),
    };
    MqttMessage {
        topic: String::from_str(prefix).concat(target_id.as_str()),
        qos,
        model: MQTTEventModel { event_name: String::from_str(name), payload },
    }
}

} // verus!
