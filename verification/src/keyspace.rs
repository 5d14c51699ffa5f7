//! Expired-key notifications: recognizing the key that expired, and finding the key that
//! holds the data of the event it stands for.
use vstd::prelude::*;
use vstd::string::*;
use crate::constants::{
    EXECUTOR_GAME_STAKE_TIME_OVER_EVENT, GAME_STAKE_TIME_OVER, GAME_STAKE_TIME_OVER_DATA,
    GENERATE_GAME_BET_EVENTS, SETTLE_BET_KEY, SETTLE_BET_KEY_DATA,
};
use crate::events::KafkaGeneralEvent;
use crate::text::{
    contains_str, has_substring, join_chars, join_with, lemma_chars_deep_view, split_on,
    split_on_char, split_on_rest, str_chars, string_from_chars,
};

verus! {

/// The kinds of expired key that start work.
#[derive(Clone, Copy, Debug, PartialEq, Eq, Structural)]
pub enum KeyspaceKind {
    /// The settlement of a game's bets is due.
    SettleBet,
    /// The staking time of a game is over.
    StakeTimeOver,
}

/// The kind of a notification channel: settlement first, then the end of staking.
pub open spec fn spec_channel_kind(channel: Seq<char>) -> Option<KeyspaceKind> {
    if has_substring(channel, SETTLE_BET_KEY@) {
        Some(KeyspaceKind::SettleBet)
    } else if has_substring(channel, GAME_STAKE_TIME_OVER@) {
        Some(KeyspaceKind::StakeTimeOver)
    } else {
        None
    }
}

/// Law: a channel naming a settlement key (`settlebet_`) is a settlement; one naming a
/// staking key (`stakeover_`) and no settlement key is the end of staking; one naming
/// neither starts nothing.
pub proof fn law_channel_kinds(channel: Seq<char>)
    ensures
        has_substring(channel, "settlebet_"@) ==> spec_channel_kind(channel) == Some(KeyspaceKind::SettleBet),
        !has_substring(channel, "settlebet_"@) && has_substring(channel, "stakeover_"@)
            ==> spec_channel_kind(channel) == Some(KeyspaceKind::StakeTimeOver),
        !has_substring(channel, "settlebet_"@) && !has_substring(channel, "stakeover_"@)
            ==> spec_channel_kind(channel) is None,
{
}

/// The kind of the key that a notification channel names.
pub fn channel_kind(channel: &String) -> (r: Option<KeyspaceKind>)
    ensures
        r == spec_channel_kind(channel@),
{
    if contains_str(channel.as_str(), SETTLE_BET_KEY) {
        Some(KeyspaceKind::SettleBet)
    } else if contains_str(channel.as_str(), GAME_STAKE_TIME_OVER) {
        Some(KeyspaceKind::StakeTimeOver)
    } else {
        None
    }
}

/// The id that a notification names: take what follows the channel's last `:`, and keep
/// what follows its first `_`; `None` when it holds no `_`.
pub open spec fn spec_key_id(channel: Seq<char>) -> Option<Seq<char>> {
    let last = split_on(channel, ':').last();
    let parts = split_on(last, '_');
    if parts.len() > 1 {
        Some(join_with(parts.skip(1), '_'))
    } else {
        None
    }
}

/// The key that holds the data of the event a notification stands for: the kind's data
/// prefix followed by the notification's id.
pub open spec fn spec_payload_key(kind: KeyspaceKind, channel: Seq<char>) -> Option<Seq<char>> {
    match spec_key_id(channel) {
        Some(id) => Some(
            match kind {
                KeyspaceKind::SettleBet => SETTLE_BET_KEY_DATA@,
                KeyspaceKind::StakeTimeOver => GAME_STAKE_TIME_OVER_DATA@,
            } + id,
        ),
        None => None,
    }
}

/// The pieces of a split are never none.
proof fn lemma_split_nonempty(rest: Seq<char>, sep: char, cur: Seq<char>, acc: Seq<Seq<char>>)
    ensures
        split_on_rest(rest, sep, cur, acc).len() > acc.len(),
    decreases rest.len(),
{
    if rest.len() > 0 {
        if rest[0] == sep {
            lemma_split_nonempty(rest.drop_first(), sep, seq![], acc.push(cur));
        } else {
            lemma_split_nonempty(rest.drop_first(), sep, cur.push(rest[0]), acc);
        }
    }
}

/// The key that holds the data of the event a notification stands for; `None` when the
/// notification names no id.
pub fn redis_payload_key(kind: KeyspaceKind, channel: &String) -> (r: Option<String>)
    ensures
        match r {
            Some(k) => spec_payload_key(kind, channel@) == Some(k@),
            None => spec_payload_key(kind, channel@) is None,
        },
{
    let chars = str_chars(channel.as_str());
    let pieces = split_on_char(&chars, ':');
    proof {
        lemma_split_nonempty(chars@, ':', seq![], seq![]);
    }
    let last_index = pieces.len() - 1;
    proof {
        lemma_chars_deep_view(pieces[last_index as int]);
    }
    let parts = split_on_char(&pieces[last_index], '_');
    if parts.len() <= 1 {
        return None;
    }
    let id = join_chars(&parts, 1, '_');
    let prefix = match kind {
        KeyspaceKind::SettleBet => SETTLE_BET_KEY_DATA,
        KeyspaceKind::StakeTimeOver => GAME_STAKE_TIME_OVER_DATA,
    };
    let r = String::from_str(prefix).concat(string_from_chars(&id).as_str());
    Some(r)
}

/// The messages that ask for a game's bets to be settled, one per payload: topic
/// `generate_game_bet_events`, key `generate_game_bet_event`.
pub fn publish_game_bet_events_for_settlement(payloads: Vec<String>) -> (r: Vec<KafkaGeneralEvent>)
    ensures
        r@.len() == payloads@.len(),
        forall|i: int|
            0 <= i < r@.len() ==> (#[trigger] r@[i]).topic@ == GENERATE_GAME_BET_EVENTS@
                && r@[i].payload@ == payloads@[i]@ && r@[i].key@ == "generate_game_bet_event"@,
{
    events_for(payloads, GENERATE_GAME_BET_EVENTS, "generate_game_bet_event")
}

/// The messages that tell the executors a game's staking time is over, one per payload:
/// topic `executor_game_stake_time_over_event`, key `executor_game_stake_time_over`.
pub fn publish_game_stake_time_over_event(payloads: Vec<String>) -> (r: Vec<KafkaGeneralEvent>)
    ensures
        r@.len() == payloads@.len(),
        forall|i: int|
            0 <= i < r@.len() ==> (#[trigger] r@[i]).topic@ == EXECUTOR_GAME_STAKE_TIME_OVER_EVENT@
                && r@[i].payload@ == payloads@[i]@ && r@[i].key@ == "executor_game_stake_time_over"@,
{
    events_for(payloads, EXECUTOR_GAME_STAKE_TIME_OVER_EVENT, "executor_game_stake_time_over")
}

/// One message per payload, all on `topic` with `key`.
pub fn events_for(payloads: Vec<String>, topic: &str, key: &str) -> (r: Vec<KafkaGeneralEvent>)
    ensures
        r@.len() == payloads@.len(),
        forall|i: int|
            0 <= i < r@.len() ==> (#[trigger] r@[i]).topic@ == topic@ && r@[i].payload@
                == payloads@[i]@ && r@[i].key@ == key@,
{
    let mut out: Vec<KafkaGeneralEvent> = Vec::new();
    let mut i: usize = 0;
    while i < payloads.len()
        invariant
            i <= payloads@.len(),
            out@.len() == i,
            forall|k: int|
                0 <= k < i ==> (#[trigger] out@[k]).topic@ == topic@ && out@[k].payload@
                    == payloads@[k]@ && out@[k].key@ == key@,
        decreases payloads@.len() - i,
    {
        out.push(
            KafkaGeneralEvent {
                topic: String::from_str(topic),
                payload: crate::accounts::copy_string(&payloads[i]),
                key: String::from_str(key),
            },
        );
        i = i + 1;
    }
    out
}

} // verus!
