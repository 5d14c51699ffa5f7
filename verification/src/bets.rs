//! Bets on games: recording them, settling them once a game is over, and the keys whose
//! expiry drives the settlement.
use vstd::prelude::*;
use vstd::string::*;
use vstd::utf8::{encode_utf8, valid_utf8};
use crate::accounts::{blank, copy_string, is_blank, same_string};
use crate::bet_error::Error;
use crate::constants::{
    GAME_BET_SETTLED, GAME_BET_SETTLED_ERROR, GAME_OVER_EVENT, GENERATE_GAME_BET_EVENTS,
    SETTLE_BET_KEY, SETTLE_BET_KEY_DATA, START_GAME_SETTLE_EVENT,
};
use crate::events::KafkaGeneralEvent;
use crate::ids::new_uuid;
use crate::keyspace::{events_for, spec_channel_kind, spec_key_id, spec_payload_key, KeyspaceKind};
use crate::secrets::{
    decrypt_user_wallet, hash_user_wallet_key, wallet_cipher, wallet_decryption,
};
use crate::text::{
    has_substring, lemma_join_split, lemma_split_acc, lemma_split_last, lemma_split_on_word,
    split_on, split_on_rest,
};

verus! {

/// Where a bet stands.
#[derive(Clone, Copy, Debug, PartialEq, Eq, Structural)]
pub enum GameBetStatus {
    InProgress,
    ToSettle,
    Settled,
}

/// The stored name of a bet status.
pub open spec fn status_text(s: GameBetStatus) -> Seq<char> {
    match s {
        GameBetStatus::InProgress => "InProgress"@,
        GameBetStatus::ToSettle => "ToSettle"@,
        GameBetStatus::Settled => "Settled"@,
    }
}

impl GameBetStatus {
    /// The stored name of the status.
    pub fn to_text(&self) -> (r: String)
        ensures
            r@ == status_text(*self),
    {
        match self {
            GameBetStatus::InProgress => String::from_str("InProgress"),
            GameBetStatus::ToSettle => String::from_str("ToSettle"),
            GameBetStatus::Settled => String::from_str("Settled"),
        }
    }
}

/// A bet as the store holds it (its amount is kept by the store alone).
pub struct GameBet {
    pub id: String,
    pub user_id: String,
    pub game_id: String,
    pub user_id_betting_on: String,
    pub session_id: String,
    pub game_name: String,
    pub encrypted_wallet: String,
    pub status: String,
}

/// The request to settle the bets of a game session.
pub struct GenerateGameBetSettleEvents {
    pub game_id: String,
    pub session_id: String,
    pub winner_id: String,
    pub is_game_valid: bool,
}

/// What the settlement of one bet needs.
pub struct GameBetSettleKafkaPayload {
    pub game_id: String,
    pub session_id: String,
    pub winner_id: String,
    pub user_id: String,
    pub user_betting_on: String,
    pub record_id: String,
    pub user_wallet_key: String,
    pub is_valid: bool,
}

/// What is kept to retry a settlement.
pub struct GameSettleBetErrorRedisPayload {
    pub game_id: String,
    pub session_id: String,
    pub winner_id: String,
    pub is_game_valid: bool,
}

/// The end of a game.
pub struct GameOverEvent {
    pub game_id: String,
    pub session_id: String,
    pub winner_id: String,
    pub is_game_valid: bool,
}

/// The outcome of settling one bet.
pub struct GameUserBetSettleEvent {
    pub game_id: String,
    pub user_id: String,
    pub session_id: String,
    pub winner_id: String,
    pub is_game_valid: bool,
}

/// The parameters of a request for an account's bets.
pub struct UserGetBetCallParams {
    pub user_id: String,
    pub wallet_key: String,
    pub page: u64,
}

/// The answer of the health method of the chain's RPC node.
pub struct GetHealthNodeResponseJson {
    pub jsonrpc: String,
    pub result: Option<String>,
    pub error: Option<String>,
    pub id: u64,
}

/// The key whose expiry starts the settlement of a game session's bets.
pub open spec fn spec_settle_key(game_id: Seq<char>, session_id: Seq<char>) -> Seq<char> {
    SETTLE_BET_KEY@ + game_id + "_"@ + session_id
}

/// The key whose expiry starts the settlement of a game session's bets.
pub fn settle_key(game_id: &String, session_id: &String) -> (r: String)
    ensures
        r@ == spec_settle_key(game_id@, session_id@),
{
    String::from_str(SETTLE_BET_KEY).concat(game_id.as_str()).concat("_").concat(session_id.as_str())
}

/// A settlement record to keep, and for how long.
pub struct SettleRecord {
    pub key: String,
    pub payload: GameSettleBetErrorRedisPayload,
    pub expiry_seconds: u64,
}

/// The record that (re)starts the settlement of a game session once it expires.
pub open spec fn settle_record_is(
    r: SettleRecord,
    game_id: Seq<char>,
    session_id: Seq<char>,
    winner_id: Seq<char>,
    valid: bool,
    expiry: u64,
) -> bool {
    &&& r.key@ == spec_settle_key(game_id, session_id)
    &&& r.payload.game_id@ == game_id && r.payload.session_id@ == session_id
    &&& r.payload.winner_id@ == winner_id && r.payload.is_game_valid == valid
    &&& r.expiry_seconds == expiry
}

/// The record that (re)starts the settlement of a game session after `expiry` seconds.
pub fn settle_record(
    game_id: &String,
    session_id: &String,
    winner_id: &String,
    valid: bool,
    expiry: u64,
) -> (r: SettleRecord)
    ensures
        settle_record_is(r, game_id@, session_id@, winner_id@, valid, expiry),
{
    SettleRecord {
        key: settle_key(game_id, session_id),
        payload: GameSettleBetErrorRedisPayload {
            game_id: copy_string(game_id),
            session_id: copy_string(session_id),
            winner_id: copy_string(winner_id),
            is_game_valid: valid,
        },
        expiry_seconds: expiry,
    }
}

/// Whether the chain's RPC node is healthy: the request went through, its answer parsed,
/// and the answer carries no error.
pub fn get_solana_rpc_node_health(sent: bool, answer: Option<GetHealthNodeResponseJson>) -> (r: bool)
    ensures
        r == (sent && answer is Some && answer->0.error is None),
{
    if !sent {
        return false;
    }
    match answer {
        None => false,
        Some(a) => a.error.is_none(),
    }
}

/// The most bets that one settlement round takes.
pub const SETTLE_BATCH: u64 = 2000;

/// The next step of settling a game session's bets.
pub enum GenerateStep {
    /// Fetch up to `limit` bets of the session that are in progress.
    FetchBets { game_id: String, session_id: String, status: String, limit: u64 },
    /// Mark these bets as to be settled, publish one settlement per bet, and keep the
    /// record that retries the settlement.
    Settle {
        record_ids: Vec<String>,
        status: String,
        payloads: Vec<GameBetSettleKafkaPayload>,
        retry: SettleRecord,
    },
    /// Keep the record that retries the settlement later.
    Retry(SettleRecord),
    /// Nothing to do.
    Nothing,
    /// A stored wallet does not decrypt.
    BadWallet,
}

/// A stored wallet text can be decrypted: it holds at least the nonce.
pub open spec fn wallet_decryptable(s: Seq<char>) -> bool {
    encode_utf8(s).len() >= 12 && wallet_decryption(s) is Some
}

/// The settlement of one bet, given the decrypted wallet key.
pub open spec fn settles(p: GameBetSettleKafkaPayload, bet: GameBet, ev: GenerateGameBetSettleEvents) -> bool {
    &&& p.game_id@ == bet.game_id@ && p.session_id@ == bet.session_id@
    &&& p.winner_id@ == ev.winner_id@ && p.user_id@ == bet.user_id@
    &&& p.user_betting_on@ == bet.user_id_betting_on@ && p.record_id@ == bet.id@
    &&& wallet_decryption(bet.encrypted_wallet@) == Some(p.user_wallet_key@)
    &&& p.is_valid == ev.is_game_valid
}

/// The settlements of a list of bets, or `None` when a wallet does not decrypt.
fn settlements(bets: &Vec<GameBet>, ev: &GenerateGameBetSettleEvents) -> (r: Option<(Vec<String>, Vec<GameBetSettleKafkaPayload>)>)
    ensures
        match r {
            Some((ids, ps)) => {
                &&& ids@.len() == bets@.len() && ps@.len() == bets@.len()
                &&& forall|i: int| 0 <= i < bets@.len() ==> (#[trigger] ids@[i])@ == bets@[i].id@ && settles(ps@[i], bets@[i], *ev)
                &&& forall|i: int| 0 <= i < bets@.len() ==> wallet_decryptable(#[trigger] bets@[i].encrypted_wallet@)
            },
            None => exists|i: int| 0 <= i < bets@.len() && !wallet_decryptable(#[trigger] bets@[i].encrypted_wallet@),
        },
{
    let mut ids: Vec<String> = Vec::new();
    let mut ps: Vec<GameBetSettleKafkaPayload> = Vec::new();
    let mut i: usize = 0;
    while i < bets.len()
        invariant
            i <= bets@.len(),
            ids@.len() == i && ps@.len() == i,
            forall|k: int| 0 <= k < i ==> (#[trigger] ids@[k])@ == bets@[k].id@ && settles(ps@[k], bets@[k], *ev),
            forall|k: int| 0 <= k < i ==> wallet_decryptable(#[trigger] bets@[k].encrypted_wallet@),
        decreases bets@.len() - i,
    {
        let bet = &bets[i];
        if !crate::text::utf8_len_at_least(bet.encrypted_wallet.as_str(), 12) {
            assert(!wallet_decryptable(bets@[i as int].encrypted_wallet@));
            return None;
        }
        let key = match decrypt_user_wallet(&bet.encrypted_wallet) {
            Some(k) => k,
            None => {
                assert(!wallet_decryptable(bets@[i as int].encrypted_wallet@));
                return None;
            },
        };
        ids.push(copy_string(&bet.id));
        ps.push(
            GameBetSettleKafkaPayload {
                game_id: copy_string(&bet.game_id),
                session_id: copy_string(&bet.session_id),
                winner_id: copy_string(&ev.winner_id),
                user_id: copy_string(&bet.user_id),
                user_betting_on: copy_string(&bet.user_id_betting_on),
                record_id: copy_string(&bet.id),
                user_wallet_key: key,
                is_valid: ev.is_game_valid,
            },
        );
        i = i + 1;
    }
    Some((ids, ps))
}

/// One step of settling a game session's bets. With the chain's node unhealthy, the
/// settlement is retried after 300 seconds. Otherwise the session's bets in progress are
/// fetched, at most 2000 (`Some(None)` when fetching failed, which ends the round); when
/// there are some, they are marked as to be settled, each gets a settlement, and the
/// settlement is retried after 900 seconds.
pub fn generate_game_bet_events(
    ev: &GenerateGameBetSettleEvents,
    healthy: bool,
    bets: Option<Option<Vec<GameBet>>>,
) -> (r: GenerateStep)
    ensures
        !healthy ==> (r matches GenerateStep::Retry(rec) && settle_record_is(
            rec,
            ev.game_id@,
            ev.session_id@,
            ev.winner_id@,
            ev.is_game_valid,
            300,
        )),
        healthy ==> match bets {
            None => r matches GenerateStep::FetchBets { game_id, session_id, status, limit }
                && game_id@ == ev.game_id@ && session_id@ == ev.session_id@ && status@
                == status_text(GameBetStatus::InProgress) && limit == 2000,
            Some(None) => r is Nothing,
            Some(Some(bs)) => if bs@.len() == 0 {
                r is Nothing
            } else if exists|i: int| 0 <= i < bs@.len() && !wallet_decryptable(#[trigger] bs@[i].encrypted_wallet@) {
                r is BadWallet
            } else {
                r matches GenerateStep::Settle { record_ids, status, payloads, retry } && {
                    &&& record_ids@.len() == bs@.len() && payloads@.len() == bs@.len()
                    &&& forall|i: int|
                        0 <= i < bs@.len() ==> (#[trigger] record_ids@[i])@ == bs@[i].id@ && settles(
                            payloads@[i],
                            bs@[i],
                            *ev,
                        )
                    &&& status@ == status_text(GameBetStatus::ToSettle)
                    &&& settle_record_is(retry, ev.game_id@, ev.session_id@, ev.winner_id@, ev.is_game_valid, 900)
                }
            },
        },
{
    if !healthy {
        return GenerateStep::Retry(
            settle_record(&ev.game_id, &ev.session_id, &ev.winner_id, ev.is_game_valid, 300),
        );
    }
    let bs = match bets {
        None => {
            return GenerateStep::FetchBets {
                game_id: copy_string(&ev.game_id),
                session_id: copy_string(&ev.session_id),
                status: GameBetStatus::InProgress.to_text(),
                limit: SETTLE_BATCH,
            }
        },
        Some(None) => return GenerateStep::Nothing,
        Some(Some(b)) => b,
    };
    if bs.len() == 0 {
        return GenerateStep::Nothing;
    }
    match settlements(&bs, ev) {
        None => GenerateStep::BadWallet,
        Some((record_ids, payloads)) => GenerateStep::Settle {
            record_ids,
            status: GameBetStatus::ToSettle.to_text(),
            payloads,
            retry: settle_record(&ev.game_id, &ev.session_id, &ev.winner_id, ev.is_game_valid, 900),
        },
    }
}

/// The end of a game schedules the settlement of its session after 300 seconds.
pub fn game_over(ev: &GameOverEvent) -> (r: SettleRecord)
    ensures
        settle_record_is(r, ev.game_id@, ev.session_id@, ev.winner_id@, ev.is_game_valid, 300),
{
    settle_record(&ev.game_id, &ev.session_id, &ev.winner_id, ev.is_game_valid, 300)
}

/// A settled bet becomes `Settled`.
pub fn game_bet_settled() -> (r: String)
    ensures
        r@ == status_text(GameBetStatus::Settled),
{
    GameBetStatus::Settled.to_text()
}

/// A failed settlement puts the bet back in progress and retries the session's settlement
/// after 300 seconds.
pub fn game_bet_settled_error(ev: &GameUserBetSettleEvent) -> (r: (String, SettleRecord))
    ensures
        r.0@ == status_text(GameBetStatus::InProgress),
        settle_record_is(r.1, ev.game_id@, ev.session_id@, ev.winner_id@, ev.is_game_valid, 300),
{
    (
        GameBetStatus::InProgress.to_text(),
        settle_record(&ev.game_id, &ev.session_id, &ev.winner_id, ev.is_game_valid, 300),
    )
}

/// The messages that start the settlement of bets, one per serialized settlement: topic
/// `start_game_settle_event`, key `settle_event`.
pub fn publish_game_bet_events_for_settlement(serialized: Vec<String>) -> (r: Vec<KafkaGeneralEvent>)
    ensures
        r@.len() == serialized@.len(),
        forall|i: int|
            0 <= i < r@.len() ==> (#[trigger] r@[i]).topic@ == START_GAME_SETTLE_EVENT@
                && r@[i].payload@ == serialized@[i]@ && r@[i].key@ == "settle_event"@,
{
    events_for(serialized, START_GAME_SETTLE_EVENT, "settle_event")
}

/// The size of a page of bets.
pub const BETS_PAGE: u64 = 20;

/// The next step of listing an account's bets.
pub enum UserBetsStep {
    /// Fetch a page of the account's bets with this wallet.
    Fetch { offset: u64, limit: u64 },
    /// Answer with the page; `has_more` when the page is full.
    Answer { has_more: bool },
    /// Answer with this error.
    Fail(Error),
}

/// One step of listing an account's bets: the account and wallet must be given; a page of
/// 20 is fetched at offset `page` (`Some(None)` when fetching failed); a full page means
/// that there may be more.
pub fn get_user_bets(params: &UserGetBetCallParams, fetched: Option<Option<usize>>) -> (r: UserBetsStep)
    ensures
        blank(params.user_id@) || blank(params.wallet_key@) ==> r == UserBetsStep::Fail(
            Error::MissingParams,
        ),
        !(blank(params.user_id@) || blank(params.wallet_key@)) ==> match fetched {
            None => r == UserBetsStep::Fetch { offset: params.page, limit: 20 },
            Some(None) => r == UserBetsStep::Fail(Error::ErrorWhileFetchingUserBets),
            Some(Some(n)) => r == UserBetsStep::Answer { has_more: n == 20 },
        },
{
    if is_blank(&params.user_id) || is_blank(&params.wallet_key) {
        return UserBetsStep::Fail(Error::MissingParams);
    }
    match fetched {
        None => UserBetsStep::Fetch { offset: params.page, limit: BETS_PAGE },
        Some(None) => UserBetsStep::Fail(Error::ErrorWhileFetchingUserBets),
        Some(Some(n)) => UserBetsStep::Answer { has_more: n == 20 },
    }
}

/// Whether a bet event opens a bet or adds to one.
#[derive(Clone, Copy, Debug, PartialEq, Eq, Structural)]
pub enum GameBetEvent {
    CREATE,
    UPDATE,
}

/// A bet as a player places or raises it (its amount travels beside it).
pub struct UserGameBetEvent {
    pub user_id: String,
    pub game_id: String,
    pub session_id: String,
    pub wallet_key: String,
    pub event_type: GameBetEvent,
}

/// What a bet event does to the store.
pub enum BetAction {
    /// Store this new bet.
    Create(GameBet),
    /// Add the event's amount to the bet of this account on this game session.
    Update { game_id: String, user_id: String, session_id: String },
    /// The wallet key could not be stored encrypted as text.
    BadWallet,
}

/// A stored bet is the one that a bet event opens: a fresh id, the event's account, game
/// and session, the account as the one bet on, the game `chess`, the event's wallet key
/// encrypted, and the status in progress.
pub open spec fn bet_created_from(b: GameBet, ev: UserGameBetEvent) -> bool {
    &&& b.id@.len() == 36
    &&& b.user_id@ == ev.user_id@ && b.game_id@ == ev.game_id@
    &&& b.user_id_betting_on@ == ev.user_id@ && b.session_id@ == ev.session_id@
    &&& b.game_name@ == "chess"@
    &&& wallet_decryption(b.encrypted_wallet@) == Some(ev.wallet_key@)
    &&& b.status@ == status_text(GameBetStatus::InProgress)
}

/// What a bet event does: a new bet is stored in progress on `chess`, with a fresh id, the
/// player's wallet encrypted, and the player as the one bet on; any other event raises the
/// player's bet on the session. A new bet is refused only where the wallet key is over 2^36
/// bytes or its cipher text (whose nonce is random) is not valid UTF-8.
pub fn create_user_bet(ev: &UserGameBetEvent) -> (r: BetAction)
    ensures
        ev.event_type == GameBetEvent::CREATE ==> (r is BadWallet || (r matches BetAction::Create(b)
            && bet_created_from(b, *ev))),
        r is BadWallet ==> ev.event_type == GameBetEvent::CREATE && (encode_utf8(ev.wallet_key@).len()
            > 0x10_0000_0000 || exists|b: Seq<u8>| wallet_cipher(ev.wallet_key@, b) && !valid_utf8(b)),
        ev.event_type != GameBetEvent::CREATE ==> (r matches BetAction::Update { game_id, user_id, session_id }
            && game_id@ == ev.game_id@ && user_id@ == ev.user_id@ && session_id@ == ev.session_id@),
{
    match ev.event_type {
        GameBetEvent::CREATE => {
            let wallet = match hash_user_wallet_key(&ev.wallet_key) {
                Some(w) => w,
                None => return BetAction::BadWallet,
            };
            BetAction::Create(
                GameBet {
                    id: new_uuid(),
                    user_id: copy_string(&ev.user_id),
                    game_id: copy_string(&ev.game_id),
                    user_id_betting_on: copy_string(&ev.user_id),
                    session_id: copy_string(&ev.session_id),
                    game_name: String::from_str("chess"),
                    encrypted_wallet: wallet,
                    status: GameBetStatus::InProgress.to_text(),
                },
            )
        },
        GameBetEvent::UPDATE => BetAction::Update {
            game_id: copy_string(&ev.game_id),
            user_id: copy_string(&ev.user_id),
            session_id: copy_string(&ev.session_id),
        },
    }
}


/// The topics that the bet consumer acts on.
#[derive(Clone, Copy, Debug, PartialEq, Eq, Structural)]
pub enum BetTopic {
    /// A game session's bets are to be settled.
    GenerateGameBetEvents,
    /// A game is over.
    GameOver,
    /// One bet was paid out.
    GameBetSettled,
    /// Paying out one bet failed.
    GameBetSettledError,
    /// Any other topic: the message is ignored.
    Unknown,
}

/// The topic that a topic name stands for.
pub open spec fn spec_bet_topic(topic: Seq<char>) -> BetTopic {
    if topic == GENERATE_GAME_BET_EVENTS@ {
        BetTopic::GenerateGameBetEvents
    } else if topic == GAME_OVER_EVENT@ {
        BetTopic::GameOver
    } else if topic == GAME_BET_SETTLED@ {
        BetTopic::GameBetSettled
    } else if topic == GAME_BET_SETTLED_ERROR@ {
        BetTopic::GameBetSettledError
    } else {
        BetTopic::Unknown
    }
}

/// The topic that a consumed bet message came from.
pub fn bet_topic(topic: &String) -> (r: BetTopic)
    ensures
        r == spec_bet_topic(topic@),
{
    if same_string(topic, &String::from_str(GENERATE_GAME_BET_EVENTS)) {
        BetTopic::GenerateGameBetEvents
    } else if same_string(topic, &String::from_str(GAME_OVER_EVENT)) {
        BetTopic::GameOver
    } else if same_string(topic, &String::from_str(GAME_BET_SETTLED)) {
        BetTopic::GameBetSettled
    } else if same_string(topic, &String::from_str(GAME_BET_SETTLED_ERROR)) {
        BetTopic::GameBetSettledError
    } else {
        BetTopic::Unknown
    }
}

/// Law: the expiry notification of a settlement key is recognized as a settlement, and it
/// leads to the data key of the same game session. The notification channel ends with `:`
/// and the key; game and session ids hold no `:`.
pub proof fn law_settle_key_notification(prefix: Seq<char>, game_id: Seq<char>, session_id: Seq<char>)
    requires
        forall|i: int| 0 <= i < game_id.len() ==> #[trigger] game_id[i] != ':',
        forall|i: int| 0 <= i < session_id.len() ==> #[trigger] session_id[i] != ':',
    ensures
        spec_channel_kind(prefix + ":"@ + spec_settle_key(game_id, session_id)) == Some(KeyspaceKind::SettleBet),
        spec_payload_key(KeyspaceKind::SettleBet, prefix + ":"@ + spec_settle_key(game_id, session_id))
            == Some(SETTLE_BET_KEY_DATA@ + game_id + "_"@ + session_id),
{
    reveal_strlit(":");
    reveal_strlit("_");
    reveal_strlit("settlebet_");
    let key = spec_settle_key(game_id, session_id);
    let channel = prefix + ":"@ + key;
    let y = game_id + "_"@ + session_id;
    assert(key =~= seq!['s', 'e', 't', 't', 'l', 'e', 'b', 'e', 't'] + seq!['_'] + y);
    // The channel holds the key's prefix.
    let at: int = prefix.len() as int + 1;
    assert(channel.subrange(at, at + SETTLE_BET_KEY@.len()) =~= SETTLE_BET_KEY@);
    assert(has_substring(channel, SETTLE_BET_KEY@));
    // The last `:` piece is the key.
    assert forall|i: int| 0 <= i < key.len() implies #[trigger] key[i] != ':' by {
        if i >= 10 {
            let j = i - 10;
            if j < game_id.len() {
                assert(key[i] == game_id[j]);
            } else if j == game_id.len() {
            } else {
                assert(key[i] == session_id[j - game_id.len() - 1]);
            }
        }
    }
    assert(channel =~= prefix + seq![':'] + key);
    lemma_split_last(prefix, key, ':', seq![], seq![]);
    assert(split_on(channel, ':').last() == key);
    // Its `_` pieces are the key's own word, then those of the game and session.
    let word = seq!['s', 'e', 't', 't', 'l', 'e', 'b', 'e', 't'];
    assert(key =~= word + (seq!['_'] + y));
    lemma_split_on_word(word, seq!['_'] + y, '_', seq![], seq![]);
    assert(Seq::<char>::empty() + word =~= word);
    assert((seq!['_'] + y)[0] == '_');
    assert((seq!['_'] + y).drop_first() =~= y);
    lemma_split_acc(y, '_', seq![], seq![word]);
    let parts = split_on(key, '_');
    assert(parts == seq![word] + split_on_rest(y, '_', seq![], seq![]));
    assert(parts.skip(1) =~= split_on_rest(y, '_', seq![], seq![]));
    lemma_join_split(y, '_', seq![]);
    assert(Seq::<char>::empty() + y =~= y);
    assert(parts.len() > 1) by {
        crate::text::lemma_split_len(y, '_', seq![]);
    }
    assert(spec_key_id(channel) == Some(y));
}


/// Law: a bet is settled with what it was placed with: the settlement of a bet that a bet
/// event opened names the event's account, game and session, carries the wallet key of the
/// event, and names the winner of the settled game.
pub proof fn law_settlement_pays_the_bet_wallet(
    ev: UserGameBetEvent,
    bet: GameBet,
    round: GenerateGameBetSettleEvents,
    p: GameBetSettleKafkaPayload,
)
    requires
        bet_created_from(bet, ev),
        settles(p, bet, round),
    ensures
        p.user_wallet_key@ == ev.wallet_key@,
        p.user_id@ == ev.user_id@,
        p.user_betting_on@ == ev.user_id@,
        p.game_id@ == ev.game_id@,
        p.session_id@ == ev.session_id@,
        p.winner_id@ == round.winner_id@,
        p.record_id@ == bet.id@,
{
}

} // verus!
