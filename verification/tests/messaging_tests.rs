use vortex::bets::{
    bet_topic, create_user_bet, game_over, generate_game_bet_events, get_solana_rpc_node_health,
    settle_key, BetAction, BetTopic, GameBet, GameBetEvent, GameBetStatus, GameOverEvent,
    GenerateGameBetSettleEvents, GenerateStep, GetHealthNodeResponseJson, UserGameBetEvent,
};
use vortex::config::{active_profiles, trim_chars};
use vortex::consumer::{
    account_game_deletion, apply_game_move, consumer_topic, game_deletion_ops, move_kind,
    score_update,
    ConsumerTopic, MoveKind, MoveOutcome, UserScoreUpdateEvent,
};
use vortex::config::{
    BrokerProperties, KafkaConfiguration, ProducerProperties, SchemaRegistryProperties,
};
use vortex::event_store::{
    b3_header, b3_trace_id_of, get_b3_trace_id, partition_of, save, EventDispatcher, EventDto, TopicConfiguration,
    TopicProperties, UserGameEvent, UserGameEventConverter, UserGameMove,
};
use vortex::events::{
    broadcast_for, connection_keys, disconnect_plan, key_value_or_nil, mqtt_message,
    published_event_for,
    send_event_for_user_topic, MqttEventKind, UserGameDeletetionEvent,
};
use vortex::fen::CellPosition;
use vortex::keyspace::{channel_kind, redis_payload_key, KeyspaceKind};
use vortex::secrets::{decrypt_user_wallet, hash_user_wallet_key};

fn s(x: &str) -> String {
    x.to_string()
}

const START: &str = "rnbqkbnr/pppppppp/8/8/8/8/PPPPPPPP/RNBQKBNR w KQkq - 0 1";

#[test]
fn account_events_are_published_by_name() {
    let r = send_event_for_user_topic(&s("friend-request-event"), s("{}"));
    assert_eq!(r.len(), 1);
    assert_eq!(r[0].topic, "user");
    assert_eq!(r[0].key, "friend-request-event");
    assert_eq!(r[0].payload, "{}");
    let r = send_event_for_user_topic(&s("game-invite-event"), s("p"));
    assert_eq!(r[0].key, "game-invite-event");
    assert!(send_event_for_user_topic(&s("user-online-event"), s("p")).is_empty());
}

#[test]
fn socket_events_are_relayed_to_the_room() {
    assert_eq!(broadcast_for(&s("joined-room"), &s("player")).as_deref(), Some("new-user-joined"));
    assert_eq!(broadcast_for(&s("leaved-room"), &s("host")).as_deref(), Some("remove-all-users"));
    assert_eq!(broadcast_for(&s("leaved-room"), &s("player")).as_deref(), Some("user-left-room"));
    assert_eq!(broadcast_for(&s("error-event"), &s("")).as_deref(), Some("error-event-occured"));
    assert_eq!(broadcast_for(&s("user-connection-event"), &s("")), None);
    assert_eq!(published_event_for(&s("user-connection-event")).as_deref(), Some("user-online-event"));
    assert_eq!(published_event_for(&s("verifying-game-status")).as_deref(), Some("verifying-game-status"));
    assert_eq!(published_event_for(&s("game-event")), None);
    let keys = connection_keys(&s("sock"), &s("u1"));
    assert_eq!(keys, vec![(s("u1"), s("online")), (s("sock"), s("u1"))]);
}

#[test]
fn a_disconnect_cleans_the_account_keys() {
    let plan = disconnect_plan(&s("sock"), &s("u1"), &s("g1"), &s("host"));
    assert!(plan.broadcast_remove_all);
    assert!(plan.leave_game);
    assert_eq!(plan.keys_to_delete, vec![s("u1"), s("u1-user-game"), s("u1-user-player"), s("sock")]);
    let plan = disconnect_plan(&s("sock"), &s("nil"), &s("nil"), &s("nil"));
    assert!(!plan.broadcast_remove_all);
    assert!(!plan.leave_game);
    assert!(!disconnect_plan(&s("s"), &s("u"), &s(""), &s("player")).leave_game);
}

#[test]
fn realtime_messages_go_to_the_account_or_game_topic() {
    let m = mqtt_message(MqttEventKind::FriendRequest, &s("u7"), s("body"));
    assert_eq!(m.topic, "user/u7");
    assert_eq!(m.qos, 0);
    assert_eq!(m.model.event_name, "friend-request-event");
    assert_eq!(m.model.payload, "body");
    let m = mqtt_message(MqttEventKind::GameMove, &s("g7"), s("mv"));
    assert_eq!(m.topic, "game/g7");
    assert_eq!(m.qos, 1);
    assert_eq!(m.model.event_name, "user-game-move");
}

#[test]
fn expired_settlement_key_leads_to_its_data_key() {
    let key = settle_key(&s("game_1"), &s("sess"));
    assert_eq!(key, "settlebet_game_1_sess");
    let channel = format!("__keyspace@0__:{}", key);
    assert_eq!(channel_kind(&channel), Some(KeyspaceKind::SettleBet));
    assert_eq!(
        redis_payload_key(KeyspaceKind::SettleBet, &channel).as_deref(),
        Some("settlebetdata_game_1_sess")
    );
}

#[test]
fn expired_stake_key_and_unrelated_keys() {
    let channel = s("__keyspace@0__:stakeover_g9");
    assert_eq!(channel_kind(&channel), Some(KeyspaceKind::StakeTimeOver));
    assert_eq!(
        redis_payload_key(KeyspaceKind::StakeTimeOver, &channel).as_deref(),
        Some("stakeoverdata_g9")
    );
    assert_eq!(channel_kind(&s("__keyspace@0__:session_1")), None);
    assert_eq!(redis_payload_key(KeyspaceKind::SettleBet, &s("a:b:nounderscore")), None);
}

#[test]
fn consumer_topics() {
    assert_eq!(consumer_topic(&s("user_game_deletion")), ConsumerTopic::GameDeletion);
    assert_eq!(consumer_topic(&s("user_score_update")), ConsumerTopic::ScoreUpdate);
    assert_eq!(consumer_topic(&s("create_user_bet")), ConsumerTopic::UserBet);
    assert_eq!(consumer_topic(&s("user_game_events")), ConsumerTopic::GameMove);
    assert_eq!(consumer_topic(&s("other")), ConsumerTopic::Unknown);
    assert_eq!(bet_topic(&s("generate_game_bet_events")), BetTopic::GenerateGameBetEvents);
    assert_eq!(bet_topic(&s("game_over_event")), BetTopic::GameOver);
    assert_eq!(bet_topic(&s("game_bet_settled")), BetTopic::GameBetSettled);
    assert_eq!(bet_topic(&s("game_bet_settled_error")), BetTopic::GameBetSettledError);
    assert_eq!(bet_topic(&s("user")), BetTopic::Unknown);
}

#[test]
fn a_played_move_updates_the_stored_record() {
    assert_eq!(move_kind(&s("normal")), MoveKind::Normal);
    assert_eq!(move_kind(&s("promotion")), MoveKind::Promotion);
    let from = CellPosition { x: 4, y: 6 };
    let to = CellPosition { x: 4, y: 4 };
    match apply_game_move(&s(START), &s("P"), &from, &to, &None) {
        MoveOutcome::Updated(f) => {
            assert_eq!(f, "rnbqkbnr/pppppppp/8/8/4P3/8/PPPP1PPP/RNBQKBNR b KQkq e3 0 1")
        },
        other => panic!("unexpected {:?}", other),
    }
    let black_from = CellPosition { x: 4, y: 1 };
    let black_to = CellPosition { x: 4, y: 3 };
    assert!(matches!(
        apply_game_move(&s(START), &s("p"), &black_from, &black_to, &None),
        MoveOutcome::Rejected
    ));
    let full = "4k3/8/8/8/8/8/8/4K2N w - - 4294967295 1";
    let n_from = CellPosition { x: 7, y: 7 };
    let n_to = CellPosition { x: 6, y: 5 };
    assert!(matches!(
        apply_game_move(&s(full), &s("N"), &n_from, &n_to, &None),
        MoveOutcome::CounterLimit
    ));
    let promo = "8/4P3/8/8/8/8/8/4k2K w - - 0 1";
    match apply_game_move(&s(promo), &s("P"), &CellPosition { x: 4, y: 1 }, &CellPosition { x: 4, y: 0 }, &Some(s("rook"))) {
        MoveOutcome::Updated(f) => assert_eq!(f, "4R3/8/8/8/8/8/8/4k2K b - - 0 1"),
        other => panic!("unexpected {:?}", other),
    }
}

#[test]
fn score_and_deletion_messages_name_accounts_by_id() {
    let ev = UserScoreUpdateEvent { user_id: s("00000000-0000-0000-0000-00000000002a"), score: 17 };
    let u = score_update(&ev).unwrap();
    assert_eq!(u.user, 42);
    assert_eq!(u.score, 17);
    assert!(score_update(&UserScoreUpdateEvent { user_id: s("nope"), score: 1 }).is_none());
    let del = UserGameDeletetionEvent { user_id: s("00000000-0000-0000-0000-000000000001") };
    let d = account_game_deletion(&s("t"), &s("t"), &del).unwrap();
    assert_eq!(d.user, 1);
    assert_eq!(d.host_id, "00000000-0000-0000-0000-000000000001");
    assert!(account_game_deletion(&s("t"), &s("other"), &del).is_none());
}

#[test]
fn a_new_bet_stores_the_wallet_encrypted() {
    let ev = UserGameBetEvent {
        user_id: s("u1"),
        game_id: s("g1"),
        session_id: s("s1"),
        wallet_key: s("my-wallet"),
        event_type: GameBetEvent::CREATE,
    };
    match create_user_bet(&ev) {
        BetAction::Create(b) => {
            assert_eq!(b.id.len(), 36);
            assert_eq!(b.user_id_betting_on, "u1");
            assert_eq!(b.game_name, "chess");
            assert_eq!(b.status, "InProgress");
            assert_eq!(decrypt_user_wallet(&b.encrypted_wallet), Some(s("my-wallet")));
        },
        BetAction::BadWallet => {},
        BetAction::Update { .. } => panic!("a new bet should be created"),
    }
    let up = UserGameBetEvent { event_type: GameBetEvent::UPDATE, ..ev };
    match create_user_bet(&up) {
        BetAction::Update { game_id, user_id, session_id } => {
            assert_eq!((game_id.as_str(), user_id.as_str(), session_id.as_str()), ("g1", "u1", "s1"));
        },
        _ => panic!("a raise should update the bet"),
    }
    assert_eq!(GameBetStatus::ToSettle.to_text(), "ToSettle");
}

#[test]
fn settling_a_session_step_by_step() {
    let ev = GenerateGameBetSettleEvents {
        game_id: s("g1"),
        session_id: s("s1"),
        winner_id: s("u9"),
        is_game_valid: true,
    };
    match generate_game_bet_events(&ev, false, None) {
        GenerateStep::Retry(rec) => {
            assert_eq!(rec.key, "settlebet_g1_s1");
            assert_eq!(rec.expiry_seconds, 300);
        },
        _ => panic!("an unhealthy node should retry"),
    }
    match generate_game_bet_events(&ev, true, None) {
        GenerateStep::FetchBets { limit, status, .. } => {
            assert_eq!(limit, 2000);
            assert_eq!(status, "InProgress");
        },
        _ => panic!("the bets should be fetched"),
    }
    assert!(matches!(generate_game_bet_events(&ev, true, Some(Some(vec![]))), GenerateStep::Nothing));
    let wallet = match hash_user_wallet_key(&s("w1")) {
        Some(w) => w,
        None => return,
    };
    let bet = GameBet {
        id: s("b1"),
        user_id: s("u1"),
        game_id: s("g1"),
        user_id_betting_on: s("u9"),
        session_id: s("s1"),
        game_name: s("chess"),
        encrypted_wallet: wallet,
        status: s("InProgress"),
    };
    match generate_game_bet_events(&ev, true, Some(Some(vec![bet]))) {
        GenerateStep::Settle { record_ids, status, payloads, retry } => {
            assert_eq!(record_ids, vec![s("b1")]);
            assert_eq!(status, "ToSettle");
            assert_eq!(payloads.len(), 1);
            assert_eq!(payloads[0].user_wallet_key, "w1");
            assert_eq!(payloads[0].winner_id, "u9");
            assert!(payloads[0].is_valid);
            assert_eq!(retry.expiry_seconds, 900);
        },
        _ => panic!("the bets should be settled"),
    }
    let rec = game_over(&GameOverEvent {
        game_id: s("g2"),
        session_id: s("s2"),
        winner_id: s("u1"),
        is_game_valid: false,
    });
    assert_eq!(rec.key, "settlebet_g2_s2");
    assert!(!rec.payload.is_game_valid);
}

#[test]
fn node_health() {
    let ok = GetHealthNodeResponseJson { jsonrpc: s("2.0"), result: Some(s("ok")), error: None, id: 1 };
    assert!(get_solana_rpc_node_health(true, Some(ok)));
    let bad = GetHealthNodeResponseJson { jsonrpc: s("2.0"), result: None, error: Some(s("x")), id: 1 };
    assert!(!get_solana_rpc_node_health(true, Some(bad)));
    assert!(!get_solana_rpc_node_health(true, None));
    assert!(!get_solana_rpc_node_health(false, None));
}

fn event(id: u128) -> UserGameEvent {
    UserGameEvent {
        id,
        version: 3,
        name: s("move"),
        description: s("d"),
        user_game_move: UserGameMove {
            id: 9,
            user_id: s("u1"),
            game_id: s("g1"),
            version: 1,
            user_move: s("e2e4"),
            socket_id: s("sock"),
        },
    }
}

#[test]
fn partitions_stay_in_range_and_follow_the_id() {
    for id in [0u128, 1, 42, u128::MAX, 0x0123_4567_89ab_cdef_0123_4567_89ab_cdef] {
        let p = partition_of(id, 7);
        assert!((0..7).contains(&p));
        assert_eq!(p, partition_of(id, 7));
    }
    assert_eq!(partition_of(5, 1), 0);
}

#[test]
fn dispatch_plans_one_record_per_converter() {
    let conv = |name: &str| UserGameEventConverter {
        topic_configuration: TopicProperties { id: s("t"), topic_name: s(name), partitions: 3 },
    };
    let d = EventDispatcher::new(vec![conv("a"), conv("b")]);
    let plans = d.dispatch(&s("CreateUserGameAvroV1"), &event(0xa1a2a3a4b1b2c1c2d1d2d3d4d5d6d7d8));
    assert_eq!(plans.len(), 2);
    assert_eq!(plans[0].topic, "a");
    assert_eq!(plans[1].topic, "b");
    assert_eq!(plans[0].key.context_identifier, "a1a2a3a4-b1b2-c1c2-d1d2-d3d4d5d6d7d8");
    assert_eq!(plans[0].key.identifier.data_type, "user_game_event");
    assert_eq!(plans[0].key.identifier.version, 3);
    assert_eq!(plans[0].value.identifier, "a1a2a3a4-b1b2-c1c2-d1d2-d3d4d5d6d7d8");
    assert!((0..3).contains(&plans[0].partition));
    assert_eq!(plans[1].key.identifier.identifier, "a1a2a3a4-b1b2-c1c2-d1d2-d3d4d5d6d7d8");
    assert_eq!(plans[1].value.name, "move");
    assert_eq!(plans[1].value.description, "d");
    assert_eq!(plans[1].value.user_game_move.user_id, "u1");
    assert_eq!(plans[1].value.user_game_move.game_id, "g1");
    assert_eq!(plans[1].value.user_game_move.socket_id, "sock");
    assert_eq!(plans[1].value.user_game_move.id, 9);
    assert_eq!(plans[1].value.user_game_move.version, 1);
    assert!(!conv("a").handles(&s("Other")));
}

#[test]
fn stored_records_keep_the_event_and_trace() {
    let m = save(
        EventDto { topic: s("t"), partition: 2, key: vec![1, 2], payload: vec![3] },
        Some(s("trace")),
    );
    assert_eq!(m.topic, "t");
    assert_eq!(m.partition, 2);
    assert_eq!(m.key, vec![1, 2]);
    assert_eq!(m.payload, vec![3]);
    assert_eq!(m.trace_id.as_deref(), Some("trace"));
    assert_eq!(b3_header(&s("abc"), &s("def")), "abc-def-1");
}

#[test]
fn active_profiles_are_trimmed_and_non_empty() {
    assert_eq!(active_profiles(&s("local, dev ,,  prod")), vec![s("local"), s("dev"), s("prod")]);
    assert!(active_profiles(&s("")).is_empty());
    assert!(active_profiles(&s(" , ")).is_empty());
    let t: String = trim_chars(&"\t a b \n".chars().collect()).into_iter().collect();
    assert_eq!(t, "a b");
}

fn topic(id: &str, name: &str, partitions: i32) -> TopicProperties {
    TopicProperties { id: s(id), topic_name: s(name), partitions }
}

fn kafka(mappings: Vec<TopicProperties>) -> KafkaConfiguration {
    KafkaConfiguration {
        broker: BrokerProperties { urls: s("localhost:9092") },
        consumer: vec![],
        schema_registry: SchemaRegistryProperties { url: s("http://localhost:8081") },
        topic: TopicConfiguration { mappings },
        producer: ProducerProperties { client_id: s("c"), transactional_id: s("t") },
    }
}

#[test]
fn the_events_converter_takes_the_only_events_topic() {
    let config = kafka(vec![topic("users", "user", 1), topic("events", "user_game_events_v1", 6)]);
    let c = UserGameEventConverter::new(&config).unwrap();
    assert_eq!(c.topic_configuration.topic_name, "user_game_events_v1");
    assert_eq!(c.topic_configuration.partitions, 6);
    assert!(UserGameEventConverter::new(&kafka(vec![topic("users", "user", 1)])).is_none());
    let twice = kafka(vec![topic("events", "a", 1), topic("events", "b", 1)]);
    assert!(UserGameEventConverter::new(&twice).is_none());
    let t = TopicConfiguration { mappings: vec![topic("x", "y", 2)] };
    assert_eq!(t.get_mapping(&s("x")).unwrap().topic_name, "y");
    assert!(t.get_mapping(&s("z")).is_none());
}

#[test]
fn failed_key_reads_read_as_nil() {
    assert_eq!(key_value_or_nil(Some(s("g1"))), "g1");
    assert_eq!(key_value_or_nil(None), "nil");
}

#[test]
fn partitions_hash_the_big_endian_octets_of_the_id() {
    let id: u128 = 0xa1a2a3a4_b1b2_c1c2_d1d2_d3d4d5d6d7d8;
    let bytes = id.to_be_bytes();
    let h = murmur3::murmur3_32(&mut std::io::Cursor::new(&bytes[..]), 0).unwrap();
    assert_eq!(partition_of(id, 5), (h % 5) as i32);
    assert_eq!(partition_of(id, 1000), (h % 1000) as i32);
}

#[test]
fn no_trace_header_outside_a_traced_span() {
    assert_eq!(get_b3_trace_id(), None);
    assert_eq!(b3_trace_id_of(true, &s("ab"), &s("cd")).as_deref(), Some("ab-cd-1"));
    assert_eq!(b3_trace_id_of(false, &s("ab"), &s("cd")), None);
}

#[test]
fn a_game_deletion_removes_its_three_documents() {
    let ops = game_deletion_ops(&s("g5"));
    assert_eq!(
        ops,
        vec![
            (s("users"), s("game_id"), s("g5")),
            (s("games"), s("id"), s("g5")),
            (s("user_turns"), s("game_id"), s("g5")),
        ]
    );
}
