use vortex::api_error::Error;
use vortex::lobby::{
    create_lobby, create_lobby_outcome, get_ongoing_games_for_user, group_ongoing_games,
    join_lobby, start_game, CreateLobbyPayload, FriendGame, Game, GetUsersOngoingGamesPayload,
    JoinLobbyPayload, JoinStep, StartGamePayload, UserGameRelation,
};

fn s(x: &str) -> String {
    x.to_string()
}

fn join_payload(game_name: &str) -> JoinLobbyPayload {
    JoinLobbyPayload {
        user_id: s("u2"),
        username: s("grace"),
        game_id: s("g1"),
        game_name: s(game_name),
    }
}

fn game(user_count: i64) -> Game {
    Game {
        id: s("g1"),
        user_count,
        host_id: s("u1"),
        name: s("chess"),
        game_type: s("chess"),
        is_staked: false,
        current_state: s("none"),
        state_index: 0,
        description: s("none"),
    }
}

fn relation(status: &str) -> UserGameRelation {
    UserGameRelation {
        user_id: s("u1"),
        username: s("ada"),
        game_id: s("g1"),
        player_type: s("host"),
        player_status: s(status),
    }
}

#[test]
fn a_new_lobby_has_its_host_as_only_player() {
    let p = CreateLobbyPayload {
        user_id: s("u1"),
        username: s("ada"),
        game_type: s("staked"),
        game_name: s("chess"),
    };
    let c = create_lobby(&p).ok().unwrap();
    assert_eq!(c.game_id.len(), 36);
    assert_eq!(c.count_key, format!("{}-game-id-count", c.game_id));
    assert_eq!(c.count_value, 1);
    assert_eq!(c.user_game_key, "u1-user-game");
    assert_eq!(c.user_player_key, "u1-user-player");
    assert_eq!(c.user.player_type, "host");
    assert_eq!(c.user.player_status, "not-ready");
    assert_eq!(c.game.user_count, 1);
    assert!(c.game.is_staked);
    assert_eq!(c.game.current_state, "none");
    assert_eq!(c.turns.turn_mappings.len(), 1);
    assert_eq!(c.turns.turn_mappings[0].count_id, 1);
    let unstaked = CreateLobbyPayload { game_type: s("free"), ..p };
    assert!(!create_lobby(&unstaked).ok().unwrap().game.is_staked);
}

#[test]
fn a_lobby_request_with_an_empty_field_is_refused() {
    let p = CreateLobbyPayload {
        user_id: s("u1"),
        username: s(""),
        game_type: s("staked"),
        game_name: s("chess"),
    };
    assert!(matches!(create_lobby(&p), Err(Error::MissingParamsError)));
    assert_eq!(create_lobby_outcome(false, true), Err(Error::CreateLobbyError));
    assert_eq!(create_lobby_outcome(true, false), Err(Error::ErrorWhileCreatingEntities));
    assert_eq!(create_lobby_outcome(true, true), Ok(()));
}

#[test]
fn joining_a_chess_lobby_step_by_step() {
    let p = join_payload("chess");
    match join_lobby(&p, None, None, None) {
        JoinStep::SetKeysAndCount {
            user_game_key,
            game_id,
            user_player_key,
            player_type,
            count_key,
            count_increment,
        } => {
            assert_eq!(user_game_key, "u2-user-game");
            assert_eq!(game_id, "g1");
            assert_eq!(user_player_key, "u2-user-player");
            assert_eq!(player_type, "player");
            assert_eq!(count_key, "g1-game-id-count");
            assert_eq!(count_increment, 1);
        },
        _ => panic!("the keys should be set first"),
    }
    assert!(matches!(join_lobby(&p, Some(None), None, None), JoinStep::Fail(Error::JoinLobbyError)));
    assert!(matches!(join_lobby(&p, Some(Some(1)), None, None), JoinStep::LookUpGame));
    assert!(matches!(
        join_lobby(&p, Some(Some(1)), Some(Err(())), None),
        JoinStep::Fail(Error::ErrorWhileFetchingGameDetails)
    ));
    assert!(matches!(
        join_lobby(&p, Some(Some(1)), Some(Ok(None)), None),
        JoinStep::Fail(Error::GameLobbyDeletedOrRequestIsInvalid)
    ));
    match join_lobby(&p, Some(Some(1)), Some(Ok(Some(game(1)))), None) {
        JoinStep::Store { user, new_user_count, turn } => {
            assert_eq!(user.player_type, "player");
            assert_eq!(user.player_status, "not-ready");
            assert_eq!(new_user_count, 2);
            assert_eq!(turn.count_id, 2);
            assert_eq!(turn.username, "grace");
        },
        _ => panic!("the player should be stored"),
    }
    match join_lobby(&p, Some(Some(1)), Some(Ok(Some(game(1)))), Some(true)) {
        JoinStep::Joined { game_host_id, user_count_id } => {
            assert_eq!(game_host_id, "u1");
            assert_eq!(user_count_id, 2);
        },
        _ => panic!("the join should be answered"),
    }
    assert!(matches!(
        join_lobby(&p, Some(Some(1)), Some(Ok(Some(game(1)))), Some(false)),
        JoinStep::Fail(Error::ErrorWhileUpdatingMongoUserAndGame)
    ));
}

#[test]
fn a_chess_lobby_holds_two_players_and_others_ten() {
    let chess = join_payload("chess");
    assert!(matches!(
        join_lobby(&chess, Some(Some(2)), Some(Ok(Some(game(2)))), None),
        JoinStep::Fail(Error::LobbyIsFull)
    ));
    let other = join_payload("ludo");
    assert!(matches!(
        join_lobby(&other, Some(Some(2)), Some(Ok(Some(game(2)))), None),
        JoinStep::Store { .. }
    ));
    assert!(matches!(
        join_lobby(&other, Some(Some(9)), Some(Ok(Some(game(9)))), None),
        JoinStep::Store { .. }
    ));
    assert!(matches!(
        join_lobby(&other, Some(Some(10)), Some(Ok(Some(game(10)))), None),
        JoinStep::Fail(Error::LobbyIsFull)
    ));
}

#[test]
fn a_game_starts_once_every_player_is_ready() {
    let p = StartGamePayload { game_id: s("g1"), game_name: s("chess") };
    assert_eq!(start_game(&p, None), None);
    assert_eq!(start_game(&p, Some(Some(vec![relation("ready"), relation("ready")]))), Some(Ok(())));
    assert_eq!(
        start_game(&p, Some(Some(vec![relation("ready"), relation("not-ready")]))),
        Some(Err(Error::NotAllPlayersHaveReadyStatus))
    );
    assert_eq!(start_game(&p, Some(Some(vec![]))), Some(Ok(())));
    assert_eq!(start_game(&p, Some(None)), Some(Err(Error::ErrorWhileRetrievingPlayersStatus)));
    let blank = StartGamePayload { game_id: s(""), game_name: s("chess") };
    assert_eq!(start_game(&blank, None), Some(Err(Error::MissingParamsError)));
}

#[test]
fn friends_games_are_grouped_in_order() {
    let rels = vec![
        FriendGame { game_id: s("g1"), username: s("ada") },
        FriendGame { game_id: s("g2"), username: s("grace") },
        FriendGame { game_id: s("g1"), username: s("alan") },
        FriendGame { game_id: s("g3"), username: s("edsger") },
        FriendGame { game_id: s("g2"), username: s("barbara") },
    ];
    let groups = group_ongoing_games(&rels);
    assert_eq!(groups.len(), 3);
    assert_eq!(groups[0].game_id, "g1");
    assert_eq!(groups[0].usernames, vec![s("ada"), s("alan")]);
    assert_eq!(groups[1].game_id, "g2");
    assert_eq!(groups[1].usernames, vec![s("grace"), s("barbara")]);
    assert_eq!(groups[2].game_id, "g3");
    assert_eq!(groups[2].usernames, vec![s("edsger")]);
    assert_eq!(group_ongoing_games(&vec![]).len(), 0);
}

#[test]
fn ongoing_games_need_an_account_and_a_lookup() {
    let p = GetUsersOngoingGamesPayload { user_id: s("u1") };
    let rels = vec![FriendGame { game_id: s("g1"), username: s("ada") }];
    let r = get_ongoing_games_for_user(&p, Some(rels)).ok().unwrap();
    assert_eq!(r.len(), 1);
    let blank = GetUsersOngoingGamesPayload { user_id: s("") };
    assert!(get_ongoing_games_for_user(&blank, Some(vec![])).is_err());
}
