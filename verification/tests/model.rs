use tero_core::config::{
    default_active_game_retention, default_address, default_page_size, default_port,
    default_runtime, Runtime,
};
use tero_core::error::ServerError;
use tero_core::game::{
    encode_key, CreateGameRequest, GameBase, GameCacheKey, GameCategory, GamePageQuery, GameType,
};
use tero_core::gs_client::{
    hub_address, interactive_game_response, join_game_response, GSClient,
};
use tero_core::paging::{page_from_rows, PagedResponse};
use tero_core::popup::{ClientPopup, PopupManager};
use tero_core::sessions::{
    ImposterGameState, ImposterSession, QuizGame, QuizSession, RandomGame, SpinGame,
    SpinGameState, SpinSession,
};
use tero_core::game_tip::CreateGameTipRequest;
use tero_core::user::{PatchUserRequest, Permission};
use tero_core::validation::{content_type_is_json, validate_game_name, validate_person_name, validate_username};

#[test]
fn kind_names_match_the_wire_forms() {
    assert_eq!(GameType::Quiz.as_str(), "quiz");
    assert_eq!(GameType::Duel.as_str(), "duel");
    assert_eq!(GameType::Roulette.as_str(), "roulette");
    assert_eq!(GameType::Imposter.as_str(), "imposter");
    assert_eq!(GameType::Quiz.hub_name(), "quiz");
    assert_eq!(GameType::Duel.hub_name(), "spin");
    assert_eq!(GameType::Roulette.hub_name(), "spin");
    assert_eq!(GameType::Imposter.hub_name(), "imposter");
    assert_eq!(GameType::Quiz.table_name(), "quiz_game");
    assert_eq!(GameType::Duel.table_name(), "spin_game");
    assert_eq!(GameType::Imposter.table_name(), "imposter_game");
}

#[test]
fn cache_keys_pack_without_collisions() {
    let mut seen = Vec::new();
    for page in [0u16, 1, 77] {
        for kind in [GameType::Roulette, GameType::Duel, GameType::Quiz, GameType::Imposter] {
            for cat in [
                None,
                Some(GameCategory::Vors),
                Some(GameCategory::Ladies),
                Some(GameCategory::Boys),
                Some(GameCategory::All),
            ] {
                let code = encode_key(&GameCacheKey { page_num: page, game_type: kind, category: cat });
                assert!(!seen.contains(&code));
                seen.push(code);
            }
        }
    }
}

#[test]
fn the_cache_key_copies_the_query() {
    let query = GamePageQuery {
        page_num: 3,
        game_type: GameType::Duel,
        category: Some(GameCategory::Vors),
    };
    let key = GameCacheKey::from_query(&query);
    assert_eq!(key.page_num, 3);
    assert_eq!(key.game_type, GameType::Duel);
    assert_eq!(key.category, Some(GameCategory::Vors));
}

#[test]
fn pagination_fetches_one_extra_row() {
    let rows: Vec<i32> = (0..21).collect();
    let page = page_from_rows(rows, 20);
    assert!(page.has_next);
    assert_eq!(page.items.len(), 20);
    assert_eq!(page.items[19], 19);

    let rows: Vec<i32> = (0..20).collect();
    let page = page_from_rows(rows, 20);
    assert!(!page.has_next);
    assert_eq!(page.items.len(), 20);

    let page: PagedResponse<i32> = page_from_rows(Vec::new(), 20);
    assert!(!page.has_next);
    assert!(page.items.is_empty());
}

#[test]
fn game_base_starts_unplayed() {
    let request = CreateGameRequest::new("Quiz Night".to_string());
    assert_eq!(request.category, GameCategory::All);
    let base = GameBase::from_request(&request, GameType::Quiz);
    assert_eq!(base.name, "Quiz Night");
    assert_eq!(base.game_type, GameType::Quiz);
    assert_eq!(base.category, GameCategory::All);
    assert_eq!(base.times_played, 0);
    assert!(!base.synced);
}

#[test]
fn gs_urls_are_formed_from_the_domain() {
    let client = GSClient::new("https://gs.example".to_string());
    assert_eq!(client.health_url(), "https://gs.example/health");
    assert_eq!(
        client.session_initiate_url(&GameType::Quiz),
        "https://gs.example/session/initiate/quiz"
    );
    assert_eq!(hub_address("https://gs.example", &GameType::Quiz), "https://gs.example/hubs/quiz");
    assert_eq!(hub_address("https://gs.example", &GameType::Duel), "https://gs.example/hubs/spin");

    let created = interactive_game_response("red fox".to_string(), "https://gs.example", &GameType::Quiz);
    assert_eq!(created.game_key, "red fox");
    assert_eq!(created.hub_address, "https://gs.example/hubs/quiz");

    let joined = join_game_response("red fox".to_string(), "https://gs.example", &GameType::Quiz);
    assert_eq!(joined.game_type, GameType::Quiz);
    assert_eq!(joined.hub_address, "https://gs.example/hubs/quiz");
}

#[test]
fn error_responses_follow_the_status_table() {
    assert_eq!(ServerError::AccessDenied.response_parts(), (403, "Access denied".to_string()));
    assert_eq!(
        ServerError::NotFound("Game does not exist".to_string()).response_parts(),
        (404, "Game does not exist".to_string())
    );
    assert_eq!(ServerError::JwtVerification("bad".to_string()).response_parts().0, 401);
    assert_eq!(ServerError::Internal("oops".to_string()).response_parts(), (500, String::new()));
    assert_eq!(ServerError::Api(418, "teapot".to_string()).response_parts(), (418, "teapot".to_string()));
    assert_eq!(ServerError::GSClient(502, "body".to_string()).response_parts().0, 503);
    let (code, body) = ServerError::Permission(vec![Permission::WriteAdmin]).response_parts();
    assert_eq!(code, 403);
    assert_eq!(body, "Missing permission: [WriteAdmin]");
    let (_, body) =
        ServerError::Permission(vec![Permission::ReadAdmin, Permission::WriteGame]).response_parts();
    assert_eq!(body, "Missing permission: [ReadAdmin, WriteGame]");
}

#[test]
fn config_defaults_match_the_documentation() {
    assert_eq!(default_address(), "127.0.0.1");
    assert_eq!(default_port(), "3000");
    assert_eq!(default_page_size(), 20);
    assert_eq!(default_runtime(), Runtime::Dev);
    assert_eq!(default_active_game_retention(), 24);
    assert_eq!(Runtime::from_name("DEVELOPMENT"), Runtime::Dev);
    assert_eq!(Runtime::from_name("PRODUCTION"), Runtime::Prod);
    assert_eq!(Runtime::from_name("anything"), Runtime::Prod);
    assert_eq!(Runtime::Dev.as_str(), "development");
    assert_eq!(Runtime::Prod.as_str(), "production");
}

#[test]
fn the_popup_manager_holds_the_latest_record() {
    let mut manager = PopupManager::new();
    let first = manager.read();
    assert_eq!(first.heading, "Velkommen");
    assert!(!first.active);
    let updated = manager.update(ClientPopup {
        heading: "Hello".to_string(),
        paragraph: "World".to_string(),
        active: true,
    });
    assert_eq!(updated.heading, "Hello");
    let read = manager.read();
    assert_eq!(read.heading, "Hello");
    assert!(read.active);
}

#[test]
fn sessions_start_at_iteration_zero_with_the_host() {
    let quiz = QuizSession::new(7);
    assert_eq!(quiz.game_id, 7);
    assert_eq!(quiz.current_iteration, 0);
    assert!(quiz.rounds.is_empty());

    let quiz = QuizSession::from_game(QuizGame { id: 9, rounds: vec!["q1".to_string()] });
    assert_eq!(quiz.game_id, 9);
    assert_eq!(quiz.rounds, vec!["q1".to_string()]);

    let duel = SpinSession::new_duel(1, 2);
    assert_eq!(duel.selection_size, 2);
    assert_eq!(duel.state, SpinGameState::Created);
    assert_eq!(duel.players, vec![(1u128, 0i32)]);

    let roulette = SpinSession::new_roulette(1, 2);
    assert_eq!(roulette.selection_size, 1);

    let random = RandomGame {
        id: 1,
        game_id: 11,
        rounds: vec!["r".to_string()],
        game_type: GameType::Duel,
    };
    let from_random = SpinSession::from_random_duel(5, random);
    assert_eq!(from_random.state, SpinGameState::Initialized);
    assert_eq!(from_random.game_id, 11);

    let spin = SpinSession::from_roulette(5, SpinGame { id: 12, rounds: Vec::new() });
    assert_eq!(spin.selection_size, 1);
    assert_eq!(spin.game_id, 12);

    let imposter = ImposterSession::new(3, 4);
    assert_eq!(imposter.state, ImposterGameState::Created);
    assert_eq!(imposter.players, vec![(3u128, 0i32)]);
}

#[test]
fn the_patch_request_knows_when_it_is_empty() {
    let empty = PatchUserRequest {
        username: None,
        gender: None,
        family_name: None,
        given_name: None,
        birth_date: None,
    };
    assert!(empty.is_empty());
    let mut nonempty = empty;
    nonempty.username = Some("name".to_string());
    assert!(!nonempty.is_empty());
}

#[test]
fn usernames_follow_the_rules() {
    assert!(validate_username("ab").is_err());
    assert!(validate_username("abc").is_ok());
    assert!(validate_username(&"x".repeat(31)).is_err());
    assert!(validate_username(".abc").is_err());
    assert!(validate_username("a.b-c_9").is_ok());
    let err = validate_username("a b c").unwrap_err();
    assert_eq!(err, "Username can only contain letters, numbers, underscores, hyphens and periods");
}

#[test]
fn person_names_follow_the_rules() {
    assert!(validate_person_name("   ").is_err());
    assert!(validate_person_name("Ada Lovelace").is_ok());
    assert!(validate_person_name("O'Brien-Smith Jr.").is_ok());
    assert!(validate_person_name(&"a".repeat(51)).is_err());
    assert!(validate_person_name("Ada2").is_err());
}

#[test]
fn game_names_follow_the_rules() {
    assert!(validate_game_name("ab").is_err());
    assert!(validate_game_name("  abc  ").is_ok());
    assert!(validate_game_name(&"a".repeat(101)).is_err());
    assert!(validate_game_name("---").is_err());
    assert!(validate_game_name("--7--").is_ok());
}

#[test]
fn game_tips_must_fit_their_bounds() {
    let ok = CreateGameTipRequest {
        header: "More quizzes".to_string(),
        mobile_phone: "12345678".to_string(),
        description: "A tip".to_string(),
    };
    assert!(ok.validate().is_ok());
    let mut bad = ok.clone();
    bad.header = String::new();
    assert_eq!(bad.validate().unwrap_err(), "Header must be 1 to 100 characters");
    let mut bad = ok.clone();
    bad.mobile_phone = "1".repeat(21);
    assert_eq!(bad.validate().unwrap_err(), "Mobile phone must be 1 to 20 characters");
    let mut bad = ok;
    bad.description = "d".repeat(301);
    assert_eq!(bad.validate().unwrap_err(), "Description must be 1 to 300 characters");
}

#[test]
fn json_bodies_are_recognized_by_content_type() {
    assert!(content_type_is_json(Some(&"application/json".to_string())));
    assert!(content_type_is_json(Some(&"application/json; charset=utf-8".to_string())));
    assert!(!content_type_is_json(Some(&"text/plain".to_string())));
    assert!(!content_type_is_json(None));
}
