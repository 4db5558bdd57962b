use game_session::game::{GameSession, GameSessionInit};
use game_session::ids::{ActorId, MessageId};
use game_session::orchestrator::{
    check_game_status, check_word, handle, handle_reply, request_sent, start_game, state,
    submit_guess, try_handle, DelayedCheck, HandleError, MessageContext, Outcome, TIMEOUT_DELAY,
};
use game_session::protocol::{
    GameSessionAction, GameSessionEvent, GameStatus, WordleAction, WordleEvent,
};
use game_session::session::{SessionInfo, SessionStatus};

const PROGRAM: u64 = 1;
const SERVICE: u64 = 2;
const USER: u64 = 3;
const OTHER: u64 = 4;

fn actor(id: u64) -> ActorId {
    gstd::ActorId::from(id).into_bytes()
}

fn message(id: u64) -> MessageId {
    gstd::MessageId::from(id).into_bytes()
}

fn context(source: u64, message_id: u64) -> MessageContext {
    MessageContext { source: actor(source), message_id: message(message_id), program_id: actor(PROGRAM) }
}

fn new_game() -> GameSession {
    GameSession::from(GameSessionInit { wordle_program_id: actor(SERVICE) })
}

fn started() -> WordleEvent {
    WordleEvent::GameStarted { user: actor(USER) }
}

fn full_match() -> WordleEvent {
    WordleEvent::WordChecked {
        user: actor(USER),
        correct_positions: vec![0, 1, 2, 3, 4],
        contained_in_word: vec![],
    }
}

fn partial_match() -> WordleEvent {
    WordleEvent::WordChecked {
        user: actor(USER),
        correct_positions: vec![0],
        contained_in_word: vec![3],
    }
}

/// A game whose one session, of `USER`, is as given.
fn game_with(tries: u8, status: SessionStatus) -> GameSession {
    let mut game = new_game();
    let session = game.get_or_create_session(actor(USER));
    session.session_id = message(10);
    session.original_msg_id = message(11);
    session.send_to_wordle_msg_id = message(12);
    session.tries = tries;
    session.session_status = status;
    game
}

fn session_of(game: &GameSession) -> SessionInfo {
    game.session(&actor(USER)).expect("the player has a session").clone()
}

fn guess(word: &str) -> GameSessionAction {
    GameSessionAction::CheckWord(word.to_string())
}

#[test]
fn first_start_asks_the_service_and_changes_nothing_yet() {
    let mut game = new_game();
    let outcome = handle(&mut game, &context(USER, 20), GameSessionAction::StartGame);
    assert_eq!(
        outcome,
        Ok(Outcome::Forward {
            service: actor(SERVICE),
            request: WordleAction::StartGame { user: actor(USER) },
        })
    );
    assert!(game.session(&actor(USER)).is_none());
    assert!(state(&game).game_sessions.is_empty());
}

#[test]
fn sent_start_request_begins_the_game() {
    for status in [
        SessionStatus::Init,
        SessionStatus::GameOver(GameStatus::Win),
        SessionStatus::GameOver(GameStatus::Lose),
    ] {
        let mut game = game_with(5, status);
        let outcome = start_game(&mut game, actor(USER));
        assert_eq!(
            outcome,
            Ok(Outcome::Forward {
                service: actor(SERVICE),
                request: WordleAction::StartGame { user: actor(USER) },
            })
        );
        assert_eq!(session_of(&game).tries, 5);

        let check = request_sent(
            &mut game,
            &context(USER, 20),
            &WordleAction::StartGame { user: actor(USER) },
            message(21),
        );
        assert_eq!(
            check,
            Some(DelayedCheck {
                action: GameSessionAction::CheckGameStatus {
                    user: actor(USER),
                    session_id: message(20),
                },
                delay: 200,
            })
        );
        assert_eq!(
            session_of(&game),
            SessionInfo {
                session_id: message(20),
                original_msg_id: message(20),
                send_to_wordle_msg_id: message(21),
                tries: 0,
                session_status: SessionStatus::InProgress,
            }
        );
    }
    assert_eq!(TIMEOUT_DELAY, 200);
}

#[test]
fn sent_start_request_creates_the_session_of_a_new_player() {
    let mut game = new_game();
    let check = request_sent(
        &mut game,
        &context(USER, 20),
        &WordleAction::StartGame { user: actor(USER) },
        message(21),
    );
    assert!(check.is_some());
    assert_eq!(session_of(&game).session_status, SessionStatus::InProgress);
    assert_eq!(session_of(&game).send_to_wordle_msg_id, message(21));
    assert_eq!(state(&game).game_sessions.len(), 1);
}

#[test]
fn start_in_a_running_game_is_turned_down() {
    for status in [SessionStatus::InProgress, SessionStatus::ReplyReceived(partial_match())] {
        let mut game = game_with(2, status);
        let before = session_of(&game);
        let outcome = handle(&mut game, &context(USER, 20), GameSessionAction::StartGame);
        assert_eq!(outcome, Err(HandleError::UserInGame));
        assert_eq!(session_of(&game), before);
        assert_eq!(state(&game).game_sessions.len(), 1);
    }
    assert_eq!(HandleError::UserInGame.message(), "The user is in the game");
}

#[test]
fn start_picks_up_the_waiting_acknowledgement() {
    let mut game = game_with(0, SessionStatus::ReplyReceived(started()));
    let outcome = handle(&mut game, &context(USER, 20), GameSessionAction::StartGame);
    assert_eq!(outcome, Ok(Outcome::Reply(GameSessionEvent::StartSuccess)));
    let session = session_of(&game);
    assert_eq!(session.session_status, SessionStatus::InProgress);
    assert_eq!(session.tries, 0);
    assert_eq!(session.session_id, message(10));
    assert_eq!(session.original_msg_id, message(11));
    assert_eq!(session.send_to_wordle_msg_id, message(12));
}

#[test]
fn guess_without_a_game_is_turned_down() {
    let mut game = new_game();
    assert_eq!(
        handle(&mut game, &context(USER, 20), guess("horse")),
        Err(HandleError::UserNotInGame)
    );
    assert!(game.session(&actor(USER)).is_none());

    for status in [SessionStatus::Init, SessionStatus::GameOver(GameStatus::Win)] {
        let mut game = game_with(1, status);
        let before = session_of(&game);
        assert_eq!(
            check_word(&mut game, actor(USER), "horse".to_string()),
            Err(HandleError::UserNotInGame)
        );
        assert_eq!(session_of(&game), before);
    }
    assert_eq!(HandleError::UserNotInGame.message(), "The user is not in the game");
}

#[test]
fn malformed_guess_is_turned_down_in_every_state() {
    let statuses = [
        SessionStatus::Init,
        SessionStatus::InProgress,
        SessionStatus::ReplyReceived(full_match()),
        SessionStatus::GameOver(GameStatus::Lose),
    ];
    for status in statuses {
        let mut game = game_with(1, status);
        let before = session_of(&game);
        let outcome = handle(&mut game, &context(USER, 20), guess("ab@cd"));
        assert_eq!(
            outcome,
            Err(HandleError::InvalidWord("Word must contain only lowercase letters"))
        );
        let outcome = handle(&mut game, &context(USER, 20), guess("abcdef"));
        assert_eq!(outcome, Err(HandleError::InvalidWord("Word must be 5 characters long")));
        assert_eq!(session_of(&game), before);
    }
    assert_eq!(
        HandleError::InvalidWord("Word must be 5 characters long").message(),
        "Word must be 5 characters long"
    );
}

#[test]
fn guess_in_a_running_game_goes_to_the_service() {
    let mut game = game_with(1, SessionStatus::InProgress);
    let before = session_of(&game);
    let outcome = handle(&mut game, &context(USER, 20), guess("horse"));
    assert_eq!(
        outcome,
        Ok(Outcome::Forward {
            service: actor(SERVICE),
            request: WordleAction::CheckWord { user: actor(USER), word: "horse".to_string() },
        })
    );
    assert_eq!(session_of(&game), before);

    let check = request_sent(
        &mut game,
        &context(USER, 20),
        &WordleAction::CheckWord { user: actor(USER), word: "horse".to_string() },
        message(21),
    );
    assert_eq!(check, None);
    assert_eq!(
        session_of(&game),
        SessionInfo {
            session_id: message(10),
            original_msg_id: message(20),
            send_to_wordle_msg_id: message(21),
            tries: 1,
            session_status: SessionStatus::InProgress,
        }
    );
}

#[test]
fn sent_guess_of_an_unknown_player_records_nothing() {
    let mut game = new_game();
    let check = request_sent(
        &mut game,
        &context(USER, 20),
        &WordleAction::CheckWord { user: actor(USER), word: "horse".to_string() },
        message(21),
    );
    assert_eq!(check, None);
    assert!(game.session(&actor(USER)).is_none());
}

#[test]
fn scored_guess_is_counted_and_handed_out() {
    let mut game = game_with(1, SessionStatus::ReplyReceived(partial_match()));
    let outcome = handle(&mut game, &context(USER, 20), guess("horse"));
    assert_eq!(
        outcome,
        Ok(Outcome::Reply(GameSessionEvent::CheckWordResult {
            correct_positions: vec![0],
            contained_in_word: vec![3],
            positions: vec![0],
            contains: vec![3],
        }))
    );
    let session = session_of(&game);
    assert_eq!(session.tries, 2);
    assert_eq!(session.session_status, SessionStatus::InProgress);
    assert_eq!(session.session_id, message(10));
}

#[test]
fn full_match_wins_before_the_last_try_and_loses_on_it() {
    for tries in 0..5u8 {
        let mut game = game_with(tries, SessionStatus::ReplyReceived(full_match()));
        let outcome = handle(&mut game, &context(USER, 20), guess("horse"));
        if tries + 1 < 5 {
            assert_eq!(outcome, Ok(Outcome::Reply(GameSessionEvent::GameOver(GameStatus::Win))));
            assert_eq!(
                session_of(&game).session_status,
                SessionStatus::GameOver(GameStatus::Win)
            );
        } else {
            assert_eq!(outcome, Ok(Outcome::Reply(GameSessionEvent::GameOver(GameStatus::Lose))));
        }
        assert_eq!(session_of(&game).tries, tries + 1);
    }
}

#[test]
fn last_try_loses_whatever_the_answer() {
    for answer in [full_match(), partial_match(), started()] {
        let mut game = game_with(4, SessionStatus::ReplyReceived(answer));
        let outcome = handle(&mut game, &context(USER, 20), guess("horse"));
        assert_eq!(outcome, Ok(Outcome::Reply(GameSessionEvent::GameOver(GameStatus::Lose))));
        let session = session_of(&game);
        assert_eq!(session.tries, 5);
        assert_eq!(session.session_status, SessionStatus::GameOver(GameStatus::Lose));
    }
}

#[test]
fn guess_may_pick_up_the_start_acknowledgement() {
    let mut game = game_with(0, SessionStatus::ReplyReceived(started()));
    let outcome = handle(&mut game, &context(USER, 20), guess("horse"));
    assert_eq!(outcome, Ok(Outcome::Reply(GameSessionEvent::StartSuccess)));
    assert_eq!(session_of(&game).tries, 1);
    assert_eq!(session_of(&game).session_status, SessionStatus::InProgress);
}

#[test]
fn tries_stay_within_the_limit_over_a_long_run() {
    let mut game = new_game();
    let mut next = 100u64;
    for round in 0..40u64 {
        next += 2;
        let ctx = context(USER, next);
        let action = if round % 7 == 0 {
            GameSessionAction::StartGame
        } else {
            guess("table")
        };
        let mut outcome = handle(&mut game, &ctx, action.clone());
        if let Ok(Outcome::Forward { request, .. }) = &outcome {
            request_sent(&mut game, &ctx, request, message(next + 1));
            let answer = match request {
                WordleAction::StartGame { user } => WordleEvent::GameStarted { user: *user },
                WordleAction::CheckWord { .. } => partial_match(),
            };
            assert_eq!(handle_reply(&mut game, message(next + 1), answer), Some(message(next)));
            outcome = handle(&mut game, &ctx, action);
            assert!(matches!(outcome, Ok(Outcome::Reply(_))));
        }
        if let Some(session) = game.session(&actor(USER)) {
            assert!(session.tries <= 5);
            assert!(!session.session_status.is_active() || session.tries < 5);
        }
    }
    assert_eq!(session_of(&game).session_status, SessionStatus::InProgress);
    assert_eq!(session_of(&game).tries, 4);
}

#[test]
fn timeout_of_another_game_is_ignored() {
    let mut game = game_with(2, SessionStatus::InProgress);
    let before = session_of(&game);
    let outcome = handle(
        &mut game,
        &context(PROGRAM, 30),
        GameSessionAction::CheckGameStatus { user: actor(USER), session_id: message(99) },
    );
    assert_eq!(outcome, Ok(Outcome::Nothing));
    assert_eq!(session_of(&game), before);
}

#[test]
fn timeout_for_an_unknown_player_is_ignored() {
    let mut game = new_game();
    let outcome =
        check_game_status(&mut game, &context(PROGRAM, 30), actor(USER), [0u8; 32]);
    assert_eq!(outcome, Ok(Outcome::Nothing));
    assert!(game.session(&actor(USER)).is_none());
}

#[test]
fn timeout_from_anyone_but_the_orchestrator_is_ignored() {
    let mut game = game_with(2, SessionStatus::InProgress);
    let before = session_of(&game);
    for sender in [USER, SERVICE, OTHER] {
        let outcome = handle(
            &mut game,
            &context(sender, 30),
            GameSessionAction::CheckGameStatus { user: actor(USER), session_id: message(10) },
        );
        assert_eq!(outcome, Ok(Outcome::Nothing));
        assert_eq!(session_of(&game), before);
    }
}

#[test]
fn timeout_loses_an_unresolved_game() {
    for status in [
        SessionStatus::Init,
        SessionStatus::InProgress,
        SessionStatus::ReplyReceived(full_match()),
    ] {
        let mut game = game_with(2, status);
        let outcome = handle(
            &mut game,
            &context(PROGRAM, 30),
            GameSessionAction::CheckGameStatus { user: actor(USER), session_id: message(10) },
        );
        assert_eq!(
            outcome,
            Ok(Outcome::Notify {
                user: actor(USER),
                event: GameSessionEvent::GameOver(GameStatus::Lose),
            })
        );
        let session = session_of(&game);
        assert_eq!(session.session_status, SessionStatus::GameOver(GameStatus::Lose));
        assert_eq!(session.tries, 2);
        assert_eq!(session.session_id, message(10));
    }
}

#[test]
fn timeout_leaves_a_finished_game_as_it_ended() {
    let mut game = game_with(3, SessionStatus::GameOver(GameStatus::Win));
    let outcome = handle(
        &mut game,
        &context(PROGRAM, 30),
        GameSessionAction::CheckGameStatus { user: actor(USER), session_id: message(10) },
    );
    assert_eq!(outcome, Ok(Outcome::Nothing));
    assert_eq!(session_of(&game).session_status, SessionStatus::GameOver(GameStatus::Win));
}

#[test]
fn awaited_answer_is_kept_and_wakes_the_parked_message() {
    let mut game = game_with(1, SessionStatus::InProgress);
    let wake = handle_reply(&mut game, message(12), partial_match());
    assert_eq!(wake, Some(message(11)));
    let session = session_of(&game);
    assert_eq!(session.session_status, SessionStatus::ReplyReceived(partial_match()));
    assert_eq!(session.tries, 1);
    assert_eq!(session.send_to_wordle_msg_id, message(12));
}

#[test]
fn answer_to_another_request_is_dropped() {
    let mut game = game_with(1, SessionStatus::InProgress);
    let before = session_of(&game);
    assert_eq!(handle_reply(&mut game, message(13), partial_match()), None);
    assert_eq!(handle_reply(&mut game, message(11), partial_match()), None);
    assert_eq!(session_of(&game), before);
}

#[test]
fn second_answer_to_the_same_request_is_dropped() {
    let mut game = game_with(1, SessionStatus::InProgress);
    assert_eq!(handle_reply(&mut game, message(12), partial_match()), Some(message(11)));
    assert_eq!(handle_reply(&mut game, message(12), full_match()), None);
    assert_eq!(
        session_of(&game).session_status,
        SessionStatus::ReplyReceived(partial_match())
    );
}

#[test]
fn answer_outside_a_running_game_is_dropped() {
    for status in [SessionStatus::Init, SessionStatus::GameOver(GameStatus::Lose)] {
        let mut game = game_with(1, status);
        let before = session_of(&game);
        assert_eq!(handle_reply(&mut game, message(12), full_match()), None);
        assert_eq!(session_of(&game), before);
    }
    let mut game = new_game();
    assert_eq!(handle_reply(&mut game, message(12), full_match()), None);
    assert!(state(&game).game_sessions.is_empty());
}

#[test]
fn answer_about_one_player_leaves_the_others_alone() {
    let mut game = game_with(1, SessionStatus::InProgress);
    {
        let other = game.get_or_create_session(actor(OTHER));
        other.send_to_wordle_msg_id = message(12);
        other.original_msg_id = message(40);
        other.session_status = SessionStatus::InProgress;
    }
    let before = game.session(&actor(OTHER)).unwrap().clone();

    assert_eq!(handle_reply(&mut game, message(12), partial_match()), Some(message(11)));
    assert_eq!(*game.session(&actor(OTHER)).unwrap(), before);
    assert_eq!(
        session_of(&game).session_status,
        SessionStatus::ReplyReceived(partial_match())
    );

    let about_other = WordleEvent::GameStarted { user: actor(OTHER) };
    assert_eq!(handle_reply(&mut game, message(12), about_other.clone()), Some(message(40)));
    assert_eq!(
        game.session(&actor(OTHER)).unwrap().session_status,
        SessionStatus::ReplyReceived(about_other)
    );
    assert_eq!(
        session_of(&game).session_status,
        SessionStatus::ReplyReceived(partial_match())
    );
}

#[test]
fn players_do_not_share_sessions() {
    let mut game = game_with(3, SessionStatus::InProgress);
    let before = session_of(&game);
    let outcome = handle(&mut game, &context(OTHER, 50), GameSessionAction::StartGame);
    assert!(matches!(outcome, Ok(Outcome::Forward { .. })));
    request_sent(
        &mut game,
        &context(OTHER, 50),
        &WordleAction::StartGame { user: actor(OTHER) },
        message(51),
    );
    assert_eq!(session_of(&game), before);
    assert_eq!(game.session(&actor(OTHER)).unwrap().tries, 0);
    assert_eq!(state(&game).game_sessions.len(), 2);
}

#[test]
fn full_count_of_guesses_is_not_counted_further() {
    let mut game = game_with(255, SessionStatus::ReplyReceived(partial_match()));
    let before = session_of(&game);
    assert!(!game.can_count_guess(&actor(USER)));
    assert!(game.can_count_guess(&actor(OTHER)));
    assert_eq!(try_handle(&mut game, &context(USER, 20), guess("horse")), None);
    assert_eq!(session_of(&game), before);

    assert_eq!(
        try_handle(&mut game, &context(USER, 20), GameSessionAction::StartGame),
        Some(Err(HandleError::UserInGame))
    );
    assert_eq!(
        try_handle(&mut game, &context(OTHER, 20), guess("horse")),
        Some(Err(HandleError::UserNotInGame))
    );
}

#[test]
fn try_handle_handles_what_handle_handles() {
    let mut game = game_with(1, SessionStatus::ReplyReceived(full_match()));
    assert!(game.can_count_guess(&actor(USER)));
    assert_eq!(
        try_handle(&mut game, &context(USER, 20), guess("horse")),
        Some(Ok(Outcome::Reply(GameSessionEvent::GameOver(GameStatus::Win))))
    );
    assert_eq!(session_of(&game).tries, 2);

    let mut game = game_with(254, SessionStatus::ReplyReceived(partial_match()));
    assert!(game.can_count_guess(&actor(USER)));
    assert!(matches!(
        try_handle(&mut game, &context(USER, 20), guess("horse")),
        Some(Ok(Outcome::Reply(GameSessionEvent::CheckWordResult { .. })))
    ));
    assert_eq!(session_of(&game).tries, 255);
}

#[test]
fn full_count_does_not_stop_a_guess_that_is_not_counted() {
    let mut game = game_with(255, SessionStatus::InProgress);
    assert!(game.can_count_guess(&actor(USER)));
    assert_eq!(
        try_handle(&mut game, &context(USER, 20), guess("horse")),
        Some(Ok(Outcome::Forward {
            service: actor(SERVICE),
            request: WordleAction::CheckWord { user: actor(USER), word: "horse".to_string() },
        }))
    );
    assert_eq!(
        handle(&mut game, &context(USER, 20), guess("horse")),
        Ok(Outcome::Forward {
            service: actor(SERVICE),
            request: WordleAction::CheckWord { user: actor(USER), word: "horse".to_string() },
        })
    );

    let mut game = game_with(255, SessionStatus::ReplyReceived(partial_match()));
    let before = session_of(&game);
    assert_eq!(
        try_handle(&mut game, &context(USER, 20), guess("ab@cd")),
        Some(Err(HandleError::InvalidWord("Word must contain only lowercase letters")))
    );
    assert_eq!(
        handle(&mut game, &context(USER, 20), guess("abcd")),
        Err(HandleError::InvalidWord("Word must be 5 characters long"))
    );
    assert_eq!(session_of(&game), before);

    let mut game = game_with(255, SessionStatus::GameOver(GameStatus::Lose));
    assert!(game.can_count_guess(&actor(USER)));
    assert_eq!(
        try_handle(&mut game, &context(USER, 20), guess("horse")),
        Some(Err(HandleError::UserNotInGame))
    );
}

#[test]
fn submitted_guess_goes_by_the_outcome_of_the_shape_check() {
    let mut game = game_with(1, SessionStatus::ReplyReceived(full_match()));
    let before = session_of(&game);
    let turned_down = submit_guess(
        &mut game,
        actor(USER),
        "horse".to_string(),
        Err("Word must contain only lowercase letters"),
    );
    assert_eq!(
        turned_down,
        Err(HandleError::InvalidWord("Word must contain only lowercase letters"))
    );
    assert_eq!(session_of(&game), before);

    let settled = submit_guess(&mut game, actor(USER), "ab@cd".to_string(), Ok(()));
    assert_eq!(settled, Ok(Outcome::Reply(GameSessionEvent::GameOver(GameStatus::Win))));
    assert_eq!(session_of(&game).tries, 2);

    let mut game = game_with(1, SessionStatus::InProgress);
    let forwarded = submit_guess(&mut game, actor(USER), "phone".to_string(), Ok(()));
    assert_eq!(
        forwarded,
        Ok(Outcome::Forward {
            service: actor(SERVICE),
            request: WordleAction::CheckWord { user: actor(USER), word: "phone".to_string() },
        })
    );

    let mut game = new_game();
    assert_eq!(
        submit_guess(&mut game, actor(USER), "phone".to_string(), Ok(())),
        Err(HandleError::UserNotInGame)
    );
}

#[test]
fn repeated_position_in_the_answer_does_not_win() {
    let answer = WordleEvent::WordChecked {
        user: actor(USER),
        correct_positions: vec![0, 0, 0, 0, 0],
        contained_in_word: vec![],
    };
    let mut game = game_with(1, SessionStatus::ReplyReceived(answer));
    let outcome = handle(&mut game, &context(USER, 20), guess("horse"));
    assert_eq!(
        outcome,
        Ok(Outcome::Reply(GameSessionEvent::CheckWordResult {
            correct_positions: vec![0, 0, 0, 0, 0],
            contained_in_word: vec![],
            positions: vec![0, 0, 0, 0, 0],
            contains: vec![],
        }))
    );
    assert_eq!(session_of(&game).session_status, SessionStatus::InProgress);
    assert_eq!(session_of(&game).tries, 2);
}

#[test]
fn sent_start_request_does_not_restart_a_running_game() {
    for status in [
        SessionStatus::InProgress,
        SessionStatus::ReplyReceived(started()),
        SessionStatus::ReplyReceived(partial_match()),
    ] {
        let mut game = game_with(3, status);
        let before = session_of(&game);
        let check = request_sent(
            &mut game,
            &context(USER, 20),
            &WordleAction::StartGame { user: actor(USER) },
            message(21),
        );
        assert_eq!(check, None);
        assert_eq!(session_of(&game), before);
    }
}

#[test]
fn sent_guess_is_recorded_only_in_a_game_in_progress() {
    for status in [
        SessionStatus::Init,
        SessionStatus::ReplyReceived(partial_match()),
        SessionStatus::GameOver(GameStatus::Win),
    ] {
        let mut game = game_with(3, status);
        let before = session_of(&game);
        let check = request_sent(
            &mut game,
            &context(USER, 20),
            &WordleAction::CheckWord { user: actor(USER), word: "horse".to_string() },
            message(21),
        );
        assert_eq!(check, None);
        assert_eq!(session_of(&game), before);
    }
}
