//! The entry points of the orchestrator.
//!
//! Each entry point takes the orchestrator's state and one inbound message
//! and decides: it moves the state on and answers with the effect that the
//! host has to carry out. Sending, parking and waking are the host's part.
//!
//! A turn that needs the word service runs in three steps. `handle` answers
//! with the request to forward; the host sends it, reports the identity of
//! the sent message through `request_sent`, schedules the timeout check it
//! is handed, and parks the player's message. When the word service
//! answers, `handle_reply` keeps the answer in the session and names the
//! parked message; the host wakes it, and the message runs through `handle`
//! once more, which now finds the answer and settles the turn.

use vstd::prelude::*;
use crate::game::{
    word_fault, GameSession, GameSessionInit, GameSessionState, GameSessionView, Validatable,
};
use crate::ids::{same_id, ActorId, MessageId};
use crate::protocol::{
    player_event, GameSessionAction, GameSessionActionView, GameSessionEvent, GameSessionEventView,
    GameStatus, WordleAction, WordleActionView, WordleEvent, WordleEventView,
};
use crate::session::{SessionInfoView, SessionStatus, SessionStatusView, TRIES_LIMIT};

verus! {

/// How long after a game's start its timeout check is delivered, in blocks.
pub const TIMEOUT_DELAY: u32 = 200;

/// What the host knows of the message that is being handled.
#[derive(Debug, Clone, Copy, PartialEq, Eq)]
pub struct MessageContext {
    /// Who sent the message.
    pub source: ActorId,
    /// The identity of the message.
    pub message_id: MessageId,
    /// The identity of the orchestrator itself.
    pub program_id: ActorId,
}

/// Why an action was turned down. The state is left as it was.
#[derive(Debug, Clone, Copy, PartialEq, Eq)]
pub enum HandleError {
    /// The guess has not the shape of a word; the text says why.
    InvalidWord(&'static str),
    /// A game can only start when none is on.
    UserInGame,
    /// A guess needs a game that is on.
    UserNotInGame,
}

/// The mathematical value of a [`HandleError`].
pub ghost enum HandleErrorView {
    InvalidWord(Seq<char>),
    UserInGame,
    UserNotInGame,
}

impl View for HandleError {
    type V = HandleErrorView;

    open spec fn view(&self) -> HandleErrorView {
        match *self {
            HandleError::InvalidWord(message) => HandleErrorView::InvalidWord(message@),
            HandleError::UserInGame => HandleErrorView::UserInGame,
            HandleError::UserNotInGame => HandleErrorView::UserNotInGame,
        }
    }
}

impl HandleError {
    /// The complaint in words.
    pub fn message(&self) -> (text: &'static str)
        ensures
            text@ == match self@ {
                HandleErrorView::InvalidWord(message) => message,
                HandleErrorView::UserInGame => "The user is in the game"@,
                HandleErrorView::UserNotInGame => "The user is not in the game"@,
            },
    {
        match self {
            HandleError::InvalidWord(message) => message,
            HandleError::UserInGame => "The user is in the game",
            HandleError::UserNotInGame => "The user is not in the game",
        }
    }
}

/// What the host has to do once an action was handled.
#[derive(Debug, PartialEq, Eq)]
pub enum Outcome {
    /// Answer the message with this event.
    Reply(GameSessionEvent),
    /// Send this request to the word service, hand the identity of the sent
    /// message to `request_sent`, and park the message until it is woken.
    Forward { service: ActorId, request: WordleAction },
    /// Send this event to the player as a message of its own.
    Notify { user: ActorId, event: GameSessionEvent },
    /// Nothing at all.
    Nothing,
}

/// The mathematical value of an [`Outcome`].
pub ghost enum OutcomeView {
    Reply(GameSessionEventView),
    Forward { service: ActorId, request: WordleActionView },
    Notify { user: ActorId, event: GameSessionEventView },
    Nothing,
}

impl View for Outcome {
    type V = OutcomeView;

    open spec fn view(&self) -> OutcomeView {
        match *self {
            Outcome::Reply(event) => OutcomeView::Reply(event@),
            Outcome::Forward { service, request } => OutcomeView::Forward {
                service,
                request: request@,
            },
            Outcome::Notify { user, event } => OutcomeView::Notify { user, event: event@ },
            Outcome::Nothing => OutcomeView::Nothing,
        }
    }
}

/// The value of what `handle` returns.
pub open spec fn handled(result: Result<Outcome, HandleError>) -> Result<
    OutcomeView,
    HandleErrorView,
> {
    match result {
        Ok(outcome) => Ok(outcome@),
        Err(error) => Err(error@),
    }
}

/// A message the orchestrator sends to itself, to be delivered later.
#[derive(Debug, PartialEq, Eq)]
pub struct DelayedCheck {
    /// The action to deliver: the timeout check of the game just started.
    pub action: GameSessionAction,
    /// The number of blocks to wait before delivery.
    pub delay: u32,
}

/// The mathematical value of a [`DelayedCheck`].
pub ghost struct DelayedCheckView {
    pub action: GameSessionActionView,
    pub delay: u32,
}

impl View for DelayedCheck {
    type V = DelayedCheckView;

    open spec fn view(&self) -> DelayedCheckView {
        DelayedCheckView { action: self.action@, delay: self.delay }
    }
}

/// The value of what `request_sent` returns.
pub open spec fn scheduled(check: Option<DelayedCheck>) -> Option<DelayedCheckView> {
    match check {
        Some(check) => Some(check@),
        None => None,
    }
}

/// A player asks for a new game.
///
/// Where the word service's acknowledgement of an earlier start waits to be
/// picked up, it is handed out and the game goes on. Where no game is on,
/// the word service is asked to start one; the session changes once that
/// request was sent. In every other state the player is in a game, and is
/// turned down.
pub open spec fn start_game_step(game: GameSessionView, user: ActorId) -> (
    GameSessionView,
    Result<OutcomeView, HandleErrorView>,
) {
    let session = game.session(user);
    match session.session_status {
        SessionStatusView::ReplyReceived(WordleEventView::GameStarted { user: started }) => (
            game.with_session(user, session.with_status(SessionStatusView::InProgress)),
            Ok(OutcomeView::Reply(player_event(WordleEventView::GameStarted { user: started }))),
        ),
        SessionStatusView::Init | SessionStatusView::GameOver(_) => (
            game,
            Ok(
                OutcomeView::Forward {
                    service: game.wordle_program_id,
                    request: WordleActionView::StartGame { user },
                },
            ),
        ),
        _ => (game, Err(HandleErrorView::UserInGame)),
    }
}

/// What the shape check of a guess found, as a value: nothing, or the
/// complaint.
pub open spec fn found_fault(checked: Result<(), &'static str>) -> Option<Seq<char>> {
    match checked {
        Ok(_) => None,
        Err(message) => Some(message@),
    }
}

/// A player submits a guess, and the check of its shape found `fault`.
///
/// A word of the wrong shape is turned down before anything else. An
/// answer that waits to be picked up settles the turn: the guess is
/// counted; if that was the last guess the game is lost, else if the answer
/// reports a full match the game is won, else the answer is handed out and
/// the game goes on. With a game in progress the guess goes to the word
/// service. With no game on the player is turned down.
pub open spec fn submit_guess_step(
    game: GameSessionView,
    user: ActorId,
    word: Seq<char>,
    fault: Option<Seq<char>>,
) -> (GameSessionView, Result<OutcomeView, HandleErrorView>) {
    let session = game.session(user);
    if let Some(complaint) = fault {
        (game, Err(HandleErrorView::InvalidWord(complaint)))
    } else {
        match session.session_status {
            SessionStatusView::ReplyReceived(answer) => {
                let counted = session.with_tries((session.tries + 1) as u8);
                if counted.tries == TRIES_LIMIT {
                    (
                        game.with_session(
                            user,
                            counted.with_status(SessionStatusView::GameOver(GameStatus::Lose)),
                        ),
                        Ok(OutcomeView::Reply(GameSessionEventView::GameOver(GameStatus::Lose))),
                    )
                } else if answer.has_guessed() {
                    (
                        game.with_session(
                            user,
                            counted.with_status(SessionStatusView::GameOver(GameStatus::Win)),
                        ),
                        Ok(OutcomeView::Reply(GameSessionEventView::GameOver(GameStatus::Win))),
                    )
                } else {
                    (
                        game.with_session(user, counted.with_status(SessionStatusView::InProgress)),
                        Ok(OutcomeView::Reply(player_event(answer))),
                    )
                }
            },
            SessionStatusView::InProgress => (
                game,
                Ok(
                    OutcomeView::Forward {
                        service: game.wordle_program_id,
                        request: WordleActionView::CheckWord { user, word },
                    },
                ),
            ),
            _ => (game, Err(HandleErrorView::UserNotInGame)),
        }
    }
}

/// A player submits a guess: the shape of the word is checked, and the
/// guess is taken from there.
pub open spec fn check_word_step(game: GameSessionView, user: ActorId, word: Seq<char>) -> (
    GameSessionView,
    Result<OutcomeView, HandleErrorView>,
) {
    submit_guess_step(game, user, word, word_fault(word))
}

/// Whether a timeout check ends the game of `user`: the orchestrator sent
/// the check to itself, the player has a session, the check names the game
/// that session is in, and that game has not ended.
pub open spec fn timeout_applies(
    game: GameSessionView,
    context: MessageContext,
    user: ActorId,
    session_id: MessageId,
) -> bool {
    &&& context.source == context.program_id
    &&& game.sessions.contains_key(user)
    &&& game.sessions[user].session_id == session_id
    &&& !(game.sessions[user].session_status is GameOver)
}

/// The timeout check of a game fires: where it applies the game is lost
/// and the player is told; else nothing happens.
pub open spec fn check_game_status_step(
    game: GameSessionView,
    context: MessageContext,
    user: ActorId,
    session_id: MessageId,
) -> (GameSessionView, Result<OutcomeView, HandleErrorView>) {
    if timeout_applies(game, context, user, session_id) {
        (
            game.with_session(
                user,
                game.sessions[user].with_status(SessionStatusView::GameOver(GameStatus::Lose)),
            ),
            Ok(
                OutcomeView::Notify {
                    user,
                    event: GameSessionEventView::GameOver(GameStatus::Lose),
                },
            ),
        )
    } else {
        (game, Ok(OutcomeView::Nothing))
    }
}

/// The state after an action was handled, and the effect asked of the host.
pub open spec fn handle_step(
    game: GameSessionView,
    context: MessageContext,
    action: GameSessionActionView,
) -> (GameSessionView, Result<OutcomeView, HandleErrorView>) {
    match action {
        GameSessionActionView::StartGame => start_game_step(game, context.source),
        GameSessionActionView::CheckWord(word) => check_word_step(game, context.source, word),
        GameSessionActionView::CheckGameStatus { user, session_id } => check_game_status_step(
            game,
            context,
            user,
            session_id,
        ),
    }
}

/// The request of a parked message went out to the word service.
///
/// A start request counts where the player may start a game: the session
/// then begins a new one, named after the parked message, with no guess
/// spent and in progress, and the timeout check of that game is to be
/// scheduled. A guess counts where the player's game is in progress: the
/// session then records the parked message and the sent request. A request
/// that does not count changes nothing.
pub open spec fn request_sent_step(
    game: GameSessionView,
    context: MessageContext,
    request: WordleActionView,
    sent_id: MessageId,
) -> (GameSessionView, Option<DelayedCheckView>) {
    match request {
        WordleActionView::StartGame { user } => {
            if game.session(user).can_start_new_game() {
                (
                    game.with_session(
                        user,
                        SessionInfoView {
                            session_id: context.message_id,
                            original_msg_id: context.message_id,
                            send_to_wordle_msg_id: sent_id,
                            tries: 0,
                            session_status: SessionStatusView::InProgress,
                        },
                    ),
                    Some(
                        DelayedCheckView {
                            action: GameSessionActionView::CheckGameStatus {
                                user,
                                session_id: context.message_id,
                            },
                            delay: TIMEOUT_DELAY,
                        },
                    ),
                )
            } else {
                (game, None)
            }
        },
        WordleActionView::CheckWord { user, .. } => {
            if game.sessions.contains_key(user) && game.sessions[user].session_status
                is InProgress {
                (
                    game.with_session(
                        user,
                        game.sessions[user].with_message_ids(context.message_id, sent_id),
                    ),
                    None,
                )
            } else {
                (game, None)
            }
        },
    }
}

/// Whether an answer of the word service is the one a session waits for:
/// the player it is about has a session, that session is in progress, and
/// the answer replies to the request the session sent last.
pub open spec fn reply_applies(
    game: GameSessionView,
    reply_to: MessageId,
    answer: WordleEventView,
) -> bool {
    &&& game.sessions.contains_key(answer.user())
    &&& game.sessions[answer.user()].send_to_wordle_msg_id == reply_to
    &&& game.sessions[answer.user()].session_status is InProgress
}

/// An answer of the word service arrives: the session that waits for it
/// keeps it, and the parked message is to be woken. Any other answer is
/// dropped.
pub open spec fn handle_reply_step(
    game: GameSessionView,
    reply_to: MessageId,
    answer: WordleEventView,
) -> (GameSessionView, Option<MessageId>) {
    if reply_applies(game, reply_to, answer) {
        let session = game.sessions[answer.user()];
        (
            game.with_session(
                answer.user(),
                session.with_status(SessionStatusView::ReplyReceived(answer)),
            ),
            Some(session.original_msg_id),
        )
    } else {
        (game, None)
    }
}

/// Sets the orchestrator up for the word service named in `game_session_init`,
/// which must not be the all-zero identity.
pub fn init(game_session_init: GameSessionInit) -> (made: Result<GameSession, &'static str>)
    ensures
        match made {
            Ok(game_session) => game_session_init.valid() && game_session@
                == GameSessionView::fresh(game_session_init.wordle_program_id),
            Err(message) => !game_session_init.valid() && message@
                == game_session_init.error_text(),
        },
{
    if !game_session_init.validate() {
        return Err(game_session_init.validation_error());
    }
    Ok(GameSession::from(game_session_init))
}

/// A player asks for a new game.
pub fn start_game(game_session: &mut GameSession, user: ActorId) -> (result: Result<
    Outcome,
    HandleError,
>)
    ensures
        (final(game_session)@, handled(result)) == start_game_step(old(game_session)@, user),
{
    let service = game_session.wordle_program_id();
    let result = match game_session.sessions.get_mut(&user) {
        Some(session_info) => {
            match &session_info.session_status {
                SessionStatus::ReplyReceived(wordle_event) => {
                    if matches!(wordle_event, WordleEvent::GameStarted { .. }) {
                        let event = GameSessionEvent::from(wordle_event);
                        session_info.session_status = SessionStatus::InProgress;
                        Ok(Outcome::Reply(event))
                    } else {
                        Err(HandleError::UserInGame)
                    }
                },
                _ => {
                    if session_info.can_start_new_game() {
                        Ok(
                            Outcome::Forward {
                                service,
                                request: WordleAction::new_start_game(user),
                            },
                        )
                    } else {
                        Err(HandleError::UserInGame)
                    }
                },
            }
        },
        None => Ok(Outcome::Forward { service, request: WordleAction::new_start_game(user) }),
    };
    proof {
        let before = old(game_session)@;
        if !(before.session(user).session_status matches SessionStatusView::ReplyReceived(
            WordleEventView::GameStarted { .. },
        )) {
            assert(game_session@.sessions =~= before.sessions);
        }
    }
    result
}

/// A player submits a guess whose shape was checked with the outcome
/// `checked`.
pub fn submit_guess(
    game_session: &mut GameSession,
    user: ActorId,
    word: String,
    checked: Result<(), &'static str>,
) -> (result: Result<Outcome, HandleError>)
    requires
        checked is Ok ==> old(game_session)@.can_count_guess(user),
    ensures
        (final(game_session)@, handled(result)) == submit_guess_step(
            old(game_session)@,
            user,
            word@,
            found_fault(checked),
        ),
{
    let service = game_session.wordle_program_id();
    if let Err(message) = checked {
        return Err(HandleError::InvalidWord(message));
    }
    let result = match game_session.sessions.get_mut(&user) {
        Some(session_info) => {
            match &session_info.session_status {
                SessionStatus::ReplyReceived(wordle_event) => {
                    let event_copy = wordle_event.clone();
                    let has_guessed = event_copy.has_guessed();
                    if session_info.increment_tries() == TRIES_LIMIT {
                        session_info.session_status = SessionStatus::GameOver(GameStatus::Lose);
                        Ok(Outcome::Reply(GameSessionEvent::game_over(GameStatus::Lose)))
                    } else if has_guessed {
                        session_info.session_status = SessionStatus::GameOver(GameStatus::Win);
                        Ok(Outcome::Reply(GameSessionEvent::game_over(GameStatus::Win)))
                    } else {
                        session_info.session_status = SessionStatus::InProgress;
                        Ok(Outcome::Reply(GameSessionEvent::from(&event_copy)))
                    }
                },
                SessionStatus::InProgress => Ok(
                    Outcome::Forward { service, request: WordleAction::new_check_word(user, word) },
                ),
                _ => Err(HandleError::UserNotInGame),
            }
        },
        None => Err(HandleError::UserNotInGame),
    };
    proof {
        let before = old(game_session)@;
        if !(before.session(user).session_status is ReplyReceived) {
            assert(game_session@.sessions =~= before.sessions);
        }
    }
    result
}

/// A player submits a guess.
pub fn check_word(game_session: &mut GameSession, user: ActorId, word: String) -> (result: Result<
    Outcome,
    HandleError,
>)
    requires
        word_fault(word@) is None ==> old(game_session)@.can_count_guess(user),
    ensures
        (final(game_session)@, handled(result)) == check_word_step(
            old(game_session)@,
            user,
            word@,
        ),
{
    let checked = GameSession::validate_word(word.as_str());
    submit_guess(game_session, user, word, checked)
}

/// The timeout check of a game fires.
pub fn check_game_status(
    game_session: &mut GameSession,
    context: &MessageContext,
    user: ActorId,
    session_id: MessageId,
) -> (result: Result<Outcome, HandleError>)
    ensures
        (final(game_session)@, handled(result)) == check_game_status_step(
            old(game_session)@,
            *context,
            user,
            session_id,
        ),
{
    if !same_id(&context.source, &context.program_id) {
        return Ok(Outcome::Nothing);
    }
    let result = match game_session.sessions.get_mut(&user) {
        Some(session_info) => {
            if same_id(&session_id, &session_info.session_id) && !session_info.is_game_over() {
                session_info.session_status = SessionStatus::GameOver(GameStatus::Lose);
                Ok(Outcome::Notify { user, event: GameSessionEvent::game_over(GameStatus::Lose) })
            } else {
                Ok(Outcome::Nothing)
            }
        },
        None => Ok(Outcome::Nothing),
    };
    proof {
        let before = old(game_session)@;
        if !timeout_applies(before, *context, user, session_id) {
            assert(game_session@.sessions =~= before.sessions);
        }
    }
    result
}

/// Whether `handle` can take `action`: a guess that is to be counted, a
/// well-shaped one that meets a waiting answer, needs room in the count,
/// which is a `u8`. In a well-formed state there always is room.
pub open spec fn can_handle(
    game: GameSessionView,
    context: MessageContext,
    action: GameSessionActionView,
) -> bool {
    action matches GameSessionActionView::CheckWord(word) ==> (word_fault(word) is None
        ==> game.can_count_guess(context.source))
}

/// Handles one action of a player or of the orchestrator's own timer.
pub fn handle(
    game_session: &mut GameSession,
    context: &MessageContext,
    action: GameSessionAction,
) -> (result: Result<Outcome, HandleError>)
    requires
        can_handle(old(game_session)@, *context, action@),
    ensures
        (final(game_session)@, handled(result)) == handle_step(
            old(game_session)@,
            *context,
            action@,
        ),
        result is Err ==> final(game_session)@ == old(game_session)@,
        old(game_session)@.wf() ==> final(game_session)@.wf(),
{
    match action {
        GameSessionAction::StartGame => start_game(game_session, context.source),
        GameSessionAction::CheckWord(word) => check_word(game_session, context.source, word),
        GameSessionAction::CheckGameStatus { user, session_id } => check_game_status(
            game_session,
            context,
            user,
            session_id,
        ),
    }
}

/// Handles one action in any state: where `handle` can take the action it
/// is handled, else nothing happens and nothing is returned.
pub fn try_handle(
    game_session: &mut GameSession,
    context: &MessageContext,
    action: GameSessionAction,
) -> (result: Option<Result<Outcome, HandleError>>)
    ensures
        result is Some == can_handle(old(game_session)@, *context, action@),
        result is Some ==> (final(game_session)@, handled(result->0)) == handle_step(
            old(game_session)@,
            *context,
            action@,
        ),
        result is None ==> final(game_session)@ == old(game_session)@,
        old(game_session)@.wf() ==> result is Some && final(game_session)@.wf(),
{
    match action {
        GameSessionAction::CheckWord(word) => {
            let checked = GameSession::validate_word(word.as_str());
            let room = match checked {
                Ok(_) => game_session.can_count_guess(&context.source),
                Err(_) => true,
            };
            if room {
                Some(submit_guess(game_session, context.source, word, checked))
            } else {
                None
            }
        },
        other => Some(handle(game_session, context, other)),
    }
}

/// Records that the request of a parked message went out to the word
/// service as the message `sent_id`, and says which timeout check to
/// schedule before the message is parked, if any. A request that the state
/// of the player's session does not call for is not recorded.
pub fn request_sent(
    game_session: &mut GameSession,
    context: &MessageContext,
    request: &WordleAction,
    sent_id: MessageId,
) -> (check: Option<DelayedCheck>)
    ensures
        (final(game_session)@, scheduled(check)) == request_sent_step(
            old(game_session)@,
            *context,
            request@,
            sent_id,
        ),
        old(game_session)@.wf() ==> final(game_session)@.wf(),
{
    match request {
        WordleAction::StartGame { user } => {
            let may_start = match game_session.session(user) {
                Some(session_info) => session_info.can_start_new_game(),
                None => true,
            };
            if !may_start {
                return None;
            }
            let session_info = game_session.get_or_create_session(*user);
            session_info.session_id = context.message_id;
            session_info.update_message_ids(context.message_id, sent_id);
            session_info.tries = 0;
            session_info.session_status = SessionStatus::InProgress;
            Some(
                DelayedCheck {
                    action: GameSessionAction::CheckGameStatus {
                        user: *user,
                        session_id: context.message_id,
                    },
                    delay: TIMEOUT_DELAY,
                },
            )
        },
        WordleAction::CheckWord { user, .. } => {
            if let Some(session_info) = game_session.sessions.get_mut(user) {
                if session_info.is_wait_reply_status() {
                    session_info.update_message_ids(context.message_id, sent_id);
                }
            }
            proof {
                let before = old(game_session)@;
                if !(before.sessions.contains_key(*user) && before.sessions[*user].session_status
                    is InProgress) {
                    assert(game_session@.sessions =~= before.sessions);
                }
            }
            None
        },
    }
}

/// Handles an answer of the word service to the request `reply_to`, and
/// says which parked message to wake, if any.
pub fn handle_reply(
    game_session: &mut GameSession,
    reply_to: MessageId,
    wordle_event: WordleEvent,
) -> (wake: Option<MessageId>)
    ensures
        (final(game_session)@, wake) == handle_reply_step(
            old(game_session)@,
            reply_to,
            wordle_event@,
        ),
        old(game_session)@.wf() ==> final(game_session)@.wf(),
{
    let user = *wordle_event.get_user();
    let wake = match game_session.sessions.get_mut(&user) {
        Some(session_info) => {
            if same_id(&reply_to, &session_info.send_to_wordle_msg_id)
                && session_info.is_wait_reply_status() {
                session_info.session_status = SessionStatus::ReplyReceived(wordle_event);
                Some(session_info.original_msg_id)
            } else {
                None
            }
        },
        None => None,
    };
    proof {
        let before = old(game_session)@;
        if !reply_applies(before, reply_to, wordle_event@) {
            assert(game_session@.sessions =~= before.sessions);
        }
    }
    wake
}

/// Reports the orchestrator's state.
pub fn state(game_session: &GameSession) -> (report: GameSessionState)
    ensures
        report.reports(game_session@),
{
    GameSessionState::from(game_session)
}

} // verus!
