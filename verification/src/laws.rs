//! What holds of the orchestrator whatever the messages and their order.

use vstd::prelude::*;
use crate::game::{word_fault, GameSessionView};
use crate::ids::{ActorId, MessageId};
use crate::orchestrator::{
    can_handle, check_word_step, handle_reply_step, handle_step, request_sent_step,
    submit_guess_step, HandleErrorView, MessageContext, OutcomeView,
};
use crate::protocol::{
    GameSessionActionView, GameSessionEventView, GameStatus, WordleActionView, WordleEventView,
};
use crate::session::{SessionStatusView, TRIES_LIMIT};

verus! {

/// One thing that can happen to the orchestrator.
pub ghost enum Input {
    /// A player or the timer sends an action.
    Action { context: MessageContext, action: GameSessionActionView },
    /// The host reports the request it sent on for a parked message.
    Sent { context: MessageContext, request: WordleActionView, sent_id: MessageId },
    /// The word service answers.
    Reply { reply_to: MessageId, answer: WordleEventView },
}

/// The state after one input.
pub open spec fn apply(game: GameSessionView, input: Input) -> GameSessionView {
    match input {
        Input::Action { context, action } => handle_step(game, context, action).0,
        Input::Sent { context, request, sent_id } => request_sent_step(
            game,
            context,
            request,
            sent_id,
        ).0,
        Input::Reply { reply_to, answer } => handle_reply_step(game, reply_to, answer).0,
    }
}

/// The state after a sequence of inputs, taken first to last.
pub open spec fn run(game: GameSessionView, inputs: Seq<Input>) -> GameSessionView
    decreases inputs.len(),
{
    if inputs.len() == 0 {
        game
    } else {
        apply(run(game, inputs.drop_last()), inputs.last())
    }
}

/// No input leads out of the well-formed states.
pub proof fn lemma_apply_keeps_wf(game: GameSessionView, input: Input)
    requires
        game.wf(),
    ensures
        apply(game, input).wf(),
{
}

/// Whatever happens, in whatever order, to an orchestrator that was just
/// initialised or is otherwise well formed: no session ever counts more
/// guesses than the limit, and a session whose game is on has a guess left.
pub proof fn lemma_tries_never_exceed_limit(
    game: GameSessionView,
    inputs: Seq<Input>,
    user: ActorId,
)
    requires
        game.wf(),
    ensures
        run(game, inputs).wf(),
        run(game, inputs).session(user).tries <= TRIES_LIMIT,
        run(game, inputs).session(user).session_status.is_active() ==> run(game, inputs).session(
            user,
        ).tries < TRIES_LIMIT,
    decreases inputs.len(),
{
    if inputs.len() > 0 {
        lemma_tries_never_exceed_limit(game, inputs.drop_last(), user);
        lemma_apply_keeps_wf(run(game, inputs.drop_last()), inputs.last());
    }
}

/// The count of a player's guesses moves in two ways only: it returns to
/// zero when the start request of that player went out, and it grows by
/// one when a guess of that player picks up the answer that waited for it.
pub proof fn lemma_tries_move_by_rule(game: GameSessionView, input: Input, user: ActorId)
    requires
        game.wf(),
    ensures
        ({
            let before = game.session(user);
            let after = apply(game, input).session(user);
            ||| after.tries == before.tries
            ||| {
                &&& input matches Input::Sent {
                    request: WordleActionView::StartGame { user: starter },
                    ..
                }
                &&& starter == user
                &&& before.can_start_new_game()
                &&& after.tries == 0
            }
            ||| {
                &&& input matches Input::Action {
                    context,
                    action: GameSessionActionView::CheckWord(word),
                }
                &&& context.source == user
                &&& word_fault(word) is None
                &&& before.session_status is ReplyReceived
                &&& after.tries == before.tries + 1
            }
        }),
{
}

/// A game that is on is never started over: whatever comes in, the session
/// stays in the same game and keeps the guesses it has counted. A new game
/// begins only where none was started yet or the last one has ended.
pub proof fn lemma_running_game_is_never_restarted(
    game: GameSessionView,
    input: Input,
    user: ActorId,
)
    requires
        game.wf(),
        game.session(user).session_status.is_active(),
    ensures
        apply(game, input).session(user).session_id == game.session(user).session_id,
        apply(game, input).session(user).tries >= game.session(user).tries,
        !(apply(game, input).session(user).session_status is Init),
{
}

/// An action that is turned down changes nothing.
pub proof fn lemma_refusal_changes_nothing(
    game: GameSessionView,
    context: MessageContext,
    action: GameSessionActionView,
)
    requires
        handle_step(game, context, action).1 is Err,
    ensures
        handle_step(game, context, action).0 == game,
{
}

/// An action of one player leaves every other player's session alone; a
/// timeout check can only touch the session of the player it names.
pub proof fn lemma_action_touches_one_player(
    game: GameSessionView,
    context: MessageContext,
    action: GameSessionActionView,
    other: ActorId,
)
    requires
        match action {
            GameSessionActionView::CheckGameStatus { user, .. } => other != user,
            _ => other != context.source,
        },
    ensures
        handle_step(game, context, action).0.sessions.contains_key(other)
            == game.sessions.contains_key(other),
        handle_step(game, context, action).0.session(other) == game.session(other),
        handle_step(game, context, action).0.wordle_program_id == game.wordle_program_id,
{
}

/// In a well-formed state every action can be handled.
pub proof fn lemma_wf_can_handle(
    game: GameSessionView,
    context: MessageContext,
    action: GameSessionActionView,
)
    requires
        game.wf(),
    ensures
        can_handle(game, context, action),
{
}

/// A freshly initialised orchestrator is well formed.
pub proof fn lemma_fresh_is_wf(wordle_program_id: ActorId)
    ensures
        GameSessionView::fresh(wordle_program_id).wf(),
{
}

/// Starting a game where none is on, be it the player's first or after a
/// finished one, asks the word service for a new word and leaves the state
/// alone; once that request went out the player's session has no guess
/// spent and is in progress, named after the start message and waiting for
/// the answer to the request.
pub proof fn lemma_start_resets_session(
    game: GameSessionView,
    context: MessageContext,
    sent_id: MessageId,
)
    requires
        game.session(context.source).can_start_new_game(),
    ensures
        handle_step(game, context, GameSessionActionView::StartGame) == (
            game,
            Ok::<OutcomeView, HandleErrorView>(
                OutcomeView::Forward {
                    service: game.wordle_program_id,
                    request: WordleActionView::StartGame { user: context.source },
                },
            ),
        ),
        ({
            let started = request_sent_step(
                game,
                context,
                WordleActionView::StartGame { user: context.source },
                sent_id,
            ).0.session(context.source);
            &&& started.tries == 0
            &&& started.session_status is InProgress
            &&& started.session_id == context.message_id
            &&& started.original_msg_id == context.message_id
            &&& started.send_to_wordle_msg_id == sent_id
        }),
{
}

/// Starting a game while one is in progress, or while the answer to a
/// guess waits to be picked up, is turned down and changes nothing.
pub proof fn lemma_start_in_game_fails(game: GameSessionView, context: MessageContext)
    requires
        ({
            let status = game.session(context.source).session_status;
            status is InProgress || status matches SessionStatusView::ReplyReceived(
                WordleEventView::WordChecked { .. },
            )
        }),
    ensures
        handle_step(game, context, GameSessionActionView::StartGame) == (
            game,
            Err::<OutcomeView, HandleErrorView>(HandleErrorView::UserInGame),
        ),
{
}

/// The guess that spends the last try loses the game, whatever the word
/// service said of it.
pub proof fn lemma_last_try_loses(
    game: GameSessionView,
    user: ActorId,
    word: Seq<char>,
    answer: WordleEventView,
)
    requires
        game.session(user).session_status == SessionStatusView::ReplyReceived(answer),
        game.session(user).tries + 1 == TRIES_LIMIT,
    ensures
        submit_guess_step(game, user, word, None).1 == Ok::<OutcomeView, HandleErrorView>(
            OutcomeView::Reply(GameSessionEventView::GameOver(GameStatus::Lose)),
        ),
        submit_guess_step(game, user, word, None).0.session(user).session_status
            == SessionStatusView::GameOver(GameStatus::Lose),
        submit_guess_step(game, user, word, None).0.session(user).tries == TRIES_LIMIT,
        word_fault(word) is None ==> check_word_step(game, user, word) == submit_guess_step(
            game,
            user,
            word,
            None,
        ),
{
}

/// A guess that the word service reports right in all positions wins the
/// game, unless it spends the last try.
pub proof fn lemma_full_match_wins(
    game: GameSessionView,
    user: ActorId,
    word: Seq<char>,
    answer: WordleEventView,
)
    requires
        game.session(user).session_status == SessionStatusView::ReplyReceived(answer),
        answer.has_guessed(),
        game.session(user).tries + 1 < TRIES_LIMIT,
    ensures
        submit_guess_step(game, user, word, None).1 == Ok::<OutcomeView, HandleErrorView>(
            OutcomeView::Reply(GameSessionEventView::GameOver(GameStatus::Win)),
        ),
        submit_guess_step(game, user, word, None).0.session(user).session_status
            == SessionStatusView::GameOver(GameStatus::Win),
        word_fault(word) is None ==> check_word_step(game, user, word) == submit_guess_step(
            game,
            user,
            word,
            None,
        ),
{
}

/// A word of the wrong shape is turned down in every state, and spends no
/// try.
pub proof fn lemma_malformed_guess_changes_nothing(
    game: GameSessionView,
    user: ActorId,
    word: Seq<char>,
    complaint: Seq<char>,
)
    ensures
        submit_guess_step(game, user, word, Some(complaint)) == (
            game,
            Err::<OutcomeView, HandleErrorView>(HandleErrorView::InvalidWord(complaint)),
        ),
        word_fault(word) is Some ==> check_word_step(game, user, word) == (
            game,
            Err::<OutcomeView, HandleErrorView>(HandleErrorView::InvalidWord(word_fault(word)->0)),
        ),
{
}

/// A timeout check that names another game than the one the player's
/// session is in, or a player without a session, changes nothing.
pub proof fn lemma_stale_timeout_is_ignored(
    game: GameSessionView,
    context: MessageContext,
    user: ActorId,
    session_id: MessageId,
)
    requires
        !game.sessions.contains_key(user) || game.sessions[user].session_id != session_id,
    ensures
        handle_step(
            game,
            context,
            GameSessionActionView::CheckGameStatus { user, session_id },
        ) == (game, Ok::<OutcomeView, HandleErrorView>(OutcomeView::Nothing)),
{
}

/// A timeout check that the orchestrator sent to itself, and that names the
/// game the player's session is in, loses that game unless it has ended,
/// and has the player told.
pub proof fn lemma_timeout_loses_game(
    game: GameSessionView,
    context: MessageContext,
    user: ActorId,
    session_id: MessageId,
)
    requires
        context.source == context.program_id,
        game.sessions.contains_key(user),
        game.sessions[user].session_id == session_id,
        !(game.sessions[user].session_status is GameOver),
    ensures
        handle_step(
            game,
            context,
            GameSessionActionView::CheckGameStatus { user, session_id },
        ) == (
            game.with_session(
                user,
                game.sessions[user].with_status(SessionStatusView::GameOver(GameStatus::Lose)),
            ),
            Ok::<OutcomeView, HandleErrorView>(
                OutcomeView::Notify {
                    user,
                    event: GameSessionEventView::GameOver(GameStatus::Lose),
                },
            ),
        ),
{
}

/// An answer that does not reply to the request the player's session sent
/// last changes nothing and wakes nobody.
pub proof fn lemma_unmatched_reply_is_ignored(
    game: GameSessionView,
    reply_to: MessageId,
    answer: WordleEventView,
)
    requires
        !game.sessions.contains_key(answer.user())
            || game.sessions[answer.user()].send_to_wordle_msg_id != reply_to,
    ensures
        handle_reply_step(game, reply_to, answer) == (game, None::<MessageId>),
{
}

/// An answer about one player leaves every other player's session alone.
pub proof fn lemma_reply_touches_one_player(
    game: GameSessionView,
    reply_to: MessageId,
    answer: WordleEventView,
    other: ActorId,
)
    requires
        other != answer.user(),
    ensures
        handle_reply_step(game, reply_to, answer).0.sessions.contains_key(other)
            == game.sessions.contains_key(other),
        handle_reply_step(game, reply_to, answer).0.session(other) == game.session(other),
{
}

} // verus!
