//! One player's session: its lifecycle and the identifiers that tie it
//! to the messages in flight.

use vstd::prelude::*;
use crate::ids::{zero, zero_id, MessageId};
use crate::protocol::{GameStatus, WordleEvent, WordleEventView};

verus! {

/// The number of guesses a game allows.
pub const TRIES_LIMIT: u8 = 5;

/// Where a session stands in its lifecycle.
#[derive(Debug, PartialEq, Eq)]
pub enum SessionStatus {
    /// No game was started yet.
    Init,
    /// A game is on; an answer of the word service may be awaited.
    InProgress,
    /// An answer arrived and waits for the parked caller to pick it up.
    ReplyReceived(WordleEvent),
    /// The game ended.
    GameOver(GameStatus),
}

/// The mathematical value of a [`SessionStatus`].
pub ghost enum SessionStatusView {
    Init,
    InProgress,
    ReplyReceived(WordleEventView),
    GameOver(GameStatus),
}

impl View for SessionStatus {
    type V = SessionStatusView;

    open spec fn view(&self) -> SessionStatusView {
        match *self {
            SessionStatus::Init => SessionStatusView::Init,
            SessionStatus::InProgress => SessionStatusView::InProgress,
            SessionStatus::ReplyReceived(event) => SessionStatusView::ReplyReceived(event@),
            SessionStatus::GameOver(status) => SessionStatusView::GameOver(status),
        }
    }
}

impl SessionStatusView {
    /// A game is on: in progress, or holding an answer not yet picked up.
    pub open spec fn is_active(self) -> bool {
        self is InProgress || self is ReplyReceived
    }
}

impl Default for SessionStatus {
    fn default() -> (status: Self)
        ensures
            status@ == SessionStatusView::Init,
    {
        SessionStatus::Init
    }
}

impl Clone for SessionStatus {
    fn clone(&self) -> (copy: Self)
        ensures
            copy@ == self@,
    {
        match self {
            SessionStatus::Init => SessionStatus::Init,
            SessionStatus::InProgress => SessionStatus::InProgress,
            SessionStatus::ReplyReceived(event) => SessionStatus::ReplyReceived(event.clone()),
            SessionStatus::GameOver(status) => SessionStatus::GameOver(*status),
        }
    }
}

impl SessionStatus {
    /// Whether a game is on.
    pub fn is_active(&self) -> (active: bool)
        ensures
            active == self@.is_active(),
    {
        matches!(self, Self::InProgress | Self::ReplyReceived(_))
    }
}

/// The record kept for one player.
#[derive(Debug, PartialEq, Eq)]
pub struct SessionInfo {
    /// The start request that owns the running game; a timeout names it.
    pub session_id: MessageId,
    /// The player's request that is parked until an answer arrives.
    pub original_msg_id: MessageId,
    /// The request sent to the word service whose answer is awaited.
    pub send_to_wordle_msg_id: MessageId,
    /// Guesses spent in the running game.
    pub tries: u8,
    pub session_status: SessionStatus,
}

/// The mathematical value of a [`SessionInfo`].
pub ghost struct SessionInfoView {
    pub session_id: MessageId,
    pub original_msg_id: MessageId,
    pub send_to_wordle_msg_id: MessageId,
    pub tries: u8,
    pub session_status: SessionStatusView,
}

impl View for SessionInfo {
    type V = SessionInfoView;

    open spec fn view(&self) -> SessionInfoView {
        SessionInfoView {
            session_id: self.session_id,
            original_msg_id: self.original_msg_id,
            send_to_wordle_msg_id: self.send_to_wordle_msg_id,
            tries: self.tries,
            session_status: self.session_status@,
        }
    }
}

impl SessionInfoView {
    /// The record of a player who has not acted yet, bound to `msg_id`.
    pub open spec fn created(msg_id: MessageId) -> SessionInfoView {
        SessionInfoView {
            session_id: msg_id,
            original_msg_id: msg_id,
            send_to_wordle_msg_id: msg_id,
            tries: 0,
            session_status: SessionStatusView::Init,
        }
    }

    /// The record of a player who has not acted yet.
    pub open spec fn initial() -> SessionInfoView {
        Self::created(zero_id())
    }

    /// The guesses spent stay within the limit, and a game that is on has
    /// at least one guess left.
    pub open spec fn wf(self) -> bool {
        &&& self.tries <= TRIES_LIMIT
        &&& self.session_status.is_active() ==> self.tries < TRIES_LIMIT
    }

    /// A new game may start: none was started yet, or the last one ended.
    pub open spec fn can_start_new_game(self) -> bool {
        self.session_status is Init || self.session_status is GameOver
    }

    pub open spec fn with_status(self, session_status: SessionStatusView) -> SessionInfoView {
        SessionInfoView { session_status, ..self }
    }

    pub open spec fn with_message_ids(
        self,
        original: MessageId,
        send_to_wordle: MessageId,
    ) -> SessionInfoView {
        SessionInfoView { original_msg_id: original, send_to_wordle_msg_id: send_to_wordle, ..self }
    }

    pub open spec fn with_tries(self, tries: u8) -> SessionInfoView {
        SessionInfoView { tries, ..self }
    }
}

impl Default for SessionInfo {
    fn default() -> (session: Self)
        ensures
            session@ == SessionInfoView::initial(),
    {
        SessionInfo {
            session_id: zero(),
            original_msg_id: zero(),
            send_to_wordle_msg_id: zero(),
            tries: 0,
            session_status: SessionStatus::Init,
        }
    }
}

impl Clone for SessionInfo {
    fn clone(&self) -> (copy: Self)
        ensures
            copy@ == self@,
    {
        SessionInfo {
            session_id: self.session_id,
            original_msg_id: self.original_msg_id,
            send_to_wordle_msg_id: self.send_to_wordle_msg_id,
            tries: self.tries,
            session_status: self.session_status.clone(),
        }
    }
}

impl SessionInfo {
    /// A fresh record whose three identifiers are all `msg_id`.
    pub fn create(msg_id: MessageId) -> (session: Self)
        ensures
            session@ == SessionInfoView::created(msg_id),
    {
        Self {
            session_id: msg_id,
            original_msg_id: msg_id,
            send_to_wordle_msg_id: msg_id,
            tries: 0,
            session_status: SessionStatus::Init,
        }
    }

    /// Records the parked request and the request sent to the word service.
    pub fn update_message_ids(&mut self, original: MessageId, send_to_wordle: MessageId)
        ensures
            final(self)@ == old(self)@.with_message_ids(original, send_to_wordle),
    {
        self.original_msg_id = original;
        self.send_to_wordle_msg_id = send_to_wordle;
    }

    /// Whether an answer of the word service would be accepted now.
    pub fn is_wait_reply_status(&self) -> (waiting: bool)
        ensures
            waiting == (self@.session_status is InProgress),
    {
        matches!(self.session_status, SessionStatus::InProgress)
    }

    pub fn is_game_over(&self) -> (over: bool)
        ensures
            over == (self@.session_status is GameOver),
    {
        matches!(self.session_status, SessionStatus::GameOver(_))
    }

    pub fn can_start_new_game(&self) -> (can: bool)
        ensures
            can == self@.can_start_new_game(),
    {
        self.is_init() || self.is_game_over()
    }

    pub fn is_init(&self) -> (init: bool)
        ensures
            init == (self@.session_status is Init),
    {
        matches!(self.session_status, SessionStatus::Init)
    }

    pub fn has_reply(&self) -> (has: bool)
        ensures
            has == (self@.session_status is ReplyReceived),
    {
        matches!(self.session_status, SessionStatus::ReplyReceived(_))
    }

    /// Puts the session in progress and hands out the answer it held, if
    /// it held one.
    pub fn take_reply(&mut self) -> (reply: Option<WordleEvent>)
        ensures
            final(self)@ == old(self)@.with_status(SessionStatusView::InProgress),
            match old(self)@.session_status {
                SessionStatusView::ReplyReceived(event) => reply is Some && reply->0@ == event,
                _ => reply is None,
            },
    {
        let mut previous = SessionStatus::InProgress;
        std::mem::swap(&mut self.session_status, &mut previous);
        if let SessionStatus::ReplyReceived(event) = previous {
            Some(event)
        } else {
            None
        }
    }

    /// Counts one more guess and returns the new count.
    pub fn increment_tries(&mut self) -> (tries: u8)
        requires
            old(self).tries < u8::MAX,
        ensures
            tries == old(self).tries + 1,
            final(self)@ == old(self)@.with_tries(tries),
    {
        self.tries += 1;
        self.tries
    }
}

} // verus!
