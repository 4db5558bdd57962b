//! The orchestrator's root state and the values it is made from and
//! reported as.

use vstd::prelude::*;
use crate::ids::{actor_is_zero, is_zero_id, lemma_zero_id, zero, zero_id, ActorId};
use crate::protocol::WORD_LENGTH;
use crate::session::{SessionInfo, SessionInfoView};
use crate::store::{empty_sessions, lists_sessions, SessionStore};

verus! {

/// A value that can be checked before it is used.
pub trait Validatable {
    /// What makes the value acceptable.
    spec fn valid(&self) -> bool;

    /// The text that `validation_error` returns.
    spec fn error_text(&self) -> Seq<char>;

    fn validate(&self) -> (ok: bool)
        ensures
            ok == self.valid(),
    ;

    /// The complaint to raise when `validate` fails.
    fn validation_error(&self) -> (message: &'static str)
        ensures
            message@ == self.error_text(),
    ;
}

/// What the orchestrator is initialised with.
#[derive(Debug, Clone, Copy, PartialEq, Eq)]
pub struct GameSessionInit {
    /// The identity of the word service.
    pub wordle_program_id: ActorId,
}

impl Default for GameSessionInit {
    /// Names no word service, and so is not valid.
    fn default() -> (init: Self)
        ensures
            init.wordle_program_id == zero_id(),
            is_zero_id(init.wordle_program_id),
    {
        proof {
            lemma_zero_id(zero_id());
        }
        GameSessionInit { wordle_program_id: zero() }
    }
}

impl Validatable for GameSessionInit {
    /// The word service must have an identity other than the all-zero one.
    open spec fn valid(&self) -> bool {
        !is_zero_id(self.wordle_program_id)
    }

    open spec fn error_text(&self) -> Seq<char> {
        "Invalid wordle_program_id"@
    }

    fn validate(&self) -> (ok: bool) {
        !actor_is_zero(&self.wordle_program_id)
    }

    fn validation_error(&self) -> (message: &'static str) {
        "Invalid wordle_program_id"
    }
}

/// The orchestrator's state: the word service it talks to and the session
/// of every player who started a game.
#[derive(Debug)]
pub struct GameSession {
    pub wordle_program_id: ActorId,
    pub sessions: SessionStore,
}

/// The mathematical value of a [`GameSession`].
pub ghost struct GameSessionView {
    pub wordle_program_id: ActorId,
    pub sessions: Map<ActorId, SessionInfoView>,
}

impl View for GameSession {
    type V = GameSessionView;

    open spec fn view(&self) -> GameSessionView {
        GameSessionView { wordle_program_id: self.wordle_program_id, sessions: self.sessions@ }
    }
}

impl GameSessionView {
    /// The state right after initialisation with `wordle_program_id`.
    pub open spec fn fresh(wordle_program_id: ActorId) -> GameSessionView {
        GameSessionView { wordle_program_id, sessions: empty_sessions() }
    }

    /// Every stored session is well formed.
    pub open spec fn wf(self) -> bool {
        forall|user: ActorId| #[trigger]
            self.sessions.contains_key(user) ==> self.sessions[user].wf()
    }

    /// The session of `user`; a player without a record stands at the start.
    pub open spec fn session(self, user: ActorId) -> SessionInfoView {
        if self.sessions.contains_key(user) {
            self.sessions[user]
        } else {
            SessionInfoView::initial()
        }
    }

    /// A guess of `user` that is to be counted can be: the count, a `u8`,
    /// has room for one more. A guess is counted only where it meets an
    /// answer that waits to be picked up.
    pub open spec fn can_count_guess(self, user: ActorId) -> bool {
        self.session(user).session_status is ReplyReceived ==> self.session(user).tries < u8::MAX
    }

    /// The same state with `session` stored under `user`.
    pub open spec fn with_session(
        self,
        user: ActorId,
        session: SessionInfoView,
    ) -> GameSessionView {
        GameSessionView { sessions: self.sessions.insert(user, session), ..self }
    }
}

impl Clone for GameSession {
    fn clone(&self) -> (copy: Self)
        ensures
            copy@ == self@,
    {
        GameSession {
            wordle_program_id: self.wordle_program_id,
            sessions: self.sessions.duplicate(),
        }
    }
}

impl Default for GameSession {
    fn default() -> (game_session: Self)
        ensures
            game_session@ == GameSessionView::fresh(zero_id()),
    {
        GameSession { wordle_program_id: zero(), sessions: SessionStore::new() }
    }
}

/// Whether `c` has the Unicode property Lowercase, as `char::is_lowercase`
/// reports it.
pub uninterp spec fn is_lowercase_letter(c: char) -> bool;

/// `char::is_lowercase` answers whether the character has the Unicode
/// property Lowercase; the answer depends on the character alone.
pub assume_specification[ char::is_lowercase ](c: char) -> (lowercase: bool)
    ensures
        lowercase == is_lowercase_letter(c),
;

/// Why a word is not a guess, if it is not: a guess has exactly five
/// characters, all of them lowercase letters.
pub open spec fn word_fault(word: Seq<char>) -> Option<Seq<char>> {
    if word.len() != WORD_LENGTH {
        Some("Word must be 5 characters long"@)
    } else if !(forall|i: int| 0 <= i < word.len() ==> is_lowercase_letter(#[trigger] word[i])) {
        Some("Word must contain only lowercase letters"@)
    } else {
        None
    }
}

impl GameSession {
    /// The session of `user`, which is created at the start of its
    /// lifecycle if the player had none. What is written through the
    /// returned reference is stored under `user`.
    pub fn get_or_create_session(&mut self, user: ActorId) -> (session: &mut SessionInfo)
        ensures
            session@ == old(self)@.session(user),
            final(self)@ == old(self)@.with_session(user, final(session)@),
    {
        self.sessions.get_or_default(user)
    }

    /// The session stored for `user`, if the player has one.
    pub fn session(&self, user: &ActorId) -> (found: Option<&SessionInfo>)
        ensures
            found is Some == self@.sessions.contains_key(*user),
            found is Some ==> found->0@ == self@.sessions[*user],
    {
        self.sessions.get(user)
    }

    /// Whether a guess of `user` that is to be counted can be.
    pub fn can_count_guess(&self, user: &ActorId) -> (room: bool)
        ensures
            room == self@.can_count_guess(*user),
    {
        match self.sessions.get(user) {
            Some(session_info) => !session_info.has_reply() || session_info.tries < u8::MAX,
            None => true,
        }
    }

    /// The identity of the word service.
    pub fn wordle_program_id(&self) -> (id: ActorId)
        ensures
            id == self@.wordle_program_id,
    {
        self.wordle_program_id
    }

    /// Checks the shape of a guess.
    pub fn validate_word(word: &str) -> (checked: Result<(), &'static str>)
        ensures
            match checked {
                Ok(_) => word_fault(word@) is None,
                Err(message) => word_fault(word@) == Some(message@),
            },
    {
        if word.unicode_len() != WORD_LENGTH {
            return Err("Word must be 5 characters long");
        }
        let mut i: usize = 0;
        while i < WORD_LENGTH
            invariant
                i <= WORD_LENGTH,
                word@.len() == WORD_LENGTH,
                forall|j: int| 0 <= j < i ==> is_lowercase_letter(#[trigger] word@[j]),
            decreases WORD_LENGTH - i,
        {
            if !word.get_char(i).is_lowercase() {
                assert(!is_lowercase_letter(word@[i as int]));
                return Err("Word must contain only lowercase letters");
            }
            i += 1;
        }
        Ok(())
    }
}

impl vstd::std_specs::convert::FromSpecImpl<GameSessionInit> for GameSession {
    /// Two stores with the same records need not be the same value: the
    /// contract of `from` is stated on values.
    open spec fn obeys_from_spec() -> bool {
        false
    }

    open spec fn from_spec(init: GameSessionInit) -> Self {
        choose|game_session: GameSession|
            game_session@ == GameSessionView::fresh(init.wordle_program_id)
    }
}

impl From<GameSessionInit> for GameSession {
    fn from(init: GameSessionInit) -> (game_session: Self)
        ensures
            game_session@ == GameSessionView::fresh(init.wordle_program_id),
    {
        GameSession { wordle_program_id: init.wordle_program_id, sessions: SessionStore::new() }
    }
}

/// The orchestrator's state as it is reported to the outside.
#[derive(Debug, PartialEq, Eq)]
pub struct GameSessionState {
    pub wordle_program_id: ActorId,
    /// The session of each player, in no particular order.
    pub game_sessions: Vec<(ActorId, SessionInfo)>,
}

impl GameSessionState {
    /// This report shows `game_session`: the same word service, and each
    /// player's session exactly once.
    pub open spec fn reports(self, game_session: GameSessionView) -> bool {
        &&& self.wordle_program_id == game_session.wordle_program_id
        &&& lists_sessions(self.game_sessions@, game_session.sessions)
    }
}

impl Clone for GameSessionState {
    fn clone(&self) -> (copy: Self)
        ensures
            copy.wordle_program_id == self.wordle_program_id,
            copy.game_sessions@.len() == self.game_sessions@.len(),
            forall|i: int|
                0 <= i < self.game_sessions@.len() ==> {
                    &&& (#[trigger] copy.game_sessions@[i]).0 == self.game_sessions@[i].0
                    &&& copy.game_sessions@[i].1@ == self.game_sessions@[i].1@
                },
    {
        let mut game_sessions: Vec<(ActorId, SessionInfo)> = Vec::new();
        let mut i: usize = 0;
        while i < self.game_sessions.len()
            invariant
                i <= self.game_sessions@.len(),
                game_sessions@.len() == i,
                forall|j: int|
                    0 <= j < i ==> {
                        &&& (#[trigger] game_sessions@[j]).0 == self.game_sessions@[j].0
                        &&& game_sessions@[j].1@ == self.game_sessions@[j].1@
                    },
            decreases self.game_sessions@.len() - i,
        {
            let entry = &self.game_sessions[i];
            game_sessions.push((entry.0, entry.1.clone()));
            i += 1;
        }
        GameSessionState { wordle_program_id: self.wordle_program_id, game_sessions }
    }
}

impl Default for GameSessionState {
    fn default() -> (state: Self)
        ensures
            state.wordle_program_id == zero_id(),
            state.game_sessions@.len() == 0,
    {
        GameSessionState { wordle_program_id: zero(), game_sessions: Vec::new() }
    }
}

impl<'a> vstd::std_specs::convert::FromSpecImpl<&'a GameSession> for GameSessionState {
    /// The order of the listed sessions is left open: the contract of
    /// `from` is stated as a relation.
    open spec fn obeys_from_spec() -> bool {
        false
    }

    open spec fn from_spec(game_session: &'a GameSession) -> Self {
        choose|state: GameSessionState| state.reports(game_session@)
    }
}

impl<'a> From<&'a GameSession> for GameSessionState {
    fn from(game_session: &'a GameSession) -> (state: Self)
        ensures
            state.reports(game_session@),
    {
        GameSessionState {
            wordle_program_id: game_session.wordle_program_id,
            game_sessions: game_session.sessions.entries(),
        }
    }
}

} // verus!
