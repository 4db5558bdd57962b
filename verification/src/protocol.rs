//! The messages exchanged with players and with the word service.

use vstd::prelude::*;
use vstd::assert_by_contradiction;
use crate::ids::{ActorId, MessageId};

verus! {

/// Number of letters in a word, and so of positions a guess is scored on.
pub const WORD_LENGTH: usize = 5;

/// How a finished game ended.
#[derive(Debug, Clone, Copy, PartialEq, Eq, Structural)]
pub enum GameStatus {
    Win,
    Lose,
}

/// Reading an outcome as won or lost.
pub trait GameResult {
    spec fn won(&self) -> bool;

    fn is_win(&self) -> (win: bool)
        ensures
            win == self.won(),
    ;

    fn is_lose(&self) -> (lose: bool)
        ensures
            lose == !self.won(),
    ;
}

impl GameResult for GameStatus {
    open spec fn won(&self) -> bool {
        *self == GameStatus::Win
    }

    fn is_win(&self) -> (win: bool) {
        matches!(self, GameStatus::Win)
    }

    fn is_lose(&self) -> (lose: bool) {
        matches!(self, GameStatus::Lose)
    }
}

/// What a player, or this program's own timer, asks of the orchestrator.
#[derive(Debug, PartialEq, Eq)]
pub enum GameSessionAction {
    StartGame,
    CheckWord(String),
    CheckGameStatus { user: ActorId, session_id: MessageId },
}

/// The mathematical value of a [`GameSessionAction`].
pub ghost enum GameSessionActionView {
    StartGame,
    CheckWord(Seq<char>),
    CheckGameStatus { user: ActorId, session_id: MessageId },
}

impl View for GameSessionAction {
    type V = GameSessionActionView;

    open spec fn view(&self) -> GameSessionActionView {
        match *self {
            GameSessionAction::StartGame => GameSessionActionView::StartGame,
            GameSessionAction::CheckWord(word) => GameSessionActionView::CheckWord(word@),
            GameSessionAction::CheckGameStatus { user, session_id } => {
                GameSessionActionView::CheckGameStatus { user, session_id }
            },
        }
    }
}

impl Clone for GameSessionAction {
    fn clone(&self) -> (copy: Self)
        ensures
            copy@ == self@,
    {
        match self {
            GameSessionAction::StartGame => GameSessionAction::StartGame,
            GameSessionAction::CheckWord(word) => GameSessionAction::CheckWord(word.clone()),
            GameSessionAction::CheckGameStatus { user, session_id } => {
                GameSessionAction::CheckGameStatus { user: *user, session_id: *session_id }
            },
        }
    }
}

impl GameSessionAction {
    /// Whether this is the timer's delayed check.
    pub fn is_timeout_check(&self) -> (check: bool)
        ensures
            check == (self@ is CheckGameStatus),
    {
        matches!(self, Self::CheckGameStatus { .. })
    }
}

/// What the orchestrator asks of the word service.
#[derive(Debug, PartialEq, Eq)]
pub enum WordleAction {
    StartGame { user: ActorId },
    CheckWord { user: ActorId, word: String },
}

/// The mathematical value of a [`WordleAction`].
pub ghost enum WordleActionView {
    StartGame { user: ActorId },
    CheckWord { user: ActorId, word: Seq<char> },
}

impl View for WordleAction {
    type V = WordleActionView;

    open spec fn view(&self) -> WordleActionView {
        match *self {
            WordleAction::StartGame { user } => WordleActionView::StartGame { user },
            WordleAction::CheckWord { user, word } => WordleActionView::CheckWord {
                user,
                word: word@,
            },
        }
    }
}

impl Clone for WordleAction {
    fn clone(&self) -> (copy: Self)
        ensures
            copy@ == self@,
    {
        match self {
            WordleAction::StartGame { user } => WordleAction::StartGame { user: *user },
            WordleAction::CheckWord { user, word } => WordleAction::CheckWord {
                user: *user,
                word: word.clone(),
            },
        }
    }
}

impl WordleAction {
    /// The request to pick a target word for `user`.
    pub fn new_start_game(user: ActorId) -> (request: Self)
        ensures
            request@ == (WordleActionView::StartGame { user }),
    {
        Self::StartGame { user }
    }

    /// The request to score `word` against the target word of `user`.
    pub fn new_check_word(user: ActorId, word: String) -> (request: Self)
        ensures
            request@ == (WordleActionView::CheckWord { user, word: word@ }),
    {
        Self::CheckWord { user, word }
    }
}

/// What the word service answers.
#[derive(Debug, PartialEq, Eq)]
pub enum WordleEvent {
    GameStarted { user: ActorId },
    WordChecked { user: ActorId, correct_positions: Vec<u8>, contained_in_word: Vec<u8> },
}

/// The mathematical value of a [`WordleEvent`].
pub ghost enum WordleEventView {
    GameStarted { user: ActorId },
    WordChecked { user: ActorId, correct_positions: Seq<u8>, contained_in_word: Seq<u8> },
}

impl View for WordleEvent {
    type V = WordleEventView;

    open spec fn view(&self) -> WordleEventView {
        match *self {
            WordleEvent::GameStarted { user } => WordleEventView::GameStarted { user },
            WordleEvent::WordChecked { user, correct_positions, contained_in_word } => {
                WordleEventView::WordChecked {
                    user,
                    correct_positions: correct_positions@,
                    contained_in_word: contained_in_word@,
                }
            },
        }
    }
}

impl WordleEventView {
    /// The player the answer is about.
    pub open spec fn user(self) -> ActorId {
        match self {
            WordleEventView::GameStarted { user } => user,
            WordleEventView::WordChecked { user, .. } => user,
        }
    }

    /// Whether the answer reports the guess as right in all positions:
    /// every position of a word is among the listed exact matches.
    pub open spec fn has_guessed(self) -> bool {
        match self {
            WordleEventView::GameStarted { .. } => false,
            WordleEventView::WordChecked { correct_positions, .. } => lists_every_position(
                correct_positions,
            ),
        }
    }
}

/// Every position of a word, from the first to the fifth, is in
/// `positions`. What else the list holds, and how often, does not matter.
pub open spec fn lists_every_position(positions: Seq<u8>) -> bool {
    &&& positions.contains(0u8)
    &&& positions.contains(1u8)
    &&& positions.contains(2u8)
    &&& positions.contains(3u8)
    &&& positions.contains(4u8)
}

/// The positions of a word are those below its length: a list holds every
/// position exactly when it holds each number below the length of a word.
pub proof fn lemma_every_position_is_each_below_the_length(positions: Seq<u8>)
    ensures
        lists_every_position(positions) <==> (forall|position: u8|
            position < WORD_LENGTH ==> #[trigger] positions.contains(position)),
{
}

/// A list of as many entries as a word has letters, each of them a position
/// inside the word and no two the same, holds every position.
pub proof fn lemma_distinct_positions_fill_the_word(positions: Seq<u8>)
    requires
        positions.len() == WORD_LENGTH,
        forall|i: int| 0 <= i < positions.len() ==> positions[i] < WORD_LENGTH,
        positions.no_duplicates(),
    ensures
        lists_every_position(positions),
{
    assert forall|position: u8| position < WORD_LENGTH implies #[trigger] positions.contains(
        position,
    ) by {
        assert_by_contradiction!(positions.contains(position), {
            // Five different positions, none of them `position`, would have
            // to fit in the four that are left.
            assert(forall|i: int| 0 <= i < 5 ==> positions[i] != position);
            assert(positions[0] < 5 && positions[1] < 5 && positions[2] < 5 && positions[3] < 5
                && positions[4] < 5);
            assert(positions[0] != positions[1] && positions[0] != positions[2] && positions[0]
                != positions[3] && positions[0] != positions[4]);
            assert(positions[1] != positions[2] && positions[1] != positions[3] && positions[1]
                != positions[4]);
            assert(positions[2] != positions[3] && positions[2] != positions[4] && positions[3]
                != positions[4]);
        });
    }
}

/// A list in which one entry stands at several places leaves a position out
/// if it is no longer than a word.
pub proof fn lemma_repeated_position_is_no_full_match(positions: Seq<u8>, i: int, j: int)
    requires
        positions.len() <= WORD_LENGTH,
        0 <= i < j < positions.len(),
        positions[i] == positions[j],
    ensures
        !lists_every_position(positions),
{
    assert_by_contradiction!(!lists_every_position(positions), {
        // Each of the five positions has a place in the list, and two
        // positions cannot share one; place `j` repeats place `i`.
        let at = |position: u8| choose|k: int| 0 <= k < positions.len() && positions[k] == position;
        assert(positions.contains(0u8) && positions.contains(1u8) && positions.contains(2u8)
            && positions.contains(3u8) && positions.contains(4u8));
        let (a, b, c, d, e) = (at(0u8), at(1u8), at(2u8), at(3u8), at(4u8));
        assert(positions[a] == 0 && positions[b] == 1 && positions[c] == 2 && positions[d] == 3
            && positions[e] == 4);
    });
}

impl Clone for WordleEvent {
    fn clone(&self) -> (copy: Self)
        ensures
            copy@ == self@,
    {
        match self {
            WordleEvent::GameStarted { user } => WordleEvent::GameStarted { user: *user },
            WordleEvent::WordChecked { user, correct_positions, contained_in_word } => {
                let correct = correct_positions.clone();
                let contained = contained_in_word.clone();
                assert(correct@ =~= correct_positions@);
                assert(contained@ =~= contained_in_word@);
                WordleEvent::WordChecked {
                    user: *user,
                    correct_positions: correct,
                    contained_in_word: contained,
                }
            },
        }
    }
}

impl WordleEvent {
    /// The player the answer is about.
    pub fn get_user(&self) -> (user: &ActorId)
        ensures
            *user == self@.user(),
    {
        match self {
            Self::GameStarted { user } => user,
            Self::WordChecked { user, .. } => user,
        }
    }

    /// Whether the answer reports the guess as right in all positions.
    pub fn has_guessed(&self) -> (guessed: bool)
        ensures
            guessed == self@.has_guessed(),
    {
        match self {
            Self::WordChecked { correct_positions, .. } => holds_every_position(correct_positions),
            _ => false,
        }
    }
}

/// Whether `position` is in the list.
fn holds_position(positions: &Vec<u8>, position: u8) -> (held: bool)
    ensures
        held == positions@.contains(position),
{
    let mut i: usize = 0;
    while i < positions.len()
        invariant
            i <= positions.len(),
            forall|j: int| 0 <= j < i ==> positions@[j] != position,
        decreases positions.len() - i,
    {
        if positions[i] == position {
            return true;
        }
        i += 1;
    }
    false
}

/// Whether every position of a word is in the list.
fn holds_every_position(positions: &Vec<u8>) -> (every: bool)
    ensures
        every == lists_every_position(positions@),
{
    let mut position: u8 = 0;
    while (position as usize) < WORD_LENGTH
        invariant
            position <= WORD_LENGTH,
            forall|earlier: u8| earlier < position ==> #[trigger] positions@.contains(earlier),
        decreases WORD_LENGTH - position,
    {
        if !holds_position(positions, position) {
            return false;
        }
        position += 1;
    }
    true
}

/// What the orchestrator tells a player.
#[derive(Debug, PartialEq, Eq)]
pub enum GameSessionEvent {
    StartSuccess,
    CheckWordResult {
        correct_positions: Vec<u8>,
        contained_in_word: Vec<u8>,
        positions: Vec<u8>,
        contains: Vec<u8>,
    },
    GameOver(GameStatus),
}

/// The mathematical value of a [`GameSessionEvent`].
pub ghost enum GameSessionEventView {
    StartSuccess,
    CheckWordResult {
        correct_positions: Seq<u8>,
        contained_in_word: Seq<u8>,
        positions: Seq<u8>,
        contains: Seq<u8>,
    },
    GameOver(GameStatus),
}

impl View for GameSessionEvent {
    type V = GameSessionEventView;

    open spec fn view(&self) -> GameSessionEventView {
        match *self {
            GameSessionEvent::StartSuccess => GameSessionEventView::StartSuccess,
            GameSessionEvent::CheckWordResult {
                correct_positions,
                contained_in_word,
                positions,
                contains,
            } => GameSessionEventView::CheckWordResult {
                correct_positions: correct_positions@,
                contained_in_word: contained_in_word@,
                positions: positions@,
                contains: contains@,
            },
            GameSessionEvent::GameOver(status) => GameSessionEventView::GameOver(status),
        }
    }
}

impl Clone for GameSessionEvent {
    fn clone(&self) -> (copy: Self)
        ensures
            copy@ == self@,
    {
        match self {
            GameSessionEvent::StartSuccess => GameSessionEvent::StartSuccess,
            GameSessionEvent::CheckWordResult {
                correct_positions,
                contained_in_word,
                positions,
                contains,
            } => {
                let first = correct_positions.clone();
                let second = contained_in_word.clone();
                let third = positions.clone();
                let fourth = contains.clone();
                assert(first@ =~= correct_positions@ && second@ =~= contained_in_word@);
                assert(third@ =~= positions@ && fourth@ =~= contains@);
                GameSessionEvent::CheckWordResult {
                    correct_positions: first,
                    contained_in_word: second,
                    positions: third,
                    contains: fourth,
                }
            },
            GameSessionEvent::GameOver(status) => GameSessionEvent::GameOver(*status),
        }
    }
}

impl GameSessionEvent {
    /// The event that tells a player how the game ended.
    pub fn game_over(status: GameStatus) -> (event: Self)
        ensures
            event@ == GameSessionEventView::GameOver(status),
    {
        Self::GameOver(status)
    }
}

/// What a player is told of an answer of the word service: that the game
/// began, or the scored positions, each list given twice.
pub open spec fn player_event(answer: WordleEventView) -> GameSessionEventView {
    match answer {
        WordleEventView::GameStarted { .. } => GameSessionEventView::StartSuccess,
        WordleEventView::WordChecked { correct_positions, contained_in_word, .. } => {
            GameSessionEventView::CheckWordResult {
                correct_positions,
                contained_in_word,
                positions: correct_positions,
                contains: contained_in_word,
            }
        },
    }
}

impl<'a> vstd::std_specs::convert::FromSpecImpl<&'a WordleEvent> for GameSessionEvent {
    /// The conversion copies the lists, and a copy of a list is only known
    /// to hold the same bytes: the contract of `from` is stated on values.
    open spec fn obeys_from_spec() -> bool {
        false
    }

    open spec fn from_spec(wordle_event: &'a WordleEvent) -> Self {
        choose|event: GameSessionEvent| event@ == player_event(wordle_event@)
    }
}

impl<'a> From<&'a WordleEvent> for GameSessionEvent {
    fn from(wordle_event: &'a WordleEvent) -> (event: Self)
        ensures
            event@ == player_event(wordle_event@),
    {
        match wordle_event {
            WordleEvent::GameStarted { .. } => GameSessionEvent::StartSuccess,
            WordleEvent::WordChecked { correct_positions, contained_in_word, .. } => {
                let first = correct_positions.clone();
                let second = contained_in_word.clone();
                let third = correct_positions.clone();
                let fourth = contained_in_word.clone();
                assert(first@ =~= correct_positions@ && third@ =~= correct_positions@);
                assert(second@ =~= contained_in_word@ && fourth@ =~= contained_in_word@);
                GameSessionEvent::CheckWordResult {
                    correct_positions: first,
                    contained_in_word: second,
                    positions: third,
                    contains: fourth,
                }
            },
        }
    }
}

} // verus!
