//! The counters every kata keeps, and the capability set through which the
//! shell drives a kata.

use vstd::prelude::*;

pub mod crypto_puzzle;
pub mod greek_alphabet;
pub mod math_tricks;
pub mod music_tempo;
pub mod periodic_table;
pub mod physics_formulas;
pub mod pi_challenge;

use crate::text::answer_matches;
use crypto_puzzle::{CryptoPuzzle, Cryptogram};
use greek_alphabet::GreekAlphabet;
use math_tricks::{MathPuzzle, MathTricks};
use music_tempo::MusicTempo;
use periodic_table::PeriodicTable;
use physics_formulas::PhysicsFormulas;
use pi_challenge::PiChallenge;

verus! {

/// The persistent counters of one kata.
#[derive(Debug)]
pub struct GameState {
    pub score: i32,
    pub attempts: i32,
    pub description: String,
}

/// Mathematical value of a [`GameState`].
pub struct GameStateView {
    pub score: int,
    pub attempts: int,
    pub description: Seq<char>,
}

impl View for GameState {
    type V = GameStateView;

    open spec fn view(&self) -> GameStateView {
        GameStateView {
            score: self.score as int,
            attempts: self.attempts as int,
            description: self.description@,
        }
    }
}

impl GameStateView {
    /// The counters of a kata that was never played and describes nothing.
    pub open spec fn fresh() -> GameStateView {
        GameStateView { score: 0, attempts: 0, description: Seq::empty() }
    }

    /// These counters with score and attempts back at zero.
    pub open spec fn zeroed(self) -> GameStateView {
        GameStateView { score: 0, attempts: 0, description: self.description }
    }

    /// These counters after one more round that brought `reward`.
    pub open spec fn after_round(self, reward: int) -> GameStateView {
        GameStateView {
            score: self.score + reward,
            attempts: self.attempts + 1,
            description: self.description,
        }
    }

    /// Whether one more round that brings `reward` leaves both counters
    /// within `i32`.
    pub open spec fn has_room_for(self, reward: int) -> bool {
        &&& self.attempts < i32::MAX
        &&& i32::MIN <= self.score + reward <= i32::MAX
    }

    /// These counters after one round for each entry of `rewards`, in order.
    pub open spec fn after_rounds(self, rewards: Seq<int>) -> GameStateView
        decreases rewards.len(),
    {
        if rewards.len() == 0 {
            self
        } else {
            self.after_rounds(rewards.drop_last()).after_round(rewards.last())
        }
    }
}

/// Every round counts exactly one attempt, whatever it brings: after any
/// rounds the attempts have grown by their number, and the description is
/// the same.
pub proof fn lemma_attempts_count_rounds(counters: GameStateView, rewards: Seq<int>)
    ensures
        counters.after_rounds(rewards).attempts == counters.attempts + rewards.len(),
        counters.after_rounds(rewards).description == counters.description,
        rewards.len() > 0 ==> counters.after_rounds(rewards).attempts == counters.after_rounds(
            rewards.drop_last(),
        ).attempts + 1,
    decreases rewards.len(),
{
    if rewards.len() > 0 {
        lemma_attempts_count_rounds(counters, rewards.drop_last());
    }
}

impl Clone for GameState {
    fn clone(&self) -> (r: Self)
        ensures
            r@ == self@,
    {
        GameState {
            score: self.score,
            attempts: self.attempts,
            description: self.description.clone(),
        }
    }
}

impl Default for GameState {
    fn default() -> (r: Self)
        ensures
            r@ == GameStateView::fresh(),
    {
        GameState { score: 0, attempts: 0, description: String::new() }
    }
}

impl GameState {
    /// Counts one more round that brought `reward`.
    pub fn record_round(&mut self, reward: i32)
        requires
            old(self)@.has_room_for(reward as int),
        ensures
            final(self)@ == old(self)@.after_round(reward as int),
    {
        self.attempts += 1;
        self.score += reward;
    }

    /// Whether one more round that brings `reward` leaves both counters
    /// within `i32`.
    pub fn has_room_for(&self, reward: i32) -> (r: bool)
        ensures
            r == self@.has_room_for(reward as int),
    {
        let sum: i64 = self.score as i64 + reward as i64;
        self.attempts < i32::MAX && -2147483648 <= sum && sum <= 2147483647
    }
}

/// What the shell asks of every kata.
///
/// A kata is a puzzle, the text in its answer field, and its counters. A
/// round checks the entry against the puzzle, counts the attempt, adds the
/// reward to the score and empties the answer field.
pub trait GameModule {
    /// What a kata of this kind poses to the player.
    type Puzzle;

    /// The display name.
    spec fn title(&self) -> Seq<char>;

    /// The puzzle now posed.
    spec fn puzzle(&self) -> Self::Puzzle;

    /// The text now in the answer field.
    spec fn entry(&self) -> Seq<char>;

    /// The counters.
    spec fn counters(&self) -> GameStateView;

    /// Whether the puzzle is one that this kata poses.
    spec fn well_formed(&self) -> bool;

    /// What a round adds to the score when `entry` answers `puzzle`.
    spec fn reward_for(puzzle: Self::Puzzle, entry: Seq<char>) -> int;

    /// The short display name; it never changes.
    fn name(&self) -> (r: &str)
        ensures
            r@ == self.title(),
    ;

    /// The one-line explanation, as the counters carry it.
    fn description(&self) -> (r: &str)
        ensures
            r@ == self.counters().description,
    ;

    /// The counters.
    fn state(&self) -> (r: &GameState)
        ensures
            r@ == self.counters(),
    ;

    /// The counters, to be overwritten; nothing else changes.
    fn state_mut(&mut self) -> (r: &mut GameState)
        ensures
            r@ == old(self).counters(),
            final(self).counters() == final(r)@,
            final(self).title() == old(self).title(),
            final(self).puzzle() == old(self).puzzle(),
            final(self).entry() == old(self).entry(),
            final(self).well_formed() == old(self).well_formed(),
    ;

    /// The text in the answer field.
    fn answer(&self) -> (r: &str)
        ensures
            r@ == self.entry(),
    ;

    /// Puts `text` in the answer field; nothing else changes.
    fn set_answer(&mut self, text: String)
        ensures
            final(self).entry() == text@,
            final(self).title() == old(self).title(),
            final(self).puzzle() == old(self).puzzle(),
            final(self).counters() == old(self).counters(),
            final(self).well_formed() == old(self).well_formed(),
    ;

    /// What a round adds to the score when `entry` answers the puzzle now
    /// posed.
    fn reward_of(&self, entry: &str) -> (r: i32)
        requires
            self.well_formed(),
        ensures
            r == Self::reward_for(self.puzzle(), entry@),
    ;

    /// Poses a puzzle anew and empties the answer field. The counters stay as
    /// they are, or score and attempts both return to zero: each kind of kata
    /// says which.
    fn reset(&mut self)
        requires
            old(self).well_formed(),
        ensures
            final(self).well_formed(),
            final(self).title() == old(self).title(),
            final(self).entry() == Seq::<char>::empty(),
            final(self).counters() == old(self).counters() || final(self).counters() == old(
                self,
            ).counters().zeroed(),
    ;

    /// Plays one round: counts the attempt, adds the reward that the entry
    /// earns against the puzzle, and empties the answer field.
    fn check_answer(&mut self)
        requires
            old(self).well_formed(),
            old(self).counters().has_room_for(
                Self::reward_for(old(self).puzzle(), old(self).entry()),
            ),
        ensures
            final(self).well_formed(),
            final(self).title() == old(self).title(),
            final(self).entry() == Seq::<char>::empty(),
            final(self).counters() == old(self).counters().after_round(
                Self::reward_for(old(self).puzzle(), old(self).entry()),
            ),
    ;

    /// One frame of the kata's own view: the answer field now holds `text`,
    /// and `check` tells whether the check button was pressed. A frame
    /// without the button only takes the text over; a frame with it plays a
    /// round on that text.
    fn update(&mut self, text: String, check: bool)
        requires
            old(self).well_formed(),
            check ==> old(self).counters().has_room_for(
                Self::reward_for(old(self).puzzle(), text@),
            ),
        ensures
            final(self).well_formed(),
            final(self).title() == old(self).title(),
            !check ==> {
                &&& final(self).entry() == text@
                &&& final(self).puzzle() == old(self).puzzle()
                &&& final(self).counters() == old(self).counters()
            },
            check ==> {
                &&& final(self).entry() == Seq::<char>::empty()
                &&& final(self).counters() == old(self).counters().after_round(
                    Self::reward_for(old(self).puzzle(), text@),
                )
            },
    {
        self.set_answer(text);
        if check {
            self.check_answer();
        }
    }
}

/// What the naming katas give for a round: two if the entry names `name`,
/// minus one if it does not.
pub open spec fn naming_reward(name: Seq<char>, entry: Seq<char>) -> int {
    if answer_matches(entry, name) {
        2
    } else {
        -1
    }
}

/// Whether `module` can play a round without a counter leaving `i32`.
pub open spec fn round_fits<M: GameModule>(module: &M) -> bool {
    module.counters().has_room_for(M::reward_for(module.puzzle(), module.entry()))
}

/// Whether `module` can play a round without a counter leaving `i32`:
/// the condition under which `check_answer` may be called.
pub fn can_check<M: GameModule>(module: &M) -> (r: bool)
    requires
        module.well_formed(),
    ensures
        r == round_fits(module),
{
    let reward = module.reward_of(module.answer());
    module.state().has_room_for(reward)
}

/// Whether `module` can take a frame with `text` in its answer field and the
/// check button pressed or not, without a counter leaving `i32`: the
/// condition under which `update` may be called.
pub fn can_update<M: GameModule>(module: &M, text: &str, check: bool) -> (r: bool)
    requires
        module.well_formed(),
    ensures
        r == (check ==> module.counters().has_room_for(M::reward_for(module.puzzle(), text@))),
{
    if check {
        let reward = module.reward_of(text);
        module.state().has_room_for(reward)
    } else {
        true
    }
}

/// A kata of any of the built-in kinds: what the shell keeps in its list.
#[derive(Debug)]
pub enum Module {
    Pi(PiChallenge),
    Greek(GreekAlphabet),
    Tempo(MusicTempo),
    Math(MathTricks),
    Physics(PhysicsFormulas),
    Elements(PeriodicTable),
    Crypto(CryptoPuzzle),
}

/// The puzzle of a kata of any of the built-in kinds.
pub enum AnyPuzzle {
    Pi,
    Greek(Option<(&'static str, &'static str)>),
    Tempo(u16),
    Math(MathPuzzle),
    Physics(Option<(&'static str, &'static str)>),
    Elements(Option<(&'static str, &'static str)>),
    Crypto(Cryptogram),
}

impl Module {
    /// The place of this kind of kata in the shell's list, from 0 to 6.
    pub open spec fn position(&self) -> int {
        match self {
            Module::Pi(_) => 0,
            Module::Greek(_) => 1,
            Module::Tempo(_) => 2,
            Module::Math(_) => 3,
            Module::Physics(_) => 4,
            Module::Elements(_) => 5,
            Module::Crypto(_) => 6,
        }
    }
}

/// No round takes more than one point from the score, and none brings more
/// than thirty-one.
pub proof fn lemma_reward_bounds(puzzle: AnyPuzzle, entry: Seq<char>)
    ensures
        -1 <= Module::reward_for(puzzle, entry) <= 31,
{
    pi_challenge::lemma_pi_digits();
}

impl Clone for Module {
    fn clone(&self) -> (r: Self)
        ensures
            r.position() == self.position(),
            r.puzzle() == self.puzzle(),
            r.entry() == self.entry(),
            r.counters() == self.counters(),
            r.well_formed() == self.well_formed(),
    {
        match self {
            Module::Pi(m) => Module::Pi(m.clone()),
            Module::Greek(m) => Module::Greek(m.clone()),
            Module::Tempo(m) => Module::Tempo(m.clone()),
            Module::Math(m) => Module::Math(m.clone()),
            Module::Physics(m) => Module::Physics(m.clone()),
            Module::Elements(m) => Module::Elements(m.clone()),
            Module::Crypto(m) => Module::Crypto(m.clone()),
        }
    }
}

impl GameModule for Module {
    type Puzzle = AnyPuzzle;

    open spec fn title(&self) -> Seq<char> {
        match self {
            Module::Pi(m) => m.title(),
            Module::Greek(m) => m.title(),
            Module::Tempo(m) => m.title(),
            Module::Math(m) => m.title(),
            Module::Physics(m) => m.title(),
            Module::Elements(m) => m.title(),
            Module::Crypto(m) => m.title(),
        }
    }

    open spec fn puzzle(&self) -> AnyPuzzle {
        match self {
            Module::Pi(_) => AnyPuzzle::Pi,
            Module::Greek(m) => AnyPuzzle::Greek(m.puzzle()),
            Module::Tempo(m) => AnyPuzzle::Tempo(m.puzzle()),
            Module::Math(m) => AnyPuzzle::Math(m.puzzle()),
            Module::Physics(m) => AnyPuzzle::Physics(m.puzzle()),
            Module::Elements(m) => AnyPuzzle::Elements(m.puzzle()),
            Module::Crypto(m) => AnyPuzzle::Crypto(m.puzzle()),
        }
    }

    open spec fn entry(&self) -> Seq<char> {
        match self {
            Module::Pi(m) => m.entry(),
            Module::Greek(m) => m.entry(),
            Module::Tempo(m) => m.entry(),
            Module::Math(m) => m.entry(),
            Module::Physics(m) => m.entry(),
            Module::Elements(m) => m.entry(),
            Module::Crypto(m) => m.entry(),
        }
    }

    open spec fn counters(&self) -> GameStateView {
        match self {
            Module::Pi(m) => m.counters(),
            Module::Greek(m) => m.counters(),
            Module::Tempo(m) => m.counters(),
            Module::Math(m) => m.counters(),
            Module::Physics(m) => m.counters(),
            Module::Elements(m) => m.counters(),
            Module::Crypto(m) => m.counters(),
        }
    }

    open spec fn well_formed(&self) -> bool {
        match self {
            Module::Pi(m) => m.well_formed(),
            Module::Greek(m) => m.well_formed(),
            Module::Tempo(m) => m.well_formed(),
            Module::Math(m) => m.well_formed(),
            Module::Physics(m) => m.well_formed(),
            Module::Elements(m) => m.well_formed(),
            Module::Crypto(m) => m.well_formed(),
        }
    }

    open spec fn reward_for(puzzle: AnyPuzzle, entry: Seq<char>) -> int {
        match puzzle {
            AnyPuzzle::Pi => PiChallenge::reward_for((), entry),
            AnyPuzzle::Greek(p) => GreekAlphabet::reward_for(p, entry),
            AnyPuzzle::Tempo(p) => MusicTempo::reward_for(p, entry),
            AnyPuzzle::Math(p) => MathTricks::reward_for(p, entry),
            AnyPuzzle::Physics(p) => PhysicsFormulas::reward_for(p, entry),
            AnyPuzzle::Elements(p) => PeriodicTable::reward_for(p, entry),
            AnyPuzzle::Crypto(p) => CryptoPuzzle::reward_for(p, entry),
        }
    }

    fn name(&self) -> (r: &str) {
        match self {
            Module::Pi(m) => m.name(),
            Module::Greek(m) => m.name(),
            Module::Tempo(m) => m.name(),
            Module::Math(m) => m.name(),
            Module::Physics(m) => m.name(),
            Module::Elements(m) => m.name(),
            Module::Crypto(m) => m.name(),
        }
    }

    fn description(&self) -> (r: &str) {
        match self {
            Module::Pi(m) => m.description(),
            Module::Greek(m) => m.description(),
            Module::Tempo(m) => m.description(),
            Module::Math(m) => m.description(),
            Module::Physics(m) => m.description(),
            Module::Elements(m) => m.description(),
            Module::Crypto(m) => m.description(),
        }
    }

    fn state(&self) -> (r: &GameState) {
        match self {
            Module::Pi(m) => m.state(),
            Module::Greek(m) => m.state(),
            Module::Tempo(m) => m.state(),
            Module::Math(m) => m.state(),
            Module::Physics(m) => m.state(),
            Module::Elements(m) => m.state(),
            Module::Crypto(m) => m.state(),
        }
    }

    fn state_mut(&mut self) -> (r: &mut GameState)
        ensures
            final(self).position() == old(self).position(),
    {
        match self {
            Module::Pi(m) => m.state_mut(),
            Module::Greek(m) => m.state_mut(),
            Module::Tempo(m) => m.state_mut(),
            Module::Math(m) => m.state_mut(),
            Module::Physics(m) => m.state_mut(),
            Module::Elements(m) => m.state_mut(),
            Module::Crypto(m) => m.state_mut(),
        }
    }

    fn answer(&self) -> (r: &str) {
        match self {
            Module::Pi(m) => m.answer(),
            Module::Greek(m) => m.answer(),
            Module::Tempo(m) => m.answer(),
            Module::Math(m) => m.answer(),
            Module::Physics(m) => m.answer(),
            Module::Elements(m) => m.answer(),
            Module::Crypto(m) => m.answer(),
        }
    }

    fn set_answer(&mut self, text: String)
        ensures
            final(self).position() == old(self).position(),
    {
        match self {
            Module::Pi(m) => m.set_answer(text),
            Module::Greek(m) => m.set_answer(text),
            Module::Tempo(m) => m.set_answer(text),
            Module::Math(m) => m.set_answer(text),
            Module::Physics(m) => m.set_answer(text),
            Module::Elements(m) => m.set_answer(text),
            Module::Crypto(m) => m.set_answer(text),
        }
    }

    fn reward_of(&self, entry: &str) -> (r: i32) {
        match self {
            Module::Pi(m) => m.reward_of(entry),
            Module::Greek(m) => m.reward_of(entry),
            Module::Tempo(m) => m.reward_of(entry),
            Module::Math(m) => m.reward_of(entry),
            Module::Physics(m) => m.reward_of(entry),
            Module::Elements(m) => m.reward_of(entry),
            Module::Crypto(m) => m.reward_of(entry),
        }
    }

    /// Poses a puzzle anew and empties the answer field. The π kata also
    /// sets score and attempts back to zero; every other kind keeps its
    /// counters.
    fn reset(&mut self)
        ensures
            final(self).position() == old(self).position(),
            final(self).counters() == if old(self).position() == 0 {
                old(self).counters().zeroed()
            } else {
                old(self).counters()
            },
    {
        match self {
            Module::Pi(m) => m.reset(),
            Module::Greek(m) => m.reset(),
            Module::Tempo(m) => m.reset(),
            Module::Math(m) => m.reset(),
            Module::Physics(m) => m.reset(),
            Module::Elements(m) => m.reset(),
            Module::Crypto(m) => m.reset(),
        }
    }

    fn check_answer(&mut self)
        ensures
            final(self).position() == old(self).position(),
    {
        match self {
            Module::Pi(m) => m.check_answer(),
            Module::Greek(m) => m.check_answer(),
            Module::Tempo(m) => m.check_answer(),
            Module::Math(m) => m.check_answer(),
            Module::Physics(m) => m.check_answer(),
            Module::Elements(m) => m.check_answer(),
            Module::Crypto(m) => m.check_answer(),
        }
    }

    fn update(&mut self, text: String, check: bool)
        ensures
            final(self).position() == old(self).position(),
    {
        match self {
            Module::Pi(m) => m.update(text, check),
            Module::Greek(m) => m.update(text, check),
            Module::Tempo(m) => m.update(text, check),
            Module::Math(m) => m.update(text, check),
            Module::Physics(m) => m.update(text, check),
            Module::Elements(m) => m.update(text, check),
            Module::Crypto(m) => m.update(text, check),
        }
    }
}

} // verus!
