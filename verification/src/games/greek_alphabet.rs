//! Naming Greek letters: the kata shows a symbol, the player types its name.

use vstd::prelude::*;
use vstd::string::*;

use super::{naming_reward, GameModule, GameState, GameStateView};
use crate::chance::pick;
use crate::text::matches_answer;

verus! {

/// The letters the kata asks for: symbol, then name.
pub const GREEK_LETTERS: [(&'static str, &'static str); 8] = [
    ("Α", "Alpha"),
    ("Β", "Beta"),
    ("Γ", "Gamma"),
    ("Δ", "Delta"),
    ("Ω", "Omega"),
    ("μ", "Mu"),
    ("π", "Pi"),
    ("λ", "Lambda"),
];

/// The Greek kata: the letter asked for, the answer typed so far, its counters.
#[derive(Debug)]
pub struct GreekAlphabet {
    prompt: Option<(&'static str, &'static str)>,
    answer: String,
    state: GameState,
}

impl GreekAlphabet {
    /// A kata that was never played, asking for some letter of the table.
    pub fn new() -> (r: Self)
        ensures
            r.well_formed(),
            r.entry() == Seq::<char>::empty(),
            r.counters() == (GameStateView {
                score: 0,
                attempts: 0,
                description: "Match Greek symbols to their names"@,
            }),
    {
        let mut module = Self {
            prompt: None,
            answer: String::new(),
            state: GameState {
                score: 0,
                attempts: 0,
                description: String::from_str("Match Greek symbols to their names"),
            },
        };
        module.draw();
        module
    }

    /// The letter asked for.
    pub fn prompt(&self) -> (r: Option<(&'static str, &'static str)>)
        ensures
            r == self.puzzle(),
    {
        self.prompt
    }

    /// Asks for `prompt`, an entry of the table, and empties the answer field.
    pub fn pose(&mut self, prompt: (&'static str, &'static str))
        requires
            GREEK_LETTERS@.contains(prompt),
        ensures
            final(self).well_formed(),
            final(self).puzzle() == Some(prompt),
            final(self).entry() == Seq::<char>::empty(),
            final(self).counters() == old(self).counters(),
    {
        self.prompt = Some(prompt);
        self.answer.clear();
    }

    /// Asks for a letter picked at random from the table.
    fn draw(&mut self)
        ensures
            final(self).well_formed(),
            final(self).entry() == Seq::<char>::empty(),
            final(self).counters() == old(self).counters(),
    {
        match pick(GREEK_LETTERS.as_slice()) {
            Some(prompt) => self.pose(*prompt),
            None => {},
        }
    }
}

impl Clone for GreekAlphabet {
    fn clone(&self) -> (r: Self)
        ensures
            r.puzzle() == self.puzzle(),
            r.entry() == self.entry(),
            r.counters() == self.counters(),
            r.well_formed() == self.well_formed(),
    {
        Self { prompt: self.prompt, answer: self.answer.clone(), state: self.state.clone() }
    }
}

impl Default for GreekAlphabet {
    fn default() -> (r: Self)
        ensures
            r.well_formed(),
            r.entry() == Seq::<char>::empty(),
            r.counters() == (GameStateView {
                score: 0,
                attempts: 0,
                description: "Match Greek symbols to their names"@,
            }),
    {
        Self::new()
    }
}

impl GameModule for GreekAlphabet {
    type Puzzle = Option<(&'static str, &'static str)>;

    open spec fn title(&self) -> Seq<char> {
        "Greek Alphabet"@
    }

    closed spec fn puzzle(&self) -> Option<(&'static str, &'static str)> {
        self.prompt
    }

    closed spec fn entry(&self) -> Seq<char> {
        self.answer@
    }

    closed spec fn counters(&self) -> GameStateView {
        self.state@
    }

    open spec fn well_formed(&self) -> bool {
        &&& self.puzzle() is Some
        &&& GREEK_LETTERS@.contains(self.puzzle().unwrap())
    }

    open spec fn reward_for(puzzle: Option<(&'static str, &'static str)>, entry: Seq<char>) -> int {
        match puzzle {
            Some(prompt) => naming_reward(prompt.1@, entry),
            None => 0,
        }
    }

    fn name(&self) -> (r: &str) {
        "Greek Alphabet"
    }

    fn description(&self) -> (r: &str) {
        self.state.description.as_str()
    }

    fn state(&self) -> (r: &GameState) {
        &self.state
    }

    fn state_mut(&mut self) -> (r: &mut GameState) {
        &mut self.state
    }

    fn answer(&self) -> (r: &str) {
        self.answer.as_str()
    }

    fn set_answer(&mut self, text: String) {
        self.answer = text;
    }

    fn reward_of(&self, entry: &str) -> (r: i32) {
        match self.prompt {
            Some((_, name)) => if matches_answer(entry, name) {
                2
            } else {
                -1
            },
            None => 0,
        }
    }

    /// Asks for another letter and empties the answer field; the counters stay.
    fn reset(&mut self)
        ensures
            final(self).counters() == old(self).counters(),
    {
        self.draw();
    }

    fn check_answer(&mut self) {
        let reward = self.reward_of(self.answer.as_str());
        self.state.record_round(reward);
        self.reset();
    }
}

} // verus!
