//! Naming chemical elements: the kata shows a symbol, the player types the
//! element's name.

use vstd::prelude::*;
use vstd::string::*;

use super::{naming_reward, GameModule, GameState, GameStateView};
use crate::chance::pick;
use crate::text::matches_answer;

verus! {

/// The elements the kata asks for: symbol, then name.
pub const ELEMENTS: [(&'static str, &'static str); 8] = [
    ("H", "Hydrogen"),
    ("He", "Helium"),
    ("Li", "Lithium"),
    ("C", "Carbon"),
    ("Na", "Sodium"),
    ("Cl", "Chlorine"),
    ("Fe", "Iron"),
    ("Au", "Gold"),
];

/// The elements kata: the element asked for, the answer typed so far, its
/// counters.
#[derive(Debug)]
pub struct PeriodicTable {
    prompt: Option<(&'static str, &'static str)>,
    answer: String,
    state: GameState,
}

impl PeriodicTable {
    /// A kata that was never played, asking for some element of the table.
    pub fn new() -> (r: Self)
        ensures
            r.well_formed(),
            r.entry() == Seq::<char>::empty(),
            r.counters() == (GameStateView {
                score: 0,
                attempts: 0,
                description: "Match element symbols to names"@,
            }),
    {
        let mut module = Self {
            prompt: None,
            answer: String::new(),
            state: GameState {
                score: 0,
                attempts: 0,
                description: String::from_str("Match element symbols to names"),
            },
        };
        module.draw();
        module
    }

    /// The element asked for.
    pub fn prompt(&self) -> (r: Option<(&'static str, &'static str)>)
        ensures
            r == self.puzzle(),
    {
        self.prompt
    }

    /// Asks for `prompt`, an entry of the table, and empties the answer field.
    pub fn pose(&mut self, prompt: (&'static str, &'static str))
        requires
            ELEMENTS@.contains(prompt),
        ensures
            final(self).well_formed(),
            final(self).puzzle() == Some(prompt),
            final(self).entry() == Seq::<char>::empty(),
            final(self).counters() == old(self).counters(),
    {
        self.prompt = Some(prompt);
        self.answer.clear();
    }

    /// Asks for an element picked at random from the table.
    fn draw(&mut self)
        ensures
            final(self).well_formed(),
            final(self).entry() == Seq::<char>::empty(),
            final(self).counters() == old(self).counters(),
    {
        match pick(ELEMENTS.as_slice()) {
            Some(prompt) => self.pose(*prompt),
            None => {},
        }
    }
}

impl Clone for PeriodicTable {
    fn clone(&self) -> (r: Self)
        ensures
            r.puzzle() == self.puzzle(),
            r.entry() == self.entry(),
            r.counters() == self.counters(),
            r.well_formed() == self.well_formed(),
    {
        Self { prompt: self.prompt, answer: self.answer.clone(), state: self.state.clone() }
    }
}

impl Default for PeriodicTable {
    fn default() -> (r: Self)
        ensures
            r.well_formed(),
            r.entry() == Seq::<char>::empty(),
            r.counters() == (GameStateView {
                score: 0,
                attempts: 0,
                description: "Match element symbols to names"@,
            }),
    {
        Self::new()
    }
}

impl GameModule for PeriodicTable {
    type Puzzle = Option<(&'static str, &'static str)>;

    open spec fn title(&self) -> Seq<char> {
        "Periodic Table"@
    }

    closed spec fn puzzle(&self) -> Option<(&'static str, &'static str)> {
        self.prompt
    }

    closed spec fn entry(&self) -> Seq<char> {
        self.answer@
    }

    closed spec fn counters(&self) -> GameStateView {
        self.state@
    }

    open spec fn well_formed(&self) -> bool {
        &&& self.puzzle() is Some
        &&& ELEMENTS@.contains(self.puzzle().unwrap())
    }

    open spec fn reward_for(puzzle: Option<(&'static str, &'static str)>, entry: Seq<char>) -> int {
        match puzzle {
            Some(prompt) => naming_reward(prompt.1@, entry),
            None => 0,
        }
    }

    fn name(&self) -> (r: &str) {
        "Periodic Table"
    }

    fn description(&self) -> (r: &str) {
        self.state.description.as_str()
    }

    fn state(&self) -> (r: &GameState) {
        &self.state
    }

    fn state_mut(&mut self) -> (r: &mut GameState) {
        &mut self.state
    }

    fn answer(&self) -> (r: &str) {
        self.answer.as_str()
    }

    fn set_answer(&mut self, text: String) {
        self.answer = text;
    }

    fn reward_of(&self, entry: &str) -> (r: i32) {
        match self.prompt {
            Some((_, name)) => if matches_answer(entry, name) {
                2
            } else {
                -1
            },
            None => 0,
        }
    }

    /// Asks for another element and empties the answer field; the counters stay.
    fn reset(&mut self)
        ensures
            final(self).counters() == old(self).counters(),
    {
        self.draw();
    }

    fn check_answer(&mut self) {
        let reward = self.reward_of(self.answer.as_str());
        self.state.record_round(reward);
        self.reset();
    }
}

} // verus!
