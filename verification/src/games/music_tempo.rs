//! Estimating tempo: the kata names a tempo marking, the player guesses the
//! beats per minute behind it.

use vstd::prelude::*;
use vstd::string::*;

use super::{GameModule, GameState, GameStateView};
use crate::chance::random_in;
use crate::text::{answer_number, read_number};

verus! {

/// The slowest tempo the kata asks for, in beats per minute.
pub const MIN_BPM: u16 = 40;

/// The fastest tempo the kata asks for, in beats per minute.
pub const MAX_BPM: u16 = 200;

/// The marking of a tempo of `bpm` beats per minute.
pub open spec fn tempo_label(bpm: int) -> Seq<char> {
    if 40 <= bpm <= 60 {
        "Largo"@
    } else if 61 <= bpm <= 76 {
        "Adagio"@
    } else if 77 <= bpm <= 108 {
        "Andante"@
    } else if 109 <= bpm <= 120 {
        "Moderato"@
    } else if 121 <= bpm <= 168 {
        "Allegro"@
    } else {
        "Presto"@
    }
}

/// How far `guess` is from `target`.
pub open spec fn tempo_distance(guess: int, target: int) -> int {
    if guess >= target {
        guess - target
    } else {
        target - guess
    }
}

/// What a numeric guess brings: five within 5 beats of the target, two
/// within 15, otherwise minus one.
pub open spec fn tempo_reward(guess: int, target: int) -> int {
    let distance = tempo_distance(guess, target);
    if distance <= 5 {
        5
    } else if distance <= 15 {
        2
    } else {
        -1
    }
}

/// What an entry brings: the reward of the number it gives, and nothing if it
/// gives none.
pub open spec fn tempo_entry_reward(target: int, entry: Seq<char>) -> int {
    match answer_number(entry) {
        Some(guess) => tempo_reward(guess as int, target),
        None => 0,
    }
}

/// The reward is five exactly when the guess is within 5 of the target, two
/// exactly when it is further than 5 and within 15, and minus one exactly
/// when it is further than 15.
pub proof fn lemma_tempo_banding(guess: int, target: int)
    ensures
        tempo_reward(guess, target) == 5 <==> tempo_distance(guess, target) <= 5,
        tempo_reward(guess, target) == 2 <==> 5 < tempo_distance(guess, target) <= 15,
        tempo_reward(guess, target) == -1 <==> 15 < tempo_distance(guess, target),
        tempo_distance(guess, target) >= 0,
{
}

/// The tempo kata: the tempo to guess, the answer typed so far, its counters.
#[derive(Debug)]
pub struct MusicTempo {
    target_bpm: u16,
    answer: String,
    state: GameState,
}

impl MusicTempo {
    /// A kata that was never played, with some tempo from 40 to 200 to guess.
    pub fn new() -> (r: Self)
        ensures
            r.well_formed(),
            r.entry() == Seq::<char>::empty(),
            r.counters() == (GameStateView {
                score: 0,
                attempts: 0,
                description: "Match tempo markings to BPM"@,
            }),
    {
        let mut module = Self {
            target_bpm: 0,
            answer: String::new(),
            state: GameState {
                score: 0,
                attempts: 0,
                description: String::from_str("Match tempo markings to BPM"),
            },
        };
        module.draw();
        module
    }

    /// The marking shown for a tempo of `bpm` beats per minute.
    pub fn tempo_hint(bpm: u16) -> (r: &'static str)
        ensures
            r@ == tempo_label(bpm as int),
    {
        if 40 <= bpm && bpm <= 60 {
            "Largo"
        } else if 61 <= bpm && bpm <= 76 {
            "Adagio"
        } else if 77 <= bpm && bpm <= 108 {
            "Andante"
        } else if 109 <= bpm && bpm <= 120 {
            "Moderato"
        } else if 121 <= bpm && bpm <= 168 {
            "Allegro"
        } else {
            "Presto"
        }
    }

    /// What the guess `guess` brings when the tempo is `target`.
    pub fn reward(guess: i32, target: u16) -> (r: i32)
        ensures
            r == tempo_reward(guess as int, target as int),
    {
        let distance: i64 = if guess as i64 >= target as i64 {
            guess as i64 - target as i64
        } else {
            target as i64 - guess as i64
        };
        if distance <= 5 {
            5
        } else if distance <= 15 {
            2
        } else {
            -1
        }
    }

    /// The tempo to guess.
    pub fn target_bpm(&self) -> (r: u16)
        ensures
            r == self.puzzle(),
    {
        self.target_bpm
    }

    /// Sets `target`, a tempo from 40 to 200, to be guessed, and empties the
    /// answer field.
    pub fn pose(&mut self, target: u16)
        requires
            MIN_BPM <= target <= MAX_BPM,
        ensures
            final(self).well_formed(),
            final(self).puzzle() == target,
            final(self).entry() == Seq::<char>::empty(),
            final(self).counters() == old(self).counters(),
    {
        self.target_bpm = target;
        self.answer.clear();
    }

    /// Sets a tempo picked at random to be guessed.
    fn draw(&mut self)
        ensures
            final(self).well_formed(),
            final(self).entry() == Seq::<char>::empty(),
            final(self).counters() == old(self).counters(),
    {
        let target = random_in(40, 201);
        self.pose(target as u16);
    }
}

impl Clone for MusicTempo {
    fn clone(&self) -> (r: Self)
        ensures
            r.puzzle() == self.puzzle(),
            r.entry() == self.entry(),
            r.counters() == self.counters(),
            r.well_formed() == self.well_formed(),
    {
        Self {
            target_bpm: self.target_bpm,
            answer: self.answer.clone(),
            state: self.state.clone(),
        }
    }
}

impl Default for MusicTempo {
    fn default() -> (r: Self)
        ensures
            r.well_formed(),
            r.entry() == Seq::<char>::empty(),
            r.counters() == (GameStateView {
                score: 0,
                attempts: 0,
                description: "Match tempo markings to BPM"@,
            }),
    {
        Self::new()
    }
}

impl GameModule for MusicTempo {
    type Puzzle = u16;

    open spec fn title(&self) -> Seq<char> {
        "Music Tempo"@
    }

    closed spec fn puzzle(&self) -> u16 {
        self.target_bpm
    }

    closed spec fn entry(&self) -> Seq<char> {
        self.answer@
    }

    closed spec fn counters(&self) -> GameStateView {
        self.state@
    }

    open spec fn well_formed(&self) -> bool {
        MIN_BPM <= self.puzzle() <= MAX_BPM
    }

    open spec fn reward_for(puzzle: u16, entry: Seq<char>) -> int {
        tempo_entry_reward(puzzle as int, entry)
    }

    fn name(&self) -> (r: &str) {
        "Music Tempo"
    }

    fn description(&self) -> (r: &str) {
        self.state.description.as_str()
    }

    fn state(&self) -> (r: &GameState) {
        &self.state
    }

    fn state_mut(&mut self) -> (r: &mut GameState) {
        &mut self.state
    }

    fn answer(&self) -> (r: &str) {
        self.answer.as_str()
    }

    fn set_answer(&mut self, text: String) {
        self.answer = text;
    }

    fn reward_of(&self, entry: &str) -> (r: i32) {
        match read_number(entry) {
            Some(guess) => Self::reward(guess, self.target_bpm),
            None => 0,
        }
    }

    /// Sets another tempo to be guessed and empties the answer field; the
    /// counters stay.
    fn reset(&mut self)
        ensures
            final(self).counters() == old(self).counters(),
    {
        self.draw();
    }

    fn check_answer(&mut self) {
        let reward = self.reward_of(self.answer.as_str());
        self.state.record_round(reward);
        self.reset();
    }
}

} // verus!
