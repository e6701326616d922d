//! Recall of the digits of π: the player types as many leading digits as
//! they remember.

use vstd::prelude::*;
use vstd::string::*;
use vstd::utf8::*;

use super::{GameModule, GameState, GameStateView};

verus! {

/// The digits of π that the kata knows.
pub open spec fn pi_digits() -> Seq<char> {
    "3141592653589793238462643383279"@
}

/// Whether `input` is the first `input.len()` digits of π.
pub open spec fn is_pi_prefix(input: Seq<char>) -> bool {
    &&& input.len() <= pi_digits().len()
    &&& input == pi_digits().take(input.len() as int)
}

/// What a round brings: the number of digits typed if all are right,
/// otherwise minus one.
pub open spec fn pi_reward(input: Seq<char>) -> int {
    if is_pi_prefix(input) {
        input.len() as int
    } else {
        -1
    }
}

/// The digits are thirty-one ASCII digits.
pub proof fn lemma_pi_digits()
    ensures
        pi_digits().len() == 31,
        forall|i: int| 0 <= i < 31 ==> '0' <= #[trigger] pi_digits()[i] <= '9',
        is_ascii_chars(pi_digits()),
{
    reveal_strlit("3141592653589793238462643383279");
    assert forall|i: int| 0 <= i < 31 implies '0' <= #[trigger] pi_digits()[i] <= '9' by {
        if i < 8 {
            assert(pi_digits()[0] == '3');
            assert(pi_digits()[1] == '1');
            assert(pi_digits()[2] == '4');
            assert(pi_digits()[3] == '1');
            assert(pi_digits()[4] == '5');
            assert(pi_digits()[5] == '9');
            assert(pi_digits()[6] == '2');
            assert(pi_digits()[7] == '6');
        } else if i < 16 {
            assert(pi_digits()[8] == '5');
            assert(pi_digits()[9] == '3');
            assert(pi_digits()[10] == '5');
            assert(pi_digits()[11] == '8');
            assert(pi_digits()[12] == '9');
            assert(pi_digits()[13] == '7');
            assert(pi_digits()[14] == '9');
            assert(pi_digits()[15] == '3');
        } else if i < 24 {
            assert(pi_digits()[16] == '2');
            assert(pi_digits()[17] == '3');
            assert(pi_digits()[18] == '8');
            assert(pi_digits()[19] == '4');
            assert(pi_digits()[20] == '6');
            assert(pi_digits()[21] == '2');
            assert(pi_digits()[22] == '6');
            assert(pi_digits()[23] == '4');
        } else {
            assert(pi_digits()[24] == '3');
            assert(pi_digits()[25] == '3');
            assert(pi_digits()[26] == '8');
            assert(pi_digits()[27] == '3');
            assert(pi_digits()[28] == '2');
            assert(pi_digits()[29] == '7');
            assert(pi_digits()[30] == '9');
        }
    }
}

/// Typing the first `k` digits of π, for any `k` from 0 to 31, brings `k`;
/// any other input brings minus one.
pub proof fn lemma_pi_prefix_law(input: Seq<char>)
    ensures
        forall|k: int| 0 <= k <= 31 && input == pi_digits().take(k) ==> pi_reward(input) == k,
        (forall|k: int| 0 <= k <= 31 ==> input != #[trigger] pi_digits().take(k)) ==> pi_reward(
            input,
        ) == -1,
{
    lemma_pi_digits();
    assert forall|k: int| 0 <= k <= 31 && input == pi_digits().take(k) implies pi_reward(input)
        == k by {
        assert(input.len() == k);
    }
}

/// A prefix of an ASCII text takes as many bytes as it has characters.
proof fn lemma_prefix_bytes(input: Seq<char>)
    requires
        is_pi_prefix(input),
    ensures
        encode_utf8(input).len() == input.len(),
{
    lemma_pi_digits();
    assert(is_ascii_chars(input)) by {
        assert forall|i: int| 0 <= i < input.len() implies '\0' <= #[trigger] input[i]
            <= '\u{7f}' by {
            assert(input[i] == pi_digits()[i]);
        }
    }
    is_ascii_chars_encode_utf8(input);
}

/// The π kata: the digits it knows, the input typed so far, its counters.
#[derive(Debug)]
pub struct PiChallenge {
    digits: Vec<char>,
    input: String,
    state: GameState,
}

impl PiChallenge {
    /// A kata with no input, never played.
    pub fn new() -> (r: Self)
        ensures
            r.well_formed(),
            r.entry() == Seq::<char>::empty(),
            r.counters() == (GameStateView {
                score: 0,
                attempts: 0,
                description: "Memorize digits of π"@,
            }),
    {
        let text = "3141592653589793238462643383279";
        proof {
            lemma_pi_digits();
        }
        let mut digits: Vec<char> = Vec::new();
        let mut i: usize = 0;
        while i < 31
            invariant
                i <= 31,
                text@ == pi_digits(),
                text@.len() == 31,
                digits@ == text@.take(i as int),
            decreases 31 - i,
        {
            digits.push(text.get_char(i));
            i += 1;
            assert(digits@ =~= text@.take(i as int));
        }
        assert(digits@ =~= pi_digits());
        Self {
            digits,
            input: String::new(),
            state: GameState {
                score: 0,
                attempts: 0,
                description: String::from_str("Memorize digits of π"),
            },
        }
    }

    /// The first `length` digits of π, or all thirty-one if `length` is more.
    pub fn current_sequence(&self, length: usize) -> (r: String)
        requires
            self.well_formed(),
        ensures
            r@ == pi_digits().take(if length <= 31 { length as int } else { 31 }),
    {
        proof {
            lemma_pi_digits();
        }
        let mut out = String::new();
        let mut i: usize = 0;
        while i < length && i < self.digits.len()
            invariant
                i <= length,
                i <= self.digits.len(),
                self.digits@ == pi_digits(),
                pi_digits().len() == 31,
                out@ == pi_digits().take(i as int),
            decreases self.digits.len() - i,
        {
            out.push(self.digits[i]);
            i += 1;
            assert(out@ =~= pi_digits().take(i as int));
        }
        out
    }
}

impl Clone for PiChallenge {
    fn clone(&self) -> (r: Self)
        ensures
            r.puzzle() == self.puzzle(),
            r.entry() == self.entry(),
            r.counters() == self.counters(),
            r.well_formed() == self.well_formed(),
    {
        let digits = self.digits.clone();
        Self { digits, input: self.input.clone(), state: self.state.clone() }
    }
}

impl Default for PiChallenge {
    fn default() -> (r: Self)
        ensures
            r.well_formed(),
            r.entry() == Seq::<char>::empty(),
            r.counters() == (GameStateView {
                score: 0,
                attempts: 0,
                description: "Memorize digits of π"@,
            }),
    {
        Self::new()
    }
}

impl GameModule for PiChallenge {
    type Puzzle = ();

    open spec fn title(&self) -> Seq<char> {
        "Π Challenge"@
    }

    open spec fn puzzle(&self) -> () {
        ()
    }

    closed spec fn entry(&self) -> Seq<char> {
        self.input@
    }

    closed spec fn counters(&self) -> GameStateView {
        self.state@
    }

    closed spec fn well_formed(&self) -> bool {
        self.digits@ == pi_digits()
    }

    open spec fn reward_for(puzzle: (), entry: Seq<char>) -> int {
        pi_reward(entry)
    }

    fn name(&self) -> (r: &str) {
        "Π Challenge"
    }

    fn description(&self) -> (r: &str) {
        self.state.description.as_str()
    }

    fn state(&self) -> (r: &GameState) {
        &self.state
    }

    fn state_mut(&mut self) -> (r: &mut GameState) {
        &mut self.state
    }

    fn answer(&self) -> (r: &str) {
        self.input.as_str()
    }

    fn set_answer(&mut self, text: String) {
        self.input = text;
    }

    fn reward_of(&self, entry: &str) -> (r: i32) {
        let len = entry.len();
        let target = self.current_sequence(len);
        proof {
            lemma_pi_digits();
            if is_pi_prefix(entry@) {
                lemma_prefix_bytes(entry@);
            }
            if entry@ == target@ {
                assert(is_pi_prefix(entry@));
                lemma_prefix_bytes(entry@);
            }
        }
        if String::from_str(entry) == target {
            len as i32
        } else {
            -1
        }
    }

    /// Empties the input, and sets score and attempts back to zero.
    fn reset(&mut self)
        ensures
            final(self).counters() == old(self).counters().zeroed(),
    {
        self.input.clear();
        self.state.attempts = 0;
        self.state.score = 0;
    }

    /// Plays one round. The counters are kept: a round does not reset them.
    fn check_answer(&mut self) {
        let reward = self.reward_of(self.input.as_str());
        self.state.record_round(reward);
        self.input.clear();
    }
}

} // verus!
