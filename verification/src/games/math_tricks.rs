//! Mental arithmetic: the kata shows an expression, the player types its
//! value.

use vstd::prelude::*;
use vstd::string::*;

use super::{GameModule, GameState, GameStateView};
use crate::chance::{pick, random_in};
use crate::text::{answer_number, decimal, decimal_string, read_number};

verus! {

/// An expression as shown, and the value it asks for.
pub struct MathPuzzle {
    pub expression: Seq<char>,
    pub expected: int,
}

/// The product of the integers from 2 to `n`; one if there are none.
pub open spec fn factorial(n: int) -> int
    decreases n,
{
    if n < 2 {
        1
    } else {
        n * factorial(n - 1)
    }
}

/// Whether `a`, `b` and `c` are operands that the kata draws.
pub open spec fn are_operands(a: int, b: int, c: int) -> bool {
    &&& 2 <= a < 12
    &&& 2 <= b < 12
    &&& 1 <= c < 6
}

/// The puzzle `(a × b) + c`.
pub open spec fn product_sum_puzzle(a: int, b: int, c: int) -> MathPuzzle {
    MathPuzzle {
        expression: "("@ + decimal(a) + " × "@ + decimal(b) + ") + "@ + decimal(c),
        expected: a * b + c,
    }
}

/// The puzzle `a² + c`.
pub open spec fn square_sum_puzzle(a: int, c: int) -> MathPuzzle {
    MathPuzzle { expression: decimal(a) + "² + "@ + decimal(c), expected: a * a + c }
}

/// The puzzle `a! / b`: the factorial of `a`, divided in whole numbers by
/// `b`, or by one if `b` is less.
pub open spec fn factorial_quotient_puzzle(a: int, b: int) -> MathPuzzle {
    MathPuzzle {
        expression: decimal(a) + "! / "@ + decimal(b),
        expected: factorial(a) / (if b >= 1 { b } else { 1 }),
    }
}

/// Whether `puzzle` is one of the three kinds of expression over operands
/// that the kata draws.
pub open spec fn is_math_puzzle(puzzle: MathPuzzle) -> bool {
    exists|a: int, b: int, c: int|
        are_operands(a, b, c) && (#[trigger] product_sum_puzzle(a, b, c) == puzzle
            || square_sum_puzzle(a, c) == puzzle || factorial_quotient_puzzle(a, b) == puzzle)
}

/// What an entry brings: three if the number it gives is the expected one,
/// minus one if it is another, and nothing if it gives none.
pub open spec fn math_reward(expected: int, entry: Seq<char>) -> int {
    match answer_number(entry) {
        Some(value) => if value == expected {
            3
        } else {
            -1
        },
        None => 0,
    }
}

/// The factorials up to that of twelve, the last that fits in `i32`.
pub proof fn lemma_factorials()
    ensures
        forall|n: int| n < 2 ==> #[trigger] factorial(n) == 1,
        factorial(2) == 2,
        factorial(3) == 6,
        factorial(4) == 24,
        factorial(5) == 120,
        factorial(6) == 720,
        factorial(7) == 5040,
        factorial(8) == 40320,
        factorial(9) == 362880,
        factorial(10) == 3628800,
        factorial(11) == 39916800,
        factorial(12) == 479001600,
{
    assert(factorial(1) == 1);
    assert(factorial(2) == 2 * factorial(1));
    assert(factorial(3) == 3 * factorial(2));
    assert(factorial(4) == 4 * factorial(3));
    assert(factorial(5) == 5 * factorial(4));
    assert(factorial(6) == 6 * factorial(5));
    assert(factorial(7) == 7 * factorial(6));
    assert(factorial(8) == 8 * factorial(7));
    assert(factorial(9) == 9 * factorial(8));
    assert(factorial(10) == 10 * factorial(9));
    assert(factorial(11) == 11 * factorial(10));
    assert(factorial(12) == 12 * factorial(11));
}

/// The arithmetic kata: the expression shown, the answer typed so far, the
/// value asked for, its counters.
#[derive(Debug)]
pub struct MathTricks {
    expression: String,
    answer: String,
    expected: i32,
    state: GameState,
}

impl MathTricks {
    /// A kata that was never played, showing some expression.
    pub fn new() -> (r: Self)
        ensures
            r.well_formed(),
            r.entry() == Seq::<char>::empty(),
            r.counters() == (GameStateView {
                score: 0,
                attempts: 0,
                description: "Recall math tricks quickly"@,
            }),
    {
        let (expression, expected) = Self::generate_expression();
        Self {
            expression,
            answer: String::new(),
            expected,
            state: GameState {
                score: 0,
                attempts: 0,
                description: String::from_str("Recall math tricks quickly"),
            },
        }
    }

    /// The product of the integers from 2 to `n`; one if there are none.
    pub fn factorial(n: i32) -> (r: i32)
        requires
            n <= 12,
        ensures
            r == factorial(n as int),
    {
        let mut product: i32 = 1;
        let mut i: i32 = 2;
        while i <= n
            invariant
                2 <= i <= 13,
                n <= 12,
                i <= n + 1 || i == 2,
                product == factorial(i - 1),
            decreases n - i + 1,
        {
            proof {
                lemma_factorials();
                assert(i == 2 || i == 3 || i == 4 || i == 5 || i == 6 || i == 7 || i == 8 || i == 9
                    || i == 10 || i == 11 || i == 12);
            }
            product = product * i;
            i += 1;
        }
        product
    }

    /// The expression `(a × b) + c` and its value.
    pub fn product_sum(a: i32, b: i32, c: i32) -> (r: (String, i32))
        requires
            are_operands(a as int, b as int, c as int),
        ensures
            r.0@ == product_sum_puzzle(a as int, b as int, c as int).expression,
            r.1 == product_sum_puzzle(a as int, b as int, c as int).expected,
    {
        let mut text = String::from_str("(");
        text.append(decimal_string(a).as_str());
        text.append(" × ");
        text.append(decimal_string(b).as_str());
        text.append(") + ");
        text.append(decimal_string(c).as_str());
        assert(0 <= a * b <= 121) by (nonlinear_arith)
            requires
                2 <= a < 12,
                2 <= b < 12,
        ;
        (text, a * b + c)
    }

    /// The expression `a² + c` and its value.
    pub fn square_sum(a: i32, c: i32) -> (r: (String, i32))
        requires
            are_operands(a as int, 2, c as int),
        ensures
            r.0@ == square_sum_puzzle(a as int, c as int).expression,
            r.1 == square_sum_puzzle(a as int, c as int).expected,
    {
        let mut text = decimal_string(a);
        text.append("² + ");
        text.append(decimal_string(c).as_str());
        assert(0 <= a * a <= 121) by (nonlinear_arith)
            requires
                2 <= a < 12,
        ;
        (text, a * a + c)
    }

    /// The expression `a! / b` and its value.
    pub fn factorial_quotient(a: i32, b: i32) -> (r: (String, i32))
        requires
            are_operands(a as int, b as int, 1),
        ensures
            r.0@ == factorial_quotient_puzzle(a as int, b as int).expression,
            r.1 == factorial_quotient_puzzle(a as int, b as int).expected,
    {
        let mut text = decimal_string(a);
        text.append("! / ");
        text.append(decimal_string(b).as_str());
        let divisor: i32 = if b >= 1 {
            b
        } else {
            1
        };
        let product = Self::factorial(a);
        proof {
            lemma_factorials();
        }
        (text, product / divisor)
    }

    /// An expression of one of the three kinds, over operands picked at
    /// random, and its value.
    pub fn generate_expression() -> (r: (String, i32))
        ensures
            is_math_puzzle(MathPuzzle { expression: r.0@, expected: r.1 as int }),
    {
        let a = random_in(2, 12);
        let b = random_in(2, 12);
        let c = random_in(1, 6);
        let mut exprs: Vec<(String, i32)> = Vec::new();
        exprs.push(Self::product_sum(a, b, c));
        exprs.push(Self::square_sum(a, c));
        exprs.push(Self::factorial_quotient(a, b));
        let chosen = match pick(exprs.as_slice()) {
            Some(expr) => (expr.0.clone(), expr.1),
            None => (exprs[0].0.clone(), exprs[0].1),
        };
        chosen
    }

    /// The expression shown.
    pub fn expression(&self) -> (r: &str)
        ensures
            r@ == self.puzzle().expression,
    {
        self.expression.as_str()
    }

    /// The value asked for.
    pub fn expected(&self) -> (r: i32)
        ensures
            r == self.puzzle().expected,
    {
        self.expected
    }

    /// Shows the expression `puzzle.0`, whose value is `puzzle.1`, and
    /// empties the answer field.
    pub fn pose(&mut self, puzzle: (String, i32))
        requires
            is_math_puzzle(MathPuzzle { expression: puzzle.0@, expected: puzzle.1 as int }),
        ensures
            final(self).well_formed(),
            final(self).puzzle() == (MathPuzzle {
                expression: puzzle.0@,
                expected: puzzle.1 as int,
            }),
            final(self).entry() == Seq::<char>::empty(),
            final(self).counters() == old(self).counters(),
    {
        self.expression = puzzle.0;
        self.expected = puzzle.1;
        self.answer.clear();
    }
}

impl Clone for MathTricks {
    fn clone(&self) -> (r: Self)
        ensures
            r.puzzle() == self.puzzle(),
            r.entry() == self.entry(),
            r.counters() == self.counters(),
            r.well_formed() == self.well_formed(),
    {
        Self {
            expression: self.expression.clone(),
            answer: self.answer.clone(),
            expected: self.expected,
            state: self.state.clone(),
        }
    }
}

impl Default for MathTricks {
    fn default() -> (r: Self)
        ensures
            r.well_formed(),
            r.entry() == Seq::<char>::empty(),
            r.counters() == (GameStateView {
                score: 0,
                attempts: 0,
                description: "Recall math tricks quickly"@,
            }),
    {
        Self::new()
    }
}

impl GameModule for MathTricks {
    type Puzzle = MathPuzzle;

    open spec fn title(&self) -> Seq<char> {
        "Math Tricks"@
    }

    closed spec fn puzzle(&self) -> MathPuzzle {
        MathPuzzle { expression: self.expression@, expected: self.expected as int }
    }

    closed spec fn entry(&self) -> Seq<char> {
        self.answer@
    }

    closed spec fn counters(&self) -> GameStateView {
        self.state@
    }

    open spec fn well_formed(&self) -> bool {
        is_math_puzzle(self.puzzle())
    }

    open spec fn reward_for(puzzle: MathPuzzle, entry: Seq<char>) -> int {
        math_reward(puzzle.expected, entry)
    }

    fn name(&self) -> (r: &str) {
        "Math Tricks"
    }

    fn description(&self) -> (r: &str) {
        self.state.description.as_str()
    }

    fn state(&self) -> (r: &GameState) {
        &self.state
    }

    fn state_mut(&mut self) -> (r: &mut GameState) {
        &mut self.state
    }

    fn answer(&self) -> (r: &str) {
        self.answer.as_str()
    }

    fn set_answer(&mut self, text: String) {
        self.answer = text;
    }

    fn reward_of(&self, entry: &str) -> (r: i32) {
        match read_number(entry) {
            Some(value) => if value == self.expected {
                3
            } else {
                -1
            },
            None => 0,
        }
    }

    /// Shows another expression and empties the answer field; the counters
    /// stay.
    fn reset(&mut self)
        ensures
            final(self).counters() == old(self).counters(),
    {
        let puzzle = Self::generate_expression();
        self.pose(puzzle);
    }

    fn check_answer(&mut self) {
        let reward = self.reward_of(self.answer.as_str());
        self.state.record_round(reward);
        self.reset();
    }
}

} // verus!
