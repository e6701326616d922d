use memorykata::games::math_tricks::MathTricks;
use memorykata::games::GameModule;

fn factorial_of(n: i32) -> i32 {
    (2..=n).product()
}

/// The value of a generated expression, worked out again from its text.
fn value_of(expression: &str) -> i32 {
    if let Some(rest) = expression.strip_prefix('(') {
        let (a, rest) = rest.split_once(" × ").unwrap();
        let (b, c) = rest.split_once(") + ").unwrap();
        let (a, b, c): (i32, i32, i32) = (a.parse().unwrap(), b.parse().unwrap(), c.parse().unwrap());
        assert!((2..12).contains(&a) && (2..12).contains(&b) && (1..6).contains(&c));
        a * b + c
    } else if let Some((a, c)) = expression.split_once("² + ") {
        let (a, c): (i32, i32) = (a.parse().unwrap(), c.parse().unwrap());
        assert!((2..12).contains(&a) && (1..6).contains(&c));
        a * a + c
    } else {
        let (a, b) = expression.split_once("! / ").unwrap();
        let (a, b): (i32, i32) = (a.parse().unwrap(), b.parse().unwrap());
        assert!((2..12).contains(&a) && (2..12).contains(&b));
        factorial_of(a) / b
    }
}

#[test]
fn math_factorial_values() {
    assert_eq!(MathTricks::factorial(2), 2);
    assert_eq!(MathTricks::factorial(3), 6);
    assert_eq!(MathTricks::factorial(5), 120);
    assert_eq!(MathTricks::factorial(11), 39916800);
    assert_eq!(MathTricks::factorial(12), 479001600);
}

#[test]
fn math_factorial_below_two_is_one() {
    assert_eq!(MathTricks::factorial(1), 1);
    assert_eq!(MathTricks::factorial(0), 1);
    assert_eq!(MathTricks::factorial(-5), 1);
    assert_eq!(MathTricks::factorial(i32::MIN), 1);
}

#[test]
fn math_product_sum_text_and_value() {
    assert_eq!(MathTricks::product_sum(3, 4, 5), (String::from("(3 × 4) + 5"), 17));
    assert_eq!(MathTricks::product_sum(11, 11, 5), (String::from("(11 × 11) + 5"), 126));
    assert_eq!(MathTricks::product_sum(2, 2, 1), (String::from("(2 × 2) + 1"), 5));
}

#[test]
fn math_square_sum_text_and_value() {
    assert_eq!(MathTricks::square_sum(7, 2), (String::from("7² + 2"), 51));
    assert_eq!(MathTricks::square_sum(11, 5), (String::from("11² + 5"), 126));
    assert_eq!(MathTricks::square_sum(2, 1), (String::from("2² + 1"), 5));
}

#[test]
fn math_factorial_quotient_text_and_value() {
    assert_eq!(MathTricks::factorial_quotient(5, 4), (String::from("5! / 4"), 30));
    assert_eq!(MathTricks::factorial_quotient(4, 5), (String::from("4! / 5"), 4));
    assert_eq!(MathTricks::factorial_quotient(2, 11), (String::from("2! / 11"), 0));
    assert_eq!(MathTricks::factorial_quotient(11, 2), (String::from("11! / 2"), 19958400));
    assert_eq!(MathTricks::factorial_quotient(10, 7), (String::from("10! / 7"), 518400));
}

#[test]
fn math_all_operands_agree_with_plain_arithmetic() {
    for a in 2..12 {
        for b in 2..12 {
            assert_eq!(MathTricks::factorial_quotient(a, b).1, factorial_of(a) / b);
            for c in 1..6 {
                let (text, value) = MathTricks::product_sum(a, b, c);
                assert_eq!(text, format!("({} × {}) + {}", a, b, c));
                assert_eq!(value, a * b + c);
                let (text, value) = MathTricks::square_sum(a, c);
                assert_eq!(text, format!("{}² + {}", a, c));
                assert_eq!(value, a * a + c);
            }
        }
    }
}

#[test]
fn math_generated_expressions_have_their_value() {
    for _ in 0..500 {
        let (expression, expected) = MathTricks::generate_expression();
        assert_eq!(value_of(&expression), expected);
    }
}

#[test]
fn math_generates_all_three_kinds() {
    let (mut products, mut squares, mut quotients) = (false, false, false);
    for _ in 0..500 {
        let (expression, _) = MathTricks::generate_expression();
        if expression.starts_with('(') {
            products = true;
        } else if expression.contains('²') {
            squares = true;
        } else if expression.contains('!') {
            quotients = true;
        }
    }
    assert!(products && squares && quotients);
}

#[test]
fn math_new_shows_an_expression() {
    for _ in 0..50 {
        let math = MathTricks::new();
        assert_eq!(value_of(math.expression()), math.expected());
        assert_eq!(math.name(), "Math Tricks");
        assert_eq!(math.description(), "Recall math tricks quickly");
        assert_eq!(math.state().score, 0);
        assert_eq!(math.state().attempts, 0);
        assert_eq!(math.answer(), "");
    }
}

#[test]
fn math_right_value_brings_three() {
    let mut math = MathTricks::new();
    math.pose(MathTricks::product_sum(3, 4, 5));
    assert_eq!(math.expression(), "(3 × 4) + 5");
    assert_eq!(math.expected(), 17);
    math.set_answer(String::from(" 17\n"));
    math.check_answer();
    assert_eq!(math.state().score, 3);
    assert_eq!(math.state().attempts, 1);
    assert_eq!(math.answer(), "");
    assert_eq!(value_of(math.expression()), math.expected());
}

#[test]
fn math_wrong_value_costs_one() {
    let mut math = MathTricks::default();
    math.pose(MathTricks::square_sum(9, 1));
    math.set_answer(String::from("81"));
    math.check_answer();
    assert_eq!(math.state().score, -1);
    assert_eq!(math.state().attempts, 1);
}

#[test]
fn math_text_that_is_no_number_only_counts() {
    for answer in ["", "seventeen", "17.0", "1_7", "0x11", "17 18", "99999999999"] {
        let mut math = MathTricks::new();
        math.pose(MathTricks::product_sum(3, 4, 5));
        math.set_answer(String::from(answer));
        math.check_answer();
        assert_eq!(math.state().score, 0);
        assert_eq!(math.state().attempts, 1);
    }
}

#[test]
fn math_answer_after_a_random_puzzle() {
    let mut math = MathTricks::new();
    for round in 1..=30 {
        let answer = math.expected().to_string();
        math.set_answer(answer);
        math.check_answer();
        assert_eq!(math.state().score, 3 * round);
        assert_eq!(math.state().attempts, round);
    }
}

#[test]
fn math_reset_keeps_the_counters() {
    let mut math = MathTricks::new();
    math.state_mut().score = 12;
    math.state_mut().attempts = 5;
    math.set_answer(String::from("4"));
    math.reset();
    assert_eq!(math.state().score, 12);
    assert_eq!(math.state().attempts, 5);
    assert_eq!(math.answer(), "");
    assert_eq!(value_of(math.expression()), math.expected());
}
