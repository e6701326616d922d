use memorykata::games::pi_challenge::PiChallenge;
use memorykata::games::{can_check, can_update, GameModule};

const DIGITS: &str = "3141592653589793238462643383279";

fn checked(input: &str) -> PiChallenge {
    let mut pi = PiChallenge::new();
    pi.set_answer(String::from(input));
    pi.check_answer();
    pi
}

#[test]
fn pi_new_is_fresh() {
    let pi = PiChallenge::new();
    assert_eq!(pi.name(), "Π Challenge");
    assert_eq!(pi.description(), "Memorize digits of π");
    assert_eq!(pi.state().score, 0);
    assert_eq!(pi.state().attempts, 0);
    assert_eq!(pi.answer(), "");
}

#[test]
fn pi_default_is_new() {
    let pi = PiChallenge::default();
    assert_eq!(pi.state().score, 0);
    assert_eq!(pi.state().attempts, 0);
    assert_eq!(pi.description(), "Memorize digits of π");
}

#[test]
fn pi_correct_prefix_scores_its_length() {
    let pi = checked("31415");
    assert_eq!(pi.state().score, 5);
    assert_eq!(pi.state().attempts, 1);
    assert_eq!(pi.answer(), "");
}

#[test]
fn pi_wrong_digit_costs_one() {
    let pi = checked("31425");
    assert_eq!(pi.state().score, -1);
    assert_eq!(pi.state().attempts, 1);
    assert_eq!(pi.answer(), "");
}

#[test]
fn pi_every_prefix_scores_its_length() {
    for k in 0..=31usize {
        let pi = checked(&DIGITS[..k]);
        assert_eq!(pi.state().score, k as i32);
        assert_eq!(pi.state().attempts, 1);
    }
}

#[test]
fn pi_empty_input_awards_nothing_and_counts() {
    let pi = checked("");
    assert_eq!(pi.state().score, 0);
    assert_eq!(pi.state().attempts, 1);
}

#[test]
fn pi_more_than_all_digits_is_wrong() {
    let pi = checked("31415926535897932384626433832795");
    assert_eq!(pi.state().score, -1);
}

#[test]
fn pi_input_is_not_trimmed() {
    assert_eq!(checked(" 314").state().score, -1);
    assert_eq!(checked("314 ").state().score, -1);
    assert_eq!(checked("3.14").state().score, -1);
}

#[test]
fn pi_input_outside_ascii_is_wrong() {
    assert_eq!(checked("π").state().score, -1);
    assert_eq!(checked("３１４").state().score, -1);
}

#[test]
fn pi_reward_of_an_entry_leaves_the_kata_alone() {
    let mut pi = PiChallenge::new();
    pi.set_answer(String::from("315"));
    assert_eq!(pi.reward_of("314"), 3);
    assert_eq!(pi.reward_of("315"), -1);
    assert_eq!(pi.reward_of(""), 0);
    assert_eq!(pi.answer(), "315");
    assert_eq!(pi.state().attempts, 0);
    assert_eq!(pi.state().score, 0);
}

#[test]
fn pi_frame_without_the_button_takes_the_text() {
    let mut pi = PiChallenge::new();
    pi.update(String::from("3"), false);
    pi.update(String::from("31"), false);
    assert_eq!(pi.answer(), "31");
    assert_eq!(pi.state().score, 0);
    assert_eq!(pi.state().attempts, 0);
}

#[test]
fn pi_frame_with_the_button_plays_a_round() {
    let mut pi = PiChallenge::new();
    pi.update(String::from("31415"), true);
    assert_eq!(pi.state().score, 5);
    assert_eq!(pi.state().attempts, 1);
    assert_eq!(pi.answer(), "");
    pi.update(String::from("4"), true);
    assert_eq!(pi.state().score, 4);
    assert_eq!(pi.state().attempts, 2);
}

#[test]
fn pi_can_update_sees_the_end_of_the_counters() {
    let mut pi = PiChallenge::new();
    pi.state_mut().score = i32::MAX - 2;
    assert!(can_update(&pi, "314", false));
    assert!(!can_update(&pi, "314", true));
    assert!(can_update(&pi, "31", true));
    assert!(can_update(&pi, "9", true));
    pi.state_mut().attempts = i32::MAX;
    assert!(!can_update(&pi, "", true));
    assert!(can_update(&pi, "", false));
}

#[test]
fn pi_rounds_add_up_and_keep_the_counters() {
    let mut pi = PiChallenge::new();
    pi.set_answer(String::from("3141"));
    pi.check_answer();
    pi.set_answer(String::from("9"));
    pi.check_answer();
    pi.set_answer(String::from("31"));
    pi.check_answer();
    assert_eq!(pi.state().score, 4 - 1 + 2);
    assert_eq!(pi.state().attempts, 3);
}

#[test]
fn pi_reset_zeroes_score_and_attempts() {
    let mut pi = checked("31415");
    pi.set_answer(String::from("3"));
    pi.reset();
    assert_eq!(pi.state().score, 0);
    assert_eq!(pi.state().attempts, 0);
    assert_eq!(pi.answer(), "");
    assert_eq!(pi.description(), "Memorize digits of π");
}

#[test]
fn pi_current_sequence_takes_leading_digits() {
    let pi = PiChallenge::new();
    assert_eq!(pi.current_sequence(0), "");
    assert_eq!(pi.current_sequence(5), "31415");
    assert_eq!(pi.current_sequence(31), DIGITS);
    assert_eq!(pi.current_sequence(40), DIGITS);
}

#[test]
fn pi_state_mut_overwrites_the_counters_only() {
    let mut pi = PiChallenge::new();
    pi.set_answer(String::from("31"));
    pi.state_mut().score = 40;
    pi.state_mut().attempts = 9;
    pi.state_mut().description = String::from("saved");
    assert_eq!(pi.answer(), "31");
    assert_eq!(pi.description(), "saved");
    pi.check_answer();
    assert_eq!(pi.state().score, 42);
    assert_eq!(pi.state().attempts, 10);
    assert_eq!(pi.description(), "saved");
}

#[test]
fn pi_can_check_sees_the_end_of_the_counters() {
    let mut pi = PiChallenge::new();
    pi.set_answer(String::from("314"));
    assert!(can_check(&pi));
    pi.state_mut().attempts = i32::MAX;
    assert!(!can_check(&pi));
    pi.state_mut().attempts = 0;
    pi.state_mut().score = i32::MAX - 2;
    assert!(!can_check(&pi));
    pi.state_mut().score = i32::MAX - 3;
    assert!(can_check(&pi));
    pi.check_answer();
    assert_eq!(pi.state().score, i32::MAX);
    pi.state_mut().score = i32::MIN;
    pi.set_answer(String::from("x"));
    assert!(!can_check(&pi));
}
