use book_exercises::guessing::{compare_guess, Feedback, Game, Reply, HIGHEST, LOWEST};
use book_exercises::text::parse_guess;

fn judged(guess: u32, feedback: Feedback) -> Reply {
    Reply::Judged { guess, feedback }
}

#[test]
fn secret_typed_back_wins_at_once() {
    for n in 1u32..=100 {
        let mut game = Game::with_secret(n);
        let reply = game.play(&n.to_string());
        assert_eq!(reply, judged(n, Feedback::Win));
        assert!(game.is_won());
        assert_eq!(game.secret(), n);
    }
}

#[test]
fn non_numeric_lines_are_discarded() {
    for line in ["abc", "", "-5", "   ", "+", "4x", "1 2", "\n"] {
        let mut game = Game::with_secret(50);
        assert_eq!(game.play(line), Reply::Discarded);
        assert!(!game.is_won());
        assert_eq!(game.secret(), 50);
    }
}

#[test]
fn small_guess_is_too_small_and_game_goes_on() {
    let mut game = Game::with_secret(50);
    assert_eq!(game.play("10\n"), judged(10, Feedback::TooSmall));
    assert!(!game.is_won());
    assert_eq!(game.play("50\n"), judged(50, Feedback::Win));
    assert!(game.is_won());
}

#[test]
fn big_guess_is_too_big_and_game_goes_on() {
    let mut game = Game::with_secret(50);
    assert_eq!(game.play("90\n"), judged(90, Feedback::TooBig));
    assert!(!game.is_won());
    assert_eq!(game.play("49"), judged(49, Feedback::TooSmall));
    assert!(!game.is_won());
}

#[test]
fn repeated_invalid_input_changes_nothing() {
    let mut game = Game::with_secret(73);
    for _ in 0..1000 {
        assert_eq!(game.play("seventy-three"), Reply::Discarded);
        assert!(!game.is_won());
        assert_eq!(game.secret(), 73);
    }
    assert_eq!(game.play("73"), judged(73, Feedback::Win));
}

#[test]
fn boundary_guesses_are_accepted() {
    assert_eq!(parse_guess("1"), Some(1));
    assert_eq!(parse_guess("100"), Some(100));
    let mut game = Game::with_secret(1);
    assert_eq!(game.play("100"), judged(100, Feedback::TooBig));
    assert_eq!(game.play("1"), judged(1, Feedback::Win));
    let mut game = Game::with_secret(100);
    assert_eq!(game.play("1"), judged(1, Feedback::TooSmall));
    assert_eq!(game.play("100"), judged(100, Feedback::Win));
}

#[test]
fn guesses_outside_the_secret_range_are_still_judged() {
    let mut game = Game::with_secret(50);
    assert_eq!(game.play("0"), judged(0, Feedback::TooSmall));
    assert_eq!(game.play("4294967295"), judged(4294967295, Feedback::TooBig));
    assert_eq!(game.play("4294967296"), Reply::Discarded);
}

#[test]
fn compare_guess_orders() {
    assert_eq!(compare_guess(10, 50), Feedback::TooSmall);
    assert_eq!(compare_guess(90, 50), Feedback::TooBig);
    assert_eq!(compare_guess(50, 50), Feedback::Win);
}

#[test]
fn drawn_secret_is_in_range() {
    for _ in 0..1000 {
        let game = Game::start();
        assert!(LOWEST <= game.secret() && game.secret() <= HIGHEST);
        assert!(!game.is_won());
    }
}
