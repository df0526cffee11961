use guessing_game::{draw_secret, judge, parse_guess, respond, Game, Message, Mode};

#[test]
fn parse_plain_number() {
    assert_eq!(parse_guess("42"), Some(42));
}

#[test]
fn parse_plus_sign_and_leading_zeros() {
    assert_eq!(parse_guess("+7"), Some(7));
    assert_eq!(parse_guess("007"), Some(7));
    assert_eq!(parse_guess("0"), Some(0));
}

#[test]
fn parse_rejects_non_numbers() {
    assert_eq!(parse_guess(""), None);
    assert_eq!(parse_guess("+"), None);
    assert_eq!(parse_guess("-3"), None);
    assert_eq!(parse_guess("4a"), None);
    assert_eq!(parse_guess("abc"), None);
    assert_eq!(parse_guess(" 5"), None);
    assert_eq!(parse_guess("1.5"), None);
}

#[test]
fn parse_largest_value() {
    assert_eq!(parse_guess("4294967295"), Some(u32::MAX));
    assert_eq!(parse_guess("4294967296"), None);
    assert_eq!(parse_guess("99999999999999999999"), None);
}

#[test]
fn judge_orders_guess_and_secret() {
    assert_eq!(judge(3, 5), Message::TooSmall);
    assert_eq!(judge(8, 5), Message::TooBig);
    assert_eq!(judge(5, 5), Message::Win);
    assert_eq!(judge(0, u32::MAX), Message::TooSmall);
    assert_eq!(judge(u32::MAX, 0), Message::TooBig);
}

#[test]
fn judge_agrees_with_order_on_a_grid() {
    for g in 0u32..120 {
        for s in 1u32..=100 {
            let m = judge(g, s);
            assert_eq!(m == Message::TooSmall, g < s);
            assert_eq!(m == Message::TooBig, g > s);
            assert_eq!(m == Message::Win, g == s);
        }
    }
}

#[test]
fn respond_to_text() {
    assert_eq!(respond("abc", 10), Message::NotANumber);
    assert_eq!(respond("10", 10), Message::Win);
    assert_eq!(respond("9", 10), Message::TooSmall);
    assert_eq!(respond("+11", 10), Message::TooBig);
}

#[test]
fn message_texts() {
    assert_eq!(Message::Welcome.text(), "Let's play");
    assert_eq!(Message::NotANumber.text(), "Please enter a number");
    assert_eq!(Message::TooSmall.text(), "Too small!");
    assert_eq!(Message::TooBig.text(), "Too big!");
    assert_eq!(Message::Win.text(), "You win! Congratulations");
}

#[test]
fn mode_bounds_and_titles() {
    assert_eq!(Mode::Normal.upper_bound(), 50);
    assert_eq!(Mode::Hard.upper_bound(), 100);
    assert_eq!(Mode::from_switch(true), Mode::Hard);
    assert_eq!(Mode::from_switch(false), Mode::Normal);
    assert_eq!(Mode::Hard.title(), "Game Mode (1-100): HARD!");
    assert_eq!(Mode::Normal.title(), "Game Mode (1-50): Normal!");
}

#[test]
fn secrets_stay_in_the_mode_range() {
    for _ in 0..2000 {
        let n = draw_secret(Mode::Normal);
        assert!(1 <= n && n <= 50);
        let h = draw_secret(Mode::Hard);
        assert!(1 <= h && h <= 100);
    }
}

#[test]
fn new_game_waits_for_start() {
    let g = Game::new();
    assert_eq!(g.mode(), Mode::Normal);
    assert_eq!(g.secret(), None);
    assert!(!g.is_playing());
    assert_eq!(g.message(), Message::Welcome);
}

#[test]
fn start_draws_a_secret_for_the_mode() {
    let mut g = Game::new();
    g.start();
    assert!(g.is_playing());
    let s = g.secret().unwrap();
    assert!(1 <= s && s <= 50);
    let mut h = Game::new();
    assert_eq!(h.switch_mode(true), "Game Mode (1-100): HARD!");
    for _ in 0..500 {
        h.start();
        let s = h.secret().unwrap();
        assert!(1 <= s && s <= 100);
    }
    assert_eq!(h.mode(), Mode::Hard);
}

#[test]
fn switch_back_to_normal() {
    let mut g = Game::new();
    g.switch_mode(true);
    assert_eq!(g.switch_mode(false), "Game Mode (1-50): Normal!");
    assert_eq!(g.mode(), Mode::Normal);
}

#[test]
fn guesses_against_a_known_secret() {
    let mut g = Game::new();
    g.begin(30);
    assert_eq!(g.guess("12"), Message::TooSmall);
    assert_eq!(g.message(), Message::TooSmall);
    assert_eq!(g.guess("45"), Message::TooBig);
    assert_eq!(g.guess("30"), Message::Win);
    assert_eq!(g.message(), Message::Win);
    assert_eq!(g.secret(), Some(30));
}

#[test]
fn guess_ignores_surrounding_white_space() {
    let mut g = Game::new();
    g.begin(7);
    assert_eq!(g.guess("  7 \n"), Message::Win);
    assert_eq!(g.guess("\t3"), Message::TooSmall);
}

#[test]
fn non_numeric_guess_keeps_the_secret() {
    let mut g = Game::new();
    g.begin(21);
    for text in ["", "abc", "12x", "-4", "4 2", "+"] {
        assert_eq!(g.guess(text), Message::NotANumber);
        assert_eq!(g.message(), Message::NotANumber);
        assert_eq!(g.secret(), Some(21));
        assert!(g.is_playing());
    }
}

#[test]
fn stop_keeps_secret_and_disables_guessing() {
    let mut g = Game::new();
    g.begin(5);
    g.guess("5");
    g.stop();
    assert!(!g.is_playing());
    assert_eq!(g.secret(), Some(5));
    assert_eq!(g.message(), Message::Win);
}
