use thread_pool::guessing::{
    is_over, is_whitespace, judge, parse_guess, Game, Response, Hint,
};

#[test]
fn judge_compares_guess_with_secret() {
    assert_eq!(judge(3, 42), Hint::TooSmall);
    assert_eq!(judge(41, 42), Hint::TooSmall);
    assert_eq!(judge(42, 42), Hint::Correct);
    assert_eq!(judge(43, 42), Hint::TooBig);
    assert_eq!(judge(u32::MAX, 42), Hint::TooBig);
    assert_eq!(judge(0, 0), Hint::Correct);
}

#[test]
fn whitespace_is_what_the_standard_library_says() {
    for code in 0..=0x10FFFFu32 {
        if let Some(c) = char::from_u32(code) {
            assert_eq!(is_whitespace(c), c.is_whitespace(), "code point {:#x}", code);
        }
    }
}

#[test]
fn guesses_are_parsed_like_trimmed_numbers() {
    assert_eq!(parse_guess("34"), Some(34));
    assert_eq!(parse_guess("  34\n"), Some(34));
    assert_eq!(parse_guess("\t+7\r\n"), Some(7));
    assert_eq!(parse_guess("007"), Some(7));
    assert_eq!(parse_guess("0"), Some(0));
    assert_eq!(parse_guess("4294967295"), Some(u32::MAX));
    assert_eq!(parse_guess("4294967296"), None);
    assert_eq!(parse_guess("99999999999999999999999999"), None);
    assert_eq!(parse_guess(""), None);
    assert_eq!(parse_guess("   "), None);
    assert_eq!(parse_guess("+"), None);
    assert_eq!(parse_guess("++1"), None);
    assert_eq!(parse_guess("-1"), None);
    assert_eq!(parse_guess("1 2"), None);
    assert_eq!(parse_guess("12a"), None);
    assert_eq!(parse_guess("a12"), None);
    assert_eq!(parse_guess("1.5"), None);
    assert_eq!(parse_guess("\u{a0}12\u{3000}"), Some(12));
    assert_eq!(parse_guess("\u{661}\u{662}"), None);
    assert_eq!(parse_guess("12\u{200b}"), None);
}

#[test]
fn guesses_agree_with_trim_and_parse() {
    let lines = [
        "", " ", "+", "-", "+0", "-0", "00", " 1", "1 ", " +1 ", "+ 1", "1+", "4294967295",
        "4294967296", "42949672950", "+4294967295", "0000000000000000000000001", "1e3", "0x10",
        "\n5\n", "\u{2003}77\u{2003}", "7\u{0}", "100", "one", "١٢", "12 34",
    ];
    for line in lines {
        let expected: Option<u32> = line.trim().parse().ok();
        assert_eq!(parse_guess(line), expected, "line {:?}", line);
    }
}

#[test]
fn game_answers_each_line() {
    let game = Game::with_secret(50);
    assert_eq!(game.respond("25\n"), Response::Judged(25, Hint::TooSmall));
    assert_eq!(game.respond("75\n"), Response::Judged(75, Hint::TooBig));
    assert_eq!(game.respond("fifty\n"), Response::NotANumber);
    assert_eq!(game.respond("\n"), Response::NotANumber);
    assert_eq!(game.respond(" 50 \n"), Response::Judged(50, Hint::Correct));
    assert!(is_over(game.respond("50")));
    assert!(!is_over(game.respond("49")));
    assert!(!is_over(game.respond("51")));
    assert!(!is_over(game.respond("x")));
}

fn find_secret(game: &Game) -> u32 {
    let mut low = 0u32;
    let mut high = u32::MAX;
    loop {
        let guess = low + (high - low) / 2;
        match game.respond(&format!("{}\n", guess)) {
            Response::Judged(_, Hint::TooSmall) => low = guess + 1,
            Response::Judged(_, Hint::TooBig) => high = guess - 1,
            Response::Judged(found, Hint::Correct) => return found,
            Response::NotANumber => panic!("{} was not read as a number", guess),
        }
    }
}

#[test]
fn new_games_draw_secrets_between_one_and_a_hundred() {
    let mut seen = Vec::new();
    for _ in 0..300 {
        let game = Game::start();
        let secret = find_secret(&game);
        assert!((1..=100).contains(&secret), "secret {}", secret);
        assert_eq!(game.respond("0"), Response::Judged(0, Hint::TooSmall));
        assert_eq!(game.respond("101"), Response::Judged(101, Hint::TooBig));
        if !seen.contains(&secret) {
            seen.push(secret);
        }
    }
    assert!(seen.len() > 1);
}

#[test]
fn chosen_secrets_are_kept() {
    for secret in [0u32, 1, 57, 100, 101, u32::MAX] {
        assert_eq!(find_secret(&Game::with_secret(secret)), secret);
    }
}
