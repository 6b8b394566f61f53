use zico_limbo::queue::placeholder::{apply_placeholders, decimal_string, replace_all};

#[test]
fn position_and_total_are_filled() {
    let text = apply_placeholders("Position: {position}/{total}", 3, 10, "Steve", 5, 1);
    assert_eq!(text, "Position: 3/10");
}

#[test]
fn player_name_is_filled() {
    let text = apply_placeholders("Hello {player}!", 1, 1, "Alex", 5, 1);
    assert_eq!(text, "Hello Alex!");
}

#[test]
fn eta_counts_push_rounds_ahead() {
    // 4 players ahead, 2 pushed every 5 seconds: 2 rounds, 10 seconds.
    let text = apply_placeholders("ETA: {eta}s", 5, 9, "Steve", 5, 2);
    assert_eq!(text, "ETA: 10s");
    // 3 players ahead, 2 per round: 1 full round ahead.
    let text = apply_placeholders("{eta}", 4, 9, "Steve", 7, 2);
    assert_eq!(text, "7");
}

#[test]
fn eta_is_zero_at_the_front() {
    assert_eq!(apply_placeholders("{eta}", 1, 4, "Steve", 30, 1), "0");
}

#[test]
fn eta_is_zero_when_nobody_is_pushed() {
    assert_eq!(apply_placeholders("{eta}", 50, 60, "Steve", 30, 0), "0");
}

#[test]
fn eta_at_position_zero_saturates() {
    assert_eq!(apply_placeholders("{eta}", 0, 0, "Steve", 30, 1), "0");
}

#[test]
fn every_occurrence_is_filled() {
    let text = apply_placeholders("{total}-{total}-{position}", 2, 12, "x", 1, 1);
    assert_eq!(text, "12-12-2");
}

#[test]
fn text_without_placeholders_is_unchanged() {
    let text = apply_placeholders("<bold>Queue</bold>", 7, 9, "Steve", 5, 1);
    assert_eq!(text, "<bold>Queue</bold>");
}

#[test]
fn unknown_and_broken_placeholders_stay() {
    let text = apply_placeholders("{position {unknown} {eta", 7, 9, "Steve", 5, 1);
    assert_eq!(text, "{position {unknown} {eta");
}

#[test]
fn placeholders_are_filled_in_order() {
    // A name is filled before the estimated wait, so an `{eta}` inside it is filled too.
    let text = apply_placeholders("{player}", 3, 3, "{eta}", 5, 1);
    assert_eq!(text, "10");
    // Numbers are filled before the name, so a `{position}` in the name stays.
    let text = apply_placeholders("{player}", 3, 3, "{position}", 5, 1);
    assert_eq!(text, "{position}");
}

#[test]
fn default_action_bar_text() {
    let text = apply_placeholders(
        "<yellow>Queue: {position}/{total} | ETA: {eta}s</yellow>",
        3,
        10,
        "Steve",
        5,
        1,
    );
    assert_eq!(text, "<yellow>Queue: 3/10 | ETA: 10s</yellow>");
}

#[test]
fn large_numbers_are_written_in_full() {
    let text = apply_placeholders("{position} {eta}", usize::MAX, 0, "", 1, 1);
    assert_eq!(text, format!("{} {}", usize::MAX, usize::MAX - 1));
    let text = apply_placeholders("{eta}", 2, 0, "", u64::MAX, 1);
    assert_eq!(text, format!("{}", u64::MAX));
}

#[test]
fn decimal_strings() {
    assert_eq!(decimal_string(0), "0");
    assert_eq!(decimal_string(9), "9");
    assert_eq!(decimal_string(10), "10");
    assert_eq!(decimal_string(1234567890), "1234567890");
    assert_eq!(decimal_string(u64::MAX), "18446744073709551615");
}

#[test]
fn replace_takes_matches_from_the_left_without_overlap() {
    assert_eq!(replace_all("aaa", "aa", "b"), "ba");
    assert_eq!(replace_all("abcabc", "bc", "X"), "aXaX");
    assert_eq!(replace_all("", "x", "y"), "");
    assert_eq!(replace_all("héllo wörld", "ö", "o"), "héllo world");
    assert_eq!(replace_all("abc", "abcd", "z"), "abc");
}

#[test]
fn eta_never_shrinks_further_back() {
    let mut previous = 0u64;
    for position in 1..40usize {
        let eta: u64 = apply_placeholders("{eta}", position, 40, "p", 3, 4).parse().unwrap();
        assert!(eta >= previous);
        previous = eta;
    }
    assert_eq!(previous, (38 / 4) * 3);
}
