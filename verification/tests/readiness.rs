use serbo::readiness::{shows_marker, MarkerPlace, Readiness};

fn stamp() -> &'static str {
    "[12:34:56] [Server thread/INFO]: "
}

fn marker() -> &'static str {
    "[Server] SERVER READY"
}

#[test]
fn standard_handshake_has_the_stock_values() {
    let readiness = Readiness::standard();
    assert_eq!(readiness.commands, vec!["/say SERVER READY", "say SERVER READY"]);
    assert_eq!(readiness.marker, "[Server] SERVER READY");
    assert_eq!(readiness.place, MarkerPlace::Column(33));
}

#[test]
fn the_stamp_of_a_stock_server_is_33_characters_long() {
    assert_eq!(stamp().chars().count(), 33);
}

#[test]
fn column_matches_when_the_rest_of_the_line_is_the_marker() {
    let line = format!("{}{}", stamp(), marker());
    assert!(shows_marker(&line, marker(), MarkerPlace::Column(33)));
    assert!(Readiness::standard().matches(&line));
}

#[test]
fn column_does_not_match_at_another_column() {
    let line = format!("{}{}", stamp(), marker());
    assert!(!shows_marker(&line, marker(), MarkerPlace::Column(32)));
    assert!(!shows_marker(&line, marker(), MarkerPlace::Column(34)));
    assert!(!shows_marker(&line, marker(), MarkerPlace::Column(0)));
}

#[test]
fn column_does_not_match_when_more_follows_the_marker() {
    let line = format!("{}{}!", stamp(), marker());
    assert!(!shows_marker(&line, marker(), MarkerPlace::Column(33)));
}

#[test]
fn column_does_not_match_a_line_that_is_too_short() {
    assert!(!shows_marker("short", marker(), MarkerPlace::Column(33)));
    assert!(!shows_marker("", marker(), MarkerPlace::Column(33)));
    assert!(!shows_marker(stamp(), marker(), MarkerPlace::Column(33)));
    assert!(!shows_marker("abc", "abc", MarkerPlace::Column(usize::MAX)));
}

#[test]
fn column_zero_asks_for_the_whole_line() {
    assert!(shows_marker(marker(), marker(), MarkerPlace::Column(0)));
    assert!(!shows_marker("x[Server] SERVER READY", marker(), MarkerPlace::Column(0)));
}

#[test]
fn column_counts_characters_not_bytes() {
    let stamp: String = std::iter::repeat('\u{e9}').take(33).collect();
    let line = format!("{}{}", stamp, marker());
    assert!(shows_marker(&line, marker(), MarkerPlace::Column(33)));
    assert!(!shows_marker(&line, marker(), MarkerPlace::Column(66)));
}

#[test]
fn column_with_an_empty_marker_matches_at_the_end_only() {
    assert!(shows_marker("abc", "", MarkerPlace::Column(3)));
    assert!(!shows_marker("abc", "", MarkerPlace::Column(2)));
    assert!(!shows_marker("abc", "", MarkerPlace::Column(4)));
}

#[test]
fn anywhere_matches_at_the_start_in_the_middle_and_at_the_end() {
    assert!(shows_marker("READY now", "READY", MarkerPlace::Anywhere));
    assert!(shows_marker("now READY then", "READY", MarkerPlace::Anywhere));
    assert!(shows_marker("now READY", "READY", MarkerPlace::Anywhere));
    assert!(shows_marker("READY", "READY", MarkerPlace::Anywhere));
}

#[test]
fn anywhere_does_not_match_without_the_marker() {
    assert!(!shows_marker("REA DY", "READY", MarkerPlace::Anywhere));
    assert!(!shows_marker("READ", "READY", MarkerPlace::Anywhere));
    assert!(!shows_marker("", "READY", MarkerPlace::Anywhere));
    assert!(!shows_marker("ready", "READY", MarkerPlace::Anywhere));
}

#[test]
fn anywhere_with_an_empty_marker_always_matches() {
    assert!(shows_marker("abc", "", MarkerPlace::Anywhere));
    assert!(shows_marker("", "", MarkerPlace::Anywhere));
}

#[test]
fn anywhere_finds_a_match_behind_a_false_start() {
    assert!(shows_marker("aaab", "aab", MarkerPlace::Anywhere));
    assert!(shows_marker("abababc", "ababc", MarkerPlace::Anywhere));
}

#[test]
fn a_handshake_of_ones_own_is_used_as_given() {
    let readiness = Readiness {
        commands: vec!["list".to_string()],
        marker: "players online".to_string(),
        place: MarkerPlace::Anywhere,
    };
    assert!(readiness.matches("There are 0 of a max of 20 players online:"));
    assert!(!readiness.matches("[Server] SERVER READY"));
}
