use ss13_status::colors::Color;
use ss13_status::display::{error_line, status_lines, FetchFailure};
use ss13_status::status::{GameState, ServerStatus, ShuttleInfo, ShuttleMode};
use ss13_status::text::{decimal_string, str_equals};

fn status(game_state: GameState, shuttle: Option<ShuttleInfo>) -> ServerStatus {
    ServerStatus {
        version: "515".to_string(),
        respawn: true,
        round_id: "1234".to_string(),
        players: 57,
        revision: "r".to_string(),
        revision_date: "d".to_string(),
        admins: 2,
        game_state,
        map_name: "MetaStation".to_string(),
        security_level: "blue".to_string(),
        round_duration: 3600,
        shuttle_info: shuttle,
    }
}

#[test]
fn lines_before_round() {
    let st = status(GameState::Pregame, None);
    let lines = status_lines("Box", &st, 7, Color::Green, Color::Blue, Color::Green, 3);
    assert_eq!(
        lines,
        vec![
            "".to_string(),
            "=== \x1b[42;1mBox\x1b[0m ===".to_string(),
            "\x1b[1mPlayers:\x1b[0m         \x1b[32m57\x1b[0m".to_string(),
            "\x1b[1mRound ID:\x1b[0m        1234".to_string(),
            "\x1b[1mGame State:\x1b[0m      \x1b[32;42mPregame\x1b[0m".to_string(),
            "\x1b[1mMap:\x1b[0m             \x1b[35mMetaStation\x1b[0m".to_string(),
            "\x1b[1mSecurity Level:\x1b[0m  \x1b[34mblue\x1b[0m".to_string(),
            "\x1b[1mTime Dilation:\x1b[0m   \x1b[32m3%\x1b[0m".to_string(),
        ]
    );
}

#[test]
fn lines_during_round_with_shuttle() {
    let shuttle = ShuttleInfo {
        shuttle_mode: ShuttleMode::Call,
        shuttle_timer: 125,
        reason: Some("Meteors \"big\"".to_string()),
    };
    let st = status(GameState::Playing, Some(shuttle));
    let lines = status_lines("Oculis", &st, 65, Color::Default, Color::Blue, Color::Red, 12);
    assert_eq!(lines.len(), 12);
    assert_eq!(lines[4], "\x1b[1mGame State:\x1b[0m      \x1b[39;49mPlaying\x1b[0m");
    assert_eq!(lines[5], "\x1b[1mRound Duration:\x1b[0m  1h 1m 5s");
    assert_eq!(lines[8], "\x1b[1mTime Dilation:\x1b[0m   \x1b[31m12%\x1b[0m");
    assert_eq!(lines[9], "\x1b[1mShuttle Status:\x1b[0m  \x1b[35mCall\x1b[0m");
    assert_eq!(lines[10], "\x1b[1mShuttle Time:\x1b[0m    \x1b[37;44m1m\x1b[0m");
    assert_eq!(lines[11], "\x1b[1mShuttle Reason:\x1b[0m  \x1b[37;44m\"Meteors \\\"big\\\"\"\x1b[0m");
}

#[test]
fn lines_shuttle_idle_and_recalled() {
    let idle = ShuttleInfo { shuttle_mode: ShuttleMode::Idle, shuttle_timer: 0, reason: None };
    let st = status(GameState::Finished, Some(idle));
    let lines = status_lines("S", &st, 0, Color::Red, Color::Red, Color::Green, 0);
    assert_eq!(lines.len(), 10);
    assert_eq!(lines[5], "\x1b[1mRound Duration:\x1b[0m  1h");
    assert_eq!(lines[9], "\x1b[1mShuttle Status:\x1b[0m  \x1b[33;2mIdle\x1b[0m");

    let recalled = ShuttleInfo { shuttle_mode: ShuttleMode::Recall, shuttle_timer: 10, reason: None };
    let st = status(GameState::Startup, Some(recalled));
    let lines = status_lines("S", &st, 30, Color::Red, Color::Yellow, Color::Green, 0);
    assert_eq!(lines.len(), 10);
    assert_eq!(lines[8], "\x1b[1mShuttle Status:\x1b[0m  \x1b[33;2mRecall\x1b[0m");
    assert_eq!(lines[9], "\x1b[1mShuttle Time:\x1b[0m    \x1b[37;43m0s\x1b[0m");
}

#[test]
fn round_duration_saturates() {
    let mut st = status(GameState::Playing, None);
    st.round_duration = u64::MAX;
    let lines = status_lines("S", &st, 10, Color::Red, Color::Red, Color::Red, 0);
    let expected = humantime::format_duration(std::time::Duration::from_secs(u64::MAX)).to_string();
    assert_eq!(lines[5], format!("\x1b[1mRound Duration:\x1b[0m  {expected}"));
    st.round_duration = 20;
    let lines = status_lines("S", &st, 10, Color::Red, Color::Red, Color::Red, 0);
    assert_eq!(lines[5], "\x1b[1mRound Duration:\x1b[0m  30s");
}

#[test]
fn error_lines() {
    assert_eq!(
        error_line(FetchFailure::Fetch, "timeout"),
        "\x1b[31m\x1b[1mfetch error:\x1b[0m \x1b[37;41mtimeout\x1b[0m"
    );
    assert_eq!(
        error_line(FetchFailure::Decode, "Error(\"x\")"),
        "\x1b[31m\x1b[1mdecode error:\x1b[0m \x1b[37;41mError(\"x\")\x1b[0m"
    );
}

#[test]
fn decimal_numbers() {
    assert_eq!(decimal_string(0), "0");
    assert_eq!(decimal_string(7), "7");
    assert_eq!(decimal_string(10), "10");
    assert_eq!(decimal_string(90210), "90210");
    assert_eq!(decimal_string(u64::MAX), u64::MAX.to_string());
}

#[test]
fn string_equality() {
    assert!(str_equals("", ""));
    assert!(str_equals("gamma", "gamma"));
    assert!(!str_equals("gamma", "gamm"));
    assert!(!str_equals("é", "e"));
}
