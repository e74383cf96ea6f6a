use ss13_status::colors::Color;
use ss13_status::status::{
    no_map_name, time_safe_seconds, GameState, ServerStatus, ShuttleInfo, ShuttleMode,
};

fn status(game_state: GameState, level: &str, shuttle: Option<ShuttleMode>) -> ServerStatus {
    ServerStatus {
        version: "1".to_string(),
        respawn: false,
        round_id: "42".to_string(),
        players: 3,
        revision: "abc".to_string(),
        revision_date: "2024".to_string(),
        admins: 1,
        game_state,
        map_name: "Box".to_string(),
        security_level: level.to_string(),
        round_duration: 60,
        shuttle_info: shuttle.map(|m| ShuttleInfo { shuttle_mode: m, shuttle_timer: 30, reason: None }),
    }
}

#[test]
fn shuttle_coming_modes() {
    for (mode, coming) in [
        (ShuttleMode::Idle, false),
        (ShuttleMode::Igniting, true),
        (ShuttleMode::Recall, false),
        (ShuttleMode::Call, true),
        (ShuttleMode::Docked, true),
        (ShuttleMode::Stranded, false),
        (ShuttleMode::Disabled, false),
        (ShuttleMode::Escape, true),
        (ShuttleMode::Endgame, false),
        (ShuttleMode::Recharging, false),
        (ShuttleMode::PreArrival, true),
    ] {
        assert_eq!(status(GameState::Playing, "green", Some(mode)).is_shuttle_coming(), coming);
    }
    assert!(!status(GameState::Playing, "green", None).is_shuttle_coming());
}

#[test]
fn round_started() {
    assert!(!status(GameState::Startup, "", None).has_round_started());
    assert!(!status(GameState::Pregame, "", None).has_round_started());
    assert!(!status(GameState::SettingUp, "", None).has_round_started());
    assert!(status(GameState::Playing, "", None).has_round_started());
    assert!(status(GameState::Finished, "", None).has_round_started());
}

#[test]
fn game_state_colors() {
    assert_eq!(status(GameState::Startup, "", None).game_state_color(), Color::Green);
    assert_eq!(status(GameState::Pregame, "", None).game_state_color(), Color::Green);
    assert_eq!(status(GameState::SettingUp, "", None).game_state_color(), Color::Green);
    assert_eq!(status(GameState::Playing, "", None).game_state_color(), Color::Default);
    assert_eq!(status(GameState::Finished, "", None).game_state_color(), Color::Red);
}

#[test]
fn security_colors() {
    for (level, color) in [
        ("green", Color::Green),
        ("blue", Color::Blue),
        ("red", Color::Red),
        ("yellow", Color::Yellow),
        ("amber", Color::Yellow),
        ("delta", Color::Magenta),
        ("gamma", Color::Magenta),
        ("epsilon", Color::Magenta),
        ("lambda", Color::Magenta),
        ("Green", Color::Default),
        ("", Color::Default),
        ("greenish", Color::Default),
    ] {
        assert_eq!(status(GameState::Playing, level, None).security_color(), color, "{level}");
    }
}

#[test]
fn variant_names() {
    assert_eq!(GameState::SettingUp.name(), "SettingUp");
    assert_eq!(GameState::SettingUp.name(), format!("{:?}", GameState::SettingUp));
    assert_eq!(ShuttleMode::PreArrival.name(), "PreArrival");
    assert_eq!(ShuttleMode::Recall.name(), format!("{:?}", ShuttleMode::Recall));
}

#[test]
fn map_name_default() {
    assert_eq!(no_map_name(), "N/A");
}

#[test]
fn wire_seconds() {
    assert_eq!(time_safe_seconds(-5), 0);
    assert_eq!(time_safe_seconds(i64::MIN), 0);
    assert_eq!(time_safe_seconds(0), 0);
    assert_eq!(time_safe_seconds(125), 125);
    assert_eq!(time_safe_seconds(i64::MAX), i64::MAX as u64);
}
