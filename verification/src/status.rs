use vstd::prelude::*;

use crate::colors::Color;
use crate::text::str_equals;

verus! {

/// The status a server reports in answer to the status topic. Durations are
/// whole seconds; the time dilation figures stay with the caller.
#[derive(Debug, Clone)]
pub struct ServerStatus {
    pub version: String,
    pub respawn: bool,
    pub round_id: String,
    pub players: usize,
    pub revision: String,
    pub revision_date: String,
    pub admins: usize,
    pub game_state: GameState,
    pub map_name: String,
    pub security_level: String,
    /// Seconds since the round started.
    pub round_duration: u64,
    pub shuttle_info: Option<ShuttleInfo>,
}

/// The phase of the round.
#[derive(Copy, Clone, Debug, PartialEq, Eq, Structural)]
pub enum GameState {
    Startup,
    Pregame,
    SettingUp,
    Playing,
    Finished,
}

/// What the emergency shuttle is doing.
#[derive(Debug, Clone)]
pub struct ShuttleInfo {
    pub shuttle_mode: ShuttleMode,
    /// Seconds left on the shuttle's timer.
    pub shuttle_timer: u64,
    pub reason: Option<String>,
}

/// The shuttle's mode.
#[derive(Copy, Clone, Debug, PartialEq, Eq, Structural)]
pub enum ShuttleMode {
    Idle,
    Igniting,
    Recall,
    Call,
    Docked,
    Stranded,
    Disabled,
    Escape,
    Endgame,
    Recharging,
    PreArrival,
}

/// The variant name of a `GameState`, as `{:?}` writes it.
pub open spec fn game_state_name(v: GameState) -> Seq<char> {
    match v {
        GameState::Startup => "Startup"@,
        GameState::Pregame => "Pregame"@,
        GameState::SettingUp => "SettingUp"@,
        GameState::Playing => "Playing"@,
        GameState::Finished => "Finished"@,
    }
}

impl GameState {
    /// The variant name, as `{:?}` writes it.
    pub fn name(&self) -> (s: &'static str)
        ensures
            s@ == game_state_name(*self),
    {
        match self {
            GameState::Startup => "Startup",
            GameState::Pregame => "Pregame",
            GameState::SettingUp => "SettingUp",
            GameState::Playing => "Playing",
            GameState::Finished => "Finished",
        }
    }
}

/// The variant name of a `ShuttleMode`, as `{:?}` writes it.
pub open spec fn shuttle_mode_name(v: ShuttleMode) -> Seq<char> {
    match v {
        ShuttleMode::Idle => "Idle"@,
        ShuttleMode::Igniting => "Igniting"@,
        ShuttleMode::Recall => "Recall"@,
        ShuttleMode::Call => "Call"@,
        ShuttleMode::Docked => "Docked"@,
        ShuttleMode::Stranded => "Stranded"@,
        ShuttleMode::Disabled => "Disabled"@,
        ShuttleMode::Escape => "Escape"@,
        ShuttleMode::Endgame => "Endgame"@,
        ShuttleMode::Recharging => "Recharging"@,
        ShuttleMode::PreArrival => "PreArrival"@,
    }
}

impl ShuttleMode {
    /// The variant name, as `{:?}` writes it.
    pub fn name(&self) -> (s: &'static str)
        ensures
            s@ == shuttle_mode_name(*self),
    {
        match self {
            ShuttleMode::Idle => "Idle",
            ShuttleMode::Igniting => "Igniting",
            ShuttleMode::Recall => "Recall",
            ShuttleMode::Call => "Call",
            ShuttleMode::Docked => "Docked",
            ShuttleMode::Stranded => "Stranded",
            ShuttleMode::Disabled => "Disabled",
            ShuttleMode::Escape => "Escape",
            ShuttleMode::Endgame => "Endgame",
            ShuttleMode::Recharging => "Recharging",
            ShuttleMode::PreArrival => "PreArrival",
        }
    }
}

/// The modes in which the shuttle is on its way: called, docked, igniting,
/// escaping or about to land.
pub open spec fn spec_shuttle_coming(info: Option<ShuttleInfo>) -> bool {
    match info {
        Some(i) => match i.shuttle_mode {
            ShuttleMode::Call | ShuttleMode::Docked | ShuttleMode::Igniting | ShuttleMode::Escape
            | ShuttleMode::PreArrival => true,
            _ => false,
        },
        None => false,
    }
}

/// The color of a game state: green before the round, the terminal default
/// while it is played, red once it is over.
pub open spec fn spec_game_state_color(s: GameState) -> Color {
    match s {
        GameState::Startup | GameState::SettingUp | GameState::Pregame => Color::Green,
        GameState::Playing => Color::Default,
        GameState::Finished => Color::Red,
    }
}

/// The color of a security level name.
pub open spec fn spec_security_color(level: Seq<char>) -> Color {
    if level == "green"@ {
        Color::Green
    } else if level == "blue"@ {
        Color::Blue
    } else if level == "red"@ {
        Color::Red
    } else if level == "yellow"@ || level == "amber"@ {
        Color::Yellow
    } else if level == "delta"@ || level == "gamma"@ || level == "epsilon"@ || level
        == "lambda"@ {
        Color::Magenta
    } else {
        Color::Default
    }
}

impl ServerStatus {
    /// Checks to see if the emergency shuttle is currently on its way or not.
    pub fn is_shuttle_coming(&self) -> (b: bool)
        ensures
            b == spec_shuttle_coming(self.shuttle_info),
    {
        match &self.shuttle_info {
            Some(info) => match info.shuttle_mode {
                ShuttleMode::Call | ShuttleMode::Docked | ShuttleMode::Igniting
                | ShuttleMode::Escape | ShuttleMode::PreArrival => true,
                _ => false,
            },
            None => false,
        }
    }

    /// Whether the round is being played or is over.
    pub fn has_round_started(&self) -> (b: bool)
        ensures
            b == (self.game_state == GameState::Playing || self.game_state == GameState::Finished),
    {
        match self.game_state {
            GameState::Playing | GameState::Finished => true,
            _ => false,
        }
    }

    /// The color in which the game state is shown.
    pub fn game_state_color(&self) -> (c: Color)
        ensures
            c == spec_game_state_color(self.game_state),
    {
        match self.game_state {
            GameState::Startup | GameState::SettingUp | GameState::Pregame => Color::Green,
            GameState::Playing => Color::Default,
            GameState::Finished => Color::Red,
        }
    }

    /// The color in which the security level is shown.
    pub fn security_color(&self) -> (c: Color)
        ensures
            c == spec_security_color(self.security_level@),
    {
        let level = self.security_level.as_str();
        if str_equals(level, "green") {
            Color::Green
        } else if str_equals(level, "blue") {
            Color::Blue
        } else if str_equals(level, "red") {
            Color::Red
        } else if str_equals(level, "yellow") || str_equals(level, "amber") {
            Color::Yellow
        } else if str_equals(level, "delta") || str_equals(level, "gamma") || str_equals(
            level,
            "epsilon",
        ) || str_equals(level, "lambda") {
            Color::Magenta
        } else {
            Color::Default
        }
    }
}

/// The map name used when a status does not report one.
pub fn no_map_name() -> (s: String)
    ensures
        s@ == "N/A"@,
{
    "N/A".to_owned()
}

/// A duration on the wire is a signed number of seconds; negative values
/// count as zero.
pub fn time_safe_seconds(seconds: i64) -> (secs: u64)
    ensures
        secs == (if seconds < 0 { 0 } else { seconds as int }),
{
    if seconds < 0 {
        0
    } else {
        seconds as u64
    }
}

} // verus!
