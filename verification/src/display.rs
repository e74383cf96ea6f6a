use vstd::prelude::*;

use crate::colors::{ansi, fg, sgr_sequence, spec_fg_code, AnsiBuilder, Color, BOLD, RESET};
use crate::status::{
    game_state_name, shuttle_mode_name, spec_game_state_color, spec_security_color,
    spec_shuttle_coming, ServerStatus, ShuttleMode,
};
use crate::text::{decimal, decimal_string};

verus! {

/// What `humantime::format_duration` writes for a duration of `secs` whole seconds.
pub uninterp spec fn humantime_text(secs: u64) -> Seq<char>;

/// What `{:?}` writes for a string.
pub uninterp spec fn debug_text(s: Seq<char>) -> Seq<char>;

/// `humantime::format_duration` on `secs` whole seconds, as `{}` writes it.
/// Claimed: the text is the name `humantime_text` of `secs`; no duration is
/// written `0s`; under a minute it is the decimal number of seconds and `s`.
/// Longer durations (years, months, days, hours, minutes) are left to the name.
#[verifier::external_body]
fn format_duration_secs(secs: u64) -> (s: String)
    ensures
        s@ == humantime_text(secs),
        secs == 0 ==> s@ == seq!['0', 's'],
        0 < secs < 60 ==> s@ == decimal(secs as nat) + seq!['s'],
{
    humantime::format_duration(std::time::Duration::from_secs(secs)).to_string()
}

/// `{:?}` on a string slice. Claimed: the text is the name `debug_text` of the
/// characters, and it is enclosed in double quotes. Which characters are
/// escaped, and how, is left to the name.
#[verifier::external_body]
fn debug_quote(s: &str) -> (r: String)
    ensures
        r@ == debug_text(s@),
        r@.len() >= 2,
        r@[0] == '"',
        r@.last() == '"',
{
    format!("{:?}", s)
}

/// The style of the server name in the title: bold on the given background.
pub open spec fn title_style(name_bg: Color) -> Seq<char> {
    sgr_sequence(AnsiBuilder::plain().with_bg(name_bg).with_bold())
}

/// Foreground-only style.
pub open spec fn fg_style(c: Color) -> Seq<char> {
    seq!['\x1b', '['] + spec_fg_code(c) + seq!['m']
}

/// White text on the given background.
pub open spec fn alert_style(bg: Color) -> Seq<char> {
    sgr_sequence(AnsiBuilder::plain().with_fg(Color::White).with_bg(bg))
}

/// `=== <name> ===`, the name styled.
pub open spec fn title_line(name: Seq<char>, name_bg: Color) -> Seq<char> {
    "=== "@ + title_style(name_bg) + name + RESET@ + " ==="@
}

pub open spec fn players_line(players: usize) -> Seq<char> {
    BOLD@ + "Players:"@ + RESET@ + "         "@ + fg_style(Color::Green) + decimal(players as nat)
        + RESET@
}

pub open spec fn round_id_line(round_id: Seq<char>) -> Seq<char> {
    BOLD@ + "Round ID:"@ + RESET@ + "        "@ + round_id
}

pub open spec fn game_state_line(st: ServerStatus, name_bg: Color) -> Seq<char> {
    BOLD@ + "Game State:"@ + RESET@ + "      "@ + sgr_sequence(
        AnsiBuilder::plain().with_fg(spec_game_state_color(st.game_state)).with_bg(name_bg),
    ) + game_state_name(st.game_state) + RESET@
}

pub open spec fn round_duration_line(secs: u64) -> Seq<char> {
    BOLD@ + "Round Duration:"@ + RESET@ + "  "@ + humantime_text(secs)
}

pub open spec fn map_line(map_name: Seq<char>) -> Seq<char> {
    BOLD@ + "Map:"@ + RESET@ + "             "@ + fg_style(Color::Magenta) + map_name + RESET@
}

pub open spec fn security_line(level: Seq<char>) -> Seq<char> {
    BOLD@ + "Security Level:"@ + RESET@ + "  "@ + fg_style(spec_security_color(level)) + level
        + RESET@
}

pub open spec fn time_dilation_line(tidi_color: Color, tidi_percent: u16) -> Seq<char> {
    BOLD@ + "Time Dilation:"@ + RESET@ + "   "@ + fg_style(tidi_color) + decimal(tidi_percent as nat)
        + "%"@ + RESET@
}

/// Magenta while the shuttle is coming, faint yellow otherwise.
pub open spec fn shuttle_status_style(coming: bool) -> Seq<char> {
    if coming {
        fg_style(Color::Magenta)
    } else {
        sgr_sequence(AnsiBuilder::plain().with_fg(Color::Yellow).with_dim())
    }
}

pub open spec fn shuttle_status_line(coming: bool, mode: ShuttleMode) -> Seq<char> {
    BOLD@ + "Shuttle Status:"@ + RESET@ + "  "@ + shuttle_status_style(coming) + shuttle_mode_name(
        mode,
    ) + RESET@
}

pub open spec fn shuttle_time_line(security_bg: Color, secs: u64) -> Seq<char> {
    BOLD@ + "Shuttle Time:"@ + RESET@ + "    "@ + alert_style(security_bg) + humantime_text(secs)
        + RESET@
}

pub open spec fn shuttle_reason_line(security_bg: Color, reason: Seq<char>) -> Seq<char> {
    BOLD@ + "Shuttle Reason:"@ + RESET@ + "  "@ + alert_style(security_bg) + debug_text(reason)
        + RESET@
}

/// `a + b` for `u64`, held at `u64::MAX`.
pub open spec fn sat_add(a: u64, b: u64) -> u64 {
    if a + b > u64::MAX { u64::MAX } else { (a + b) as u64 }
}

/// `a - b` for `u64`, held at zero.
pub open spec fn sat_sub(a: u64, b: u64) -> u64 {
    if a < b { 0 } else { (a - b) as u64 }
}

/// The shuttle lines: its mode; the time left while it is coming or has
/// been recalled; the reason, when one is given.
pub open spec fn shuttle_lines(st: ServerStatus, secs_since_fetch: u64, security_bg: Color) -> Seq<Seq<char>> {
    match st.shuttle_info {
        None => Seq::empty(),
        Some(info) => {
            let coming = spec_shuttle_coming(st.shuttle_info);
            let time = if coming || info.shuttle_mode == ShuttleMode::Recall {
                seq![shuttle_time_line(security_bg, sat_sub(info.shuttle_timer, secs_since_fetch))]
            } else {
                Seq::empty()
            };
            let reason = match info.reason {
                Some(r) => seq![shuttle_reason_line(security_bg, r@)],
                None => Seq::empty(),
            };
            seq![shuttle_status_line(coming, info.shuttle_mode)] + time + reason
        },
    }
}

/// The first lines: a blank line, the title, players, round id, game state.
pub open spec fn head_lines(name: Seq<char>, st: ServerStatus, name_bg: Color) -> Seq<Seq<char>> {
    seq![
        Seq::<char>::empty(),
        title_line(name, name_bg),
        players_line(st.players),
        round_id_line(st.round_id@),
        game_state_line(st, name_bg),
    ]
}

/// The round's duration, counting the seconds since the fetch, once the
/// round has started.
pub open spec fn duration_lines(st: ServerStatus, secs_since_fetch: u64) -> Seq<Seq<char>> {
    if st.game_state == crate::status::GameState::Playing || st.game_state
        == crate::status::GameState::Finished {
        seq![round_duration_line(sat_add(st.round_duration, secs_since_fetch))]
    } else {
        Seq::empty()
    }
}

/// Map, security level and time dilation.
pub open spec fn body_lines(st: ServerStatus, tidi_color: Color, tidi_percent: u16) -> Seq<Seq<char>> {
    seq![
        map_line(st.map_name@),
        security_line(st.security_level@),
        time_dilation_line(tidi_color, tidi_percent),
    ]
}

/// The lines of the status screen, in order: a blank line, the title,
/// players, round id, game state, the round's duration once it has started
/// (counting the seconds since the fetch), map, security level, time
/// dilation, then the shuttle lines.
pub open spec fn spec_status_lines(
    name: Seq<char>,
    st: ServerStatus,
    secs_since_fetch: u64,
    name_bg: Color,
    security_bg: Color,
    tidi_color: Color,
    tidi_percent: u16,
) -> Seq<Seq<char>> {
    head_lines(name, st, name_bg) + duration_lines(st, secs_since_fetch) + body_lines(
        st,
        tidi_color,
        tidi_percent,
    ) + shuttle_lines(st, secs_since_fetch, security_bg)
}

/// `BOLD label RESET pad`: the start of a field line.
fn field_start(label: &str, pad: &str) -> (s: String)
    ensures
        s@ == BOLD@ + label@ + RESET@ + pad@,
{
    let mut s = String::from_str(BOLD);
    s.append(label);
    s.append(RESET);
    s.append(pad);
    s
}

fn title(name: &str, name_bg: Color) -> (s: String)
    ensures
        s@ == title_line(name@, name_bg),
{
    let style = ansi().bg(name_bg).bold().finish();
    let mut s = String::from_str("=== ");
    s.append(style.as_str());
    s.append(name);
    s.append(RESET);
    s.append(" ===");
    s
}

fn players(n: usize) -> (s: String)
    ensures
        s@ == players_line(n),
{
    let mut s = field_start("Players:", "         ");
    s.append(fg(Color::Green).as_str());
    s.append(decimal_string(n as u64).as_str());
    s.append(RESET);
    s
}

fn round_id(id: &str) -> (s: String)
    ensures
        s@ == round_id_line(id@),
{
    let mut s = field_start("Round ID:", "        ");
    s.append(id);
    s
}

fn game_state(st: &ServerStatus, name_bg: Color) -> (s: String)
    ensures
        s@ == game_state_line(*st, name_bg),
{
    let style = ansi().fg(st.game_state_color()).bg(name_bg).finish();
    let mut s = field_start("Game State:", "      ");
    s.append(style.as_str());
    s.append(st.game_state.name());
    s.append(RESET);
    s
}

fn round_duration(secs: u64) -> (s: String)
    ensures
        s@ == round_duration_line(secs),
{
    let mut s = field_start("Round Duration:", "  ");
    s.append(format_duration_secs(secs).as_str());
    s
}

fn map(map_name: &str) -> (s: String)
    ensures
        s@ == map_line(map_name@),
{
    let mut s = field_start("Map:", "             ");
    s.append(fg(Color::Magenta).as_str());
    s.append(map_name);
    s.append(RESET);
    s
}

fn security(st: &ServerStatus) -> (s: String)
    ensures
        s@ == security_line(st.security_level@),
{
    let mut s = field_start("Security Level:", "  ");
    s.append(fg(st.security_color()).as_str());
    s.append(st.security_level.as_str());
    s.append(RESET);
    s
}

fn time_dilation(tidi_color: Color, tidi_percent: u16) -> (s: String)
    ensures
        s@ == time_dilation_line(tidi_color, tidi_percent),
{
    let mut s = field_start("Time Dilation:", "   ");
    s.append(fg(tidi_color).as_str());
    s.append(decimal_string(tidi_percent as u64).as_str());
    s.append("%");
    s.append(RESET);
    s
}

fn shuttle_status(coming: bool, mode: ShuttleMode) -> (s: String)
    ensures
        s@ == shuttle_status_line(coming, mode),
{
    let style = if coming {
        fg(Color::Magenta)
    } else {
        ansi().fg(Color::Yellow).dim().finish()
    };
    let mut s = field_start("Shuttle Status:", "  ");
    s.append(style.as_str());
    s.append(mode.name());
    s.append(RESET);
    s
}

fn shuttle_time(security_bg: Color, secs: u64) -> (s: String)
    ensures
        s@ == shuttle_time_line(security_bg, secs),
{
    let style = ansi().fg(Color::White).bg(security_bg).finish();
    let mut s = field_start("Shuttle Time:", "    ");
    s.append(style.as_str());
    s.append(format_duration_secs(secs).as_str());
    s.append(RESET);
    s
}

fn shuttle_reason(security_bg: Color, reason: &str) -> (s: String)
    ensures
        s@ == shuttle_reason_line(security_bg, reason@),
{
    let style = ansi().fg(Color::White).bg(security_bg).finish();
    let mut s = field_start("Shuttle Reason:", "  ");
    s.append(style.as_str());
    s.append(debug_quote(reason).as_str());
    s.append(RESET);
    s
}

/// The shape of the status screen: eight lines always, one more for the
/// round's duration once the round has started, and, with shuttle
/// information, its status line, a time line while it is coming or has
/// been recalled, and — whatever its mode — a reason line, the last one,
/// whenever a reason is given.
pub proof fn lemma_screen_shape(
    name: Seq<char>,
    st: ServerStatus,
    secs_since_fetch: u64,
    name_bg: Color,
    security_bg: Color,
    tidi_color: Color,
    tidi_percent: u16,
)
    ensures
        ({
            let lines = spec_status_lines(
                name,
                st,
                secs_since_fetch,
                name_bg,
                security_bg,
                tidi_color,
                tidi_percent,
            );
            let started = st.game_state == crate::status::GameState::Playing || st.game_state
                == crate::status::GameState::Finished;
            &&& lines[0] == Seq::<char>::empty()
            &&& lines[1] == title_line(name, name_bg)
            &&& st.shuttle_info is None ==> lines.len() == 8 + (if started { 1int } else { 0 })
            &&& st.shuttle_info is None ==> lines.last() == time_dilation_line(tidi_color, tidi_percent)
            &&& st.shuttle_info matches Some(info) ==> lines.len() == 9 + (if started {
                1int
            } else {
                0
            }) + (if spec_shuttle_coming(st.shuttle_info) || info.shuttle_mode
                == ShuttleMode::Recall {
                1int
            } else {
                0
            }) + (if info.reason is Some {
                1int
            } else {
                0
            })
            &&& st.shuttle_info matches Some(info) ==> (info.reason matches Some(r) ==> lines.last()
                == shuttle_reason_line(security_bg, r@))
        }),
{
    let lines = spec_status_lines(
        name,
        st,
        secs_since_fetch,
        name_bg,
        security_bg,
        tidi_color,
        tidi_percent,
    );
    let sh = shuttle_lines(st, secs_since_fetch, security_bg);
    let pre = head_lines(name, st, name_bg) + duration_lines(st, secs_since_fetch) + body_lines(
        st,
        tidi_color,
        tidi_percent,
    );
    assert(lines == pre + sh);
    assert(lines[0] == pre[0]);
    assert(lines[1] == pre[1]);
    if st.shuttle_info is None {
        assert(sh.len() == 0);
        assert(lines =~= pre);
    }
    if let Some(info) = st.shuttle_info {
        if let Some(r) = info.reason {
            assert(sh.last() == shuttle_reason_line(security_bg, r@));
            assert(lines.last() == sh.last());
        }
    }
}

/// The views of a list of lines.
pub open spec fn line_views(lines: Seq<String>) -> Seq<Seq<char>> {
    lines.map_values(|l: String| l@)
}

/// Appends `more` to `lines`.
fn append_lines(lines: &mut Vec<String>, more: Vec<String>)
    ensures
        line_views(final(lines)@) == line_views(old(lines)@) + line_views(more@),
{
    let mut more = more;
    let ghost m = more@;
    lines.append(&mut more);
    assert(line_views(lines@) =~= line_views(old(lines)@) + line_views(m));
}

fn head(name: &str, st: &ServerStatus, name_bg: Color) -> (lines: Vec<String>)
    ensures
        line_views(lines@) == head_lines(name@, *st, name_bg),
{
    let mut lines: Vec<String> = Vec::new();
    lines.push(String::new());
    lines.push(title(name, name_bg));
    lines.push(players(st.players));
    lines.push(round_id(st.round_id.as_str()));
    lines.push(game_state(st, name_bg));
    assert(line_views(lines@) =~= head_lines(name@, *st, name_bg));
    lines
}

fn duration(st: &ServerStatus, secs_since_fetch: u64) -> (lines: Vec<String>)
    ensures
        line_views(lines@) == duration_lines(*st, secs_since_fetch),
{
    let mut lines: Vec<String> = Vec::new();
    if st.has_round_started() {
        lines.push(round_duration(st.round_duration.saturating_add(secs_since_fetch)));
    }
    assert(line_views(lines@) =~= duration_lines(*st, secs_since_fetch));
    lines
}

fn body(st: &ServerStatus, tidi_color: Color, tidi_percent: u16) -> (lines: Vec<String>)
    ensures
        line_views(lines@) == body_lines(*st, tidi_color, tidi_percent),
{
    let mut lines: Vec<String> = Vec::new();
    lines.push(map(st.map_name.as_str()));
    lines.push(security(st));
    lines.push(time_dilation(tidi_color, tidi_percent));
    assert(line_views(lines@) =~= body_lines(*st, tidi_color, tidi_percent));
    lines
}

fn shuttle(st: &ServerStatus, secs_since_fetch: u64, security_bg: Color) -> (lines: Vec<String>)
    ensures
        line_views(lines@) == shuttle_lines(*st, secs_since_fetch, security_bg),
{
    let mut lines: Vec<String> = Vec::new();
    let coming = st.is_shuttle_coming();
    match &st.shuttle_info {
        Some(info) => {
            lines.push(shuttle_status(coming, info.shuttle_mode));
            if coming || info.shuttle_mode == ShuttleMode::Recall {
                lines.push(shuttle_time(security_bg, info.shuttle_timer.saturating_sub(secs_since_fetch)));
            }
            match &info.reason {
                Some(reason) => {
                    lines.push(shuttle_reason(security_bg, reason.as_str()));
                },
                None => {},
            }
        },
        None => {},
    }
    assert(line_views(lines@) =~= shuttle_lines(*st, secs_since_fetch, security_bg));
    lines
}

/// The lines of the status screen for the server called `name`, shown
/// `secs_since_fetch` whole seconds after `status` was fetched. The caller
/// supplies the background of the title and game state (`name_bg`), the
/// background of the shuttle time and reason (`security_bg`), and the time
/// dilation as a rounded percentage with its color.
pub fn status_lines(
    name: &str,
    status: &ServerStatus,
    secs_since_fetch: u64,
    name_bg: Color,
    security_bg: Color,
    tidi_color: Color,
    tidi_percent: u16,
) -> (lines: Vec<String>)
    ensures
        line_views(lines@) == spec_status_lines(
            name@,
            *status,
            secs_since_fetch,
            name_bg,
            security_bg,
            tidi_color,
            tidi_percent,
        ),
{
    let mut lines = head(name, status, name_bg);
    append_lines(&mut lines, duration(status, secs_since_fetch));
    append_lines(&mut lines, body(status, tidi_color, tidi_percent));
    append_lines(&mut lines, shuttle(status, secs_since_fetch, security_bg));
    lines
}

/// The stage at which fetching a status failed.
#[derive(Clone, Copy, Debug, PartialEq, Eq, Structural)]
pub enum FetchFailure {
    /// The topic exchange with the server failed.
    Fetch,
    /// The server's answer is not a status.
    Decode,
}

pub open spec fn failure_label(f: FetchFailure) -> Seq<char> {
    match f {
        FetchFailure::Fetch => "fetch error:"@,
        FetchFailure::Decode => "decode error:"@,
    }
}

/// The error report: the stage in bold red, then `detail` (the error's
/// debug text) white on red.
pub open spec fn spec_error_line(f: FetchFailure, detail: Seq<char>) -> Seq<char> {
    fg_style(Color::Red) + BOLD@ + failure_label(f) + RESET@ + " "@ + alert_style(Color::Red) + detail
        + RESET@
}

/// The line that reports a failed fetch.
pub fn error_line(failure: FetchFailure, detail: &str) -> (s: String)
    ensures
        s@ == spec_error_line(failure, detail@),
{
    let label = match failure {
        FetchFailure::Fetch => "fetch error:",
        FetchFailure::Decode => "decode error:",
    };
    let mut s = fg(Color::Red);
    s.append(BOLD);
    s.append(label);
    s.append(RESET);
    s.append(" ");
    s.append(ansi().fg(Color::White).bg(Color::Red).finish().as_str());
    s.append(detail);
    s.append(RESET);
    s
}

} // verus!
