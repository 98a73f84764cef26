//! Control-surface decisions: the actions the settings panel and the tray
//! send, the shared state they read, and how each action changes the
//! control flags.  The windows, the tray icon and the console reader
//! themselves live outside the library.

use vstd::prelude::*;
use vstd::slice::slice_subrange;
use crate::config::Config;
use crate::util::bytes_eq;
use crate::ws::ascii_lower;

verus! {

/// Actions from the settings panel.
#[derive(Clone, Copy, Debug, PartialEq, Eq, Structural)]
pub enum GuiAction {
    /// Flip streaming on or off.
    ToggleStream,
    /// Persist this configuration.
    SaveConfig(Config),
    /// Open the player page in a browser.
    OpenBrowser,
    /// Quit the application.
    Quit,
}

/// Actions from the tray menu or the console fallback.
#[derive(Clone, Copy, Debug, PartialEq, Eq, Structural)]
pub enum TrayAction {
    /// Open the player page in a browser.
    OpenBrowser,
    /// Flip streaming on or off.
    ToggleStream,
    /// Show the settings panel.
    Settings,
    /// Quit the application.
    Quit,
}

/// Shared state the control surfaces read.
#[derive(Clone, Copy, Debug, PartialEq, Eq, Structural)]
pub struct AppState {
    /// Whether audio is being captured and encoded right now.
    pub is_streaming: bool,
    /// How many clients are attached.
    pub client_count: usize,
    /// The current configuration.
    pub config: Config,
}

/// The two flags every worker polls.
#[derive(Clone, Copy, Debug, PartialEq, Eq, Structural)]
pub struct ControlFlags {
    /// Whether streaming is wanted.
    pub should_stream: bool,
    /// Whether the whole application should wind down.
    pub app_quit: bool,
}

/// What an action asks the surrounding program to do, beyond the flags.
#[derive(Clone, Copy, Debug, PartialEq, Eq, Structural)]
pub enum ControlEffect {
    /// Nothing beyond the flag change.
    Nothing,
    /// Persist this configuration.
    Save(Config),
    /// Open the player page in a browser.
    Browse,
}

/// Apply one settings-panel action to the control flags and say what else
/// must happen.
pub fn apply_gui_action(flags: &mut ControlFlags, action: &GuiAction) -> (eff: ControlEffect)
    ensures
        ({
            match *action {
                GuiAction::ToggleStream => *final(flags) == (ControlFlags {
                    should_stream: !old(flags).should_stream,
                    ..*old(flags)
                }) && eff == ControlEffect::Nothing,
                GuiAction::SaveConfig(c) => *final(flags) == *old(flags) && eff
                    == ControlEffect::Save(c),
                GuiAction::OpenBrowser => *final(flags) == *old(flags) && eff
                    == ControlEffect::Browse,
                GuiAction::Quit => *final(flags) == (ControlFlags {
                    app_quit: true,
                    ..*old(flags)
                }) && eff == ControlEffect::Nothing,
            }
        }),
{
    match action {
        GuiAction::ToggleStream => {
            flags.should_stream = !flags.should_stream;
            ControlEffect::Nothing
        },
        GuiAction::SaveConfig(c) => ControlEffect::Save(*c),
        GuiAction::OpenBrowser => ControlEffect::Browse,
        GuiAction::Quit => {
            flags.app_quit = true;
            ControlEffect::Nothing
        },
    }
}

/// An ASCII whitespace byte.
pub open spec fn is_space(b: u8) -> bool {
    b == 0x20 || b == 0x09 || b == 0x0a || b == 0x0d
}

/// The sequence with leading whitespace removed.
pub open spec fn trim_start(s: Seq<u8>) -> Seq<u8>
    decreases s.len(),
{
    if s.len() > 0 && is_space(s[0]) {
        trim_start(s.drop_first())
    } else {
        s
    }
}

/// The sequence with trailing whitespace removed.
pub open spec fn trim_end(s: Seq<u8>) -> Seq<u8>
    decreases s.len(),
{
    if s.len() > 0 && is_space(s.last()) {
        trim_end(s.drop_last())
    } else {
        s
    }
}

/// The sequence with whitespace removed at both ends.
pub open spec fn trimmed(s: Seq<u8>) -> Seq<u8> {
    trim_end(trim_start(s))
}

/// The console word `o`.
pub open spec fn cmd_o() -> Seq<u8> {
    seq![0x6fu8]
}
/// The console word `open`.
pub open spec fn cmd_open() -> Seq<u8> {
    seq![0x6fu8, 0x70u8, 0x65u8, 0x6eu8]
}
/// The console word `t`.
pub open spec fn cmd_t() -> Seq<u8> {
    seq![0x74u8]
}
/// The console word `toggle`.
pub open spec fn cmd_toggle() -> Seq<u8> {
    seq![0x74u8, 0x6fu8, 0x67u8, 0x67u8, 0x6cu8, 0x65u8]
}
/// The console word `s`.
pub open spec fn cmd_s() -> Seq<u8> {
    seq![0x73u8]
}
/// The console word `settings`.
pub open spec fn cmd_settings() -> Seq<u8> {
    seq![0x73u8, 0x65u8, 0x74u8, 0x74u8, 0x69u8, 0x6eu8, 0x67u8, 0x73u8]
}
/// The console word `q`.
pub open spec fn cmd_q() -> Seq<u8> {
    seq![0x71u8]
}
/// The console word `quit`.
pub open spec fn cmd_quit() -> Seq<u8> {
    seq![0x71u8, 0x75u8, 0x69u8, 0x74u8]
}
/// The console word `exit`.
pub open spec fn cmd_exit() -> Seq<u8> {
    seq![0x65u8, 0x78u8, 0x69u8, 0x74u8]
}

/// The action a console line maps to: the line is trimmed and lowered,
/// then matched against the known words.
pub open spec fn tray_command_of(line: Seq<u8>) -> Option<TrayAction> {
    let t = trimmed(line).map_values(|b: u8| ascii_lower(b));
    if t == cmd_o() || t == cmd_open() {
        Some(TrayAction::OpenBrowser)
    } else if t == cmd_t() || t == cmd_toggle() {
        Some(TrayAction::ToggleStream)
    } else if t == cmd_s() || t == cmd_settings() {
        Some(TrayAction::Settings)
    } else if t == cmd_q() || t == cmd_quit() || t == cmd_exit() {
        Some(TrayAction::Quit)
    } else {
        None
    }
}

/// `trim_start` removes exactly the leading whitespace run.
proof fn lemma_trim_start(s: Seq<u8>, i: int)
    requires
        0 <= i <= s.len(),
        forall|k: int| 0 <= k < i ==> is_space(s[k]),
        i == s.len() || !is_space(s[i]),
    ensures
        trim_start(s) == s.skip(i),
    decreases i,
{
    if i == 0 {
        assert(s.skip(0) =~= s);
    } else {
        assert(is_space(s[0]));
        lemma_trim_start(s.drop_first(), i - 1);
        assert(s.drop_first().skip(i - 1) =~= s.skip(i));
    }
}

/// `trim_end` removes exactly the trailing whitespace run.
proof fn lemma_trim_end(s: Seq<u8>, j: int)
    requires
        0 <= j <= s.len(),
        forall|k: int| j <= k < s.len() ==> is_space(s[k]),
        j == 0 || !is_space(s[j - 1]),
    ensures
        trim_end(s) == s.take(j),
    decreases s.len() - j,
{
    if j == s.len() {
        assert(s.take(j) =~= s);
    } else {
        assert(is_space(s.last()));
        lemma_trim_end(s.drop_last(), j);
        assert(s.drop_last().take(j) =~= s.take(j));
    }
}

/// Parse one console line into a tray action.
pub fn parse_tray_command(line: &[u8]) -> (r: Option<TrayAction>)
    ensures
        r == tray_command_of(line@),
{
    let mut a: usize = 0;
    while a < line.len() && (line[a] == 0x20u8 || line[a] == 0x09u8 || line[a] == 0x0au8
        || line[a] == 0x0du8)
        invariant
            a <= line@.len(),
            forall|k: int| 0 <= k < a ==> is_space(line@[k]),
        decreases line@.len() - a,
    {
        a = a + 1;
    }
    let mut b: usize = line.len();
    while b > a && (line[b - 1] == 0x20u8 || line[b - 1] == 0x09u8 || line[b - 1] == 0x0au8
        || line[b - 1] == 0x0du8)
        invariant
            a <= b <= line@.len(),
            forall|k: int| 0 <= k < a ==> is_space(line@[k]),
            forall|k: int| b <= k < line@.len() ==> is_space(line@[k]),
        decreases b,
    {
        b = b - 1;
    }
    proof {
        lemma_trim_start(line@, a as int);
        let sk = line@.skip(a as int);
        lemma_trim_end(sk, b as int - a as int);
        assert(sk.take(b as int - a as int) =~= line@.subrange(a as int, b as int));
    }
    let t = slice_subrange(line, a, b);
    let mut low: Vec<u8> = Vec::new();
    let mut i: usize = 0;
    while i < t.len()
        invariant
            i <= t@.len(),
            low@ =~= t@.take(i as int).map_values(|x: u8| ascii_lower(x)),
        decreases t@.len() - i,
    {
        let c = t[i];
        let lc: u8 = if 0x41 <= c && c <= 0x5a {
            c + 0x20
        } else {
            c
        };
        low.push(lc);
        proof {
            assert(low@ =~= t@.take(i as int + 1).map_values(|x: u8| ascii_lower(x)));
        }
        i = i + 1;
    }
    proof {
        assert(t@.take(t@.len() as int) =~= t@);
        assert(low@ =~= trimmed(line@).map_values(|x: u8| ascii_lower(x)));
    }
    let tl = low.as_slice();
    if bytes_eq(tl, cmd_o_bytes().as_slice()) || bytes_eq(tl, cmd_open_bytes().as_slice()) {
        Some(TrayAction::OpenBrowser)
    } else if bytes_eq(tl, cmd_t_bytes().as_slice()) || bytes_eq(
        tl,
        cmd_toggle_bytes().as_slice(),
    ) {
        Some(TrayAction::ToggleStream)
    } else if bytes_eq(tl, cmd_s_bytes().as_slice()) || bytes_eq(
        tl,
        cmd_settings_bytes().as_slice(),
    ) {
        Some(TrayAction::Settings)
    } else if bytes_eq(tl, cmd_q_bytes().as_slice()) || bytes_eq(
        tl,
        cmd_quit_bytes().as_slice(),
    ) || bytes_eq(tl, cmd_exit_bytes().as_slice()) {
        Some(TrayAction::Quit)
    } else {
        None
    }
}

/// The console word `o`, executable form.
fn cmd_o_bytes() -> (v: Vec<u8>)
    ensures
        v@ == cmd_o(),
{
    let mut v: Vec<u8> = Vec::new();
    v.push(0x6fu8);
    proof {
        assert(v@ =~= cmd_o());
    }
    v
}
/// The console word `open`, executable form.
fn cmd_open_bytes() -> (v: Vec<u8>)
    ensures
        v@ == cmd_open(),
{
    let mut v: Vec<u8> = Vec::new();
    v.push(0x6fu8);
    v.push(0x70u8);
    v.push(0x65u8);
    v.push(0x6eu8);
    proof {
        assert(v@ =~= cmd_open());
    }
    v
}
/// The console word `t`, executable form.
fn cmd_t_bytes() -> (v: Vec<u8>)
    ensures
        v@ == cmd_t(),
{
    let mut v: Vec<u8> = Vec::new();
    v.push(0x74u8);
    proof {
        assert(v@ =~= cmd_t());
    }
    v
}
/// The console word `toggle`, executable form.
fn cmd_toggle_bytes() -> (v: Vec<u8>)
    ensures
        v@ == cmd_toggle(),
{
    let mut v: Vec<u8> = Vec::new();
    v.push(0x74u8);
    v.push(0x6fu8);
    v.push(0x67u8);
    v.push(0x67u8);
    v.push(0x6cu8);
    v.push(0x65u8);
    proof {
        assert(v@ =~= cmd_toggle());
    }
    v
}
/// The console word `s`, executable form.
fn cmd_s_bytes() -> (v: Vec<u8>)
    ensures
        v@ == cmd_s(),
{
    let mut v: Vec<u8> = Vec::new();
    v.push(0x73u8);
    proof {
        assert(v@ =~= cmd_s());
    }
    v
}
/// The console word `settings`, executable form.
fn cmd_settings_bytes() -> (v: Vec<u8>)
    ensures
        v@ == cmd_settings(),
{
    let mut v: Vec<u8> = Vec::new();
    v.push(0x73u8);
    v.push(0x65u8);
    v.push(0x74u8);
    v.push(0x74u8);
    v.push(0x69u8);
    v.push(0x6eu8);
    v.push(0x67u8);
    v.push(0x73u8);
    proof {
        assert(v@ =~= cmd_settings());
    }
    v
}
/// The console word `q`, executable form.
fn cmd_q_bytes() -> (v: Vec<u8>)
    ensures
        v@ == cmd_q(),
{
    let mut v: Vec<u8> = Vec::new();
    v.push(0x71u8);
    proof {
        assert(v@ =~= cmd_q());
    }
    v
}
/// The console word `quit`, executable form.
fn cmd_quit_bytes() -> (v: Vec<u8>)
    ensures
        v@ == cmd_quit(),
{
    let mut v: Vec<u8> = Vec::new();
    v.push(0x71u8);
    v.push(0x75u8);
    v.push(0x69u8);
    v.push(0x74u8);
    proof {
        assert(v@ =~= cmd_quit());
    }
    v
}
/// The console word `exit`, executable form.
fn cmd_exit_bytes() -> (v: Vec<u8>)
    ensures
        v@ == cmd_exit(),
{
    let mut v: Vec<u8> = Vec::new();
    v.push(0x65u8);
    v.push(0x78u8);
    v.push(0x69u8);
    v.push(0x74u8);
    proof {
        assert(v@ =~= cmd_exit());
    }
    v
}

} // verus!
