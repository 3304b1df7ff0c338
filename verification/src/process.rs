//! The commands the launcher runs, and the messages that report their
//! failures.
//!
//! Processes are started and waited for by the caller; this module decides
//! what to run (program and arguments) and how an outcome is reported.

use vstd::prelude::*;

use crate::paths::{dsh_cli_location, dsh_cli_path, node_location, node_path, uses_offline_cli, PathStyle};
use crate::text::{
    decimal, decimal_value, is_ascii_digit, lemma_decimal_round_trip, push_decimal, push_str, trim,
    trim_string,
};

verus! {

/// Maximum seconds to wait for the readiness line before giving up.
pub const READY_TIMEOUT_SECS: u64 = 240;

/// Seconds allowed for `npm view`.
pub const NPM_VIEW_TIMEOUT_SECS: u64 = 30;

/// Seconds allowed for `npm install`.
pub const NPM_INSTALL_TIMEOUT_SECS: u64 = 300;

/// A program and its arguments.
#[derive(Debug)]
pub struct CommandLine {
    pub program: String,
    pub args: Vec<String>,
}

/// Appends a copy of `s` to a list of strings.
pub fn push_arg(v: &mut Vec<String>, s: &str)
    ensures
        final(v).deep_view() == old(v).deep_view().push(s@),
{
    let t: String = String::from_str(s);
    v.push(t);
    assert(final(v).deep_view() =~= old(v).deep_view().push(s@));
}

/// Appends `s` to a list of strings.
pub fn push_owned_arg(v: &mut Vec<String>, s: String)
    ensures
        final(v).deep_view() == old(v).deep_view().push(s@),
{
    v.push(s);
    assert(final(v).deep_view() =~= old(v).deep_view().push(s@));
}

/// `web --host 127.0.0.1 --port 0`: serve on loopback, on a port the OS picks.
pub open spec fn web_args() -> Seq<Seq<char>> {
    seq!["web"@, "--host"@, "127.0.0.1"@, "--port"@, "0"@]
}

/// Appends `web --host 127.0.0.1 --port 0`.
fn push_web_args(v: &mut Vec<String>)
    ensures
        final(v).deep_view() == old(v).deep_view() + web_args(),
{
    let ghost start = v.deep_view();
    push_arg(v, "web");
    push_arg(v, "--host");
    push_arg(v, "127.0.0.1");
    push_arg(v, "--port");
    push_arg(v, "0");
    assert(v.deep_view() =~= start + web_args());
}

/// How `dsh web` is started.
pub struct SpawnPlan {
    /// Whether the bundled offline CLI is used (otherwise `npx`).
    pub offline: bool,
    /// The command to run.
    pub command: CommandLine,
}

/// The command that serves `dsh web`: the bundled Node running the bundled
/// CLI when the offline runtime is complete; otherwise `npx -y
/// @deepseek-ai/dsh web` (through `cmd /C` on Windows). Either way with
/// `web --host 127.0.0.1 --port 0`.
pub open spec fn spawn_command(
    host: Option<Seq<char>>,
    node_exists: bool,
    cli_exists: bool,
    style: PathStyle,
) -> (Seq<char>, Seq<Seq<char>>) {
    if uses_offline_cli(host is Some, node_exists, cli_exists) {
        (
            node_location(host->0, style),
            seq![dsh_cli_location(host->0, style)] + web_args(),
        )
    } else if style == PathStyle::Windows {
        ("cmd"@, seq!["/C"@, "npx"@, "-y"@, "@deepseek-ai/dsh"@] + web_args())
    } else {
        ("npx"@, seq!["-y"@, "@deepseek-ai/dsh"@] + web_args())
    }
}

/// Spawn plan for the harness. Prefers the bundled offline CLI, falls back
/// to `npx`.
///
/// `host` is the runtime-host found (see `find_runtime_host`);
/// `node_exists` and `cli_exists` tell whether its Node binary and CLI entry
/// exist.
pub fn spawn_dsh_web(host: &Option<String>, node_exists: bool, cli_exists: bool, style: PathStyle) -> (r:
    SpawnPlan)
    ensures
        r.offline == uses_offline_cli(host is Some, node_exists, cli_exists),
        (r.command.program@, r.command.args.deep_view()) == spawn_command(
            host.deep_view(),
            node_exists,
            cli_exists,
            style,
        ),
{
    match host {
        Some(h) => {
            if node_exists && cli_exists {
                let mut args: Vec<String> = Vec::new();
                let cli: String = dsh_cli_path(h.as_str(), style);
                args.push(cli);
                push_web_args(&mut args);
                return SpawnPlan {
                    offline: true,
                    command: CommandLine { program: node_path(h.as_str(), style), args },
                };
            }
        },
        None => {},
    }
    let mut args: Vec<String> = Vec::new();
    let program: String;
    if style == PathStyle::Windows {
        program = String::from_str("cmd");
        push_arg(&mut args, "/C");
        push_arg(&mut args, "npx");
    } else {
        program = String::from_str("npx");
    }
    push_arg(&mut args, "-y");
    push_arg(&mut args, "@deepseek-ai/dsh");
    push_web_args(&mut args);
    SpawnPlan { offline: false, command: CommandLine { program, args } }
}

/// The loading page and the launch agree: `launch_mode` reports `offline`
/// exactly when the spawn plan runs the bundled Node binary on the bundled
/// CLI, and `npx` exactly when it falls back to `npx`.
pub proof fn lemma_launch_mode_matches_spawn(
    host: Option<Seq<char>>,
    node_exists: bool,
    cli_exists: bool,
    style: PathStyle,
)
    ensures
        uses_offline_cli(host is Some, node_exists, cli_exists) ==> spawn_command(
            host,
            node_exists,
            cli_exists,
            style,
        ).0 == node_location(host->0, style),
        !uses_offline_cli(host is Some, node_exists, cli_exists) ==> if style == PathStyle::Windows {
            spawn_command(host, node_exists, cli_exists, style).0 == "cmd"@
                && spawn_command(host, node_exists, cli_exists, style).1[1] == "npx"@
        } else {
            spawn_command(host, node_exists, cli_exists, style).0 == "npx"@
        },
        (if uses_offline_cli(host is Some, node_exists, cli_exists) {
            "offline"@
        } else {
            "npx"@
        }) == "offline"@ <==> uses_offline_cli(host is Some, node_exists, cli_exists),
{
    reveal_strlit("offline");
    reveal_strlit("npx");
    assert("npx"@.len() != "offline"@.len());
}

/// The message for a failed spawn of `dsh web`: it names the bundled Node
/// binary in offline mode, and `npx` otherwise.
pub open spec fn spawn_error_text(plan_offline: bool, program: Seq<char>, error: Seq<char>) -> Seq<
    char,
> {
    if plan_offline {
        "启动内置 node（"@ + program + "）失败: "@ + error
    } else {
        "通过 npx 启动 dsh web 失败: "@ + error
    }
}

/// Explains a failed spawn of `dsh web` with the OS reason `error`.
pub fn spawn_error(plan: &SpawnPlan, error: &str) -> (r: String)
    ensures
        r@ == spawn_error_text(plan.offline, plan.command.program@, error@),
{
    if plan.offline {
        let mut r: String = String::from_str("启动内置 node（");
        push_str(&mut r, plan.command.program.as_str());
        push_str(&mut r, "）失败: ");
        push_str(&mut r, error);
        r
    } else {
        let mut r: String = String::from_str("通过 npx 启动 dsh web 失败: ");
        push_str(&mut r, error);
        r
    }
}

/// The command that force-kills a process: `taskkill /PID <pid> /T /F`
/// (the whole tree) on Windows, `kill -9 <pid>` elsewhere.
pub open spec fn kill_command_line(pid: nat, style: PathStyle) -> (Seq<char>, Seq<Seq<char>>) {
    if style == PathStyle::Windows {
        ("taskkill"@, seq!["/PID"@, decimal(pid), "/T"@, "/F"@])
    } else {
        ("kill"@, seq!["-9"@, decimal(pid)])
    }
}

/// Force-kill command for a process tree by pid.
///
/// Only to be run while a live child handle still references `pid`, so the
/// pid cannot have been reassigned to an unrelated process.
pub fn kill_command(pid: u32, style: PathStyle) -> (r: CommandLine)
    ensures
        (r.program@, r.args.deep_view()) == kill_command_line(pid as nat, style),
{
    let mut pid_text: String = String::new();
    push_decimal(&mut pid_text, pid as u64);
    assert(pid_text@ =~= decimal(pid as nat));
    let mut args: Vec<String> = Vec::new();
    if style == PathStyle::Windows {
        push_arg(&mut args, "/PID");
        push_owned_arg(&mut args, pid_text);
        push_arg(&mut args, "/T");
        push_arg(&mut args, "/F");
        assert(args.deep_view() =~= seq!["/PID"@, decimal(pid as nat), "/T"@, "/F"@]);
        CommandLine { program: String::from_str("taskkill"), args }
    } else {
        push_arg(&mut args, "-9");
        push_owned_arg(&mut args, pid_text);
        assert(args.deep_view() =~= seq!["-9"@, decimal(pid as nat)]);
        CommandLine { program: String::from_str("kill"), args }
    }
}

// ---------------------------------------------------------------------------
// Outcomes of a command run with a timeout
// ---------------------------------------------------------------------------

/// What a finished command produced, its output streams trimmed.
#[derive(Debug)]
pub struct CommandOutput {
    pub success: bool,
    pub stdout: String,
    pub stderr: String,
}

/// The outcome of a command, with both output streams trimmed of
/// surrounding whitespace.
pub fn command_output(success: bool, stdout: &str, stderr: &str) -> (r: CommandOutput)
    ensures
        r.success == success,
        r.stdout@ == trim(stdout@),
        r.stderr@ == trim(stderr@),
{
    CommandOutput { success, stdout: trim_string(stdout), stderr: trim_string(stderr) }
}

/// "Could not start `program`".
pub open spec fn start_failed_text(program: Seq<char>, error: Seq<char>) -> Seq<char> {
    "启动 "@ + program + " 失败: "@ + error
}

/// The message for a command that could not be started.
pub fn start_failed(program: &str, error: &str) -> (r: String)
    ensures
        r@ == start_failed_text(program@, error@),
{
    let mut r: String = String::from_str("启动 ");
    push_str(&mut r, program);
    push_str(&mut r, " 失败: ");
    push_str(&mut r, error);
    r
}

/// "Waiting for `program` failed".
pub open spec fn wait_failed_text(program: Seq<char>, error: Seq<char>) -> Seq<char> {
    "等待 "@ + program + " 失败: "@ + error
}

/// The message for a command whose completion could not be awaited.
pub fn wait_failed(program: &str, error: &str) -> (r: String)
    ensures
        r@ == wait_failed_text(program@, error@),
{
    let mut r: String = String::from_str("等待 ");
    push_str(&mut r, program);
    push_str(&mut r, " 失败: ");
    push_str(&mut r, error);
    r
}

/// What could still be learnt from a command that was killed on timeout.
pub enum AfterKill {
    /// It exited within the grace period; its raw standard error.
    Exited(String),
    /// Waiting for it failed with this error.
    WaitFailed(String),
    /// It did not exit within the grace period.
    Silent,
}

/// The detail reported after a timeout: the trimmed standard error of the
/// killed command, the wait error, or nothing.
pub open spec fn after_kill_detail(program: Seq<char>, outcome: AfterKill) -> Seq<char> {
    match outcome {
        AfterKill::Exited(stderr) => trim(stderr@),
        AfterKill::WaitFailed(e) => wait_failed_text(program, e@),
        AfterKill::Silent => Seq::empty(),
    }
}

/// "`program` timed out (`secs`s)", followed by `: <detail>` when there is a
/// detail.
pub open spec fn timeout_text(program: Seq<char>, secs: nat, detail: Seq<char>) -> Seq<char> {
    program + " 执行超时（"@ + decimal(secs) + "s）"@ + if detail.len() == 0 {
        Seq::<char>::empty()
    } else {
        ": "@ + detail
    }
}

/// The message for a command that was killed after running for `secs`
/// seconds.
pub fn timeout_error(program: &str, secs: u64, outcome: AfterKill) -> (r: String)
    ensures
        r@ == timeout_text(program@, secs as nat, after_kill_detail(program@, outcome)),
{
    let detail: String = match outcome {
        AfterKill::Exited(stderr) => trim_string(stderr.as_str()),
        AfterKill::WaitFailed(e) => wait_failed(program, e.as_str()),
        AfterKill::Silent => String::new(),
    };
    let mut r: String = String::from_str(program);
    push_str(&mut r, " 执行超时（");
    push_decimal(&mut r, secs);
    push_str(&mut r, "s）");
    if detail.as_str().unicode_len() > 0 {
        push_str(&mut r, ": ");
        push_str(&mut r, detail.as_str());
    }
    assert(r@ =~= timeout_text(program@, secs as nat, after_kill_detail(program@, outcome)));
    r
}

// ---------------------------------------------------------------------------
// Laws
// ---------------------------------------------------------------------------

/// The offline launch runs the bundled CLI script itself: the first
/// argument is exactly the CLI path that was checked for existence (as
/// given, also when it holds spaces), followed by exactly the five `web`
/// arguments, and the program is the bundled Node binary.
pub proof fn lemma_offline_spawn_runs_cli(
    host: Seq<char>,
    node_exists: bool,
    cli_exists: bool,
    style: PathStyle,
)
    requires
        uses_offline_cli(true, node_exists, cli_exists),
    ensures
        spawn_command(Some(host), node_exists, cli_exists, style).0 == node_location(host, style),
        spawn_command(Some(host), node_exists, cli_exists, style).1.len() == 6,
        spawn_command(Some(host), node_exists, cli_exists, style).1[0] == dsh_cli_location(host, style),
        spawn_command(Some(host), node_exists, cli_exists, style).1.skip(1) == seq![
            "web"@,
            "--host"@,
            "127.0.0.1"@,
            "--port"@,
            "0"@,
        ],
{
    let args = spawn_command(Some(host), node_exists, cli_exists, style).1;
    assert(args.skip(1) =~= web_args());
}

/// The kill command names exactly the given process: its pid argument is
/// a run of decimal digits that reads back as the pid, so different pids
/// give different commands.
pub proof fn lemma_kill_names_the_pid(pid: nat, other: nat, style: PathStyle)
    ensures
        kill_command_line(pid, style).1.len() >= 2,
        decimal_value(kill_command_line(pid, style).1[1]) == pid,
        forall|i: int|
            0 <= i < kill_command_line(pid, style).1[1].len() ==> is_ascii_digit(
                #[trigger] kill_command_line(pid, style).1[1][i],
            ),
        pid != other ==> kill_command_line(pid, style) != kill_command_line(other, style),
{
    lemma_decimal_round_trip(pid);
    lemma_decimal_round_trip(other);
    if pid != other && kill_command_line(pid, style) == kill_command_line(other, style) {
        assert(kill_command_line(pid, style).1[1] == kill_command_line(other, style).1[1]);
    }
}

} // verus!
