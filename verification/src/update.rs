//! The self-contained updater: which `@deepseek-ai/dsh` is installed, which
//! is the latest published, and how the bundled npm is driven to install it.
//!
//! npm is run by the bundled Node binary from `runtime-host`, so updating
//! never relies on a Node or npm installed on the user's machine. The caller
//! runs the commands planned here and hands their outcomes back.

use vstd::prelude::*;

use crate::json::{json_string_member, read_json_string_member};
use crate::paths::{first_marked, first_marked_from, join_path, node_location, node_path, path_join, PathStyle};
use crate::process::{push_arg, push_owned_arg, CommandLine, CommandOutput};
use crate::text::{first_line, first_line_of, newline_from, push_str, trim, trim_string};

verus! {

/// The views of a `Result` of strings.
pub open spec fn text_result(r: Result<String, String>) -> Result<Seq<char>, Seq<char>> {
    match r {
        Ok(s) => Ok(s@),
        Err(e) => Err(e@),
    }
}

/// The view of a `Result` whose success carries nothing.
pub open spec fn unit_result(r: Result<(), String>) -> Result<(), Seq<char>> {
    match r {
        Ok(_) => Ok(()),
        Err(e) => Err(e@),
    }
}

// ---------------------------------------------------------------------------
// Installed version
// ---------------------------------------------------------------------------

/// The version recorded in the text of a package manifest: its `version`
/// member, when the text was read and that member is a string.
pub open spec fn manifest_version(package_json: Option<Seq<char>>) -> Option<Seq<char>> {
    match package_json {
        Some(text) => json_string_member(text, "version"@),
        None => None,
    }
}

/// Read the installed `@deepseek-ai/dsh` version from the text of its
/// `package.json` (`None` when the file could not be read).
pub fn current_version(package_json: Option<String>) -> (r: Option<String>)
    ensures
        r.deep_view() == manifest_version(package_json.deep_view()),
{
    match package_json {
        Some(text) => read_json_string_member(text.as_str(), "version"),
        None => None,
    }
}

/// Return the version of the bundled/offline `@deepseek-ai/dsh` CLI.
///
/// `host` is the runtime-host found, `package_json` the text read from its
/// `dsh_package_json_path` (if any). Returns `None` when the offline package
/// is not present (the launcher then falls back to `npx`).
pub fn current_dsh_version(host: &Option<String>, package_json: Option<String>) -> (r: Option<
    String,
>)
    ensures
        host is None ==> r is None,
        host is Some ==> r.deep_view() == manifest_version(package_json.deep_view()),
{
    if host.is_none() {
        return None;
    }
    current_version(package_json)
}

// ---------------------------------------------------------------------------
// Update check
// ---------------------------------------------------------------------------

/// Version information for the locally installed and latest published dsh.
pub struct UpdateInfo {
    pub current: Option<String>,
    pub latest: String,
    pub outdated: bool,
}

/// An installation is outdated unless its version is exactly the latest.
pub open spec fn is_outdated(current: Option<Seq<char>>, latest: Seq<char>) -> bool {
    current != Some(latest)
}

/// No update is proposed for an installation that already has the latest
/// version; any other installed version, or none, is outdated.
pub proof fn lemma_outdated_exactly_when_different(current: Option<Seq<char>>, latest: Seq<char>)
    ensures
        !is_outdated(Some(latest), latest),
        current != Some(latest) ==> is_outdated(current, latest),
{
}

/// "runtime-host directory not found".
pub open spec fn missing_host_text() -> Seq<char> {
    "未找到 runtime-host 目录"@
}

/// The runtime-host directory that the updater works in, or the error that
/// there is none.
pub fn require_runtime_host(host: Option<String>) -> (r: Result<String, String>)
    ensures
        text_result(r) == match host {
            Some(h) => Ok(h@),
            None => Err(missing_host_text()),
        },
{
    match host {
        Some(h) => Ok(h),
        None => Err(String::from_str("未找到 runtime-host 目录")),
    }
}

/// Check the installed version against the latest published version.
///
/// `current` is the installed version (`current_version`), `latest` the
/// outcome of `latest_version`; an error there is passed on unchanged.
pub fn check_update(current: Option<String>, latest: Result<String, String>) -> (r: Result<
    UpdateInfo,
    String,
>)
    ensures
        latest matches Err(e) ==> (r matches Err(f) && f@ == e@),
        latest matches Ok(l) ==> (r matches Ok(info) && {
            &&& info.current.deep_view() == current.deep_view()
            &&& info.latest@ == l@
            &&& info.outdated == is_outdated(current.deep_view(), l@)
        }),
{
    match latest {
        Err(e) => Err(e),
        Ok(l) => {
            let outdated: bool = match &current {
                Some(c) => !(*c == l),
                None => true,
            };
            Ok(UpdateInfo { current, latest: l, outdated })
        },
    }
}

// ---------------------------------------------------------------------------
// Bundled npm
// ---------------------------------------------------------------------------

/// Where the bundled npm CLI may be, in order of preference:
/// `tools/npm/node_modules/npm/bin/npm-cli.js` (npm installed as a standalone
/// tool, outside the dsh dependency graph), then the older flat layout
/// `node_modules/npm/bin/npm-cli.js`.
pub open spec fn npm_cli_locations(dir: Seq<char>, style: PathStyle) -> Seq<Seq<char>> {
    let flat = path_join(
        path_join(path_join(path_join(dir, "node_modules"@, style), "npm"@, style), "bin"@, style),
        "npm-cli.js"@,
        style,
    );
    let tool_dir = path_join(path_join(dir, "tools"@, style), "npm"@, style);
    let tool = path_join(
        path_join(
            path_join(path_join(tool_dir, "node_modules"@, style), "npm"@, style),
            "bin"@,
            style,
        ),
        "npm-cli.js"@,
        style,
    );
    seq![tool, flat]
}

/// `<dir>/node_modules/npm/bin/npm-cli.js` and the like.
fn npm_cli_under(dir: &str, style: PathStyle) -> (r: String)
    ensures
        r@ == path_join(
            path_join(path_join(path_join(dir@, "node_modules"@, style), "npm"@, style), "bin"@, style),
            "npm-cli.js"@,
            style,
        ),
{
    let a: String = join_path(dir, "node_modules", style);
    let b: String = join_path(a.as_str(), "npm", style);
    let c: String = join_path(b.as_str(), "bin", style);
    join_path(c.as_str(), "npm-cli.js", style)
}

/// The places to look for the bundled npm CLI, in order.
pub fn npm_cli_candidates(dir: &str, style: PathStyle) -> (r: Vec<String>)
    ensures
        r.deep_view() == npm_cli_locations(dir@, style),
{
    let tools: String = join_path(dir, "tools", style);
    let tool_dir: String = join_path(tools.as_str(), "npm", style);
    let tool: String = npm_cli_under(tool_dir.as_str(), style);
    let flat: String = npm_cli_under(dir, style);
    let mut r: Vec<String> = Vec::new();
    push_owned_arg(&mut r, tool);
    push_owned_arg(&mut r, flat);
    assert(r.deep_view() =~= npm_cli_locations(dir@, style));
    r
}

/// Locate the bundled npm CLI entry inside `runtime-host`: the first of
/// `npm_cli_candidates` that exists (`exists[i]` tells whether the `i`-th
/// candidate does).
pub fn find_npm_cli(dir: &str, exists: &Vec<bool>, style: PathStyle) -> (r: Option<String>)
    ensures
        r.deep_view() == first_marked(npm_cli_locations(dir@, style), exists@),
{
    let candidates: Vec<String> = npm_cli_candidates(dir, style);
    let mut i: usize = 0;
    while i < candidates.len()
        invariant
            i <= candidates@.len(),
            candidates.deep_view() == npm_cli_locations(dir@, style),
            first_marked(candidates.deep_view(), exists@) == first_marked_from(
                candidates.deep_view(),
                exists@,
                i as nat,
            ),
        decreases candidates.len() - i,
    {
        if i < exists.len() && exists[i] {
            let found: String = candidates[i].clone();
            assert(found@ == candidates.deep_view()[i as int]);
            return Some(found);
        }
        i += 1;
    }
    None
}

/// What to say when the bundled npm is missing: where it was expected and
/// how to regenerate the offline bundle.
pub open spec fn npm_missing_text() -> Seq<char> {
    "runtime-host 内未找到自带的 npm（tools/npm/node_modules/npm/bin/npm-cli.js）。请重新生成离线包后重试：cd runtime-host && npm install && npm install npm@11 --prefix tools/npm"@
}

/// The command that runs the bundled npm (`npm_cli`, see `find_npm_cli`)
/// with `args` through the bundled Node binary of `dir`; the caller runs it
/// in `dir`. An error when no npm CLI was found.
pub fn npm_command(dir: &str, npm_cli: Option<String>, args: &Vec<String>, style: PathStyle) -> (r:
    Result<CommandLine, String>)
    ensures
        npm_cli is None ==> (r matches Err(e) && e@ == npm_missing_text()),
        npm_cli matches Some(n) ==> (r matches Ok(c) && c.program@ == node_location(dir@, style)
            && c.args.deep_view() == seq![n@] + args.deep_view()),
{
    match npm_cli {
        None => Err(
            String::from_str(
                "runtime-host 内未找到自带的 npm（tools/npm/node_modules/npm/bin/npm-cli.js）。请重新生成离线包后重试：cd runtime-host && npm install && npm install npm@11 --prefix tools/npm",
            ),
        ),
        Some(n) => {
            let ghost first = n@;
            let mut all: Vec<String> = Vec::new();
            push_owned_arg(&mut all, n);
            let mut i: usize = 0;
            while i < args.len()
                invariant
                    i <= args@.len(),
                    all.deep_view() == seq![first] + args.deep_view().subrange(0, i as int),
                decreases args.len() - i,
            {
                let a: String = args[i].clone();
                push_owned_arg(&mut all, a);
                i += 1;
                assert(all.deep_view() =~= seq![first] + args.deep_view().subrange(0, i as int));
            }
            assert(args.deep_view().subrange(0, args@.len() as int) =~= args.deep_view());
            Ok(CommandLine { program: node_path(dir, style), args: all })
        },
    }
}

/// `view @deepseek-ai/dsh version --silent`.
pub open spec fn npm_view_arg_list() -> Seq<Seq<char>> {
    seq!["view"@, "@deepseek-ai/dsh"@, "version"@, "--silent"@]
}

/// The npm arguments that query the latest published version.
pub fn npm_view_args() -> (r: Vec<String>)
    ensures
        r.deep_view() == npm_view_arg_list(),
{
    let mut r: Vec<String> = Vec::new();
    push_arg(&mut r, "view");
    push_arg(&mut r, "@deepseek-ai/dsh");
    push_arg(&mut r, "version");
    push_arg(&mut r, "--silent");
    assert(r.deep_view() =~= npm_view_arg_list());
    r
}

/// `install @deepseek-ai/dsh@latest --save-exact --no-audit --no-fund
/// --loglevel=error`.
pub open spec fn npm_install_arg_list() -> Seq<Seq<char>> {
    seq![
        "install"@,
        "@deepseek-ai/dsh@latest"@,
        "--save-exact"@,
        "--no-audit"@,
        "--no-fund"@,
        "--loglevel=error"@,
    ]
}

/// The npm arguments that install the latest `@deepseek-ai/dsh`, keeping the
/// flat `node_modules` layout and recording the exact version.
pub fn npm_install_args() -> (r: Vec<String>)
    ensures
        r.deep_view() == npm_install_arg_list(),
{
    let mut r: Vec<String> = Vec::new();
    push_arg(&mut r, "install");
    push_arg(&mut r, "@deepseek-ai/dsh@latest");
    push_arg(&mut r, "--save-exact");
    push_arg(&mut r, "--no-audit");
    push_arg(&mut r, "--no-fund");
    push_arg(&mut r, "--loglevel=error");
    assert(r.deep_view() =~= npm_install_arg_list());
    r
}

/// What a failed command reports: its standard error, or its standard
/// output when the error stream is empty.
pub open spec fn failure_detail(out: CommandOutput) -> Seq<char> {
    if out.stderr@.len() != 0 {
        out.stderr@
    } else {
        out.stdout@
    }
}

fn failure_detail_of(out: &CommandOutput) -> (r: String)
    ensures
        r@ == failure_detail(*out),
{
    if out.stderr.as_str().unicode_len() != 0 {
        out.stderr.clone()
    } else {
        out.stdout.clone()
    }
}

/// The latest version as reported by `npm view`: the first line of its
/// output, trimmed; errors when npm could not run, failed, or printed no
/// version.
pub open spec fn latest_version_outcome(run: Result<CommandOutput, String>) -> Result<
    Seq<char>,
    Seq<char>,
> {
    match run {
        Err(e) => Err("npm view 失败: "@ + e@),
        Ok(out) => if !out.success {
            Err("查询最新版本失败: "@ + failure_detail(out))
        } else {
            let v = trim(first_line(out.stdout@));
            if v.len() == 0 {
                Err("查询最新版本未返回版本号"@)
            } else {
                Ok(v)
            }
        },
    }
}

/// Query the latest published version from the outcome of `npm view`.
pub fn latest_version(run: Result<CommandOutput, String>) -> (r: Result<String, String>)
    ensures
        text_result(r) == latest_version_outcome(run),
{
    match run {
        Err(e) => {
            let mut m: String = String::from_str("npm view 失败: ");
            push_str(&mut m, e.as_str());
            Err(m)
        },
        Ok(out) => {
            if !out.success {
                let mut m: String = String::from_str("查询最新版本失败: ");
                let d: String = failure_detail_of(&out);
                push_str(&mut m, d.as_str());
                return Err(m);
            }
            let line: String = first_line_of(out.stdout.as_str());
            let version: String = trim_string(line.as_str());
            if version.as_str().unicode_len() == 0 {
                Err(String::from_str("查询最新版本未返回版本号"))
            } else {
                Ok(version)
            }
        },
    }
}

/// The outcome of `npm install`: success when npm ran and succeeded.
pub open spec fn install_outcome(run: Result<CommandOutput, String>) -> Result<(), Seq<char>> {
    match run {
        Err(e) => Err("npm install 失败: "@ + e@),
        Ok(out) => if out.success {
            Ok(())
        } else {
            Err("更新安装失败: "@ + failure_detail(out))
        },
    }
}

/// Install the latest `@deepseek-ai/dsh` package: interprets the outcome of
/// `npm install`.
pub fn install_latest(run: Result<CommandOutput, String>) -> (r: Result<(), String>)
    ensures
        unit_result(r) == install_outcome(run),
{
    match run {
        Err(e) => {
            let mut m: String = String::from_str("npm install 失败: ");
            push_str(&mut m, e.as_str());
            Err(m)
        },
        Ok(out) => {
            if out.success {
                Ok(())
            } else {
                let mut m: String = String::from_str("更新安装失败: ");
                let d: String = failure_detail_of(&out);
                push_str(&mut m, d.as_str());
                Err(m)
            }
        },
    }
}

// ---------------------------------------------------------------------------
// Laws
// ---------------------------------------------------------------------------

/// With no `'\n'` from index `i` on, the first newline from `i` is the end.
proof fn lemma_newline_from_none(s: Seq<char>, i: nat)
    requires
        i <= s.len(),
        forall|j: int| i <= j < s.len() ==> s[j] != '\n',
    ensures
        newline_from(s, i) == s.len(),
    decreases s.len() - i,
{
    if i < s.len() {
        lemma_newline_from_none(s, i + 1);
    }
}

/// The text before the first `'\n'` of `line + "\n" + rest` is `line`, when
/// `line` itself has no newline.
proof fn lemma_first_line_of_lines(line: Seq<char>, rest: Seq<char>)
    requires
        !line.contains('\n'),
    ensures
        first_line(line + seq!['\n'] + rest) == line,
        first_line(line) == line,
{
    let s = line + seq!['\n'] + rest;
    assert forall|j: int| 0 <= j < line.len() implies s[j] != '\n' by {
        assert(s[j] == line[j]);
        if s[j] == '\n' {
            assert(line.contains('\n'));
        }
    }
    lemma_newline_from_none_upto(s, 0, line.len());
    assert(s.subrange(0, line.len() as int) =~= line);
    assert forall|j: int| 0 <= j < line.len() implies line[j] != '\n' by {
        if line[j] == '\n' {
            assert(line.contains('\n'));
        }
    }
    lemma_newline_from_none(line, 0);
    assert(line.subrange(0, line.len() as int) =~= line);
}

/// The first newline from `i` is at `k` when `s[k]` is one and none lies
/// between.
proof fn lemma_newline_from_none_upto(s: Seq<char>, i: nat, k: nat)
    requires
        i <= k < s.len(),
        s[k as int] == '\n',
        forall|j: int| i <= j < k ==> s[j] != '\n',
    ensures
        newline_from(s, i) == k,
    decreases k - i,
{
    if i < k {
        lemma_newline_from_none_upto(s, i + 1, k);
    }
}

/// The latest version is the trimmed first line of what `npm view` prints:
/// a single line (with no newline left after trimming) is the version
/// itself, and whatever lines follow the first one are ignored.
pub proof fn lemma_latest_version_is_first_line(one: CommandOutput, more: CommandOutput, rest: Seq<char>)
    requires
        one.success,
        more.success,
        !one.stdout@.contains('\n'),
        more.stdout@ == one.stdout@ + seq!['\n'] + rest,
    ensures
        trim(one.stdout@).len() > 0 ==> latest_version_outcome(Ok(one)) == Ok::<Seq<char>, Seq<char>>(
            trim(one.stdout@),
        ),
        latest_version_outcome(Ok(more)) == latest_version_outcome(Ok(one)),
{
    lemma_first_line_of_lines(one.stdout@, rest);
}

/// A failed `npm view` is always an error, whatever it printed.
pub proof fn lemma_latest_version_failed_run(out: CommandOutput)
    requires
        !out.success,
    ensures
        latest_version_outcome(Ok(out)) is Err,
{
}

/// Whether the install succeeded depends on npm's exit status alone: a
/// successful run is a success whatever it printed, a failed one an error.
pub proof fn lemma_install_success_is_exit_status(out: CommandOutput)
    ensures
        out.success ==> install_outcome(Ok(out)) == Ok::<(), Seq<char>>(()),
        !out.success ==> install_outcome(Ok(out)) is Err,
{
}

/// The installed version is read from the whole manifest text: it is the
/// string `version` member of that text as JSON, and there is none when no
/// manifest could be read.
pub proof fn lemma_manifest_version_reads_whole_text(text: Seq<char>)
    ensures
        manifest_version(Some(text)) == json_string_member(text, "version"@),
        manifest_version(None) is None,
{
}

} // verus!
