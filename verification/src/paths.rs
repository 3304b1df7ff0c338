//! Where the bundled runtime lives.
//!
//! The launcher prefers an offline `runtime-host` directory (a bundled Node
//! binary plus the `@deepseek-ai/dsh` CLI) and falls back to `npx`. This
//! module composes the paths involved and decides, from what exists on disk,
//! which runtime-host is used. Paths are strings in the platform's syntax,
//! given by a [`PathStyle`]; the file system itself is probed by the caller,
//! who hands the answers back as booleans.

use vstd::prelude::*;

use crate::text::{chars_of, push_str, string_of_chars, string_push};

verus! {

/// The path syntax of the platform the launcher runs on.
#[derive(Clone, Copy, Debug, PartialEq, Eq, Structural)]
pub enum PathStyle {
    /// `\` is the main separator, `/` is accepted too.
    Windows,
    /// `/` is the only separator.
    Posix,
}

/// Whether `c` separates path components in `style`.
pub open spec fn is_separator(c: char, style: PathStyle) -> bool {
    c == '/' || (style == PathStyle::Windows && c == '\\')
}

/// Whether `c` is an ASCII letter.
pub open spec fn is_ascii_letter(c: char) -> bool {
    ('A' <= c && c <= 'Z') || ('a' <= c && c <= 'z')
}

/// Whether `base` is nothing but a Windows drive (`C:`), after which a
/// joined component follows without a separator (`C:x` is relative to the
/// drive's current directory).
pub open spec fn is_bare_drive(base: Seq<char>, style: PathStyle) -> bool {
    style == PathStyle::Windows && base.len() == 2 && is_ascii_letter(base[0]) && base[1] == ':'
}

/// The index of the first `\` in `s` at or after `i` (the length of `s`
/// when there is none).
pub open spec fn backslash_from(s: Seq<char>, i: nat) -> nat
    decreases s.len() - i,
{
    if i < s.len() && s[i as int] != '\\' {
        backslash_from(s, i + 1)
    } else {
        i
    }
}

/// `backslash_from` stays between `i` and the length of `s`.
pub proof fn lemma_backslash_from_bounds(s: Seq<char>, i: nat)
    requires
        i <= s.len(),
    ensures
        i <= backslash_from(s, i) <= s.len(),
    decreases s.len() - i,
{
    if i < s.len() && s[i as int] != '\\' {
        lemma_backslash_from_bounds(s, i + 1);
    }
}

/// The length of the prefix of a verbatim path (one that starts with
/// `\\?\`): `\\?\UNC\server\share` (the share only when it is not empty),
/// or `\\?\` and the first component (`\\?\C:`, `\\?\name`). In a verbatim
/// path only `\` separates components.
pub open spec fn verbatim_prefix_len(base: Seq<char>) -> nat {
    if starts_with(base.skip(4), unc_marker()) {
        let server_end = backslash_from(base, 8);
        if server_end < base.len() && backslash_from(base, server_end + 1) > server_end + 1 {
            backslash_from(base, server_end + 1)
        } else {
            server_end
        }
    } else {
        backslash_from(base, 4)
    }
}

/// The components of a verbatim path from index `i` on, each followed by
/// `\`; empty components (doubled or trailing separators) are dropped.
pub open spec fn verbatim_components(s: Seq<char>, i: nat) -> Seq<char>
    decreases s.len() + 1 - i,
{
    if i >= s.len() {
        Seq::empty()
    } else {
        proof {
            lemma_backslash_from_bounds(s, i);
        }
        let e = backslash_from(s, i);
        (if e > i {
            s.subrange(i as int, e as int).push('\\')
        } else {
            Seq::empty()
        }) + verbatim_components(s, e + 1)
    }
}

/// `Path::join` onto a Windows verbatim base: the path is rebuilt from its
/// prefix and its non-empty components, and `part` is appended after a `\`.
pub open spec fn verbatim_join(base: Seq<char>, part: Seq<char>) -> Seq<char> {
    let p = verbatim_prefix_len(base);
    base.subrange(0, p as int) + seq!['\\'] + verbatim_components(base, p) + part
}

/// The separator inserted when joining paths in `style`.
pub open spec fn main_separator(style: PathStyle) -> char {
    if style == PathStyle::Windows {
        '\\'
    } else {
        '/'
    }
}

/// `base` joined with the relative component `part` (`Path::join`): on a
/// Windows verbatim base (with a non-empty `part`) the path is rebuilt as
/// `verbatim_join` says; otherwise a separator is put between them unless
/// `base` is empty, is a bare Windows drive, or already ends with a
/// separator.
pub open spec fn path_join(base: Seq<char>, part: Seq<char>, style: PathStyle) -> Seq<char> {
    if style == PathStyle::Windows && starts_with(base, verbatim_prefix()) && part.len() > 0 {
        verbatim_join(base, part)
    } else if base.len() == 0 || is_bare_drive(base, style) {
        base + part
    } else if is_separator(base.last(), style) {
        base + part
    } else {
        base.push(main_separator(style)) + part
    }
}

fn char_is_ascii_letter(c: char) -> (r: bool)
    ensures
        r == is_ascii_letter(c),
{
    ('A' <= c && c <= 'Z') || ('a' <= c && c <= 'z')
}

/// The index of the first `\` in `v` at or after `i`.
fn backslash_index(v: &Vec<char>, i: usize) -> (r: usize)
    requires
        i <= v@.len(),
    ensures
        r == backslash_from(v@, i as nat),
        i <= r <= v@.len(),
{
    let mut k: usize = i;
    while k < v.len() && v[k] != '\\'
        invariant
            i <= k <= v@.len(),
            backslash_from(v@, i as nat) == backslash_from(v@, k as nat),
        decreases v.len() - k,
    {
        k += 1;
    }
    k
}

/// The path `v` (a verbatim path) joined with the non-empty `part`.
fn join_verbatim(v: &Vec<char>, part: &str) -> (r: String)
    requires
        starts_with(v@, verbatim_prefix()),
    ensures
        r@ == verbatim_join(v@, part@),
{
    let n: usize = v.len();
    let unc: Vec<char> = vec!['U', 'N', 'C', '\\'];
    assert(unc@ =~= unc_marker());
    let p: usize = if chars_start_with(v, 4, &unc) {
        proof {
            lemma_backslash_from_bounds(v@, 8);
        }
        let server_end: usize = backslash_index(v, 8);
        if server_end < n {
            let share_end: usize = backslash_index(v, server_end + 1);
            if share_end > server_end + 1 {
                share_end
            } else {
                server_end
            }
        } else {
            server_end
        }
    } else {
        backslash_index(v, 4)
    };
    assert(p == verbatim_prefix_len(v@));
    let mut r: String = string_of_chars(v, 0, p);
    string_push(&mut r, '\\');
    let ghost head = r@;
    let mut i: usize = p;
    while i < n
        invariant
            n == v@.len(),
            p <= i <= n,
            head + verbatim_components(v@, p as nat) == r@ + verbatim_components(v@, i as nat),
        decreases n - i,
    {
        let e: usize = backslash_index(v, i);
        if e > i {
            let comp: String = string_of_chars(v, i, e);
            push_str(&mut r, comp.as_str());
            string_push(&mut r, '\\');
        }
        assert(r@ + verbatim_components(v@, (e + 1) as nat) =~= head + verbatim_components(
            v@,
            p as nat,
        ));
        if e < n {
            i = e + 1;
        } else {
            assert(verbatim_components(v@, (e + 1) as nat) =~= verbatim_components(v@, n as nat));
            i = n;
        }
    }
    assert(verbatim_components(v@, i as nat) =~= Seq::<char>::empty());
    push_str(&mut r, part);
    assert(r@ =~= verbatim_join(v@, part@));
    r
}

/// Joins the relative component `part` onto `base`.
pub fn join_path(base: &str, part: &str, style: PathStyle) -> (r: String)
    ensures
        r@ == path_join(base@, part@, style),
{
    let v: Vec<char> = chars_of(base);
    let n: usize = v.len();
    let windows: bool = style == PathStyle::Windows;
    let verbatim_chars: Vec<char> = vec!['\\', '\\', '?', '\\'];
    assert(verbatim_chars@ =~= verbatim_prefix());
    assert(v@.skip(0) =~= v@);
    let verbatim: bool = chars_start_with(&v, 0, &verbatim_chars);
    if windows && verbatim && part.unicode_len() > 0 {
        return join_verbatim(&v, part);
    }
    let mut r: String = String::from_str(base);
    let bare_drive: bool = windows && n == 2 && char_is_ascii_letter(v[0]) && v[1] == ':';
    if n > 0 && !bare_drive {
        let last: char = v[n - 1];
        let sep: bool = last == '/' || (windows && last == '\\');
        if !sep {
            let main: char = if windows {
                '\\'
            } else {
                '/'
            };
            string_push(&mut r, main);
        }
    }
    push_str(&mut r, part);
    r
}

/// The file name of the bundled Node binary: `node.exe` on Windows, `node`
/// everywhere else.
pub open spec fn node_bin(style: PathStyle) -> Seq<char> {
    if style == PathStyle::Windows {
        "node.exe"@
    } else {
        "node"@
    }
}

/// File name of the bundled Node binary inside `runtime-host`, per platform.
pub fn node_bin_name(style: PathStyle) -> (r: &'static str)
    ensures
        r@ == node_bin(style),
{
    if style == PathStyle::Windows {
        "node.exe"
    } else {
        "node"
    }
}

/// The bundled Node binary inside a runtime-host directory.
pub open spec fn node_location(host: Seq<char>, style: PathStyle) -> Seq<char> {
    path_join(host, node_bin(style), style)
}

/// Path of the bundled Node binary inside a runtime-host directory.
pub fn node_path(host: &str, style: PathStyle) -> (r: String)
    ensures
        r@ == node_location(host@, style),
{
    join_path(host, node_bin_name(style), style)
}

/// `<host>/node_modules/@deepseek-ai/dsh/lib/bin.js`.
pub open spec fn dsh_cli_location(host: Seq<char>, style: PathStyle) -> Seq<char> {
    path_join(
        path_join(
            path_join(
                path_join(path_join(host, "node_modules"@, style), "@deepseek-ai"@, style),
                "dsh"@,
                style,
            ),
            "lib"@,
            style,
        ),
        "bin.js"@,
        style,
    )
}

/// Path of the bundled `@deepseek-ai/dsh` CLI entry inside a runtime-host dir.
pub fn dsh_cli_path(host: &str, style: PathStyle) -> (r: String)
    ensures
        r@ == dsh_cli_location(host@, style),
{
    let a: String = join_path(host, "node_modules", style);
    let b: String = join_path(a.as_str(), "@deepseek-ai", style);
    let c: String = join_path(b.as_str(), "dsh", style);
    let d: String = join_path(c.as_str(), "lib", style);
    join_path(d.as_str(), "bin.js", style)
}

/// `<host>/node_modules/@deepseek-ai/dsh/package.json`, where the installed
/// CLI records its version.
pub open spec fn dsh_package_json_location(host: Seq<char>, style: PathStyle) -> Seq<char> {
    path_join(
        path_join(
            path_join(path_join(host, "node_modules"@, style), "@deepseek-ai"@, style),
            "dsh"@,
            style,
        ),
        "package.json"@,
        style,
    )
}

/// Path of the installed `@deepseek-ai/dsh` package manifest.
pub fn dsh_package_json_path(host: &str, style: PathStyle) -> (r: String)
    ensures
        r@ == dsh_package_json_location(host@, style),
{
    let a: String = join_path(host, "node_modules", style);
    let b: String = join_path(a.as_str(), "@deepseek-ai", style);
    let c: String = join_path(b.as_str(), "dsh", style);
    join_path(c.as_str(), "package.json", style)
}

// ---------------------------------------------------------------------------
// Verbatim paths
// ---------------------------------------------------------------------------

/// The Windows verbatim prefix `\\?\`.
pub open spec fn verbatim_prefix() -> Seq<char> {
    seq!['\\', '\\', '?', '\\']
}

/// The `UNC\` marker that follows the verbatim prefix of a network path.
pub open spec fn unc_marker() -> Seq<char> {
    seq!['U', 'N', 'C', '\\']
}

/// `p` begins with `prefix`.
pub open spec fn starts_with(p: Seq<char>, prefix: Seq<char>) -> bool {
    prefix.len() <= p.len() && p.subrange(0, prefix.len() as int) == prefix
}

/// A path without its verbatim prefix: `\\?\D:\x` becomes `D:\x` and
/// `\\?\UNC\server\share` becomes `\\server\share`; any other path is
/// unchanged.
pub open spec fn unverbatim(p: Seq<char>) -> Seq<char> {
    if starts_with(p, verbatim_prefix()) {
        let rest = p.skip(4);
        if starts_with(rest, unc_marker()) {
            seq!['\\', '\\'] + rest.skip(4)
        } else {
            rest
        }
    } else {
        p
    }
}

/// Whether the characters of `v` from index `at` are `prefix`.
fn chars_start_with(v: &Vec<char>, at: usize, prefix: &Vec<char>) -> (r: bool)
    requires
        at <= v@.len(),
    ensures
        r == starts_with(v@.skip(at as int), prefix@),
{
    let n: usize = v.len();
    if prefix.len() > n - at {
        return false;
    }
    let mut k: usize = 0;
    while k < prefix.len()
        invariant
            k <= prefix.len(),
            at + prefix.len() <= v@.len(),
            n == v@.len(),
            forall|j: int| 0 <= j < k ==> v@[at + j] == prefix@[j],
        decreases prefix.len() - k,
    {
        if v[at + k] != prefix[k] {
            assert(v@.skip(at as int).subrange(0, prefix.len() as int)[k as int] != prefix@[k as int]);
            return false;
        }
        k += 1;
    }
    assert(v@.skip(at as int).subrange(0, prefix.len() as int) =~= prefix@);
    true
}

/// Strip the Windows verbatim `\\?\` prefix from a path.
///
/// `canonicalize`, Tauri's `resource_dir()` and `current_exe()` can return
/// `\\?\D:\...` paths on Windows, which the bundled `node.exe` cannot use as
/// a script path. Dropping the prefix yields a plain `D:\...` path
/// (`\\?\UNC\...` becomes `\\...`).
pub fn strip_verbatim(p: &str) -> (r: String)
    ensures
        r@ == unverbatim(p@),
{
    let v: Vec<char> = chars_of(p);
    let verbatim: Vec<char> = vec!['\\', '\\', '?', '\\'];
    assert(verbatim@ =~= verbatim_prefix());
    assert(v@.skip(0) =~= v@);
    if !chars_start_with(&v, 0, &verbatim) {
        return string_of_chars(&v, 0, v.len());
    }
    let unc: Vec<char> = vec!['U', 'N', 'C', '\\'];
    assert(unc@ =~= unc_marker());
    assert(v@.skip(4).skip(0) =~= v@.skip(4));
    if chars_start_with(&v, 4, &unc) {
        let mut r: String = String::new();
        string_push(&mut r, '\\');
        string_push(&mut r, '\\');
        let tail: String = string_of_chars(&v, 8, v.len());
        push_str(&mut r, tail.as_str());
        assert(v@.skip(4).skip(4) =~= v@.subrange(8, v@.len() as int));
        assert(r@ =~= seq!['\\', '\\'] + v@.skip(4).skip(4));
        r
    } else {
        let r: String = string_of_chars(&v, 4, v.len());
        assert(r@ =~= v@.skip(4));
        r
    }
}

// ---------------------------------------------------------------------------
// Locating the runtime-host
// ---------------------------------------------------------------------------

/// The base directories that may contain `runtime-host`, verbatim prefixes
/// stripped: the resource directory, its canonical form (only when a
/// resource directory is known), and the directory of the executable.
pub open spec fn candidate_base_list(
    resource_dir: Option<Seq<char>>,
    canonical_resource_dir: Option<Seq<char>>,
    exe_dir: Option<Seq<char>>,
) -> Seq<Seq<char>> {
    let from_resource: Seq<Seq<char>> = match resource_dir {
        Some(dir) => match canonical_resource_dir {
            Some(c) => seq![unverbatim(dir), unverbatim(c)],
            None => seq![unverbatim(dir)],
        },
        None => Seq::empty(),
    };
    match exe_dir {
        Some(e) => from_resource.push(unverbatim(e)),
        None => from_resource,
    }
}

/// Collect candidate base directories that may contain `runtime-host`.
///
/// `canonical_resource_dir` is the canonical form of `resource_dir` when it
/// could be computed; `exe_dir` the directory of the running executable.
pub fn candidate_bases(
    resource_dir: Option<String>,
    canonical_resource_dir: Option<String>,
    exe_dir: Option<String>,
) -> (r: Vec<String>)
    ensures
        r.deep_view() == candidate_base_list(
            resource_dir.deep_view(),
            canonical_resource_dir.deep_view(),
            exe_dir.deep_view(),
        ),
{
    let mut bases: Vec<String> = Vec::new();
    if let Some(dir) = &resource_dir {
        bases.push(strip_verbatim(dir.as_str()));
        if let Some(c) = &canonical_resource_dir {
            bases.push(strip_verbatim(c.as_str()));
        }
    }
    if let Some(e) = &exe_dir {
        bases.push(strip_verbatim(e.as_str()));
    }
    assert(bases.deep_view() =~= candidate_base_list(
        resource_dir.deep_view(),
        canonical_resource_dir.deep_view(),
        exe_dir.deep_view(),
    ));
    bases
}

/// `<base>/runtime-host`.
pub open spec fn runtime_host_location(base: Seq<char>, style: PathStyle) -> Seq<char> {
    path_join(base, "runtime-host"@, style)
}

/// `<dir>/package.json`, whose presence marks a runtime-host directory.
pub open spec fn package_json_location(dir: Seq<char>, style: PathStyle) -> Seq<char> {
    path_join(dir, "package.json"@, style)
}

/// The files to probe, one per base: `<base>/runtime-host/package.json`.
pub fn runtime_host_probes(bases: &Vec<String>, style: PathStyle) -> (r: Vec<String>)
    ensures
        r@.len() == bases@.len(),
        forall|i: int|
            0 <= i < bases@.len() ==> #[trigger] r@[i]@ == package_json_location(
                runtime_host_location(bases@[i]@, style),
                style,
            ),
{
    let mut r: Vec<String> = Vec::new();
    let mut i: usize = 0;
    while i < bases.len()
        invariant
            i <= bases@.len(),
            r@.len() == i,
            forall|j: int|
                0 <= j < i ==> #[trigger] r@[j]@ == package_json_location(
                    runtime_host_location(bases@[j]@, style),
                    style,
                ),
        decreases bases.len() - i,
    {
        let dir: String = join_path(bases[i].as_str(), "runtime-host", style);
        r.push(join_path(dir.as_str(), "package.json", style));
        i += 1;
    }
    r
}

/// The first item, from index `i` on, whose mark is set (a missing mark
/// counts as unset).
pub open spec fn first_marked_from<T>(items: Seq<T>, marks: Seq<bool>, i: nat) -> Option<T>
    decreases items.len() - i,
{
    if i >= items.len() {
        None
    } else if i < marks.len() && marks[i as int] {
        Some(items[i as int])
    } else {
        first_marked_from(items, marks, i + 1)
    }
}

/// The first item whose mark is set.
pub open spec fn first_marked<T>(items: Seq<T>, marks: Seq<bool>) -> Option<T> {
    first_marked_from(items, marks, 0)
}

/// The runtime-host directory chosen among the bases: the first
/// `<base>/runtime-host` whose `package.json` exists.
pub open spec fn chosen_runtime_host(
    bases: Seq<Seq<char>>,
    has_package_json: Seq<bool>,
    style: PathStyle,
) -> Option<Seq<char>> {
    first_marked(runtime_host_dirs(bases, style), has_package_json)
}

/// `<base>/runtime-host` for each base.
pub open spec fn runtime_host_dirs(bases: Seq<Seq<char>>, style: PathStyle) -> Seq<Seq<char>> {
    bases.map_values(|b: Seq<char>| runtime_host_location(b, style))
}

/// Locate the bundled `runtime-host` directory (single source of truth for
/// every consumer: launcher, updater, About dialog).
///
/// `has_package_json[i]` tells whether the `i`-th probe of
/// [`runtime_host_probes`] exists. Returns the first candidate
/// `<base>/runtime-host` whose `package.json` exists.
pub fn find_runtime_host(bases: &Vec<String>, has_package_json: &Vec<bool>, style: PathStyle) -> (r:
    Option<String>)
    ensures
        r.deep_view() == chosen_runtime_host(bases.deep_view(), has_package_json@, style),
{
    let ghost dirs = runtime_host_dirs(bases.deep_view(), style);
    let mut i: usize = 0;
    while i < bases.len()
        invariant
            i <= bases@.len(),
            dirs == runtime_host_dirs(bases.deep_view(), style),
            dirs.len() == bases@.len(),
            forall|j: int| 0 <= j < bases@.len() ==> #[trigger] dirs[j] == runtime_host_location(bases@[j]@, style),
            first_marked(dirs, has_package_json@) == first_marked_from(dirs, has_package_json@, i as nat),
        decreases bases.len() - i,
    {
        if i < has_package_json.len() && has_package_json[i] {
            let dir: String = join_path(bases[i].as_str(), "runtime-host", style);
            assert(dir@ == dirs[i as int]);
            assert(first_marked_from(dirs, has_package_json@, i as nat) == Some(dirs[i as int]));
            return Some(dir);
        }
        i += 1;
    }
    None
}

/// Which launch path is taken: the bundled offline CLI when a runtime-host
/// was found and both its Node binary and the CLI entry exist, `npx`
/// otherwise.
pub open spec fn uses_offline_cli(host_found: bool, node_exists: bool, cli_exists: bool) -> bool {
    host_found && node_exists && cli_exists
}

/// Which launch path will be taken: the bundled offline CLI (`"offline"`) or
/// the `npx` fallback (`"npx"`).
///
/// `node_exists` and `cli_exists` tell whether [`node_path`] and
/// [`dsh_cli_path`] of the runtime-host exist.
pub fn launch_mode(host: &Option<String>, node_exists: bool, cli_exists: bool) -> (r: &'static str)
    ensures
        r@ == (if uses_offline_cli(host is Some, node_exists, cli_exists) {
            "offline"@
        } else {
            "npx"@
        }),
{
    if host.is_some() && node_exists && cli_exists {
        "offline"
    } else {
        "npx"
    }
}

} // verus!
