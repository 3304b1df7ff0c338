use deepseek_harness_launcher::commands::{
    check_dsh_update, get_about_info, get_whale_icon_url, window_action, window_action_reply,
    WindowAction,
};
use deepseek_harness_launcher::js::loading_error_js;
use deepseek_harness_launcher::launch::{stream_unavailable, LaunchWatch, OutputStream};
use deepseek_harness_launcher::paths::{
    candidate_bases, dsh_cli_path, dsh_package_json_path, find_runtime_host, join_path,
    launch_mode, node_bin_name, node_path, runtime_host_probes, PathStyle,
};
use deepseek_harness_launcher::process::{
    command_output, kill_command, spawn_dsh_web, spawn_error, start_failed, timeout_error,
    wait_failed, AfterKill,
};
use deepseek_harness_launcher::state::{
    install_server, navigation_target, start_titlebar_injection, stop_server,
    stop_titlebar_injection, AppState,
};
use deepseek_harness_launcher::update::{
    check_update, current_dsh_version, current_version, find_npm_cli, install_latest,
    latest_version, npm_cli_candidates, npm_command, npm_install_args, npm_view_args,
    require_runtime_host, UpdateInfo,
};
use deepseek_harness_launcher::update_flow::{
    update_dsh_step, UpdateEvent, UpdateFlow, UpdateStage, UpdateStep,
};

fn strings(items: &[&str]) -> Vec<String> {
    items.iter().map(|s| s.to_string()).collect()
}

// ---------------------------------------------------------------- paths

#[test]
fn join_path_inserts_platform_separator() {
    assert_eq!(join_path("/opt/app", "runtime-host", PathStyle::Posix), "/opt/app/runtime-host");
    assert_eq!(join_path("/opt/app/", "x", PathStyle::Posix), "/opt/app/x");
    assert_eq!(join_path(r"C:\app", "x", PathStyle::Windows), r"C:\app\x");
    assert_eq!(join_path(r"C:\app\", "x", PathStyle::Windows), r"C:\app\x");
    assert_eq!(join_path("C:/app/", "x", PathStyle::Windows), "C:/app/x");
    assert_eq!(join_path(r"a\", "x", PathStyle::Posix), r"a\/x");
    assert_eq!(join_path("", "x", PathStyle::Posix), "x");
}

#[test]
fn join_path_follows_windows_prefix_rules() {
    assert_eq!(join_path("C:", "x", PathStyle::Windows), "C:x");
    assert_eq!(join_path(r"\\?\C:", "x", PathStyle::Windows), r"\\?\C:\x");
    assert_eq!(join_path(r"\\?\C:\a\\", "x", PathStyle::Windows), r"\\?\C:\a\x");
    assert_eq!(join_path(r"\\?\C:\\a\\b", "x", PathStyle::Windows), r"\\?\C:\a\b\x");
    assert_eq!(
        join_path(r"\\?\UNC\srv\share\a", "x", PathStyle::Windows),
        r"\\?\UNC\srv\share\a\x"
    );
    assert_eq!(join_path(r"\\?\UNC\srv", "x", PathStyle::Windows), r"\\?\UNC\srv\x");
    assert_eq!(join_path("C:", "x", PathStyle::Posix), "C:/x");
    assert_eq!(join_path("1:", "x", PathStyle::Windows), r"1:\x");
    assert_eq!(join_path(r"\\?\C:\a/", "x", PathStyle::Windows), r"\\?\C:\a/\x");
    assert_eq!(join_path(r"\\?\C:\a\", "x", PathStyle::Windows), r"\\?\C:\a\x");
    assert_eq!(join_path(r"\\server\share", "x", PathStyle::Windows), r"\\server\share\x");
}

#[test]
fn node_binary_name_per_platform() {
    assert_eq!(node_bin_name(PathStyle::Windows), "node.exe");
    assert_eq!(node_bin_name(PathStyle::Posix), "node");
    assert_eq!(node_path("/rh", PathStyle::Posix), "/rh/node");
    assert_eq!(node_path(r"D:\rh", PathStyle::Windows), r"D:\rh\node.exe");
}

#[test]
fn dsh_cli_and_manifest_paths() {
    assert_eq!(
        dsh_cli_path("/rh", PathStyle::Posix),
        "/rh/node_modules/@deepseek-ai/dsh/lib/bin.js"
    );
    assert_eq!(
        dsh_cli_path(r"D:\rh", PathStyle::Windows),
        r"D:\rh\node_modules\@deepseek-ai\dsh\lib\bin.js"
    );
    assert_eq!(
        dsh_package_json_path("/rh", PathStyle::Posix),
        "/rh/node_modules/@deepseek-ai/dsh/package.json"
    );
}

#[test]
fn candidate_bases_order_and_stripping() {
    let bases = candidate_bases(
        Some(r"\\?\D:\app\res".to_string()),
        Some(r"\\?\D:\real\res".to_string()),
        Some(r"D:\app".to_string()),
    );
    assert_eq!(bases, strings(&[r"D:\app\res", r"D:\real\res", r"D:\app"]));
    let no_resource = candidate_bases(None, Some("/ignored".to_string()), Some("/bin".to_string()));
    assert_eq!(no_resource, strings(&["/bin"]));
    assert!(candidate_bases(None, None, None).is_empty());
}

#[test]
fn runtime_host_is_first_base_with_package_json() {
    let bases = strings(&["/a", "/b", "/c"]);
    assert_eq!(
        runtime_host_probes(&bases, PathStyle::Posix),
        strings(&[
            "/a/runtime-host/package.json",
            "/b/runtime-host/package.json",
            "/c/runtime-host/package.json"
        ])
    );
    assert_eq!(
        find_runtime_host(&bases, &vec![false, true, true], PathStyle::Posix),
        Some("/b/runtime-host".to_string())
    );
    assert_eq!(find_runtime_host(&bases, &vec![false, false, false], PathStyle::Posix), None);
    assert_eq!(find_runtime_host(&bases, &vec![false], PathStyle::Posix), None);
}

#[test]
fn launch_mode_needs_host_node_and_cli() {
    let host = Some("/rh".to_string());
    assert_eq!(launch_mode(&host, true, true), "offline");
    assert_eq!(launch_mode(&host, false, true), "npx");
    assert_eq!(launch_mode(&host, true, false), "npx");
    assert_eq!(launch_mode(&None, true, true), "npx");
}

// ---------------------------------------------------------------- process

#[test]
fn spawn_plan_offline_uses_bundled_node() {
    let plan = spawn_dsh_web(&Some("/rh".to_string()), true, true, PathStyle::Posix);
    assert!(plan.offline);
    assert_eq!(plan.command.program, "/rh/node");
    assert_eq!(
        plan.command.args,
        strings(&[
            "/rh/node_modules/@deepseek-ai/dsh/lib/bin.js",
            "web",
            "--host",
            "127.0.0.1",
            "--port",
            "0"
        ])
    );
    assert_eq!(
        spawn_error(&plan, "denied"),
        "启动内置 node（/rh/node）失败: denied"
    );
}

#[test]
fn spawn_plan_falls_back_to_npx() {
    let plan = spawn_dsh_web(&Some("/rh".to_string()), true, false, PathStyle::Posix);
    assert!(!plan.offline);
    assert_eq!(plan.command.program, "npx");
    assert_eq!(
        plan.command.args,
        strings(&["-y", "@deepseek-ai/dsh", "web", "--host", "127.0.0.1", "--port", "0"])
    );
    let win = spawn_dsh_web(&None, true, true, PathStyle::Windows);
    assert_eq!(win.command.program, "cmd");
    assert_eq!(
        win.command.args,
        strings(&["/C", "npx", "-y", "@deepseek-ai/dsh", "web", "--host", "127.0.0.1", "--port", "0"])
    );
    assert_eq!(spawn_error(&win, "nope"), "通过 npx 启动 dsh web 失败: nope");
}

#[test]
fn kill_commands_per_platform() {
    let w = kill_command(4242, PathStyle::Windows);
    assert_eq!(w.program, "taskkill");
    assert_eq!(w.args, strings(&["/PID", "4242", "/T", "/F"]));
    let p = kill_command(0, PathStyle::Posix);
    assert_eq!(p.program, "kill");
    assert_eq!(p.args, strings(&["-9", "0"]));
}

#[test]
fn command_output_is_trimmed() {
    let out = command_output(true, "\u{3000} 1.2.3\n", "\twarn \u{a0}");
    assert!(out.success);
    assert_eq!(out.stdout, "1.2.3");
    assert_eq!(out.stderr, "warn");
}

#[test]
fn timeout_and_failure_messages() {
    assert_eq!(
        timeout_error("node", 30, AfterKill::Silent),
        "node 执行超时（30s）"
    );
    assert_eq!(
        timeout_error("node", 300, AfterKill::Exited("  boom \n".to_string())),
        "node 执行超时（300s）: boom"
    );
    assert_eq!(
        timeout_error("node", 30, AfterKill::Exited("   ".to_string())),
        "node 执行超时（30s）"
    );
    assert_eq!(
        timeout_error("node", 5, AfterKill::WaitFailed("io".to_string())),
        "node 执行超时（5s）: 等待 node 失败: io"
    );
    assert_eq!(start_failed("npx", "not found"), "启动 npx 失败: not found");
    assert_eq!(wait_failed("npx", "x"), "等待 npx 失败: x");
}

// ---------------------------------------------------------------- update

#[test]
fn current_version_reads_manifest() {
    assert_eq!(
        current_version(Some(r#"{"name":"@deepseek-ai/dsh","version":"1.4.2"}"#.to_string())),
        Some("1.4.2".to_string())
    );
    assert_eq!(current_version(Some(r#"{"version":7}"#.to_string())), None);
    assert_eq!(current_version(Some("not json".to_string())), None);
    assert_eq!(current_version(None), None);
    assert_eq!(
        current_dsh_version(&Some("/rh".to_string()), Some(r#"{"version":"0.9.0"}"#.to_string())),
        Some("0.9.0".to_string())
    );
    assert_eq!(current_dsh_version(&None, Some(r#"{"version":"0.9.0"}"#.to_string())), None);
}

#[test]
fn latest_version_outcomes() {
    let ok = command_output(true, "2.0.1\nnotice", "");
    assert_eq!(latest_version(Ok(ok)), Ok("2.0.1".to_string()));
    let crlf = command_output(true, "2.0.2\r\nmore", "");
    assert_eq!(latest_version(Ok(crlf)), Ok("2.0.2".to_string()));
    let empty = command_output(true, "   ", "");
    assert_eq!(latest_version(Ok(empty)), Err("查询最新版本未返回版本号".to_string()));
    let failed = command_output(false, "out", "E404");
    assert_eq!(latest_version(Ok(failed)), Err("查询最新版本失败: E404".to_string()));
    let failed_quiet = command_output(false, "only stdout", "");
    assert_eq!(
        latest_version(Ok(failed_quiet)),
        Err("查询最新版本失败: only stdout".to_string())
    );
    assert_eq!(
        latest_version(Err("spawn".to_string())),
        Err("npm view 失败: spawn".to_string())
    );
}

#[test]
fn install_latest_outcomes() {
    assert_eq!(install_latest(Ok(command_output(true, "", ""))), Ok(()));
    assert_eq!(
        install_latest(Ok(command_output(false, "", "EBUSY"))),
        Err("更新安装失败: EBUSY".to_string())
    );
    assert_eq!(
        install_latest(Err("x".to_string())),
        Err("npm install 失败: x".to_string())
    );
}

#[test]
fn check_update_compares_versions() {
    let same = check_update(Some("1.0.0".to_string()), Ok("1.0.0".to_string())).unwrap();
    assert!(!same.outdated);
    let newer = check_update(Some("1.0.0".to_string()), Ok("1.1.0".to_string())).unwrap();
    assert!(newer.outdated);
    assert_eq!(newer.latest, "1.1.0");
    let unknown = check_update(None, Ok("1.1.0".to_string())).unwrap();
    assert!(unknown.outdated);
    assert!(check_update(None, Err("e".to_string())).is_err());
    assert_eq!(
        require_runtime_host(None),
        Err("未找到 runtime-host 目录".to_string())
    );
    assert_eq!(require_runtime_host(Some("/rh".to_string())), Ok("/rh".to_string()));
}

#[test]
fn npm_is_located_and_invoked_through_bundled_node() {
    assert_eq!(
        npm_cli_candidates("/rh", PathStyle::Posix),
        strings(&[
            "/rh/tools/npm/node_modules/npm/bin/npm-cli.js",
            "/rh/node_modules/npm/bin/npm-cli.js"
        ])
    );
    assert_eq!(
        find_npm_cli("/rh", &vec![false, true], PathStyle::Posix),
        Some("/rh/node_modules/npm/bin/npm-cli.js".to_string())
    );
    assert_eq!(find_npm_cli("/rh", &vec![], PathStyle::Posix), None);
    let cmd = npm_command(
        "/rh",
        Some("/rh/tools/npm/node_modules/npm/bin/npm-cli.js".to_string()),
        &npm_view_args(),
        PathStyle::Posix,
    )
    .unwrap();
    assert_eq!(cmd.program, "/rh/node");
    assert_eq!(
        cmd.args,
        strings(&[
            "/rh/tools/npm/node_modules/npm/bin/npm-cli.js",
            "view",
            "@deepseek-ai/dsh",
            "version",
            "--silent"
        ])
    );
    assert_eq!(
        npm_install_args(),
        strings(&[
            "install",
            "@deepseek-ai/dsh@latest",
            "--save-exact",
            "--no-audit",
            "--no-fund",
            "--loglevel=error"
        ])
    );
    let missing = npm_command("/rh", None, &npm_view_args(), PathStyle::Posix);
    assert!(missing.unwrap_err().starts_with("runtime-host 内未找到自带的 npm"));
}

// ---------------------------------------------------------------- launch

#[test]
fn launch_watch_keeps_last_five_lines() {
    let mut w = LaunchWatch::new();
    assert_eq!(w.exit_error(), "dsh web 进程在报告就绪地址之前退出");
    for i in 0..7 {
        assert_eq!(w.feed(format!("line {i}")), None);
    }
    assert_eq!(
        w.exit_error(),
        "dsh web 进程在报告就绪地址之前退出。输出末尾：line 2 ⏎ line 3 ⏎ line 4 ⏎ line 5 ⏎ line 6"
    );
    assert_eq!(
        w.feed("ready at http://localhost:7001".to_string()),
        Some("http://127.0.0.1:7001".to_string())
    );
    assert_eq!(stream_unavailable(OutputStream::Stdout), "无法读取子进程 stdout");
    assert_eq!(stream_unavailable(OutputStream::Stderr), "无法读取子进程 stderr");
}

#[test]
fn launch_watch_single_line_tail() {
    let mut w = LaunchWatch::new();
    assert_eq!(w.feed("Error: boom".to_string()), None);
    assert_eq!(
        w.exit_error(),
        "dsh web 进程在报告就绪地址之前退出。输出末尾：Error: boom"
    );
}

// ---------------------------------------------------------------- state

#[test]
fn server_lifecycle_never_accumulates() {
    let mut st: AppState<u32, u8> = AppState::new();
    assert_eq!(stop_server(&mut st), None);
    assert_eq!(install_server(&mut st, 1), None);
    assert_eq!(install_server(&mut st, 2), Some(1));
    assert_eq!(st.server, Some(2));
    assert_eq!(stop_server(&mut st), Some(2));
    assert_eq!(stop_server(&mut st), None);
}

#[test]
fn injection_flag_handover() {
    let mut st: AppState<u32, u8> = AppState::new();
    assert_eq!(start_titlebar_injection(&mut st, 10), None);
    assert_eq!(start_titlebar_injection(&mut st, 11), Some(10));
    assert_eq!(stop_titlebar_injection(&mut st), Some(11));
    assert_eq!(stop_titlebar_injection(&mut st), None);
}

#[test]
fn navigation_target_parses_or_explains() {
    let url = navigation_target("http://127.0.0.1:5173").unwrap();
    assert_eq!(url.as_str(), "http://127.0.0.1:5173/");
    assert_eq!(
        navigation_target("not a url").unwrap_err(),
        "无效地址 not a url: relative URL without a base"
    );
}

// ---------------------------------------------------------------- commands

#[test]
fn window_actions_by_name() {
    assert_eq!(window_action("minimize"), Ok(WindowAction::Minimize));
    assert_eq!(window_action("toggle_maximize"), Ok(WindowAction::ToggleMaximize));
    assert_eq!(window_action("query_maximized"), Ok(WindowAction::QueryMaximized));
    assert_eq!(window_action("close"), Ok(WindowAction::Close));
    assert_eq!(window_action("explode"), Err("unknown action: explode".to_string()));
    assert_eq!(window_action_reply(WindowAction::ToggleMaximize, true), Some(true));
    assert_eq!(window_action_reply(WindowAction::QueryMaximized, false), Some(false));
    assert_eq!(window_action_reply(WindowAction::Minimize, true), None);
    assert_eq!(window_action_reply(WindowAction::Close, false), None);
}

#[test]
fn update_check_messages() {
    let info = UpdateInfo { current: Some("1.0.0".to_string()), latest: "1.2.0".to_string(), outdated: true };
    let r = check_dsh_update(Ok(info)).unwrap();
    assert_eq!(r.message, "v1.0.0 → v1.2.0");
    let unknown = UpdateInfo { current: None, latest: "1.2.0".to_string(), outdated: true };
    assert_eq!(check_dsh_update(Ok(unknown)).unwrap().message, "v? → v1.2.0");
    let fresh = UpdateInfo { current: Some("1.2.0".to_string()), latest: "1.2.0".to_string(), outdated: false };
    let f = check_dsh_update(Ok(fresh)).unwrap();
    assert_eq!(f.message, "已是最新 v1.2.0");
    assert!(!f.outdated);
    assert_eq!(check_dsh_update(Err("e".to_string())).err(), Some("e".to_string()));
}

#[test]
fn whale_icon_is_a_base64_data_url() {
    assert_eq!(get_whale_icon_url(b"Man").unwrap(), "data:image/png;base64,TWFu");
    assert_eq!(get_whale_icon_url(&[0xff]).unwrap(), "data:image/png;base64,/w==");
    assert_eq!(get_whale_icon_url(&[0x89, b'P']).unwrap(), "data:image/png;base64,iVA=");
    assert_eq!(get_whale_icon_url(&[]).unwrap(), "data:image/png;base64,");
}

#[test]
fn about_info_carries_versions() {
    let a = get_about_info("0.1.0".to_string(), Some("1.0.0".to_string())).unwrap();
    assert_eq!(a.launcher_version, "0.1.0");
    assert_eq!(a.dsh_version, Some("1.0.0".to_string()));
}

// ---------------------------------------------------------------- js

#[test]
fn loading_error_reason_is_json_encoded() {
    let js = loading_error_js("show(__REASON__); log(__REASON__);", "a \"b\"\\\nc\u{1}");
    assert_eq!(
        js,
        "show(\"a \\\"b\\\"\\\\\\nc\\u0001\"); log(\"a \\\"b\\\"\\\\\\nc\\u0001\");"
    );
    assert_eq!(loading_error_js("no placeholder", "x"), "no placeholder");
    assert_eq!(loading_error_js("__REASON__", "中文"), "\"中文\"");
}

// ---------------------------------------------------------------- update flow

fn finish(steps: &[UpdateStep]) -> Option<Result<String, String>> {
    match steps.last() {
        Some(UpdateStep::Finish(r)) => Some(r.clone()),
        _ => None,
    }
}

#[test]
fn update_flow_up_to_date() {
    let mut flow = UpdateFlow::new();
    let info = UpdateInfo { current: Some("1.0.0".to_string()), latest: "1.0.0".to_string(), outdated: false };
    let steps = update_dsh_step(&mut flow, UpdateEvent::Checked(Ok(info)));
    assert_eq!(steps.len(), 1);
    assert_eq!(finish(&steps), Some(Ok("已是最新 v1.0.0".to_string())));
    assert!(matches!(flow.stage, UpdateStage::Finished));
}

#[test]
fn update_flow_successful_install() {
    let mut flow = UpdateFlow::new();
    let info = UpdateInfo { current: None, latest: "2.0.0".to_string(), outdated: true };
    let steps = update_dsh_step(&mut flow, UpdateEvent::Checked(Ok(info)));
    assert_eq!(steps.len(), 4);
    assert!(matches!(&steps[0], UpdateStep::Emit(p) if p.phase == "stopping" && p.percent == 15));
    assert!(matches!(steps[1], UpdateStep::StopServer));
    assert!(matches!(&steps[2], UpdateStep::Emit(p) if p.message == "正在下载并安装 v2.0.0 …"));
    assert!(matches!(steps[3], UpdateStep::InstallUpdate));
    let steps = update_dsh_step(&mut flow, UpdateEvent::Installed(Ok(())));
    assert!(matches!(&steps[0], UpdateStep::Emit(p) if p.phase == "done" && p.percent == 100));
    assert_eq!(finish(&steps), Some(Ok("v? → v2.0.0 更新完成".to_string())));
    assert!(update_dsh_step(&mut flow, UpdateEvent::Installed(Ok(()))).is_empty());
}

#[test]
fn update_flow_failed_install_restores_service() {
    let mut flow = UpdateFlow::new();
    let info = UpdateInfo { current: Some("1.0.0".to_string()), latest: "2.0.0".to_string(), outdated: true };
    update_dsh_step(&mut flow, UpdateEvent::Checked(Ok(info)));
    let steps = update_dsh_step(&mut flow, UpdateEvent::Installed(Err("EBUSY".to_string())));
    assert_eq!(steps.len(), 2);
    assert!(matches!(steps[1], UpdateStep::RestartService));
    let steps = update_dsh_step(&mut flow, UpdateEvent::Restarted(Err("port".to_string())));
    assert!(matches!(&steps[0], UpdateStep::Emit(p) if p.message == "更新失败：EBUSY；服务恢复也失败：port"));
    assert_eq!(finish(&steps), Some(Err("EBUSY".to_string())));

    let mut again = UpdateFlow::new();
    let info = UpdateInfo { current: Some("1.0.0".to_string()), latest: "2.0.0".to_string(), outdated: true };
    update_dsh_step(&mut again, UpdateEvent::Checked(Ok(info)));
    update_dsh_step(&mut again, UpdateEvent::Installed(Err("E".to_string())));
    let steps = update_dsh_step(&mut again, UpdateEvent::Restarted(Ok(())));
    assert!(matches!(&steps[0], UpdateStep::Emit(p) if p.message == "更新失败：E。已恢复原服务。"));
    assert_eq!(finish(&steps), Some(Err("E".to_string())));
}

#[test]
fn update_flow_check_error_is_reported() {
    let mut flow = UpdateFlow::new();
    let steps = update_dsh_step(&mut flow, UpdateEvent::Checked(Err("offline".to_string())));
    assert_eq!(finish(&steps), Some(Err("offline".to_string())));
}

#[test]
fn loading_error_reason_round_trips_through_json() {
    let reason = "quote \" backslash \\ newline \n tab \t bell \u{7} 中文 </script>";
    let js = loading_error_js("__REASON__", reason);
    let decoded: String = serde_json::from_str(&js).unwrap();
    assert_eq!(decoded, reason);
}

#[test]
fn launch_mode_agrees_with_spawn_plan() {
    for host in [Some("/rh".to_string()), None] {
        for node in [false, true] {
            for cli in [false, true] {
                let mode = launch_mode(&host, node, cli);
                let plan = spawn_dsh_web(&host, node, cli, PathStyle::Posix);
                assert_eq!(mode == "offline", plan.offline);
                if plan.offline {
                    assert_eq!(plan.command.program, "/rh/node");
                } else {
                    assert_eq!(plan.command.program, "npx");
                }
            }
        }
    }
}
