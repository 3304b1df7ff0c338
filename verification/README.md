# deepseek_harness_launcher

The verified core of the DeepSeek Harness desktop launcher, a Tauri shell
that starts `dsh web` on a loopback port, waits for its readiness line and
shows it in a webview, and can update the bundled `@deepseek-ai/dsh` CLI.

* `src/` — the library, verified with Verus: readiness-line parsing
  (`readiness`), runtime-host paths and launch mode (`paths`), command plans
  and their messages (`process`), the updater (`update`, `update_flow`), the
  readiness wait (`launch`), the service state (`state`), the IPC command
  decisions (`commands`) and the injected error script (`js`), on top of
  string helpers (`text`) and the JSON and base64 calls (`json`,
  `encoding`).
* `tests/` — tests of the library.
* `app/` — the Tauri program: windows, tray, processes, files and threads,
  driving the library. It embeds the scripts of `js/` and the icons of
  `icons/`.
