//! The decisions behind the IPC commands that the injected title-bar UI
//! calls: window controls, the update check, the brand icon and the About
//! dialog.

use vstd::prelude::*;

use crate::encoding::{base64_encode, encode_base64};
use crate::text::{push_str, str_equal};
use crate::update::UpdateInfo;

verus! {

/// A custom title-bar window control.
#[derive(Clone, Copy, Debug, PartialEq, Eq, Structural)]
pub enum WindowAction {
    Minimize,
    ToggleMaximize,
    QueryMaximized,
    Close,
}

/// The control named `action`: `minimize`, `toggle_maximize`,
/// `query_maximized` or `close`.
pub open spec fn window_action_named(action: Seq<char>) -> Option<WindowAction> {
    if action == "minimize"@ {
        Some(WindowAction::Minimize)
    } else if action == "toggle_maximize"@ {
        Some(WindowAction::ToggleMaximize)
    } else if action == "query_maximized"@ {
        Some(WindowAction::QueryMaximized)
    } else if action == "close"@ {
        Some(WindowAction::Close)
    } else {
        None
    }
}

/// Which window control the UI asked for; `unknown action: <action>` for
/// any other name.
pub fn window_action(action: &str) -> (r: Result<WindowAction, String>)
    ensures
        window_action_named(action@) matches Some(a) ==> r == Ok::<WindowAction, String>(a),
        window_action_named(action@) is None ==> (r matches Err(e) && e@ == "unknown action: "@
            + action@),
{
    if str_equal(action, "minimize") {
        Ok(WindowAction::Minimize)
    } else if str_equal(action, "toggle_maximize") {
        Ok(WindowAction::ToggleMaximize)
    } else if str_equal(action, "query_maximized") {
        Ok(WindowAction::QueryMaximized)
    } else if str_equal(action, "close") {
        Ok(WindowAction::Close)
    } else {
        let mut e: String = String::from_str("unknown action: ");
        push_str(&mut e, action);
        Err(e)
    }
}

/// What a window control answers once performed: the maximized state after
/// it for `toggle_maximize` and `query_maximized` (so the maximize glyph
/// stays in sync), nothing for the others.
pub fn window_action_reply(action: WindowAction, maximized: bool) -> (r: Option<bool>)
    ensures
        r == (match action {
            WindowAction::ToggleMaximize | WindowAction::QueryMaximized => Some(maximized),
            WindowAction::Minimize | WindowAction::Close => None::<bool>,
        }),
{
    match action {
        WindowAction::ToggleMaximize | WindowAction::QueryMaximized => Some(maximized),
        WindowAction::Minimize | WindowAction::Close => None,
    }
}

/// The answer to the UI's update check.
pub struct UpdateCheckResult {
    pub current: Option<String>,
    pub latest: String,
    pub outdated: bool,
    pub message: String,
}

/// The summary line of an update check: `v<current> → v<latest>` (with `?`
/// for an unknown current version) when outdated, "already the latest
/// v<latest>" otherwise.
pub open spec fn update_message(current: Option<Seq<char>>, latest: Seq<char>, outdated: bool) -> Seq<
    char,
> {
    if outdated {
        "v"@ + (match current {
            Some(c) => c,
            None => "?"@,
        }) + " → v"@ + latest
    } else {
        "已是最新 v"@ + latest
    }
}

/// Check the latest published `@deepseek-ai/dsh` version against the local
/// one: the outcome of `check_update`, with its summary line.
pub fn check_dsh_update(info: Result<UpdateInfo, String>) -> (r: Result<UpdateCheckResult, String>)
    ensures
        info matches Err(e) ==> (r matches Err(f) && f@ == e@),
        info matches Ok(i) ==> (r matches Ok(u) && {
            &&& u.current.deep_view() == i.current.deep_view()
            &&& u.latest@ == i.latest@
            &&& u.outdated == i.outdated
            &&& u.message@ == update_message(i.current.deep_view(), i.latest@, i.outdated)
        }),
{
    match info {
        Err(e) => Err(e),
        Ok(i) => {
            let mut message: String;
            if i.outdated {
                message = String::from_str("v");
                match &i.current {
                    Some(c) => push_str(&mut message, c.as_str()),
                    None => push_str(&mut message, "?"),
                }
                push_str(&mut message, " → v");
                push_str(&mut message, i.latest.as_str());
            } else {
                message = String::from_str("已是最新 v");
                push_str(&mut message, i.latest.as_str());
            }
            Ok(UpdateCheckResult {
                current: i.current,
                latest: i.latest,
                outdated: i.outdated,
                message,
            })
        },
    }
}

/// `data:image/png;base64,`.
pub open spec fn png_data_url_prefix() -> Seq<char> {
    "data:image/png;base64,"@
}

/// The DeepSeek whale brand icon (`png`, the bytes of the PNG file) as a
/// `data:image/png;base64,...` URL for the title-bar script to render.
pub fn get_whale_icon_url(png: &[u8]) -> (r: Result<String, String>)
    requires
        (png@.len() + 2) / 3 * 4 <= usize::MAX,
    ensures
        r matches Ok(url) && url@ == png_data_url_prefix() + base64_encode(png@),
{
    let b64: String = encode_base64(png);
    let mut url: String = String::from_str("data:image/png;base64,");
    push_str(&mut url, b64.as_str());
    Ok(url)
}

/// Information shown in the About dialog: the launcher's own version and
/// the version of the bundled `@deepseek-ai/dsh` CLI (`None` when the
/// offline package is absent).
pub struct AboutInfo {
    pub launcher_version: String,
    pub dsh_version: Option<String>,
}

/// The About dialog's information.
pub fn get_about_info(launcher_version: String, dsh_version: Option<String>) -> (r: Result<
    AboutInfo,
    String,
>)
    ensures
        r matches Ok(a) && a.launcher_version == launcher_version && a.dsh_version == dsh_version,
{
    Ok(AboutInfo { launcher_version, dsh_version })
}

} // verus!
