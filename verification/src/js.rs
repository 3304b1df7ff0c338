//! The scripts injected into the webview that take runtime data.

use vstd::prelude::*;

use crate::json::{encode_json_string, json_string_literal};
use crate::text::{replace_all, replace_str};

verus! {

/// The placeholder in the loading-error page template.
pub open spec fn reason_placeholder() -> Seq<char> {
    "__REASON__"@
}

/// The loading-error script: every placeholder of the template replaced by
/// the JSON string literal of the reason.
pub open spec fn loading_error_script(template: Seq<char>, reason: Seq<char>) -> Seq<char> {
    replace_all(template, reason_placeholder(), json_string_literal(reason))
}

/// Loading-error page with a runtime-supplied reason.
///
/// The reason is JSON-encoded (via serde_json) so quotes, backslashes and
/// newlines cannot break out of the string literal in the template.
pub fn loading_error_js(template: &str, reason: &str) -> (r: String)
    ensures
        r@ == loading_error_script(template@, reason@),
{
    let encoded: String = match encode_json_string(reason) {
        Ok(e) => e,
        Err(_) => String::from_str("\"\""),
    };
    proof {
        reveal_strlit("__REASON__");
    }
    replace_str(template, "__REASON__", encoded.as_str())
}

} // verus!
