//! The editor-integration configuration file: what it should say, and
//! whether an existing one already says it.
//!
//! Reading and writing the file itself is I/O and lives with the caller;
//! the expected content and the acceptance check are pure string work
//! and are verified here. Content is written with `\n` line endings;
//! callers on platforms that prefer `\r\n` may substitute them, and the
//! check accepts both.

use vstd::prelude::*;
use vstd::string::StringExecFns;

use crate::strutil::{normalize_crlf, spec_crlf_normalized, spec_split_char, spec_starts_with,
    spec_trim, split_char, str_starts_with, substr_eq, trim_str};

verus! {

/// The outcome of checking an existing configuration file.
#[derive(Debug)]
pub struct WakatimeConfigCheck {
    pub exists: bool,
    pub matches: bool,
    pub expected_content: String,
    pub actual_content: Option<String>,
    pub config_path: String,
}

/// The content an integration config should carry for `api_key` and
/// `api_url`.
pub open spec fn spec_expected_config(api_key: Seq<char>, api_url: Seq<char>) -> Seq<char> {
    "[settings]\napi_url = "@ + api_url + "\napi_key = "@ + api_key
        + "\nheartbeat_rate_limit_seconds = 30\n"@
}

/// Render the expected configuration content.
pub fn get_expected_config_content(api_key: &str, api_url: &str) -> (r: String)
    ensures
        r@ == spec_expected_config(api_key@, api_url@),
{
    let mut r = String::from_str("[settings]\napi_url = ");
    r.append(api_url);
    r.append("\napi_key = ");
    r.append(api_key);
    r.append("\nheartbeat_rate_limit_seconds = 30\n");
    r
}

/// A configuration line provides `expected` under the key named by
/// `key_prefix`: trimmed, it starts with the prefix, and what stands
/// between the first and second `=` equals `expected` once trimmed.
pub open spec fn spec_line_provides(
    line: Seq<char>,
    key_prefix: Seq<char>,
    expected: Seq<char>,
) -> bool {
    let t = spec_trim(line);
    let parts = spec_split_char(t, '=');
    &&& spec_starts_with(t, key_prefix)
    &&& parts.len() >= 2
    &&& spec_trim(parts[1]) == expected
}

/// The configuration text (line endings normalized, split at `\n`)
/// carries both the expected `api_url` and the expected `api_key`.
pub open spec fn spec_config_has_required(
    content: Seq<char>,
    api_key: Seq<char>,
    api_url: Seq<char>,
) -> bool {
    let lines = spec_split_char(spec_crlf_normalized(content), '\n');
    &&& exists|i: int|
        0 <= i < lines.len() && spec_line_provides(#[trigger] lines[i], "api_url"@, api_url)
    &&& exists|i: int|
        0 <= i < lines.len() && spec_line_provides(#[trigger] lines[i], "api_key"@, api_key)
}

/// Whether one line provides `expected` under `key_prefix`.
fn line_provides(line: &str, key_prefix: &str, expected: &str) -> (r: bool)
    ensures
        r == spec_line_provides(line@, key_prefix@, expected@),
{
    let t = trim_str(line);
    if !str_starts_with(t.as_str(), key_prefix) {
        return false;
    }
    let parts = split_char(t.as_str(), '=');
    proof {
        assert(parts@.map_values(|p: String| p@)[1] == spec_split_char(spec_trim(line@), '=')[1]);
    }
    if parts.len() < 2 {
        return false;
    }
    let value = trim_str(parts[1].as_str());
    substr_eq(value.as_str(), expected)
}

/// Decide whether `content` already carries the required `api_url` and
/// `api_key` values, on some line each.
pub fn check_config_has_required_values(content: &str, api_key: &str, api_url: &str) -> (r: bool)
    ensures
        r == spec_config_has_required(content@, api_key@, api_url@),
{
    let normalized = normalize_crlf(content);
    let lines = split_char(normalized.as_str(), '\n');
    let ghost line_views = spec_split_char(spec_crlf_normalized(content@), '\n');
    proof {
        assert(lines@.map_values(|p: String| p@) == line_views);
    }
    let mut found_api_url = false;
    let mut found_api_key = false;
    let mut i: usize = 0;
    while i < lines.len()
        invariant
            lines@.map_values(|p: String| p@) == line_views,
            i <= lines.len(),
            found_api_url == exists|j: int|
                0 <= j < i && spec_line_provides(#[trigger] line_views[j], "api_url"@, api_url@),
            found_api_key == exists|j: int|
                0 <= j < i && spec_line_provides(#[trigger] line_views[j], "api_key"@, api_key@),
        decreases lines.len() - i,
    {
        proof {
            assert(line_views[i as int] == lines@[i as int]@);
        }
        if line_provides(lines[i].as_str(), "api_url", api_url) {
            found_api_url = true;
        }
        if line_provides(lines[i].as_str(), "api_key", api_key) {
            found_api_key = true;
        }
        i = i + 1;
    }
    found_api_url && found_api_key
}

/// Assemble the check result from what the caller read on disk: the
/// file's presence, its content if readable, and where it lives.
pub fn check_wakatime_config_result(
    exists: bool,
    actual_content: Option<String>,
    api_key: &str,
    api_url: &str,
    config_path: String,
) -> (r: WakatimeConfigCheck)
    ensures
        r.exists == exists,
        r.expected_content@ == spec_expected_config(api_key@, api_url@),
        r.actual_content == actual_content,
        r.config_path == config_path,
        r.matches == match actual_content {
            Some(c) => spec_config_has_required(c@, api_key@, api_url@),
            None => false,
        },
{
    let expected_content = get_expected_config_content(api_key, api_url);
    let matches = match &actual_content {
        Some(c) => check_config_has_required_values(c.as_str(), api_key, api_url),
        None => false,
    };
    WakatimeConfigCheck { exists, matches, expected_content, actual_content, config_path }
}

} // verus!
