//! Sensitive value redaction for diagnostic exports.
//!
//! Redacts API keys, passwords, tokens, secrets, auth headers, credentials,
//! and access tokens from JSON settings data. The key name is preserved;
//! the value is replaced with `"[REDACTED]"`.

use vstd::prelude::*;

verus! {

/// Matches `"key_name": "sensitive_value"` (quoted value), case-insensitively.
pub const QUOTED_VALUE_PATTERN: &'static str = r#"(?i)"([^"]*(?:key|password|secret|token|auth|credential|api_key|apikey|access_token)[^"]*)"\s*:\s*"[^"]*""#;

/// Matches `"key_name": unquoted_value`, case-insensitively. The value is
/// an array with no array inside, an object with no object inside, or a
/// run of characters (a number, `true`, `false`, `null`) up to the next
/// whitespace, comma, bracket or brace. It never starts with a quote, so a
/// value that is already quoted (a redacted one too) is left alone, and the
/// whole value is replaced, so the structure around it is kept.
pub const BARE_VALUE_PATTERN: &'static str = r#"(?i)"([^"]*(?:key|password|secret|token|auth|credential|api_key|apikey|access_token)[^"]*)"\s*:\s*(?:\[[^\[\]]*\]|\{[^{}]*\}|[^"\s,{}\[\]]+)"#;

/// The redaction patterns, one per pass.
pub open spec fn is_redaction_pattern(pattern: Seq<char>) -> bool {
    pattern == QUOTED_VALUE_PATTERN@ || pattern == BARE_VALUE_PATTERN@
}

/// The replacement for a matched entry whose key is `key`.
pub open spec fn redacted_entry_text(key: Seq<char>) -> Seq<char> {
    seq!['"'] + key + "\": \"[REDACTED]\""@
}

/// The replacement for a matched entry: the key, quoted, with the redacted
/// placeholder as its value.
pub fn redacted_entry(key: &str) -> (r: String)
    ensures
        r@ == redacted_entry_text(key@),
{
    proof {
        reveal_strlit("\"");
    }
    let mut s = String::from_str("\"");
    s.append(key);
    s.append("\": \"[REDACTED]\"");
    s
}

/// What replacing, in `input`, every match of the regular expression
/// `pattern` by `redacted_entry` of its first capture group gives; `None`
/// when `pattern` is not a valid regular expression.
pub uninterp spec fn regex_redaction(pattern: Seq<char>, input: Seq<char>) -> Option<Seq<char>>;

/// Calls `regex::Regex::new` and `regex::Regex::replace_all`, replacing each
/// match by `redacted_entry` of its first capture group; the outcome is named
/// `regex_redaction` of the pattern and the input. Only the redaction
/// patterns are admitted: each has a first capture group, which every match
/// therefore fills.
#[verifier::external_body]
fn regex_replace_redacting(pattern: &str, input: &str) -> (r: Option<String>)
    requires
        is_redaction_pattern(pattern@),
    ensures
        r matches Some(s) ==> regex_redaction(pattern@, input@) == Some(s@),
        r is None ==> regex_redaction(pattern@, input@) is None,
{
    let re = regex::Regex::new(pattern).ok()?;
    Some(re.replace_all(input, |caps: &regex::Captures| redacted_entry(&caps[1])).to_string())
}

/// `input` after one redaction pass with `pattern` (unchanged if the pattern
/// does not compile).
pub open spec fn redact_pass(pattern: Seq<char>, input: Seq<char>) -> Seq<char> {
    match regex_redaction(pattern, input) {
        Some(s) => s,
        None => input,
    }
}

/// Redact sensitive values in a JSON string: first every quoted value, then
/// every bare value, of a key that names a secret.
pub fn redact_settings(settings_json: &str) -> (r: String)
    ensures
        r@ == redact_pass(BARE_VALUE_PATTERN@, redact_pass(QUOTED_VALUE_PATTERN@, settings_json@)),
{
    let first = match regex_replace_redacting(QUOTED_VALUE_PATTERN, settings_json) {
        Some(s) => s,
        None => String::from_str(settings_json),
    };
    match regex_replace_redacting(BARE_VALUE_PATTERN, first.as_str()) {
        Some(s) => s,
        None => first,
    }
}

} // verus!
