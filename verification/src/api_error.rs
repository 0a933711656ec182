//! What the user is told when the model API answers with an error.

use vstd::prelude::*;
use crate::settings::{auth_error_message, is_auth_error_message, is_rate_limit_message, rate_limit_message, DEFAULT_MODEL};
use crate::text::{
    blen, blen_exceeds, byte_prefix_then, chars_before, chars_of, concat3, contains,
    is_boundary, lowercase, owned, push_char, to_lowercase, vec_contains_str, vec_eq_str,
};

verus! {

broadcast use vstd::string::group_string_axioms;

/// `msg` cut to `max` bytes with an ellipsis, when it is longer.
pub open spec fn shortened(msg: Seq<char>, max: nat) -> Seq<char> {
    if blen(msg) <= max {
        msg
    } else {
        msg.take(chars_before(msg, max as int)) + "…"@
    }
}

/// A message longer than `max` bytes is cut at byte `max`; that byte must be
/// a character boundary.
pub open spec fn shorten_defined(msg: Seq<char>, max: nat) -> bool {
    blen(msg) > max ==> is_boundary(msg, max as int)
}

/// `msg`, cut to `max` bytes and marked with an ellipsis when longer.
pub fn truncate_message(msg: &str, max: usize) -> (r: String)
    requires
        max <= usize::MAX - 4,
        shorten_defined(msg@, max as nat),
    ensures
        r@ == shortened(msg@, max as nat),
{
    let v = chars_of(msg);
    if !blen_exceeds(&v, max) {
        owned(msg)
    } else {
        byte_prefix_then(msg, max, "…")
    }
}

/// The text shown for a refused token.
pub open spec fn token_reply() -> Seq<char> {
    "Invalid or missing API token. Use /token to set one."@
}

/// The text shown for an exhausted rate limit.
pub open spec fn rate_reply() -> Seq<char> {
    "API rate limit reached. Try again shortly."@
}

/// The classification of an error answer from its HTTP status and raw body.
pub open spec fn raw_api_error(status: u16, body: Seq<char>) -> Seq<char> {
    if status == 401 || status == 403 {
        token_reply()
    } else if status == 429 {
        rate_reply()
    } else if auth_error_message(body) {
        token_reply()
    } else if rate_limit_message(body) {
        rate_reply()
    } else {
        shortened(body, 200)
    }
}

/// When `raw_api_error` is defined (its cut falls on a boundary).
pub open spec fn raw_api_error_defined(status: u16, body: Seq<char>) -> bool {
    !(status == 401 || status == 403 || status == 429 || auth_error_message(body)
        || rate_limit_message(body)) ==> shorten_defined(body, 200)
}

/// The message shown for an error answer that is not structured JSON.
pub fn classify_raw_api_error(status: u16, body: &str) -> (r: String)
    requires
        raw_api_error_defined(status, body@),
    ensures
        r@ == raw_api_error(status, body@),
{
    if status == 401 || status == 403 {
        return owned("Invalid or missing API token. Use /token to set one.");
    }
    if status == 429 {
        return owned("API rate limit reached. Try again shortly.");
    }
    if is_auth_error_message(body) {
        return owned("Invalid or missing API token. Use /token to set one.");
    }
    if is_rate_limit_message(body) {
        return owned("API rate limit reached. Try again shortly.");
    }
    truncate_message(body, 200)
}

/// ASCII uppercase of one character (`char::to_ascii_uppercase`).
pub open spec fn ascii_upper(c: char) -> char {
    if 'a' <= c <= 'z' {
        ((c as u32) - 32) as char
    } else {
        c
    }
}

/// `str::to_ascii_uppercase`.
pub fn to_ascii_uppercase(s: &str) -> (r: String)
    ensures
        r@ == s@.map_values(|c: char| ascii_upper(c)),
{
    let v = chars_of(s);
    let mut r = String::new();
    let mut i: usize = 0;
    while i < v.len()
        invariant
            i <= v@.len(),
            r@ == v@.take(i as int).map_values(|c: char| ascii_upper(c)),
        decreases v@.len() - i,
    {
        let c = v[i];
        let u = if 'a' <= c && c <= 'z' {
            ((c as u32 - 32) as u8) as char
        } else {
            c
        };
        push_char(&mut r, u);
        i += 1;
        assert(r@ =~= v@.take(i as int).map_values(|c: char| ascii_upper(c)));
    }
    assert(v@.take(v@.len() as int) =~= v@);
    r
}

/// The fields of the `error` object of a structured error answer.
pub struct ApiErrorBody {
    pub message: Option<String>,
    pub status: Option<String>,
}

/// The advice shown when the free tier has no quota for the model.
pub open spec fn free_tier_reply() -> Seq<char> {
    "Free tier quota for this model is unavailable on your API key. The app now uses "@
        + DEFAULT_MODEL@ + " — restart godmode and try again. Or enable billing at ai.google.dev."@
}

/// The text of an optional string, empty when absent.
pub open spec fn text_or_empty(s: Option<String>) -> Seq<char> {
    match s {
        Some(t) => t@,
        None => Seq::empty(),
    }
}

/// A parsed error answer names a refused or missing token.
pub open spec fn structured_auth(status: u16, parsed: ApiErrorBody) -> bool {
    let message = text_or_empty(parsed.message);
    let api_status = text_or_empty(parsed.status).map_values(|c: char| ascii_upper(c));
    auth_error_message(message) || api_status == "UNAUTHENTICATED"@ || api_status
        == "PERMISSION_DENIED"@ || (status == 400 && contains(lowercase(message), "api key"@))
}

/// A parsed error answer names an exhausted quota or rate limit.
pub open spec fn structured_rate(status: u16, parsed: ApiErrorBody) -> bool {
    let message = text_or_empty(parsed.message);
    let api_status = text_or_empty(parsed.status).map_values(|c: char| ascii_upper(c));
    status == 429 || api_status == "RESOURCE_EXHAUSTED"@ || rate_limit_message(message)
}

/// Whether a parsed error answer is classified by its fields alone.
pub open spec fn structured_reply(status: u16, parsed: ApiErrorBody) -> Option<Seq<char>> {
    let message = text_or_empty(parsed.message);
    if structured_auth(status, parsed) {
        Some(token_reply())
    } else if structured_rate(status, parsed) {
        if contains(message, "limit: 0"@) {
            Some(free_tier_reply())
        } else {
            Some("API rate limit reached. Wait a minute and try again."@)
        }
    } else if message.len() > 0 {
        Some(shortened(message, 200))
    } else {
        None
    }
}

/// The message shown for an error answer with HTTP status `status`, whose
/// body `body` parsed (`parsed`) as a structured error or not (`None`).
pub open spec fn api_error_reply(status: u16, parsed: Option<ApiErrorBody>, body: Seq<char>) -> Seq<
    char,
> {
    match parsed {
        Some(p) => match structured_reply(status, p) {
            Some(r) => r,
            None => raw_api_error(status, body),
        },
        None => raw_api_error(status, body),
    }
}

/// When `api_error_reply` is defined: the cut it makes, if any, falls on a
/// boundary.
pub open spec fn api_error_defined(status: u16, parsed: Option<ApiErrorBody>, body: Seq<char>) -> bool {
    match parsed {
        Some(p) => {
            let message = text_or_empty(p.message);
            &&& (!structured_auth(status, p) && !structured_rate(status, p) && message.len() > 0
                ==> shorten_defined(message, 200))
            &&& (structured_reply(status, p) is None ==> raw_api_error_defined(status, body))
        },
        None => raw_api_error_defined(status, body),
    }
}

/// Whether the error answer can be classified: the cut it needs, if any,
/// falls on a character boundary.
pub fn api_error_ready(status: u16, parsed: &Option<ApiErrorBody>, body: &str) -> (r: bool)
    ensures
        r == api_error_defined(status, *parsed, body@),
{
    let raw_ok = raw_error_ready(status, body);
    match parsed {
        None => raw_ok,
        Some(p) => {
            let message = match &p.message {
                Some(m) => m.clone(),
                None => String::new(),
            };
            let st = match &p.status {
                Some(s) => s.clone(),
                None => String::new(),
            };
            let api_status = to_ascii_uppercase(st.as_str());
            let asv = chars_of(api_status.as_str());
            let ml = to_lowercase(message.as_str());
            let mlv = chars_of(ml.as_str());
            let auth = is_auth_error_message(message.as_str()) || vec_eq_str(&asv, "UNAUTHENTICATED")
                || vec_eq_str(&asv, "PERMISSION_DENIED") || (status == 400 && vec_contains_str(
                &mlv,
                "api key",
            ));
            let rate = status == 429 || vec_eq_str(&asv, "RESOURCE_EXHAUSTED")
                || is_rate_limit_message(message.as_str());
            if auth || rate {
                return true;
            }
            let mv = chars_of(message.as_str());
            if mv.len() > 0 {
                cut_ready(&mv, 200)
            } else {
                raw_ok
            }
        },
    }
}

/// Whether `v`, when longer than `max` bytes, has a boundary at `max`.
fn cut_ready(v: &Vec<char>, max: usize) -> (r: bool)
    requires
        max <= usize::MAX - 4,
    ensures
        r == shorten_defined(v@, max as nat),
{
    if !blen_exceeds(v, max) {
        true
    } else {
        crate::text::char_index_of_byte(v, max).is_some()
    }
}

/// Whether a raw error answer can be classified.
fn raw_error_ready(status: u16, body: &str) -> (r: bool)
    ensures
        r == raw_api_error_defined(status, body@),
{
    if status == 401 || status == 403 || status == 429 || is_auth_error_message(body)
        || is_rate_limit_message(body) {
        return true;
    }
    let v = chars_of(body);
    cut_ready(&v, 200)
}

/// The classification of an error answer of the model API, once its body
/// was parsed (or not) as a structured error.
pub fn classify_api_error(status: u16, parsed: Option<ApiErrorBody>, body: &str) -> (r: String)
    requires
        api_error_defined(status, parsed, body@),
    ensures
        r@ == api_error_reply(status, parsed, body@),
{
    if let Some(p) = parsed {
        let message = match p.message {
            Some(m) => m,
            None => String::new(),
        };
        let st = match p.status {
            Some(s) => s,
            None => String::new(),
        };
        let api_status = to_ascii_uppercase(st.as_str());
        let asv = chars_of(api_status.as_str());
        let ml = to_lowercase(message.as_str());
        let mlv = chars_of(ml.as_str());
        if is_auth_error_message(message.as_str()) || vec_eq_str(&asv, "UNAUTHENTICATED")
            || vec_eq_str(&asv, "PERMISSION_DENIED") || (status == 400 && vec_contains_str(
            &mlv,
            "api key",
        )) {
            return owned("Invalid or missing API token. Use /token to set one.");
        }
        if status == 429 || vec_eq_str(&asv, "RESOURCE_EXHAUSTED") || is_rate_limit_message(
            message.as_str(),
        ) {
            let mv = chars_of(message.as_str());
            if vec_contains_str(&mv, "limit: 0") {
                return concat3(
                    "Free tier quota for this model is unavailable on your API key. The app now uses ",
                    DEFAULT_MODEL,
                    " — restart godmode and try again. Or enable billing at ai.google.dev.",
                );
            }
            return owned("API rate limit reached. Wait a minute and try again.");
        }
        if !message.as_str().is_empty() {
            return truncate_message(message.as_str(), 200);
        }
    }
    classify_raw_api_error(status, body)
}

/// The role a message is sent with: `assistant` is called `model`.
pub fn gemini_role(role: &str) -> (r: String)
    ensures
        r@ == (if role@ == "assistant"@ {
            "model"@
        } else {
            role@
        }),
{
    if crate::text::str_eq(role, "assistant") {
        owned("model")
    } else {
        owned(role)
    }
}

} // verus!
