//! Persistent settings (the token and the mode) and the classification of
//! error messages shown to the user.

use vstd::prelude::*;
use crate::mode::{mode_by_lowercase, mode_label, parse_mode, AgentMode};
use crate::text::{
    blen, blen_exceeds, char_width, chars_before, chars_of, concat3, contains, is_boundary,
    lemma_blen_concat, lemma_blen_take_step, lemma_boundary_unique, lowercase, owned,
    string_of_range, to_lowercase, trim, trim_range, vec_contains_str,
};

verus! {

broadcast use vstd::string::group_string_axioms;

/// The model every request is made with.
pub const DEFAULT_MODEL: &'static str = "gemini-2.5-flash";

/// What is saved to the configuration file.
#[derive(Clone)]
pub struct Settings {
    /// The API token (may be empty).
    pub api_key: String,
    /// The mode's name as stored (`"base"` or `"god"`, or anything a user wrote).
    pub mode: String,
}

impl Default for Settings {
    fn default() -> (s: Self)
        ensures
            s.api_key@ == Seq::<char>::empty(),
            s.mode@ == "base"@,
    {
        Settings { api_key: String::new(), mode: owned("base") }
    }
}

/// The mode that a stored mode name selects (`Base` when it names none).
pub open spec fn stored_mode(mode: Seq<char>) -> AgentMode {
    match parse_mode(mode) {
        Some(m) => m,
        None => AgentMode::Base,
    }
}

/// The mode a stored ASCII name selects (lowercased letter by letter).
pub open spec fn stored_ascii_mode(mode: Seq<char>) -> AgentMode {
    match mode_by_lowercase(crate::text::ascii_lowercase(mode)) {
        Some(m) => m,
        None => AgentMode::Base,
    }
}

/// A token is set when it has a non-whitespace character.
pub open spec fn token_present(api_key: Seq<char>) -> bool {
    trim(api_key).len() > 0
}

/// The masked token is defined: the trimmed token is cut at byte 4 and 4
/// bytes before its end, which must be character boundaries.
pub open spec fn mask_defined(api_key: Seq<char>) -> bool {
    let key = trim(api_key);
    blen(key) > 8 ==> is_boundary(key, 4) && is_boundary(key, blen(key) - 4)
}

/// How the token is shown: `not set`, eight bullets for a short token, or its
/// first and last four bytes around an ellipsis.
pub open spec fn masked(api_key: Seq<char>) -> Seq<char> {
    let key = trim(api_key);
    if key.len() == 0 {
        "not set"@
    } else if blen(key) <= 8 {
        "••••••••"@
    } else {
        key.take(chars_before(key, 4)) + "…"@ + key.skip(chars_before(key, blen(key) - 4))
    }
}

/// Byte length of a suffix.
proof fn lemma_blen_split(s: Seq<char>, k: int)
    requires
        0 <= k <= s.len(),
    ensures
        blen(s) == blen(s.take(k)) + blen(s.skip(k)),
{
    lemma_blen_concat(s.take(k), s.skip(k));
    assert(s.take(k) + s.skip(k) =~= s);
}

/// The number of characters that precede the last `b` bytes of `v`, when that
/// position is a character boundary.
fn char_index_from_end(v: &Vec<char>, b: usize) -> (r: Option<usize>)
    requires
        b <= 8,
    ensures
        r matches Some(k) ==> k <= v@.len() && blen(v@.skip(k as int)) == b,
        r is None ==> forall|k: int| 0 <= k <= v@.len() ==> blen(#[trigger] v@.skip(k)) != b,
{
    let mut j: usize = v.len();
    let mut acc: usize = 0;
    assert(v@.skip(v@.len() as int) =~= Seq::<char>::empty());
    while j > 0 && acc < b
        invariant
            j <= v@.len(),
            b <= 8,
            acc == blen(v@.skip(j as int)),
            acc <= b,
            forall|k: int| j < k <= v@.len() ==> blen(#[trigger] v@.skip(k)) < b,
        decreases j,
    {
        let w = char_width(v[j - 1]);
        proof {
            assert(v@.skip(j - 1) =~= seq![v@[j - 1]] + v@.skip(j as int));
            lemma_blen_concat(seq![v@[j - 1]], v@.skip(j as int));
            assert(seq![v@[j - 1]].drop_first() =~= Seq::<char>::empty());
            assert(blen(Seq::<char>::empty()) == 0);
            assert(blen(seq![v@[j - 1]]) == w);
        }
        j -= 1;
        acc += w;
        if acc > b {
            proof {
                assert forall|k: int| 0 <= k <= v@.len() implies blen(#[trigger] v@.skip(k))
                    != b by {
                    if k < j {
                        lemma_blen_split(v@, k);
                        lemma_blen_split(v@, j as int);
                        assert(v@.skip(k).skip(j - k) =~= v@.skip(j as int));
                        lemma_blen_split(v@.skip(k), j - k);
                    }
                }
            }
            return None;
        }
    }
    if acc == b {
        Some(j)
    } else {
        proof {
            assert forall|k: int| 0 <= k <= v@.len() implies blen(#[trigger] v@.skip(k)) != b by {
                if k < j {
                }
            }
        }
        None
    }
}

/// The number of characters in the first `b` bytes of `v`, when byte `b` is a
/// character boundary.
fn char_index_from_start(v: &Vec<char>, b: usize) -> (r: Option<usize>)
    requires
        b <= 8,
    ensures
        r is Some <==> is_boundary(v@, b as int),
        r matches Some(k) ==> k <= v@.len() && chars_before(v@, b as int) == k,
{
    crate::text::char_index_of_byte(v, b)
}

impl Settings {
    /// The selected mode.
    pub fn mode(&self) -> (m: AgentMode)
        ensures
            m == stored_mode(self.mode@),
            vstd::utf8::is_ascii_chars(self.mode@) ==> m == stored_ascii_mode(self.mode@),
    {
        match AgentMode::from_str(self.mode.as_str()) {
            Some(m) => m,
            None => AgentMode::Base,
        }
    }

    /// Stores the mode's label.
    pub fn set_mode(&mut self, mode: AgentMode)
        ensures
            final(self).mode@ == mode_label(mode),
            final(self).api_key == old(self).api_key,
    {
        self.mode = owned(mode.label());
    }

    /// Whether a token is set.
    pub fn has_token(&self) -> (b: bool)
        ensures
            b == token_present(self.api_key@),
    {
        let t = crate::text::trim_str(self.api_key.as_str());
        !t.as_str().is_empty()
    }

    /// The model name.
    pub fn model() -> (m: &'static str)
        ensures
            m@ == DEFAULT_MODEL@,
    {
        DEFAULT_MODEL
    }

    /// The token as shown in the settings panel.
    pub fn masked_token(&self) -> (r: String)
        requires
            mask_defined(self.api_key@),
        ensures
            r@ == masked(self.api_key@),
    {
        let all = chars_of(self.api_key.as_str());
        let key: Vec<char> = crate::text::trim_chars(&all);
        if key.len() == 0 {
            return owned("not set");
        }
        if !blen_exceeds(&key, 8) {
            return owned("••••••••");
        }
        let head = char_index_from_start(&key, 4);
        let tail = char_index_from_end(&key, 4);
        match (head, tail) {
            (Some(h), Some(t)) => {
                proof {
                    lemma_blen_split(key@, t as int);
                    lemma_boundary_unique(key@, t as int, blen(key@) - 4);
                }
                let a = string_of_range(&key, 0, h);
                let b = string_of_range(&key, t, key.len());
                proof {
                    assert(key@.subrange(0, h as int) =~= key@.take(h as int));
                    assert(key@.subrange(t as int, key@.len() as int) =~= key@.skip(t as int));
                }
                concat3(a.as_str(), "…", b.as_str())
            },
            _ => {
                proof {
                    let k = chars_before(key@, blen(key@) - 4);
                    lemma_blen_split(key@, k);
                    assert(blen(key@.skip(k)) == 4);
                }
                owned("")
            },
        }
    }

    /// The settings with `env_key` (the `GEMINI_API_KEY` variable) used as the
    /// token when none is stored.
    pub fn with_env_key(self, env_key: Option<String>) -> (s: Settings)
        ensures
            s.mode == self.mode,
            s.api_key@ == (if self.api_key@.len() == 0 && env_key is Some {
                env_key->0@
            } else {
                self.api_key@
            }),
    {
        let mut s = self;
        if s.api_key.as_str().is_empty() {
            if let Some(k) = env_key {
                s.api_key = k;
            }
        }
        s
    }
}

// ---------------------------------------------------------------------------
// Error messages
// ---------------------------------------------------------------------------

/// Fragments (of the lowercased message) that mean a rate limit was hit.
pub const RATE_LIMIT_MARKS: [&'static str; 7] = [
    "429",
    "resource_exhausted",
    "quota exceeded",
    "quota limit",
    "rate limit",
    "rate_limit",
    "too many requests",
];

/// Fragments (of the lowercased message) that mean the token was refused.
pub const AUTH_ERROR_MARKS: [&'static str; 6] = [
    "api key",
    "apikey",
    "api_key_invalid",
    "permission denied",
    "401",
    "403",
];

/// Some fragment of `marks` occurs in the lowercase of `msg`.
pub open spec fn mentions_any(msg: Seq<char>, marks: Seq<&str>) -> bool {
    crate::mode::contains_any(lowercase(msg), marks)
}

/// `msg` reports a rate limit.
pub open spec fn rate_limit_message(msg: Seq<char>) -> bool {
    mentions_any(msg, RATE_LIMIT_MARKS@)
}

/// `msg` reports a refused or missing token.
pub open spec fn auth_error_message(msg: Seq<char>) -> bool {
    mentions_any(msg, AUTH_ERROR_MARKS@)
}

/// The text shown for a refused token.
pub open spec fn auth_reply() -> Seq<char> {
    "Invalid or missing API token. Use /token to set one."@
}

/// What the user is shown for an error message.
pub open spec fn sanitized(msg: Seq<char>) -> Seq<char> {
    let lower = lowercase(msg);
    if auth_error_message(msg) {
        auth_reply()
    } else if rate_limit_message(msg) {
        "API rate limit reached. Try again shortly."@
    } else if contains(lower, "network"@) || contains(lower, "connection"@) || contains(
        lower,
        "timeout"@,
    ) {
        "Connection failed. Check your network."@
    } else if contains(lower, "empty"@) {
        "No response received. Try again."@
    } else if blen(msg) > 120 {
        "Something went wrong. Check /settings."@
    } else {
        msg
    }
}

/// Whether the lowercase of `msg` contains one of `marks`.
fn lower_mentions_any<const N: usize>(msg: &str, marks: &[&'static str; N]) -> (r: bool)
    ensures
        r == crate::mode::contains_any(lowercase(msg@), marks@),
{
    let l = to_lowercase(msg);
    let lv = chars_of(l.as_str());
    let mut i: usize = 0;
    while i < N
        invariant
            i <= N == marks@.len(),
            lv@ == lowercase(msg@),
            forall|k: int| 0 <= k < i ==> !contains(lv@, (#[trigger] marks@[k])@),
        decreases N - i,
    {
        if vec_contains_str(&lv, marks[i]) {
            return true;
        }
        i += 1;
    }
    false
}

/// Whether `msg` reports a rate limit.
pub fn is_rate_limit_message(msg: &str) -> (r: bool)
    ensures
        r == rate_limit_message(msg@),
{
    lower_mentions_any(msg, &RATE_LIMIT_MARKS)
}

/// Whether `msg` reports a refused or missing token.
pub fn is_auth_error_message(msg: &str) -> (r: bool)
    ensures
        r == auth_error_message(msg@),
{
    lower_mentions_any(msg, &AUTH_ERROR_MARKS)
}

/// A short, user-facing version of an error message.
pub fn sanitize_error(msg: &str) -> (r: String)
    ensures
        r@ == sanitized(msg@),
        vstd::utf8::is_ascii_chars(msg@) ==> lowercase(msg@) == crate::text::ascii_lowercase(msg@),
{
    let l = to_lowercase(msg);
    let lower = chars_of(l.as_str());
    if is_auth_error_message(msg) {
        return owned("Invalid or missing API token. Use /token to set one.");
    }
    if is_rate_limit_message(msg) {
        return owned("API rate limit reached. Try again shortly.");
    }
    if vec_contains_str(&lower, "network") || vec_contains_str(&lower, "connection")
        || vec_contains_str(&lower, "timeout") {
        return owned("Connection failed. Check your network.");
    }
    if vec_contains_str(&lower, "empty") {
        return owned("No response received. Try again.");
    }
    let v = chars_of(msg);
    if blen_exceeds(&v, 120) {
        return owned("Something went wrong. Check /settings.");
    }
    owned(msg)
}

} // verus!
