//! Rejection of spurious short text in silence (typical Parakeet silence tokens such as
//! "yeah" or "mm-hmm").  The text handed in is already normalized transcript text.
use vstd::prelude::*;

use crate::config::LocalAsrRecognitionConfig;
use crate::text::{is_ws, is_ws_exec, lower_char, push_char, trim, trim_str};

verus! {

/// What `char::is_alphanumeric` returns: the Unicode `Alphabetic` or `Numeric` property.
pub uninterp spec fn char_is_alphanumeric(c: char) -> bool;

pub open spec fn ascii_alphanumeric(c: char) -> bool {
    ('a' <= c && c <= 'z') || ('A' <= c && c <= 'Z') || ('0' <= c && c <= '9')
}

/// `char::is_alphanumeric`.  On ASCII it holds exactly of letters and digits, as the
/// Unicode tables that std documents give.
#[verifier::external_body]
fn is_alphanumeric(c: char) -> (r: bool)
    ensures
        r == char_is_alphanumeric(c),
        (c as u32) < 128 ==> (r <==> ascii_alphanumeric(c)),
{
    c.is_alphanumeric()
}

/// The silence tokens, as listed.
pub open spec fn short_hallucination_token_list() -> Seq<Seq<char>> {
    seq![
        "yeah"@, "yeah."@, "mm-hmm"@, "mm-hmm."@, "mhm"@, "mhm."@, "uh-huh"@, "uh-huh."@,
        "okay"@, "okay."@, "ok"@, "ok."@, "hmm"@, "hmm."@, "uh"@, "uh."@, "ah"@, "ah."@,
        "yep"@, "yep."@, "nope"@, "nope."@,
    ]
}

pub fn short_hallucination_tokens() -> (r: Vec<&'static str>)
    ensures
        r@.map_values(|t: &str| t@) == short_hallucination_token_list(),
{
    let r = vec![
        "yeah", "yeah.", "mm-hmm", "mm-hmm.", "mhm", "mhm.", "uh-huh", "uh-huh.", "okay",
        "okay.", "ok", "ok.", "hmm", "hmm.", "uh", "uh.", "ah", "ah.", "yep", "yep.", "nope",
        "nope.",
    ];
    assert(r@.map_values(|t: &str| t@) =~= short_hallucination_token_list());
    r
}

/// Characters kept by the token key: alphanumerics, `-` and `'`.
pub open spec fn key_char(c: char) -> bool {
    char_is_alphanumeric(c) || c == '-' || c == '\''
}

/// Token key: the kept characters, ASCII-lowercased.
pub open spec fn token_key(s: Seq<char>) -> Seq<char>
    decreases s.len(),
{
    if s.len() == 0 {
        Seq::empty()
    } else if key_char(s.last()) {
        token_key(s.drop_last()).push(lower_char(s.last()))
    } else {
        token_key(s.drop_last())
    }
}

fn lower_char_exec(c: char) -> (r: char)
    ensures
        r == lower_char(c),
{
    if 'A' <= c && c <= 'Z' {
        ((c as u8) + 32) as char
    } else {
        c
    }
}

pub fn canonicalize_hallucination_token(text: &str) -> (r: String)
    ensures
        r@ == token_key(text@),
{
    let v = crate::text::chars_of(text);
    let mut out = String::new();
    let mut i: usize = 0;
    while i < v.len()
        invariant
            v@ == text@,
            i <= v.len(),
            out@ == token_key(text@.take(i as int)),
        decreases v.len() - i,
    {
        let c = v[i];
        proof {
            assert(text@.take(i + 1).drop_last() =~= text@.take(i as int));
            assert(text@.take(i + 1).last() == c);
        }
        if is_alphanumeric(c) || c == '-' || c == '\'' {
            let l = lower_char_exec(c);
            push_char(&mut out, l);
        }
        i = i + 1;
    }
    assert(text@.take(v.len() as int) =~= text@);
    out
}

/// Number of whitespace-separated words (`split_whitespace().count()`).
pub open spec fn word_count(s: Seq<char>) -> nat
    decreases s.len(),
{
    if s.len() == 0 {
        0
    } else {
        let starts = !is_ws(s.last()) && (s.len() == 1 || is_ws(s[s.len() - 2]));
        word_count(s.drop_last()) + if starts { 1nat } else { 0nat }
    }
}

proof fn lemma_word_count_le(s: Seq<char>)
    ensures
        word_count(s) <= s.len(),
    decreases s.len(),
{
    if s.len() > 0 {
        lemma_word_count_le(s.drop_last());
    }
}

pub fn count_words(s: &str) -> (r: usize)
    ensures
        r == word_count(s@),
{
    let v = crate::text::chars_of(s);
    let mut n: usize = 0;
    let mut i: usize = 0;
    while i < v.len()
        invariant
            v@ == s@,
            i <= v.len(),
            n == word_count(s@.take(i as int)),
        decreases v.len() - i,
    {
        let c = v[i];
        proof {
            let t = s@.take(i + 1);
            assert(t.drop_last() =~= s@.take(i as int));
            assert(t.last() == c);
            if i >= 1 {
                assert(t[i - 1] == s@[i - 1]);
            }
            lemma_word_count_le(s@.take(i as int));
        }
        let starts = !is_ws_exec(c) && (i == 0 || is_ws_exec(v[i - 1]));
        if starts {
            n = n + 1;
        }
        i = i + 1;
    }
    assert(s@.take(v.len() as int) =~= s@);
    n
}

/// `key` is the key of one of the silence tokens.
pub open spec fn is_token_key(key: Seq<char>) -> bool {
    exists|k: int|
        0 <= k < short_hallucination_token_list().len() && #[trigger] token_key(
            short_hallucination_token_list()[k],
        ) == key
}

fn token_set_contains(key: &str) -> (r: bool)
    ensures
        r == is_token_key(key@),
{
    let tokens = short_hallucination_tokens();
    let ghost list = short_hallucination_token_list();
    let mut i: usize = 0;
    while i < tokens.len()
        invariant
            tokens@.map_values(|t: &str| t@) == list,
            list == short_hallucination_token_list(),
            i <= tokens.len(),
            forall|k: int| 0 <= k < i ==> #[trigger] token_key(list[k]) != key@,
        decreases tokens.len() - i,
    {
        let canon = canonicalize_hallucination_token(tokens[i]);
        proof {
            assert(list[i as int] == tokens@[i as int]@);
        }
        if crate::text::str_eq(canon.as_str(), key) {
            return true;
        }
        i = i + 1;
    }
    false
}

/// Drop decision for a short silence token: text that is empty once trimmed always goes;
/// a token (at most two words) goes when its duration is within 900 ms for finals or
/// 1100 ms for partials.
pub open spec fn drops_short_hallucination(norm: Seq<char>, duration_ms: u32, is_final: bool) -> bool {
    if trim(norm).len() == 0 {
        true
    } else {
        let key = token_key(norm);
        &&& key.len() > 0
        &&& is_token_key(key)
        &&& word_count(norm) <= 2
        &&& duration_ms <= if is_final { 900u32 } else { 1100u32 }
    }
}

pub fn should_drop_short_hallucination(normalized: &str, duration_ms: u32, is_final: bool) -> (r: bool)
    ensures
        r == drops_short_hallucination(normalized@, duration_ms, is_final),
{
    if trim_str(normalized).as_str().is_empty() {
        return true;
    }
    let key = canonicalize_hallucination_token(normalized);
    if key.as_str().is_empty() || !token_set_contains(key.as_str()) {
        return false;
    }
    let word_count = count_words(normalized);
    if word_count > 2 {
        return false;
    }
    let short_duration_limit_ms: u32 = if is_final { 900 } else { 1100 };
    duration_ms <= short_duration_limit_ms
}

pub struct HallucinationFilterConfig {
    pub enabled: bool,
    pub min_chars_when_silent: u32,
    pub cooldown_ms: u32,
}

impl HallucinationFilterConfig {
    pub fn default() -> (r: Self)
        ensures
            r.enabled,
            r.min_chars_when_silent == 0,
            r.cooldown_ms == 500,
    {
        HallucinationFilterConfig { enabled: true, min_chars_when_silent: 0, cooldown_ms: 500 }
    }

    /// The filter settings of a recognition config.
    pub fn from_recognition(value: &LocalAsrRecognitionConfig) -> (r: Self)
        ensures
            r.enabled == value.hallucination_filter_enabled,
            r.min_chars_when_silent == value.hallucination_min_chars,
            r.cooldown_ms == value.hallucination_cooldown_ms,
    {
        HallucinationFilterConfig {
            enabled: value.hallucination_filter_enabled,
            min_chars_when_silent: value.hallucination_min_chars,
            cooldown_ms: value.hallucination_cooldown_ms,
        }
    }
}

pub struct HallucinationFilter {
    config: HallucinationFilterConfig,
    last_reject: Option<std::time::Instant>,
}

/// Whether the filter accepts normalized text (silence rejections return `false` whether
/// or not they start a new cooldown).
pub open spec fn accepts(enabled: bool, min_chars: u32, norm: Seq<char>, speech_active: bool) -> bool {
    !enabled || (trim(norm).len() > 0 && (speech_active || trim(norm).len() >= min_chars))
}

impl HallucinationFilter {
    pub closed spec fn enabled(&self) -> bool {
        self.config.enabled
    }

    pub closed spec fn min_chars_when_silent(&self) -> u32 {
        self.config.min_chars_when_silent
    }

    pub closed spec fn cooldown_ms(&self) -> u32 {
        self.config.cooldown_ms
    }

    /// A silence rejection has been recorded (a cooldown may be running).
    pub closed spec fn has_rejected(&self) -> bool {
        self.last_reject is Some
    }

    pub fn new(config: HallucinationFilterConfig) -> (r: Self)
        ensures
            r.enabled() == config.enabled,
            r.min_chars_when_silent() == config.min_chars_when_silent,
            r.cooldown_ms() == config.cooldown_ms,
            !r.has_rejected(),
    {
        HallucinationFilter { config, last_reject: None }
    }

    pub fn default() -> (r: Self)
        ensures
            r.enabled(),
            r.min_chars_when_silent() == 0,
            r.cooldown_ms() == 500,
            !r.has_rejected(),
    {
        Self::new(HallucinationFilterConfig::default())
    }

    pub fn reset(&mut self)
        ensures
            final(self).enabled() == old(self).enabled(),
            final(self).min_chars_when_silent() == old(self).min_chars_when_silent(),
            final(self).cooldown_ms() == old(self).cooldown_ms(),
            !final(self).has_rejected(),
    {
        self.last_reject = None;
    }

    /// Enabled filter: text that is empty once trimmed is rejected; in silence, trimmed
    /// text shorter than `min_chars_when_silent` characters is rejected too, and the first
    /// rejection after a cooldown starts a new one.
    pub fn accept(&mut self, normalized: &str, speech_active: bool) -> (r: bool)
        ensures
            r == accepts(old(self).enabled(), old(self).min_chars_when_silent(), normalized@, speech_active),
            final(self).enabled() == old(self).enabled(),
            final(self).min_chars_when_silent() == old(self).min_chars_when_silent(),
            final(self).cooldown_ms() == old(self).cooldown_ms(),
            r ==> final(self).has_rejected() == old(self).has_rejected(),
            !r && old(self).enabled() && trim(normalized@).len() > 0 ==> final(self).has_rejected(),
            !r && trim(normalized@).len() == 0 ==> final(self).has_rejected() == old(self).has_rejected(),
    {
        if !self.config.enabled {
            return true;
        }
        let trimmed = trim_str(normalized);
        if trimmed.as_str().is_empty() {
            return false;
        }
        if speech_active {
            return true;
        }
        let n = crate::text::chars_of(trimmed.as_str()).len();
        if n as u64 >= self.config.min_chars_when_silent as u64 {
            return true;
        }
        match &self.last_reject {
            Some(last) => {
                let elapsed = crate::clock::millis_since(last);
                if elapsed < self.config.cooldown_ms as u128 {
                    return false;
                }
            },
            None => {},
        }
        self.last_reject = Some(crate::clock::instant_now());
        false
    }

    /// Drops short silence tokens, then applies [`Self::accept`].
    pub fn accept_transcript(
        &mut self,
        normalized: &str,
        duration_ms: u32,
        is_final: bool,
        speech_active: bool,
    ) -> (r: bool)
        ensures
            r == (!drops_short_hallucination(normalized@, duration_ms, is_final) && accepts(
                old(self).enabled(),
                old(self).min_chars_when_silent(),
                normalized@,
                speech_active,
            )),
            final(self).enabled() == old(self).enabled(),
            final(self).min_chars_when_silent() == old(self).min_chars_when_silent(),
            final(self).cooldown_ms() == old(self).cooldown_ms(),
            drops_short_hallucination(normalized@, duration_ms, is_final) ==> final(self).has_rejected()
                == old(self).has_rejected(),
    {
        if should_drop_short_hallucination(normalized, duration_ms, is_final) {
            return false;
        }
        self.accept(normalized, speech_active)
    }
}

/// Law: with the filter enabled, text heard during active speech is never rejected for
/// being short unless it is an empty string or a silence token within its duration.
pub proof fn law_speech_keeps_non_tokens(enabled: bool, min_chars: u32, norm: Seq<char>, duration_ms: u32, is_final: bool)
    requires
        trim(norm).len() > 0,
        !drops_short_hallucination(norm, duration_ms, is_final),
    ensures
        !drops_short_hallucination(norm, duration_ms, is_final) && accepts(enabled, min_chars, norm, true),
{
}

} // verus!
