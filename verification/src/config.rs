//! Layered application configuration: the settings record, its defaults,
//! and the normalization and validation rules applied when values arrive
//! from files, the environment, or the interactive editor.
//!
//! Reading and writing the configuration files is done by the binary
//! layer; every merging and normalization decision is made here.

use vstd::prelude::*;
use crate::strutil::{
    spec_trim, spec_lower, spec_digits_value, spec_all_digits, trim_str, lower_str,
    parse_u64, repeat_char, str_eq, eq_ignore_ascii_case,
};

verus! {

/// Errors surfaced by configuration validation.
#[derive(Debug, PartialEq, Eq, Structural)]
pub enum ConfigError {
    /// The locale is not `"en"` and no matching i18n resources exist.
    UnsupportedLocale,
}

/// The application's settings, resolved from defaults, the global file,
/// the repository-local file, and the environment, in that order.
#[derive(Debug, Clone)]
pub struct AppConfig {
    pub provider: String,
    pub model: String,
    pub api_key: String,
    pub api_url: String,
    pub api_headers: String,
    pub locale: String,
    pub one_liner: bool,
    pub commit_template: String,
    pub llm_system_prompt: String,
    pub use_gitmoji: bool,
    pub gitmoji_format: String,
    pub review_commit: bool,
    pub post_commit_push: String,
    pub suppress_tool_output: bool,
    pub warn_staged_files_enabled: bool,
    pub warn_staged_files_threshold: usize,
    pub confirm_new_version: bool,
    pub auto_update: Option<bool>,
    pub fallback_enabled: bool,
    pub track_generated_commits: bool,
}

/// Default LLM provider.
pub fn default_provider() -> (r: String)
    ensures
        r@ == ("groq")@,
{
    ("groq").to_owned()
}

/// Default model for the default provider.
pub fn default_model() -> (r: String)
    ensures
        r@ == ("llama-3.3-70b-versatile")@,
{
    ("llama-3.3-70b-versatile").to_owned()
}

/// Default commit-message locale.
pub fn default_locale() -> (r: String)
    ensures
        r@ == ("en")@,
{
    ("en").to_owned()
}

/// Default for the boolean settings that start enabled.
pub fn default_true() -> (r: bool)
    ensures
        r,
{
    true
}

/// Default post-commit push behavior.
pub fn default_post_commit_push() -> (r: String)
    ensures
        r@ == ("ask")@,
{
    ("ask").to_owned()
}

/// Default commit template: the generated message, unchanged.
pub fn default_commit_template() -> (r: String)
    ensures
        r@ == ("$msg")@,
{
    ("$msg").to_owned()
}

/// Default system prompt sent to the language model.
pub fn default_system_prompt() -> (r: String)
    ensures
        r@ == ("You are to act as an author of a commit message in git. I'll send you an output of 'git diff --staged' command, and you are to convert it into a commit message. Follow the Conventional Commits specification.")@,
{
    (
    "You are to act as an author of a commit message in git. I'll send you an output of 'git diff --staged' command, and you are to convert it into a commit message. Follow the Conventional Commits specification."
    ).to_owned()
}

/// Default gitmoji style.
pub fn default_gitmoji_format() -> (r: String)
    ensures
        r@ == ("unicode")@,
{
    ("unicode").to_owned()
}

/// Default staged-file count above which a warning is shown.
pub fn default_warn_staged_files_threshold() -> (r: usize)
    ensures
        r == 20,
{
    20
}

/// What a fresh configuration holds, field by field.
pub open spec fn spec_is_default_config(c: AppConfig) -> bool {
    &&& c.provider@ == ("groq")@
    &&& c.model@ == ("llama-3.3-70b-versatile")@
    &&& c.api_key@.len() == 0
    &&& c.api_url@.len() == 0
    &&& c.api_headers@.len() == 0
    &&& c.locale@ == ("en")@
    &&& c.one_liner
    &&& c.commit_template@ == ("$msg")@
    &&& c.llm_system_prompt@ == ("You are to act as an author of a commit message in git. I'll send you an output of 'git diff --staged' command, and you are to convert it into a commit message. Follow the Conventional Commits specification.")@
    &&& !c.use_gitmoji
    &&& c.gitmoji_format@ == ("unicode")@
    &&& c.review_commit
    &&& c.post_commit_push@ == ("ask")@
    &&& !c.suppress_tool_output
    &&& c.warn_staged_files_enabled
    &&& c.warn_staged_files_threshold == 20
    &&& c.confirm_new_version
    &&& c.auto_update is None
    &&& c.fallback_enabled
    &&& c.track_generated_commits
}

impl Default for AppConfig {
    /// The configuration before any layer is applied.
    fn default() -> (r: Self)
        ensures
            spec_is_default_config(r),
    {
        AppConfig {
            provider: default_provider(),
            model: default_model(),
            api_key: String::new(),
            api_url: String::new(),
            api_headers: String::new(),
            locale: default_locale(),
            one_liner: true,
            commit_template: default_commit_template(),
            llm_system_prompt: default_system_prompt(),
            use_gitmoji: false,
            gitmoji_format: default_gitmoji_format(),
            review_commit: true,
            post_commit_push: default_post_commit_push(),
            suppress_tool_output: false,
            warn_staged_files_enabled: true,
            warn_staged_files_threshold: default_warn_staged_files_threshold(),
            confirm_new_version: true,
            auto_update: None,
            fallback_enabled: true,
            track_generated_commits: true,
        }
    }
}

/// A configuration, field by field, as its contracts speak of it.
pub ghost struct ConfigView {
    pub provider: Seq<char>,
    pub model: Seq<char>,
    pub api_key: Seq<char>,
    pub api_url: Seq<char>,
    pub api_headers: Seq<char>,
    pub locale: Seq<char>,
    pub one_liner: bool,
    pub commit_template: Seq<char>,
    pub llm_system_prompt: Seq<char>,
    pub use_gitmoji: bool,
    pub gitmoji_format: Seq<char>,
    pub review_commit: bool,
    pub post_commit_push: Seq<char>,
    pub suppress_tool_output: bool,
    pub warn_staged_files_enabled: bool,
    pub warn_staged_files_threshold: usize,
    pub confirm_new_version: bool,
    pub auto_update: Option<bool>,
    pub fallback_enabled: bool,
    pub track_generated_commits: bool,
}

impl View for AppConfig {
    type V = ConfigView;

    open spec fn view(&self) -> ConfigView {
        ConfigView {
            provider: self.provider@,
            model: self.model@,
            api_key: self.api_key@,
            api_url: self.api_url@,
            api_headers: self.api_headers@,
            locale: self.locale@,
            one_liner: self.one_liner,
            commit_template: self.commit_template@,
            llm_system_prompt: self.llm_system_prompt@,
            use_gitmoji: self.use_gitmoji,
            gitmoji_format: self.gitmoji_format@,
            review_commit: self.review_commit,
            post_commit_push: self.post_commit_push@,
            suppress_tool_output: self.suppress_tool_output,
            warn_staged_files_enabled: self.warn_staged_files_enabled,
            warn_staged_files_threshold: self.warn_staged_files_threshold,
            confirm_new_version: self.confirm_new_version,
            auto_update: self.auto_update,
            fallback_enabled: self.fallback_enabled,
            track_generated_commits: self.track_generated_commits,
        }
    }
}

/// A masked rendering of a secret: fully starred when short, else the
/// first and last four characters around an ellipsis.
pub open spec fn spec_mask_key(key: Seq<char>) -> Seq<char> {
    if key.len() <= 8 {
        Seq::new(key.len(), |i: int| '*')
    } else {
        key.take(4) + ("...")@ + key.skip(key.len() as int - 4)
    }
}

/// Mask a secret for display.
pub fn mask_key(key: &str) -> (r: String)
    ensures
        r@ == spec_mask_key(key@),
{
    let n = key.unicode_len();
    if n <= 8 {
        repeat_char('*', n)
    } else {
        let mut r = key.substring_char(0, 4).to_owned();
        r.append("...");
        r.append(key.substring_char(n - 4, n));
        proof {
            assert(key@.subrange(0, 4) =~= key@.take(4));
            assert(key@.subrange(n as int - 4, n as int) =~= key@.skip(n as int - 4));
        }
        r
    }
}

/// `s`, shortened to `max` characters plus an ellipsis when longer.
pub open spec fn spec_truncate(s: Seq<char>, max: int) -> Seq<char> {
    if s.len() <= max {
        s
    } else {
        s.take(max) + ("...")@
    }
}

/// Shorten a string for display.
pub fn truncate(s: &str, max: usize) -> (r: String)
    ensures
        r@ == spec_truncate(s@, max as int),
{
    let n = s.unicode_len();
    if n <= max {
        s.to_owned()
    } else {
        let mut r = s.substring_char(0, max).to_owned();
        r.append("...");
        proof {
            assert(s@.subrange(0, max as int) =~= s@.take(max as int));
        }
        r
    }
}

/// How a configuration string reads as a boolean switch: `"1"` or any
/// case spelling of `"true"` enables, everything else disables.
pub open spec fn spec_bool_flag(v: Seq<char>) -> bool {
    v == ("1")@ || spec_lower(v) == ("true")@
}

/// Read a boolean switch value.
pub fn parse_bool_flag(v: &str) -> (r: bool)
    ensures
        r == spec_bool_flag(v@),
{
    proof {
        reveal_strlit("true");
        assert(spec_lower(("true")@) =~= ("true")@);
    }
    str_eq(v, "1") || eq_ignore_ascii_case(v, "true")
}

/// The canonical post-commit push behavior for a raw setting value:
/// `"never"` and `"always"` (any case, surrounding whitespace ignored)
/// map to themselves; everything else means `"ask"`.
pub open spec fn spec_normalize_post_commit_push(v: Seq<char>) -> Seq<char> {
    if spec_lower(spec_trim(v)) == ("never")@ {
        ("never")@
    } else if spec_lower(spec_trim(v)) == ("always")@ {
        ("always")@
    } else {
        ("ask")@
    }
}

/// Normalize a post-commit push setting to `"never"`, `"always"` or `"ask"`.
pub fn normalize_post_commit_push(value: &str) -> (r: String)
    ensures
        r@ == spec_normalize_post_commit_push(value@),
{
    let t = trim_str(value);
    let l = lower_str(t.as_str());
    if str_eq(l.as_str(), "never") {
        ("never").to_owned()
    } else if str_eq(l.as_str(), "always") {
        ("always").to_owned()
    } else {
        ("ask").to_owned()
    }
}

/// The value a numeric setting string denotes, or the default when it is
/// not a (fitting) number after trimming.
pub open spec fn spec_usize_or_default(v: Seq<char>, default: usize) -> usize {
    if spec_trim(v).len() > 0 && spec_all_digits(spec_trim(v)) && spec_digits_value(
        spec_trim(v),
    ) <= usize::MAX {
        spec_digits_value(spec_trim(v)) as usize
    } else {
        default
    }
}

/// Read a numeric setting, falling back to a default.
pub fn parse_usize_or_default(value: &str, default: usize) -> (r: usize)
    ensures
        r == spec_usize_or_default(value@, default),
{
    let t = trim_str(value);
    match parse_u64(t.as_str()) {
        Some(v) => {
            if v <= usize::MAX as u64 {
                v as usize
            } else {
                default
            }
        },
        None => default,
    }
}

/// The canonical form of a locale value: lowercased and trimmed, with the
/// default locale standing in for an empty value.
pub open spec fn spec_normalize_locale(v: Seq<char>) -> Seq<char> {
    if spec_trim(v).len() == 0 {
        ("en")@
    } else {
        spec_lower(spec_trim(v))
    }
}

/// Normalize a locale setting.
pub fn normalize_locale(value: &str) -> (r: String)
    ensures
        r@ == spec_normalize_locale(value@),
{
    let t = trim_str(value);
    if t.as_str().unicode_len() == 0 {
        default_locale()
    } else {
        lower_str(t.as_str())
    }
}

/// The layered-merge rule: a later layer's string settings win when
/// non-empty, its boolean and numeric settings always win, its push
/// behavior is normalized as it lands, and its auto-update preference
/// wins only when stated.
pub open spec fn spec_merge(a: ConfigView, b: ConfigView) -> ConfigView {
    ConfigView {
        provider: if b.provider.len() > 0 {
            b.provider
        } else {
            a.provider
        },
        model: if b.model.len() > 0 {
            b.model
        } else {
            a.model
        },
        api_key: if b.api_key.len() > 0 {
            b.api_key
        } else {
            a.api_key
        },
        api_url: if b.api_url.len() > 0 {
            b.api_url
        } else {
            a.api_url
        },
        api_headers: if b.api_headers.len() > 0 {
            b.api_headers
        } else {
            a.api_headers
        },
        locale: if b.locale.len() > 0 {
            b.locale
        } else {
            a.locale
        },
        one_liner: b.one_liner,
        commit_template: if b.commit_template.len() > 0 {
            b.commit_template
        } else {
            a.commit_template
        },
        llm_system_prompt: if b.llm_system_prompt.len() > 0 {
            b.llm_system_prompt
        } else {
            a.llm_system_prompt
        },
        use_gitmoji: b.use_gitmoji,
        gitmoji_format: if b.gitmoji_format.len() > 0 {
            b.gitmoji_format
        } else {
            a.gitmoji_format
        },
        review_commit: b.review_commit,
        post_commit_push: if b.post_commit_push.len() > 0 {
            spec_normalize_post_commit_push(b.post_commit_push)
        } else {
            a.post_commit_push
        },
        suppress_tool_output: b.suppress_tool_output,
        warn_staged_files_enabled: b.warn_staged_files_enabled,
        warn_staged_files_threshold: b.warn_staged_files_threshold,
        confirm_new_version: b.confirm_new_version,
        auto_update: if b.auto_update is Some {
            b.auto_update
        } else {
            a.auto_update
        },
        fallback_enabled: b.fallback_enabled,
        track_generated_commits: b.track_generated_commits,
    }
}

/// The overriding layer's value when it is non-empty, else the base's.
fn pick_string(over: &String, base: &String) -> (r: String)
    ensures
        r@ == (if over@.len() > 0 {
            over@
        } else {
            base@
        }),
{
    if !over.as_str().is_empty() {
        over.clone()
    } else {
        base.clone()
    }
}

impl AppConfig {
    /// Merge a later configuration layer over this one.
    pub fn merge_from(&mut self, other: &AppConfig)
        ensures
            final(self)@ == spec_merge(old(self)@, other@),
    {
        let merged = AppConfig {
            provider: pick_string(&other.provider, &self.provider),
            model: pick_string(&other.model, &self.model),
            api_key: pick_string(&other.api_key, &self.api_key),
            api_url: pick_string(&other.api_url, &self.api_url),
            api_headers: pick_string(&other.api_headers, &self.api_headers),
            locale: pick_string(&other.locale, &self.locale),
            one_liner: other.one_liner,
            commit_template: pick_string(&other.commit_template, &self.commit_template),
            llm_system_prompt: pick_string(&other.llm_system_prompt, &self.llm_system_prompt),
            use_gitmoji: other.use_gitmoji,
            gitmoji_format: pick_string(&other.gitmoji_format, &self.gitmoji_format),
            review_commit: other.review_commit,
            post_commit_push: if !other.post_commit_push.as_str().is_empty() {
                normalize_post_commit_push(other.post_commit_push.as_str())
            } else {
                self.post_commit_push.clone()
            },
            suppress_tool_output: other.suppress_tool_output,
            warn_staged_files_enabled: other.warn_staged_files_enabled,
            warn_staged_files_threshold: other.warn_staged_files_threshold,
            confirm_new_version: other.confirm_new_version,
            auto_update: if other.auto_update.is_some() {
                other.auto_update
            } else {
                self.auto_update
            },
            fallback_enabled: other.fallback_enabled,
            track_generated_commits: other.track_generated_commits,
        };
        *self = merged;
    }
}

/// The configuration after an interactive edit sets the field addressed
/// by `suffix` to `value`: strings land as given, switches are read as
/// boolean flags, the threshold as a number with a fallback, the locale
/// and push behavior normalized; an unknown suffix changes nothing.
pub open spec fn spec_set_field(c: ConfigView, suffix: Seq<char>, value: Seq<char>) -> ConfigView {
    if suffix == ("LOCALE")@ {
        ConfigView { locale: spec_normalize_locale(value), ..c }
    } else if suffix == ("PROVIDER")@ {
        ConfigView { provider: value, ..c }
    } else if suffix == ("MODEL")@ {
        ConfigView { model: value, ..c }
    } else if suffix == ("API_KEY")@ {
        ConfigView { api_key: value, ..c }
    } else if suffix == ("API_URL")@ {
        ConfigView { api_url: value, ..c }
    } else if suffix == ("API_HEADERS")@ {
        ConfigView { api_headers: value, ..c }
    } else if suffix == ("ONE_LINER")@ {
        ConfigView { one_liner: spec_bool_flag(value), ..c }
    } else if suffix == ("COMMIT_TEMPLATE")@ {
        ConfigView { commit_template: value, ..c }
    } else if suffix == ("LLM_SYSTEM_PROMPT")@ {
        ConfigView { llm_system_prompt: value, ..c }
    } else if suffix == ("USE_GITMOJI")@ {
        ConfigView { use_gitmoji: spec_bool_flag(value), ..c }
    } else if suffix == ("GITMOJI_FORMAT")@ {
        ConfigView { gitmoji_format: value, ..c }
    } else if suffix == ("REVIEW_COMMIT")@ {
        ConfigView { review_commit: spec_bool_flag(value), ..c }
    } else if suffix == ("POST_COMMIT_PUSH")@ {
        ConfigView { post_commit_push: spec_normalize_post_commit_push(value), ..c }
    } else if suffix == ("SUPPRESS_TOOL_OUTPUT")@ {
        ConfigView { suppress_tool_output: spec_bool_flag(value), ..c }
    } else if suffix == ("WARN_STAGED_FILES_ENABLED")@ {
        ConfigView { warn_staged_files_enabled: spec_bool_flag(value), ..c }
    } else if suffix == ("WARN_STAGED_FILES_THRESHOLD")@ {
        ConfigView { warn_staged_files_threshold: spec_usize_or_default(value, 20), ..c }
    } else if suffix == ("CONFIRM_NEW_VERSION")@ {
        ConfigView { confirm_new_version: spec_bool_flag(value), ..c }
    } else if suffix == ("AUTO_UPDATE")@ {
        ConfigView { auto_update: Some(spec_bool_flag(value)), ..c }
    } else if suffix == ("FALLBACK_ENABLED")@ {
        ConfigView { fallback_enabled: spec_bool_flag(value), ..c }
    } else if suffix == ("TRACK_GENERATED_COMMITS")@ {
        ConfigView { track_generated_commits: spec_bool_flag(value), ..c }
    } else {
        c
    }
}

impl AppConfig {
    /// Set one field, addressed by its environment-variable suffix, from
    /// the interactive editor. A locale value is normalized and then
    /// validated: it must be `"en"` or have matching i18n resources
    /// (`locale_has_i18n` carries the binary layer's filesystem answer);
    /// on a rejected locale nothing changes.
    pub fn set_field(&mut self, suffix: &str, value: &str, locale_has_i18n: bool) -> (r: Result<
        (),
        ConfigError,
    >)
        ensures
            r is Err <==> (suffix@ == ("LOCALE")@ && spec_normalize_locale(value@) != (
            "en")@ && !locale_has_i18n),
            r is Ok ==> final(self)@ == spec_set_field(old(self)@, suffix@, value@),
            r is Err ==> *final(self) == *old(self) && r == Result::<(), ConfigError>::Err(
                ConfigError::UnsupportedLocale,
            ),
    {
        if str_eq(suffix, "LOCALE") {
            let locale = normalize_locale(value);
            match validate_locale(locale.as_str(), locale_has_i18n) {
                Ok(_) => {
                    self.locale = locale;
                },
                Err(e) => {
                    return Err(e);
                },
            }
        } else if str_eq(suffix, "PROVIDER") {
            self.provider = value.to_owned();
        } else if str_eq(suffix, "MODEL") {
            self.model = value.to_owned();
        } else if str_eq(suffix, "API_KEY") {
            self.api_key = value.to_owned();
        } else if str_eq(suffix, "API_URL") {
            self.api_url = value.to_owned();
        } else if str_eq(suffix, "API_HEADERS") {
            self.api_headers = value.to_owned();
        } else if str_eq(suffix, "ONE_LINER") {
            self.one_liner = parse_bool_flag(value);
        } else if str_eq(suffix, "COMMIT_TEMPLATE") {
            self.commit_template = value.to_owned();
        } else if str_eq(suffix, "LLM_SYSTEM_PROMPT") {
            self.llm_system_prompt = value.to_owned();
        } else if str_eq(suffix, "USE_GITMOJI") {
            self.use_gitmoji = parse_bool_flag(value);
        } else if str_eq(suffix, "GITMOJI_FORMAT") {
            self.gitmoji_format = value.to_owned();
        } else if str_eq(suffix, "REVIEW_COMMIT") {
            self.review_commit = parse_bool_flag(value);
        } else if str_eq(suffix, "POST_COMMIT_PUSH") {
            self.post_commit_push = normalize_post_commit_push(value);
        } else if str_eq(suffix, "SUPPRESS_TOOL_OUTPUT") {
            self.suppress_tool_output = parse_bool_flag(value);
        } else if str_eq(suffix, "WARN_STAGED_FILES_ENABLED") {
            self.warn_staged_files_enabled = parse_bool_flag(value);
        } else if str_eq(suffix, "WARN_STAGED_FILES_THRESHOLD") {
            self.warn_staged_files_threshold = parse_usize_or_default(
                value,
                default_warn_staged_files_threshold(),
            );
        } else if str_eq(suffix, "CONFIRM_NEW_VERSION") {
            self.confirm_new_version = parse_bool_flag(value);
        } else if str_eq(suffix, "AUTO_UPDATE") {
            self.auto_update = Some(parse_bool_flag(value));
        } else if str_eq(suffix, "FALLBACK_ENABLED") {
            self.fallback_enabled = parse_bool_flag(value);
        } else if str_eq(suffix, "TRACK_GENERATED_COMMITS") {
            self.track_generated_commits = parse_bool_flag(value);
        }
        Ok(())
    }
}

/// The key/value pairs of an environment snapshot, by view.
pub open spec fn spec_entries(m: Seq<(String, String)>) -> Seq<(Seq<char>, Seq<char>)> {
    m.map_values(|p: (String, String)| (p.0@, p.1@))
}

/// The value bound to `key`: when a key is bound more than once, the
/// latest binding wins.
pub open spec fn spec_env_lookup(m: Seq<(Seq<char>, Seq<char>)>, key: Seq<char>) -> Option<
    Seq<char>,
>
    decreases m.len(),
{
    if m.len() == 0 {
        None
    } else if m.last().0 == key {
        Some(m.last().1)
    } else {
        spec_env_lookup(m.drop_last(), key)
    }
}

/// A string setting under an environment snapshot: the bound value when
/// the key is present, else the base value.
pub open spec fn spec_env_str(
    m: Seq<(Seq<char>, Seq<char>)>,
    key: Seq<char>,
    base: Seq<char>,
) -> Seq<char> {
    match spec_env_lookup(m, key) {
        Some(v) => v,
        None => base,
    }
}

/// A boolean setting under an environment snapshot.
pub open spec fn spec_env_bool(
    m: Seq<(Seq<char>, Seq<char>)>,
    key: Seq<char>,
    base: bool,
) -> bool {
    match spec_env_lookup(m, key) {
        Some(v) => spec_bool_flag(v),
        None => base,
    }
}

/// Find the value bound to `key` in an environment snapshot; the latest
/// binding wins.
pub fn env_lookup(entries: &Vec<(String, String)>, key: &str) -> (r: Option<String>)
    ensures
        r is Some <==> spec_env_lookup(spec_entries(entries@), key@) is Some,
        r matches Some(s) ==> spec_env_lookup(spec_entries(entries@), key@) == Some(s@),
{
    let ghost m = spec_entries(entries@);
    let n = entries.len();
    proof {
        assert(m.take(n as int) =~= m);
    }
    let mut i: usize = n;
    while i > 0
        invariant
            0 <= i <= n == entries@.len(),
            m == spec_entries(entries@),
            spec_env_lookup(m, key@) == spec_env_lookup(m.take(i as int), key@),
        decreases i,
    {
        proof {
            assert(m.take(i as int).last() == m[i as int - 1]);
            assert(m.take(i as int).drop_last() =~= m.take(i as int - 1));
        }
        if crate::strutil::str_eq(entries[i - 1].0.as_str(), key) {
            return Some(entries[i - 1].1.clone());
        }
        i = i - 1;
    }
    None
}

/// A string setting resolved against an environment snapshot.
fn env_str(entries: &Vec<(String, String)>, key: &str, base: &String) -> (r: String)
    ensures
        r@ == spec_env_str(spec_entries(entries@), key@, base@),
{
    match env_lookup(entries, key) {
        Some(v) => v,
        None => base.clone(),
    }
}

/// A boolean setting resolved against an environment snapshot.
fn env_bool(entries: &Vec<(String, String)>, key: &str, base: bool) -> (r: bool)
    ensures
        r == spec_env_bool(spec_entries(entries@), key@, base),
{
    match env_lookup(entries, key) {
        Some(v) => parse_bool_flag(v.as_str()),
        None => base,
    }
}

/// The configuration after an environment snapshot is applied: each
/// setting with a bound `ACR_`-prefixed key takes the bound value, read
/// with the same rules as the interactive editor, except that the locale
/// lands unnormalized and unvalidated (load-time validation happens
/// afterwards, over the merged result).
pub open spec fn spec_apply_env(c: ConfigView, m: Seq<(Seq<char>, Seq<char>)>) -> ConfigView {
    ConfigView {
        provider: spec_env_str(m, ("ACR_PROVIDER")@, c.provider),
        model: spec_env_str(m, ("ACR_MODEL")@, c.model),
        api_key: spec_env_str(m, ("ACR_API_KEY")@, c.api_key),
        api_url: spec_env_str(m, ("ACR_API_URL")@, c.api_url),
        api_headers: spec_env_str(m, ("ACR_API_HEADERS")@, c.api_headers),
        locale: spec_env_str(m, ("ACR_LOCALE")@, c.locale),
        one_liner: spec_env_bool(m, ("ACR_ONE_LINER")@, c.one_liner),
        commit_template: spec_env_str(m, ("ACR_COMMIT_TEMPLATE")@, c.commit_template),
        llm_system_prompt: spec_env_str(m, ("ACR_LLM_SYSTEM_PROMPT")@, c.llm_system_prompt),
        use_gitmoji: spec_env_bool(m, ("ACR_USE_GITMOJI")@, c.use_gitmoji),
        gitmoji_format: spec_env_str(m, ("ACR_GITMOJI_FORMAT")@, c.gitmoji_format),
        review_commit: spec_env_bool(m, ("ACR_REVIEW_COMMIT")@, c.review_commit),
        post_commit_push: match spec_env_lookup(m, ("ACR_POST_COMMIT_PUSH")@) {
            Some(v) => spec_normalize_post_commit_push(v),
            None => c.post_commit_push,
        },
        suppress_tool_output: spec_env_bool(
            m,
            ("ACR_SUPPRESS_TOOL_OUTPUT")@,
            c.suppress_tool_output,
        ),
        warn_staged_files_enabled: spec_env_bool(
            m,
            ("ACR_WARN_STAGED_FILES_ENABLED")@,
            c.warn_staged_files_enabled,
        ),
        warn_staged_files_threshold: match spec_env_lookup(
            m,
            ("ACR_WARN_STAGED_FILES_THRESHOLD")@,
        ) {
            Some(v) => spec_usize_or_default(v, 20),
            None => c.warn_staged_files_threshold,
        },
        confirm_new_version: spec_env_bool(m, ("ACR_CONFIRM_NEW_VERSION")@, c.confirm_new_version),
        auto_update: match spec_env_lookup(m, ("ACR_AUTO_UPDATE")@) {
            Some(v) => Some(spec_bool_flag(v)),
            None => c.auto_update,
        },
        fallback_enabled: spec_env_bool(m, ("ACR_FALLBACK_ENABLED")@, c.fallback_enabled),
        track_generated_commits: spec_env_bool(
            m,
            ("ACR_TRACK_GENERATED_COMMITS")@,
            c.track_generated_commits,
        ),
    }
}

impl AppConfig {
    /// Apply an environment snapshot (a list of key/value pairs gathered
    /// by the binary layer from a local settings file or the process
    /// environment) over this configuration.
    pub fn apply_env_map(&mut self, entries: &Vec<(String, String)>)
        ensures
            final(self)@ == spec_apply_env(old(self)@, spec_entries(entries@)),
    {
        let applied = AppConfig {
            provider: env_str(entries, "ACR_PROVIDER", &self.provider),
            model: env_str(entries, "ACR_MODEL", &self.model),
            api_key: env_str(entries, "ACR_API_KEY", &self.api_key),
            api_url: env_str(entries, "ACR_API_URL", &self.api_url),
            api_headers: env_str(entries, "ACR_API_HEADERS", &self.api_headers),
            locale: env_str(entries, "ACR_LOCALE", &self.locale),
            one_liner: env_bool(entries, "ACR_ONE_LINER", self.one_liner),
            commit_template: env_str(entries, "ACR_COMMIT_TEMPLATE", &self.commit_template),
            llm_system_prompt: env_str(entries, "ACR_LLM_SYSTEM_PROMPT", &self.llm_system_prompt),
            use_gitmoji: env_bool(entries, "ACR_USE_GITMOJI", self.use_gitmoji),
            gitmoji_format: env_str(entries, "ACR_GITMOJI_FORMAT", &self.gitmoji_format),
            review_commit: env_bool(entries, "ACR_REVIEW_COMMIT", self.review_commit),
            post_commit_push: match env_lookup(entries, "ACR_POST_COMMIT_PUSH") {
                Some(v) => normalize_post_commit_push(v.as_str()),
                None => self.post_commit_push.clone(),
            },
            suppress_tool_output: env_bool(
                entries,
                "ACR_SUPPRESS_TOOL_OUTPUT",
                self.suppress_tool_output,
            ),
            warn_staged_files_enabled: env_bool(
                entries,
                "ACR_WARN_STAGED_FILES_ENABLED",
                self.warn_staged_files_enabled,
            ),
            warn_staged_files_threshold: match env_lookup(
                entries,
                "ACR_WARN_STAGED_FILES_THRESHOLD",
            ) {
                Some(v) => parse_usize_or_default(
                    v.as_str(),
                    default_warn_staged_files_threshold(),
                ),
                None => self.warn_staged_files_threshold,
            },
            confirm_new_version: env_bool(
                entries,
                "ACR_CONFIRM_NEW_VERSION",
                self.confirm_new_version,
            ),
            auto_update: match env_lookup(entries, "ACR_AUTO_UPDATE") {
                Some(v) => Some(parse_bool_flag(v.as_str())),
                None => self.auto_update,
            },
            fallback_enabled: env_bool(entries, "ACR_FALLBACK_ENABLED", self.fallback_enabled),
            track_generated_commits: env_bool(
                entries,
                "ACR_TRACK_GENERATED_COMMITS",
                self.track_generated_commits,
            ),
        };
        *self = applied;
    }
}

/// Accept a locale when it is the built-in `"en"` or when matching i18n
/// resources were found (the binary layer checks the filesystem and
/// passes the answer in).
pub fn validate_locale(locale: &str, has_i18n: bool) -> (r: Result<(), ConfigError>)
    ensures
        r is Ok <==> (locale@ == ("en")@ || has_i18n),
        r is Err ==> r == Result::<(), ConfigError>::Err(ConfigError::UnsupportedLocale),
{
    if str_eq(locale, "en") || has_i18n {
        Ok(())
    } else {
        Err(ConfigError::UnsupportedLocale)
    }
}

/// The help text of each settable field, addressed by its suffix; empty
/// for an unknown suffix.
pub open spec fn spec_field_description(suffix: Seq<char>) -> Seq<char> {
    if suffix == ("PROVIDER")@ {
        ("LLM provider (gemini, openai, anthropic, groq, or custom)")@
    } else if suffix == ("MODEL")@ {
        ("Model identifier for the selected provider")@
    } else if suffix == ("API_KEY")@ {
        ("API key for authenticating with the LLM provider")@
    } else if suffix == ("API_URL")@ {
        ("Custom API endpoint URL (leave empty to use provider default)")@
    } else if suffix == ("API_HEADERS")@ {
        ("Additional HTTP headers for API requests (JSON format)")@
    } else if suffix == ("LOCALE")@ {
        ("Language locale for commit messages (e.g., en, pt-br)")@
    } else if suffix == ("ONE_LINER")@ {
        ("Generate single-line commit messages when enabled")@
    } else if suffix == ("COMMIT_TEMPLATE")@ {
        ("Template for commit message ($msg is replaced with generated text)")@
    } else if suffix == ("LLM_SYSTEM_PROMPT")@ {
        ("System prompt sent to the LLM for context")@
    } else if suffix == ("USE_GITMOJI")@ {
        ("Prepend gitmoji to commit messages when enabled")@
    } else if suffix == ("GITMOJI_FORMAT")@ {
        ("Gitmoji style: unicode (\u{1f3a8}) or shortcode (:art:)")@
    } else if suffix == ("REVIEW_COMMIT")@ {
        ("Review and approve commit message before creating commit")@
    } else if suffix == ("POST_COMMIT_PUSH")@ {
        ("Push behavior after commit: ask, always, or never")@
    } else if suffix == ("SUPPRESS_TOOL_OUTPUT")@ {
        ("Hide git command output when enabled")@
    } else if suffix == ("WARN_STAGED_FILES_ENABLED")@ {
        ("Warn when staged file count exceeds threshold")@
    } else if suffix == ("WARN_STAGED_FILES_THRESHOLD")@ {
        ("Number of staged files before warning is shown")@
    } else if suffix == ("CONFIRM_NEW_VERSION")@ {
        ("Ask for confirmation before creating version tags")@
    } else if suffix == ("AUTO_UPDATE")@ {
        ("Automatically update cgen when new versions are available")@
    } else if suffix == ("FALLBACK_ENABLED")@ {
        ("Try fallback presets if primary LLM call fails")@
    } else if suffix == ("TRACK_GENERATED_COMMITS")@ {
        ("Track commits generated by cgen for history view")@
    } else {
        Seq::empty()
    }
}

/// Describe a settable field by its environment-variable suffix.
pub fn field_description(suffix: &str) -> (r: &'static str)
    ensures
        r@ == spec_field_description(suffix@),
{
    proof {
        reveal_strlit("");
    }
    if str_eq(suffix, "PROVIDER") {
        "LLM provider (gemini, openai, anthropic, groq, or custom)"
    } else if str_eq(suffix, "MODEL") {
        "Model identifier for the selected provider"
    } else if str_eq(suffix, "API_KEY") {
        "API key for authenticating with the LLM provider"
    } else if str_eq(suffix, "API_URL") {
        "Custom API endpoint URL (leave empty to use provider default)"
    } else if str_eq(suffix, "API_HEADERS") {
        "Additional HTTP headers for API requests (JSON format)"
    } else if str_eq(suffix, "LOCALE") {
        "Language locale for commit messages (e.g., en, pt-br)"
    } else if str_eq(suffix, "ONE_LINER") {
        "Generate single-line commit messages when enabled"
    } else if str_eq(suffix, "COMMIT_TEMPLATE") {
        "Template for commit message ($msg is replaced with generated text)"
    } else if str_eq(suffix, "LLM_SYSTEM_PROMPT") {
        "System prompt sent to the LLM for context"
    } else if str_eq(suffix, "USE_GITMOJI") {
        "Prepend gitmoji to commit messages when enabled"
    } else if str_eq(suffix, "GITMOJI_FORMAT") {
        "Gitmoji style: unicode (\u{1f3a8}) or shortcode (:art:)"
    } else if str_eq(suffix, "REVIEW_COMMIT") {
        "Review and approve commit message before creating commit"
    } else if str_eq(suffix, "POST_COMMIT_PUSH") {
        "Push behavior after commit: ask, always, or never"
    } else if str_eq(suffix, "SUPPRESS_TOOL_OUTPUT") {
        "Hide git command output when enabled"
    } else if str_eq(suffix, "WARN_STAGED_FILES_ENABLED") {
        "Warn when staged file count exceeds threshold"
    } else if str_eq(suffix, "WARN_STAGED_FILES_THRESHOLD") {
        "Number of staged files before warning is shown"
    } else if str_eq(suffix, "CONFIRM_NEW_VERSION") {
        "Ask for confirmation before creating version tags"
    } else if str_eq(suffix, "AUTO_UPDATE") {
        "Automatically update cgen when new versions are available"
    } else if str_eq(suffix, "FALLBACK_ENABLED") {
        "Try fallback presets if primary LLM call fails"
    } else if str_eq(suffix, "TRACK_GENERATED_COMMITS") {
        "Track commits generated by cgen for history view"
    } else {
        ""
    }
}

/// What one line of a local settings file binds: nothing for blank and
/// comment lines and lines without `'='`; otherwise the trimmed key and
/// the trimmed value with surrounding quotes stripped.
pub open spec fn spec_dotenv_entry(line: Seq<char>) -> Option<(Seq<char>, Seq<char>)> {
    let t = spec_trim(line);
    if t.len() == 0 || t.first() == '#' {
        None
    } else {
        match crate::strutil::spec_split_once(t, '=') {
            None => None,
            Some(kv) => Some(
                (
                    spec_trim(kv.0),
                    crate::strutil::spec_trim_char(
                        crate::strutil::spec_trim_char(spec_trim(kv.1), '"'),
                        '\'',
                    ),
                ),
            ),
        }
    }
}

/// The bindings of the first `n` lines, in file order.
pub open spec fn spec_dotenv_entries(lines: Seq<Seq<char>>) -> Seq<(Seq<char>, Seq<char>)>
    decreases lines.len(),
{
    if lines.len() == 0 {
        Seq::empty()
    } else {
        spec_dotenv_entries(lines.drop_last()) + (match spec_dotenv_entry(lines.last()) {
            Some(kv) => seq![kv],
            None => Seq::empty(),
        })
    }
}

/// The bindings of a local settings file's text.
pub open spec fn spec_parse_dotenv(content: Seq<char>) -> Seq<(Seq<char>, Seq<char>)> {
    spec_dotenv_entries(crate::strutil::spec_split_char(content, '\n'))
}

/// Parse the text of a local settings file into key/value bindings, in
/// file order: blank lines, comment lines and lines without `'='` bind
/// nothing; keys and values are trimmed and values lose surrounding
/// quotes. (When a key is bound twice, lookups through `env_lookup` see
/// the later binding.)
pub fn parse_dotenv(content: &str) -> (r: Vec<(String, String)>)
    ensures
        spec_entries(r@) == spec_parse_dotenv(content@),
{
    let lines = crate::strutil::split_char(content, '\n');
    let ghost lv = lines.deep_view();
    let mut r: Vec<(String, String)> = Vec::new();
    let mut i: usize = 0;
    proof {
        assert(spec_entries(r@) =~= spec_dotenv_entries(lv.take(0)));
    }
    while i < lines.len()
        invariant
            0 <= i <= lines@.len() == lv.len(),
            lv == lines.deep_view(),
            spec_entries(r@) == spec_dotenv_entries(lv.take(i as int)),
        decreases lines@.len() - i,
    {
        proof {
            assert(lv.take(i as int + 1).drop_last() =~= lv.take(i as int));
            assert(lv.take(i as int + 1).last() == lv[i as int]);
            assert(lines@[i as int]@ == lv[i as int]);
        }
        let t = trim_str(lines[i].as_str());
        let keep: bool = !t.as_str().is_empty() && !(t.as_str().get_char(0) == '#');
        if keep {
            match crate::strutil::split_once_char(t.as_str(), '=') {
                Some((k, v)) => {
                    let key = trim_str(k.as_str());
                    let vt = trim_str(v.as_str());
                    let vq = crate::strutil::trim_char(vt.as_str(), '"');
                    let val = crate::strutil::trim_char(vq.as_str(), '\'');
                    r.push((key, val));
                    proof {
                        assert(spec_entries(r@) =~= spec_dotenv_entries(
                            lv.take(i as int + 1),
                        ));
                    }
                },
                None => {
                    proof {
                        assert(spec_entries(r@) =~= spec_dotenv_entries(
                            lv.take(i as int + 1),
                        ));
                    }
                },
            }
        } else {
            proof {
                assert(spec_entries(r@) =~= spec_dotenv_entries(lv.take(i as int + 1)));
            }
        }
        i = i + 1;
    }
    proof {
        assert(lv.take(lv.len() as int) =~= lv);
    }
    r
}

/// A subgroup of related settings in the interactive editor.
pub struct FieldSubgroup {
    pub name: &'static str,
    pub fields: Vec<(&'static str, &'static str, String)>,
}

/// A top-level group of settings in the interactive editor.
pub struct FieldGroup {
    pub name: &'static str,
    pub fields: Vec<(&'static str, &'static str, String)>,
    pub subgroups: Vec<FieldSubgroup>,
}

/// `"enabled"` or `"disabled"`.
pub open spec fn spec_flag_label(b: bool) -> Seq<char> {
    if b {
        ("enabled")@
    } else {
        ("disabled")@
    }
}

/// `"enabled"` or `"disabled"`.
fn flag_label(b: bool) -> (r: String)
    ensures
        r@ == spec_flag_label(b),
{
    if b {
        ("enabled").to_owned()
    } else {
        ("disabled").to_owned()
    }
}

/// The display name of the field at position `k` of the settings list.
pub open spec fn spec_display_name(k: int) -> Seq<char> {
    if k == 0 {
        ("Provider")@
    } else if k == 1 {
        ("Model")@
    } else if k == 2 {
        ("API Key")@
    } else if k == 3 {
        ("API URL")@
    } else if k == 4 {
        ("API Headers")@
    } else if k == 5 {
        ("Locale")@
    } else if k == 6 {
        ("One-liner")@
    } else if k == 7 {
        ("Commit Template")@
    } else if k == 8 {
        ("System Prompt")@
    } else if k == 9 {
        ("Use Gitmoji")@
    } else if k == 10 {
        ("Gitmoji Format")@
    } else if k == 11 {
        ("Review Commit")@
    } else if k == 12 {
        ("Post Commit Push")@
    } else if k == 13 {
        ("Suppress Tool Output")@
    } else if k == 14 {
        ("Warn Staged Files")@
    } else if k == 15 {
        ("Staged Warn Threshold")@
    } else if k == 16 {
        ("Confirm New Version")@
    } else if k == 17 {
        ("Auto Update")@
    } else if k == 18 {
        ("Fallback Enabled")@
    } else {
        ("Track Generated Commits")@
    }
}

/// The environment-variable suffix of the field at position `k`.
pub open spec fn spec_display_suffix(k: int) -> Seq<char> {
    if k == 0 {
        ("PROVIDER")@
    } else if k == 1 {
        ("MODEL")@
    } else if k == 2 {
        ("API_KEY")@
    } else if k == 3 {
        ("API_URL")@
    } else if k == 4 {
        ("API_HEADERS")@
    } else if k == 5 {
        ("LOCALE")@
    } else if k == 6 {
        ("ONE_LINER")@
    } else if k == 7 {
        ("COMMIT_TEMPLATE")@
    } else if k == 8 {
        ("LLM_SYSTEM_PROMPT")@
    } else if k == 9 {
        ("USE_GITMOJI")@
    } else if k == 10 {
        ("GITMOJI_FORMAT")@
    } else if k == 11 {
        ("REVIEW_COMMIT")@
    } else if k == 12 {
        ("POST_COMMIT_PUSH")@
    } else if k == 13 {
        ("SUPPRESS_TOOL_OUTPUT")@
    } else if k == 14 {
        ("WARN_STAGED_FILES_ENABLED")@
    } else if k == 15 {
        ("WARN_STAGED_FILES_THRESHOLD")@
    } else if k == 16 {
        ("CONFIRM_NEW_VERSION")@
    } else if k == 17 {
        ("AUTO_UPDATE")@
    } else if k == 18 {
        ("FALLBACK_ENABLED")@
    } else {
        ("TRACK_GENERATED_COMMITS")@
    }
}

/// The displayed value of the field at position `k`: secrets are masked,
/// empty endpoint settings read as automatic, switches as
/// enabled/disabled, the system prompt is shortened, and an unset
/// auto-update preference is shown as not set.
pub open spec fn spec_display_value(c: ConfigView, k: int) -> Seq<char> {
    if k == 0 {
        c.provider
    } else if k == 1 {
        c.model
    } else if k == 2 {
        if c.api_key.len() == 0 {
            ("(not set)")@
        } else {
            spec_mask_key(c.api_key)
        }
    } else if k == 3 {
        if c.api_url.len() == 0 {
            ("(auto from provider)")@
        } else {
            c.api_url
        }
    } else if k == 4 {
        if c.api_headers.len() == 0 {
            ("(auto from provider)")@
        } else {
            c.api_headers
        }
    } else if k == 5 {
        c.locale
    } else if k == 6 {
        spec_flag_label(c.one_liner)
    } else if k == 7 {
        c.commit_template
    } else if k == 8 {
        spec_truncate(c.llm_system_prompt, 60)
    } else if k == 9 {
        spec_flag_label(c.use_gitmoji)
    } else if k == 10 {
        c.gitmoji_format
    } else if k == 11 {
        spec_flag_label(c.review_commit)
    } else if k == 12 {
        spec_normalize_post_commit_push(c.post_commit_push)
    } else if k == 13 {
        spec_flag_label(c.suppress_tool_output)
    } else if k == 14 {
        spec_flag_label(c.warn_staged_files_enabled)
    } else if k == 15 {
        crate::strutil::spec_decimal(c.warn_staged_files_threshold as nat)
    } else if k == 16 {
        spec_flag_label(c.confirm_new_version)
    } else if k == 17 {
        match c.auto_update {
            Some(true) => ("enabled")@,
            Some(false) => ("disabled")@,
            None => ("(not set)")@,
        }
    } else if k == 18 {
        spec_flag_label(c.fallback_enabled)
    } else {
        spec_flag_label(c.track_generated_commits)
    }
}

/// Whether `entry` is the settings-list row at position `k` for
/// configuration `c`.
pub open spec fn spec_is_display_entry(
    c: ConfigView,
    entry: (&'static str, &'static str, String),
    k: int,
) -> bool {
    &&& entry.0@ == spec_display_name(k)
    &&& entry.1@ == spec_display_suffix(k)
    &&& entry.2@ == spec_display_value(c, k)
}

impl AppConfig {
    /// The full settings list for display: one row per field, as
    /// (display name, environment-variable suffix, displayed value).
    pub fn fields_display(&self) -> (r: Vec<(&'static str, &'static str, String)>)
        ensures
            r@.len() == 20,
            forall|k: int| 0 <= k < 20 ==> spec_is_display_entry(self@, #[trigger] r@[k], k),
    {
        let mut r: Vec<(&'static str, &'static str, String)> = Vec::new();
        r.push(("Provider", "PROVIDER", self.provider.clone()));
        r.push(("Model", "MODEL", self.model.clone()));
        r.push(
            (
                "API Key",
                "API_KEY",
                if self.api_key.as_str().is_empty() {
                    ("(not set)").to_owned()
                } else {
                    mask_key(self.api_key.as_str())
                },
            ),
        );
        r.push(
            (
                "API URL",
                "API_URL",
                if self.api_url.as_str().is_empty() {
                    ("(auto from provider)").to_owned()
                } else {
                    self.api_url.clone()
                },
            ),
        );
        r.push(
            (
                "API Headers",
                "API_HEADERS",
                if self.api_headers.as_str().is_empty() {
                    ("(auto from provider)").to_owned()
                } else {
                    self.api_headers.clone()
                },
            ),
        );
        r.push(("Locale", "LOCALE", self.locale.clone()));
        r.push(("One-liner", "ONE_LINER", flag_label(self.one_liner)));
        r.push(("Commit Template", "COMMIT_TEMPLATE", self.commit_template.clone()));
        r.push(
            ("System Prompt", "LLM_SYSTEM_PROMPT", truncate(self.llm_system_prompt.as_str(), 60)),
        );
        r.push(("Use Gitmoji", "USE_GITMOJI", flag_label(self.use_gitmoji)));
        r.push(("Gitmoji Format", "GITMOJI_FORMAT", self.gitmoji_format.clone()));
        r.push(("Review Commit", "REVIEW_COMMIT", flag_label(self.review_commit)));
        r.push(
            (
                "Post Commit Push",
                "POST_COMMIT_PUSH",
                normalize_post_commit_push(self.post_commit_push.as_str()),
            ),
        );
        r.push(
            ("Suppress Tool Output", "SUPPRESS_TOOL_OUTPUT", flag_label(self.suppress_tool_output)),
        );
        r.push(
            (
                "Warn Staged Files",
                "WARN_STAGED_FILES_ENABLED",
                flag_label(self.warn_staged_files_enabled),
            ),
        );
        r.push(
            (
                "Staged Warn Threshold",
                "WARN_STAGED_FILES_THRESHOLD",
                crate::strutil::u64_to_string(self.warn_staged_files_threshold as u64),
            ),
        );
        r.push(("Confirm New Version", "CONFIRM_NEW_VERSION", flag_label(self.confirm_new_version)));
        r.push(
            (
                "Auto Update",
                "AUTO_UPDATE",
                match self.auto_update {
                    Some(true) => ("enabled").to_owned(),
                    Some(false) => ("disabled").to_owned(),
                    None => ("(not set)").to_owned(),
                },
            ),
        );
        r.push(("Fallback Enabled", "FALLBACK_ENABLED", flag_label(self.fallback_enabled)));
        r.push(
            (
                "Track Generated Commits",
                "TRACK_GENERATED_COMMITS",
                flag_label(self.track_generated_commits),
            ),
        );
        r
    }

    /// The settings list arranged for the interactive editor: a Basic
    /// group with the provider, model, key and URL rows, and an Advanced
    /// group of four subgroups covering every other row.
    pub fn grouped_fields(&self) -> (r: Vec<FieldGroup>)
        ensures
            r@.len() == 2,
            r@[0].name@ == ("Basic")@,
            r@[0].fields@.len() == 4,
            spec_is_display_entry(self@, r@[0].fields@[0], 0),
            spec_is_display_entry(self@, r@[0].fields@[1], 1),
            spec_is_display_entry(self@, r@[0].fields@[2], 2),
            spec_is_display_entry(self@, r@[0].fields@[3], 3),
            r@[0].subgroups@.len() == 0,
            r@[1].name@ == ("Advanced")@,
            r@[1].fields@.len() == 0,
            r@[1].subgroups@.len() == 4,
            r@[1].subgroups@[0].name@ == ("LLM Settings")@,
            r@[1].subgroups@[0].fields@.len() == 5,
            spec_is_display_entry(self@, r@[1].subgroups@[0].fields@[0], 4),
            spec_is_display_entry(self@, r@[1].subgroups@[0].fields@[1], 5),
            spec_is_display_entry(self@, r@[1].subgroups@[0].fields@[2], 8),
            spec_is_display_entry(self@, r@[1].subgroups@[0].fields@[3], 7),
            spec_is_display_entry(self@, r@[1].subgroups@[0].fields@[4], 18),
            r@[1].subgroups@[1].name@ == ("Commit Behavior")@,
            r@[1].subgroups@[1].fields@.len() == 5,
            spec_is_display_entry(self@, r@[1].subgroups@[1].fields@[0], 6),
            spec_is_display_entry(self@, r@[1].subgroups@[1].fields@[1], 9),
            spec_is_display_entry(self@, r@[1].subgroups@[1].fields@[2], 10),
            spec_is_display_entry(self@, r@[1].subgroups@[1].fields@[3], 11),
            spec_is_display_entry(self@, r@[1].subgroups@[1].fields@[4], 19),
            r@[1].subgroups@[2].name@ == ("Post-Commit")@,
            r@[1].subgroups@[2].fields@.len() == 2,
            spec_is_display_entry(self@, r@[1].subgroups@[2].fields@[0], 12),
            spec_is_display_entry(self@, r@[1].subgroups@[2].fields@[1], 13),
            r@[1].subgroups@[3].name@ == ("Warnings & Updates")@,
            r@[1].subgroups@[3].fields@.len() == 4,
            spec_is_display_entry(self@, r@[1].subgroups@[3].fields@[0], 14),
            spec_is_display_entry(self@, r@[1].subgroups@[3].fields@[1], 15),
            spec_is_display_entry(self@, r@[1].subgroups@[3].fields@[2], 16),
            spec_is_display_entry(self@, r@[1].subgroups@[3].fields@[3], 17),
    {
        let d = self.fields_display();
        let mut basic: Vec<(&'static str, &'static str, String)> = Vec::new();
        basic.push(display_entry(&d, 0));
        basic.push(display_entry(&d, 1));
        basic.push(display_entry(&d, 2));
        basic.push(display_entry(&d, 3));
        let mut llm: Vec<(&'static str, &'static str, String)> = Vec::new();
        llm.push(display_entry(&d, 4));
        llm.push(display_entry(&d, 5));
        llm.push(display_entry(&d, 8));
        llm.push(display_entry(&d, 7));
        llm.push(display_entry(&d, 18));
        let mut commit: Vec<(&'static str, &'static str, String)> = Vec::new();
        commit.push(display_entry(&d, 6));
        commit.push(display_entry(&d, 9));
        commit.push(display_entry(&d, 10));
        commit.push(display_entry(&d, 11));
        commit.push(display_entry(&d, 19));
        let mut post: Vec<(&'static str, &'static str, String)> = Vec::new();
        post.push(display_entry(&d, 12));
        post.push(display_entry(&d, 13));
        let mut warnings: Vec<(&'static str, &'static str, String)> = Vec::new();
        warnings.push(display_entry(&d, 14));
        warnings.push(display_entry(&d, 15));
        warnings.push(display_entry(&d, 16));
        warnings.push(display_entry(&d, 17));
        let mut subgroups: Vec<FieldSubgroup> = Vec::new();
        subgroups.push(FieldSubgroup { name: "LLM Settings", fields: llm });
        subgroups.push(FieldSubgroup { name: "Commit Behavior", fields: commit });
        subgroups.push(FieldSubgroup { name: "Post-Commit", fields: post });
        subgroups.push(FieldSubgroup { name: "Warnings & Updates", fields: warnings });
        let mut r: Vec<FieldGroup> = Vec::new();
        r.push(FieldGroup { name: "Basic", fields: basic, subgroups: Vec::new() });
        r.push(FieldGroup { name: "Advanced", fields: Vec::new(), subgroups });
        r
    }
}

/// Copy one row of the settings list.
fn display_entry(
    d: &Vec<(&'static str, &'static str, String)>,
    k: usize,
) -> (r: (&'static str, &'static str, String))
    requires
        k < d@.len(),
    ensures
        r.0 == d@[k as int].0,
        r.1 == d@[k as int].1,
        r.2@ == d@[k as int].2@,
{
    let entry = &d[k];
    (entry.0, entry.1, entry.2.clone())
}

} // verus!
