//! The provider table and request-resolution rules: which endpoint,
//! headers, default model, payload format and response path each built-in
//! provider uses; how a configuration resolves to a concrete request
//! target; custom header parsing; and the fallback order over presets.
//! The HTTP calls themselves are made by the binary layer.

use vstd::prelude::*;
use crate::config::AppConfig;
use crate::preset::{Preset, PresetsFile, LlmPresetFields, spec_dedup_eq, spec_find_by_id, find_by_id};
use crate::strutil::{
    spec_trim, spec_split_char, spec_split_once, spec_decimal, trim_str, split_char,
    split_once_char, str_eq, u64_to_string,
};

verus! {

/// The request payload shape a provider expects.
#[derive(Debug, Clone, Copy, PartialEq, Eq, Structural)]
pub enum RequestFormat {
    Gemini,
    OpenAiCompat,
    Anthropic,
}

/// A built-in provider: endpoint, headers, default model, payload format
/// and the dotted path of the message inside the response.
pub struct ProviderDef {
    pub api_url: &'static str,
    pub api_headers: &'static str,
    pub default_model: &'static str,
    pub format: RequestFormat,
    pub response_path: &'static str,
}

/// Errors surfaced when a configuration cannot be resolved to a request
/// target.
#[derive(Debug, PartialEq, Eq, Structural)]
pub enum ProviderError {
    /// The provider is not built in and no endpoint URL is configured.
    UnknownProviderWithoutUrl,
}

/// Whether `name` names a built-in provider.
pub open spec fn spec_known_provider(name: Seq<char>) -> bool {
    ||| name == ("gemini")@
    ||| name == ("openai")@
    ||| name == ("anthropic")@
    ||| name == ("groq")@
    ||| name == ("grok")@
    ||| name == ("deepseek")@
    ||| name == ("openrouter")@
    ||| name == ("mistral")@
    ||| name == ("together")@
    ||| name == ("fireworks")@
    ||| name == ("perplexity")@
}

/// The default model of each built-in provider; empty for others.
pub open spec fn spec_default_model(name: Seq<char>) -> Seq<char> {
    if name == ("gemini")@ {
        ("gemini-2.0-flash")@
    } else if name == ("openai")@ {
        ("gpt-4o-mini")@
    } else if name == ("anthropic")@ {
        ("sonnet-4-20250514")@
    } else if name == ("groq")@ {
        ("llama-3.3-70b-versatile")@
    } else if name == ("grok")@ {
        ("grok-3")@
    } else if name == ("deepseek")@ {
        ("deepseek-chat")@
    } else if name == ("openrouter")@ {
        ("openai/gpt-4o-mini")@
    } else if name == ("mistral")@ {
        ("mistral-small-latest")@
    } else if name == ("together")@ {
        ("meta-llama/Llama-3.3-70B-Instruct-Turbo")@
    } else if name == ("fireworks")@ {
        ("accounts/fireworks/models/llama-v3p3-70b-instruct")@
    } else if name == ("perplexity")@ {
        ("sonar")@
    } else {
        Seq::empty()
    }
}

/// The endpoint of each built-in provider; empty for others.
pub open spec fn spec_provider_url(name: Seq<char>) -> Seq<char> {
    if name == ("gemini")@ {
        ("https://generativelanguage.googleapis.com/v1beta/models/$ACR_MODEL:generateContent?key=$ACR_API_KEY")@
    } else if name == ("openai")@ {
        ("https://api.openai.com/v1/chat/completions")@
    } else if name == ("anthropic")@ {
        ("https://api.anthropic.com/v1/messages")@
    } else if name == ("groq")@ {
        ("https://api.groq.com/openai/v1/chat/completions")@
    } else if name == ("grok")@ {
        ("https://api.x.ai/v1/chat/completions")@
    } else if name == ("deepseek")@ {
        ("https://api.deepseek.com/v1/chat/completions")@
    } else if name == ("openrouter")@ {
        ("https://openrouter.ai/api/v1/chat/completions")@
    } else if name == ("mistral")@ {
        ("https://api.mistral.ai/v1/chat/completions")@
    } else if name == ("together")@ {
        ("https://api.together.xyz/v1/chat/completions")@
    } else if name == ("fireworks")@ {
        ("https://api.fireworks.ai/inference/v1/chat/completions")@
    } else if name == ("perplexity")@ {
        ("https://api.perplexity.ai/chat/completions")@
    } else {
        Seq::empty()
    }
}

/// The default headers of each built-in provider; empty for others.
/// Every OpenAI-compatible provider uses a bearer authorization header;
/// gemini carries its key in the URL, anthropic in its own headers.
pub open spec fn spec_provider_headers(name: Seq<char>) -> Seq<char> {
    if name == ("gemini")@ {
        Seq::empty()
    } else if name == ("anthropic")@ {
        ("x-api-key: $ACR_API_KEY, anthropic-version: 2023-06-01")@
    } else if spec_known_provider(name) {
        ("Authorization: Bearer $ACR_API_KEY")@
    } else {
        Seq::empty()
    }
}

/// The payload format of each built-in provider; OpenAI-compatible for
/// others.
pub open spec fn spec_provider_format(name: Seq<char>) -> RequestFormat {
    if name == ("gemini")@ {
        RequestFormat::Gemini
    } else if name == ("anthropic")@ {
        RequestFormat::Anthropic
    } else {
        RequestFormat::OpenAiCompat
    }
}

/// The dotted response path of each built-in provider.
pub open spec fn spec_provider_response_path(name: Seq<char>) -> Seq<char> {
    if name == ("gemini")@ {
        ("candidates.0.content.parts.0.text")@
    } else if name == ("anthropic")@ {
        ("content.0.text")@
    } else {
        ("choices.0.message.content")@
    }
}

/// Look up a built-in provider by name.
pub fn get_provider(name: &str) -> (r: Option<ProviderDef>)
    ensures
        r is Some <==> spec_known_provider(name@),
        r matches Some(d) ==> {
            &&& d.api_url@ == spec_provider_url(name@)
            &&& d.api_headers@ == spec_provider_headers(name@)
            &&& d.default_model@ == spec_default_model(name@)
            &&& d.format == spec_provider_format(name@)
            &&& d.response_path@ == spec_provider_response_path(name@)
        },
{
    proof {
        reveal_strlit("");
        assert(("")@ =~= Seq::<char>::empty());
    }
    if str_eq(name, "gemini") {
        Some(
            ProviderDef {
                api_url: "https://generativelanguage.googleapis.com/v1beta/models/$ACR_MODEL:generateContent?key=$ACR_API_KEY",
                api_headers: "",
                default_model: "gemini-2.0-flash",
                format: RequestFormat::Gemini,
                response_path: "candidates.0.content.parts.0.text",
            },
        )
    } else if str_eq(name, "openai") {
        proof {
            reveal_strlit("openai");
            reveal_strlit("anthropic");
            assert(("openai")@.len() == 6);
            assert(("anthropic")@.len() == 9);
            assert(("openai")@ != ("anthropic")@);
        }
        Some(
            ProviderDef {
                api_url: "https://api.openai.com/v1/chat/completions",
                api_headers: "Authorization: Bearer $ACR_API_KEY",
                default_model: "gpt-4o-mini",
                format: RequestFormat::OpenAiCompat,
                response_path: "choices.0.message.content",
            },
        )
    } else if str_eq(name, "anthropic") {
        Some(
            ProviderDef {
                api_url: "https://api.anthropic.com/v1/messages",
                api_headers: "x-api-key: $ACR_API_KEY, anthropic-version: 2023-06-01",
                default_model: "sonnet-4-20250514",
                format: RequestFormat::Anthropic,
                response_path: "content.0.text",
            },
        )
    } else if str_eq(name, "groq") {
        Some(
            ProviderDef {
                api_url: "https://api.groq.com/openai/v1/chat/completions",
                api_headers: "Authorization: Bearer $ACR_API_KEY",
                default_model: "llama-3.3-70b-versatile",
                format: RequestFormat::OpenAiCompat,
                response_path: "choices.0.message.content",
            },
        )
    } else if str_eq(name, "grok") {
        Some(
            ProviderDef {
                api_url: "https://api.x.ai/v1/chat/completions",
                api_headers: "Authorization: Bearer $ACR_API_KEY",
                default_model: "grok-3",
                format: RequestFormat::OpenAiCompat,
                response_path: "choices.0.message.content",
            },
        )
    } else if str_eq(name, "deepseek") {
        Some(
            ProviderDef {
                api_url: "https://api.deepseek.com/v1/chat/completions",
                api_headers: "Authorization: Bearer $ACR_API_KEY",
                default_model: "deepseek-chat",
                format: RequestFormat::OpenAiCompat,
                response_path: "choices.0.message.content",
            },
        )
    } else if str_eq(name, "openrouter") {
        Some(
            ProviderDef {
                api_url: "https://openrouter.ai/api/v1/chat/completions",
                api_headers: "Authorization: Bearer $ACR_API_KEY",
                default_model: "openai/gpt-4o-mini",
                format: RequestFormat::OpenAiCompat,
                response_path: "choices.0.message.content",
            },
        )
    } else if str_eq(name, "mistral") {
        Some(
            ProviderDef {
                api_url: "https://api.mistral.ai/v1/chat/completions",
                api_headers: "Authorization: Bearer $ACR_API_KEY",
                default_model: "mistral-small-latest",
                format: RequestFormat::OpenAiCompat,
                response_path: "choices.0.message.content",
            },
        )
    } else if str_eq(name, "together") {
        Some(
            ProviderDef {
                api_url: "https://api.together.xyz/v1/chat/completions",
                api_headers: "Authorization: Bearer $ACR_API_KEY",
                default_model: "meta-llama/Llama-3.3-70B-Instruct-Turbo",
                format: RequestFormat::OpenAiCompat,
                response_path: "choices.0.message.content",
            },
        )
    } else if str_eq(name, "fireworks") {
        Some(
            ProviderDef {
                api_url: "https://api.fireworks.ai/inference/v1/chat/completions",
                api_headers: "Authorization: Bearer $ACR_API_KEY",
                default_model: "accounts/fireworks/models/llama-v3p3-70b-instruct",
                format: RequestFormat::OpenAiCompat,
                response_path: "choices.0.message.content",
            },
        )
    } else if str_eq(name, "perplexity") {
        Some(
            ProviderDef {
                api_url: "https://api.perplexity.ai/chat/completions",
                api_headers: "Authorization: Bearer $ACR_API_KEY",
                default_model: "sonar",
                format: RequestFormat::OpenAiCompat,
                response_path: "choices.0.message.content",
            },
        )
    } else {
        None
    }
}

/// The default model for a built-in provider, or an empty string for an
/// unknown one.
pub fn default_model_for(provider: &str) -> (r: &'static str)
    ensures
        r@ == spec_default_model(provider@),
{
    proof {
        reveal_strlit("");
    }
    match get_provider(provider) {
        Some(d) => d.default_model,
        None => "",
    }
}

/// Resolve a configuration to a request target: a built-in provider's
/// endpoint and headers stand in wherever the configuration leaves its
/// own empty; an unknown provider requires a configured endpoint and is
/// treated as OpenAI-compatible.
pub fn resolve_provider(cfg: &AppConfig) -> (r: Result<
    (String, String, RequestFormat, String),
    ProviderError,
>)
    ensures
        r is Err <==> (!spec_known_provider(cfg.provider@) && cfg.api_url@.len() == 0),
        r is Err ==> r == Result::<
            (String, String, RequestFormat, String),
            ProviderError,
        >::Err(ProviderError::UnknownProviderWithoutUrl),
        r matches Ok(t) ==> {
            &&& t.0@ == (if cfg.api_url@.len() > 0 {
                cfg.api_url@
            } else {
                spec_provider_url(cfg.provider@)
            })
            &&& t.1@ == (if cfg.api_headers@.len() > 0 {
                cfg.api_headers@
            } else {
                spec_provider_headers(cfg.provider@)
            })
            &&& t.2 == (if spec_known_provider(cfg.provider@) {
                spec_provider_format(cfg.provider@)
            } else {
                RequestFormat::OpenAiCompat
            })
            &&& t.3@ == (if spec_known_provider(cfg.provider@) {
                spec_provider_response_path(cfg.provider@)
            } else {
                ("choices.0.message.content")@
            })
        },
{
    match get_provider(cfg.provider.as_str()) {
        Some(def) => {
            let url = if cfg.api_url.as_str().is_empty() {
                def.api_url.to_owned()
            } else {
                cfg.api_url.clone()
            };
            let headers = if cfg.api_headers.as_str().is_empty() {
                def.api_headers.to_owned()
            } else {
                cfg.api_headers.clone()
            };
            Ok((url, headers, def.format, def.response_path.to_owned()))
        },
        None => {
            if cfg.api_url.as_str().is_empty() {
                Err(ProviderError::UnknownProviderWithoutUrl)
            } else {
                Ok(
                    (
                        cfg.api_url.clone(),
                        cfg.api_headers.clone(),
                        RequestFormat::OpenAiCompat,
                        ("choices.0.message.content").to_owned(),
                    ),
                )
            }
        },
    }
}

/// The header pairs denoted by a raw `"Key: Value, Key2: Value2"`
/// setting: one pair per comma-separated segment that contains a colon,
/// the key and value trimmed; a blank setting denotes no headers.
pub open spec fn spec_header_pairs(parts: Seq<Seq<char>>) -> Seq<(Seq<char>, Seq<char>)>
    decreases parts.len(),
{
    if parts.len() == 0 {
        Seq::empty()
    } else {
        spec_header_pairs(parts.drop_last()) + (match spec_split_once(
            spec_trim(parts.last()),
            ':',
        ) {
            Some(kv) => seq![(spec_trim(kv.0), spec_trim(kv.1))],
            None => Seq::empty(),
        })
    }
}

/// The header pairs of a raw header setting.
pub open spec fn spec_parse_headers(raw: Seq<char>) -> Seq<(Seq<char>, Seq<char>)> {
    if spec_trim(raw).len() == 0 {
        Seq::empty()
    } else {
        spec_header_pairs(spec_split_char(raw, ','))
    }
}

/// Parse a raw header setting into key/value pairs.
pub fn parse_headers(raw: &str) -> (r: Vec<(String, String)>)
    ensures
        crate::config::spec_entries(r@) == spec_parse_headers(raw@),
{
    let t = trim_str(raw);
    if t.as_str().is_empty() {
        let r: Vec<(String, String)> = Vec::new();
        proof {
            assert(crate::config::spec_entries(r@) =~= spec_parse_headers(raw@));
        }
        return r;
    }
    let parts = split_char(raw, ',');
    let ghost pv = parts.deep_view();
    let mut r: Vec<(String, String)> = Vec::new();
    let mut i: usize = 0;
    proof {
        assert(crate::config::spec_entries(r@) =~= spec_header_pairs(pv.take(0)));
    }
    while i < parts.len()
        invariant
            0 <= i <= parts@.len() == pv.len(),
            pv == parts.deep_view(),
            crate::config::spec_entries(r@) == spec_header_pairs(pv.take(i as int)),
        decreases parts@.len() - i,
    {
        proof {
            assert(pv.take(i as int + 1).drop_last() =~= pv.take(i as int));
            assert(pv.take(i as int + 1).last() == pv[i as int]);
            assert(parts@[i as int]@ == pv[i as int]);
        }
        let pair = trim_str(parts[i].as_str());
        match split_once_char(pair.as_str(), ':') {
            Some((k, v)) => {
                let kt = trim_str(k.as_str());
                let vt = trim_str(v.as_str());
                r.push((kt, vt));
                proof {
                    assert(crate::config::spec_entries(r@) =~= spec_header_pairs(
                        pv.take(i as int + 1),
                    ));
                }
            },
            None => {
                proof {
                    assert(crate::config::spec_entries(r@) =~= spec_header_pairs(
                        pv.take(i as int + 1),
                    ));
                }
            },
        }
        i = i + 1;
    }
    proof {
        assert(pv.take(pv.len() as int) =~= pv);
    }
    r
}

/// Errors from one language-model call, as the binary layer reports
/// them: a non-success HTTP status with its body, a transport failure,
/// or anything else.
pub enum LlmCallError {
    HttpError { code: u16, body: String },
    TransportError(String),
    Other(String),
}

impl LlmCallError {
    /// The human-readable rendering of the error.
    pub fn message(&self) -> (r: String)
        ensures
            self matches LlmCallError::HttpError { code, body } ==> r@ == (
            "API returned HTTP ")@ + spec_decimal(code as nat) + (": ")@ + body@,
            self matches LlmCallError::TransportError(m) ==> r@ == ("Network error: ")@
                + m@,
            self matches LlmCallError::Other(m) ==> r@ == m@,
    {
        match self {
            LlmCallError::HttpError { code, body } => {
                let mut s = ("API returned HTTP ").to_owned();
                let code_s = u64_to_string(*code as u64);
                s.append(code_s.as_str());
                s.append(": ");
                s.append(body.as_str());
                s
            },
            LlmCallError::TransportError(m) => {
                let mut s = ("Network error: ").to_owned();
                s.append(m.as_str());
                s
            },
            LlmCallError::Other(m) => m.clone(),
        }
    }
}

/// The JSON escape of one character: quote, backslash and the named
/// control characters get their two-character escapes, other control
/// characters a four-digit escape, everything else stands as it is.
pub open spec fn spec_json_escape_char(c: char) -> Seq<char> {
    if c == '"' {
        seq!['\\', '"']
    } else if c == '\\' {
        seq!['\\', '\\']
    } else if c == '\u{8}' {
        seq!['\\', 'b']
    } else if c == '\u{c}' {
        seq!['\\', 'f']
    } else if c == '\n' {
        seq!['\\', 'n']
    } else if c == '\r' {
        seq!['\\', 'r']
    } else if c == '\t' {
        seq!['\\', 't']
    } else if (c as nat) < 32 {
        seq!['\\', 'u', '0', '0', crate::cache::spec_hex_digit((c as nat) / 16), crate::cache::spec_hex_digit((c as nat) % 16)]
    } else {
        seq![c]
    }
}

/// The JSON escape of a text.
pub open spec fn spec_json_escape(s: Seq<char>) -> Seq<char>
    decreases s.len(),
{
    if s.len() == 0 {
        Seq::empty()
    } else {
        spec_json_escape(s.drop_last()) + spec_json_escape_char(s.last())
    }
}

/// Append one character's JSON escape.
fn push_json_escape(cs: &mut Vec<char>, c: char)
    ensures
        final(cs)@ == old(cs)@ + spec_json_escape_char(c),
{
    if c == '"' {
        cs.push('\\');
        cs.push('"');
    } else if c == '\\' {
        cs.push('\\');
        cs.push('\\');
    } else if c == '\u{8}' {
        cs.push('\\');
        cs.push('b');
    } else if c == '\u{c}' {
        cs.push('\\');
        cs.push('f');
    } else if c == '\n' {
        cs.push('\\');
        cs.push('n');
    } else if c == '\r' {
        cs.push('\\');
        cs.push('r');
    } else if c == '\t' {
        cs.push('\\');
        cs.push('t');
    } else if (c as u32) < 32 {
        cs.push('\\');
        cs.push('u');
        cs.push('0');
        cs.push('0');
        cs.push(crate::cache::hex_digit(((c as u32) / 16) as u64));
        cs.push(crate::cache::hex_digit(((c as u32) % 16) as u64));
    } else {
        cs.push(c);
    }
    proof {
        assert(cs@ =~= old(cs)@ + spec_json_escape_char(c));
    }
}

/// Escape a text for inclusion in a JSON string literal.
pub fn json_escape(s: &str) -> (r: String)
    ensures
        r@ == spec_json_escape(s@),
{
    let n = s.unicode_len();
    let mut cs: Vec<char> = Vec::new();
    let mut i: usize = 0;
    while i < n
        invariant
            0 <= i <= n == s@.len(),
            cs@ == spec_json_escape(s@.take(i as int)),
        decreases n - i,
    {
        proof {
            assert(s@.take(i as int + 1).drop_last() =~= s@.take(i as int));
            assert(s@.take(i as int + 1).last() == s@[i as int]);
        }
        push_json_escape(&mut cs, s.get_char(i));
        i = i + 1;
    }
    proof {
        assert(s@.take(n as int) =~= s@);
    }
    crate::strutil::chars_to_string(&cs)
}

/// The request payload for a provider that takes the model's payload
/// shape, as JSON text.
pub open spec fn spec_request_body(
    format: RequestFormat,
    model: Seq<char>,
    system_prompt: Seq<char>,
    diff: Seq<char>,
) -> Seq<char> {
    match format {
        RequestFormat::Gemini => ("{\"system_instruction\":{\"parts\":[{\"text\":\"")@
            + spec_json_escape(system_prompt)
            + ("\"}]},\"contents\":[{\"role\":\"user\",\"parts\":[{\"text\":\"")@
            + spec_json_escape(diff)
            + ("\"}]}],\"generationConfig\":{\"temperature\":0}}")@,
        RequestFormat::OpenAiCompat => ("{\"model\":\"")@ + spec_json_escape(model) + (
        "\",\"messages\":[{\"role\":\"system\",\"content\":\"")@ + spec_json_escape(
            system_prompt,
        ) + ("\"},{\"role\":\"user\",\"content\":\"")@ + spec_json_escape(diff) + (
        "\"}],\"max_tokens\":512,\"temperature\":0}")@,
        RequestFormat::Anthropic => ("{\"model\":\"")@ + spec_json_escape(model) + (
        "\",\"system\":\"")@ + spec_json_escape(system_prompt) + (
        "\",\"messages\":[{\"role\":\"user\",\"content\":\"")@ + spec_json_escape(diff)
            + ("\"}],\"max_tokens\":512}")@,
    }
}

/// Build the JSON request payload for one model call. The caller-supplied
/// texts land only inside string literals, escaped, so their content can
/// never change the payload's structure.
pub fn build_request_body(
    format: RequestFormat,
    model: &str,
    system_prompt: &str,
    diff: &str,
) -> (r: String)
    ensures
        r@ == spec_request_body(format, model@, system_prompt@, diff@),
{
    let sys = json_escape(system_prompt);
    let body = json_escape(diff);
    match format {
        RequestFormat::Gemini => {
            let mut s = ("{\"system_instruction\":{\"parts\":[{\"text\":\"").to_owned();
            s.append(sys.as_str());
            s.append("\"}]},\"contents\":[{\"role\":\"user\",\"parts\":[{\"text\":\"");
            s.append(body.as_str());
            s.append("\"}]}],\"generationConfig\":{\"temperature\":0}}");
            proof {
                assert(s@ =~= spec_request_body(format, model@, system_prompt@, diff@));
            }
            s
        },
        RequestFormat::OpenAiCompat => {
            let mdl = json_escape(model);
            let mut s = ("{\"model\":\"").to_owned();
            s.append(mdl.as_str());
            s.append("\",\"messages\":[{\"role\":\"system\",\"content\":\"");
            s.append(sys.as_str());
            s.append("\"},{\"role\":\"user\",\"content\":\"");
            s.append(body.as_str());
            s.append("\"}],\"max_tokens\":512,\"temperature\":0}");
            proof {
                assert(s@ =~= spec_request_body(format, model@, system_prompt@, diff@));
            }
            s
        },
        RequestFormat::Anthropic => {
            let mdl = json_escape(model);
            let mut s = ("{\"model\":\"").to_owned();
            s.append(mdl.as_str());
            s.append("\",\"system\":\"");
            s.append(sys.as_str());
            s.append("\",\"messages\":[{\"role\":\"user\",\"content\":\"");
            s.append(body.as_str());
            s.append("\"}],\"max_tokens\":512}");
            proof {
                assert(s@ =~= spec_request_body(format, model@, system_prompt@, diff@));
            }
            s
        },
    }
}

/// A JSON document, as the response walk reads it. The binary layer
/// converts the wire format into this tree; object entries keep their
/// order of appearance.
#[derive(Debug)]
pub enum JsonNode {
    Null,
    Boolean(bool),
    /// A number, kept as its rendered text: the response walk never
    /// reads numbers, only carries them.
    Number(String),
    Text(String),
    Items(Vec<JsonNode>),
    Entries(Vec<(String, JsonNode)>),
}

/// Errors of the response walk.
#[derive(Debug, PartialEq, Eq, Structural)]
pub enum PathError {
    /// A path segment selected nothing: an index out of bounds, a key
    /// that does not occur, or a segment applied to the wrong kind of
    /// node.
    SegmentNotFound,
    /// The walk ended on a node that is not a string.
    NotAString,
}

/// Whether a path segment reads as an array index: a non-empty run of
/// digits whose value fits.
pub open spec fn spec_is_index_seg(seg: Seq<char>) -> bool {
    seg.len() > 0 && crate::strutil::spec_all_digits(seg)
        && crate::strutil::spec_digits_value(seg) <= usize::MAX
}

/// The first entry of an object with key `key`, if any.
pub open spec fn spec_entry_lookup(es: Seq<(String, JsonNode)>, key: Seq<char>) -> Option<JsonNode>
    decreases es.len(),
{
    if es.len() == 0 {
        None
    } else if es.first().0@ == key {
        Some(es.first().1)
    } else {
        spec_entry_lookup(es.drop_first(), key)
    }
}

/// The node a dotted path selects: numeric segments index arrays, other
/// segments look keys up in objects; anything else selects nothing.
pub open spec fn spec_walk(node: JsonNode, segs: Seq<Seq<char>>) -> Option<JsonNode>
    decreases segs.len(),
{
    if segs.len() == 0 {
        Some(node)
    } else {
        let seg = segs.first();
        match node {
            JsonNode::Items(items) => if spec_is_index_seg(seg)
                && crate::strutil::spec_digits_value(seg) < items@.len() {
                spec_walk(
                    items@[crate::strutil::spec_digits_value(seg) as int],
                    segs.drop_first(),
                )
            } else {
                None
            },
            JsonNode::Entries(es) => if spec_is_index_seg(seg) {
                None
            } else {
                match spec_entry_lookup(es@, seg) {
                    Some(child) => spec_walk(child, segs.drop_first()),
                    None => None,
                }
            },
            _ => None,
        }
    }
}

/// What extracting a dotted path yields: the text of the selected node.
pub open spec fn spec_extract(node: JsonNode, path: Seq<char>) -> Result<Seq<char>, PathError> {
    match spec_walk(node, crate::strutil::spec_split_char(path, '.')) {
        Some(JsonNode::Text(s)) => Ok(s@),
        Some(_) => Err(PathError::NotAString),
        None => Err(PathError::SegmentNotFound),
    }
}

/// Walk a JSON document by a dotted path like
/// `candidates.0.content.parts.0.text` and return the string it selects.
pub fn extract_by_path(node: &JsonNode, path: &str) -> (r: Result<String, PathError>)
    ensures
        r matches Ok(s) ==> spec_extract(*node, path@) == Result::<
            Seq<char>,
            PathError,
        >::Ok(s@),
        r matches Err(e) ==> spec_extract(*node, path@) == Result::<
            Seq<char>,
            PathError,
        >::Err(e),
{
    let segs = split_char(path, '.');
    let ghost all: Seq<Seq<char>> = segs.deep_view();
    let mut current: &JsonNode = node;
    let n = segs.len();
    let mut i: usize = 0;
    proof {
        assert(all.skip(0) =~= all);
    }
    while i < n
        invariant
            0 <= i <= n == segs@.len() == all.len(),
            all == segs.deep_view(),
            all == crate::strutil::spec_split_char(path@, '.'),
            spec_walk(*node, all) == spec_walk(*current, all.skip(i as int)),
        decreases n - i,
    {
        proof {
            assert(all.skip(i as int).first() == all[i as int]);
            assert(all.skip(i as int).drop_first() =~= all.skip(i as int + 1));
            assert(segs@[i as int]@ == all[i as int]);
        }
        let seg = &segs[i];
        let index = crate::strutil::parse_u64(seg.as_str());
        let seg_is_index: bool = match index {
            Some(v) => v <= usize::MAX as u64,
            None => false,
        };
        proof {
            assert(seg_is_index == spec_is_index_seg(all[i as int]));
        }
        match current {
            JsonNode::Items(items) => {
                match index {
                    Some(v) => {
                        if v <= usize::MAX as u64 && (v as usize) < items.len() {
                            current = &items[v as usize];
                        } else {
                            proof {
                                assert(spec_walk(*current, all.skip(i as int)) is None);
                            }
                            return Err(PathError::SegmentNotFound);
                        }
                    },
                    None => {
                        proof {
                            assert(spec_walk(*current, all.skip(i as int)) is None);
                        }
                        return Err(PathError::SegmentNotFound);
                    },
                }
            },
            JsonNode::Entries(es) => {
                if seg_is_index {
                    proof {
                        assert(spec_walk(*current, all.skip(i as int)) is None);
                    }
                    return Err(PathError::SegmentNotFound);
                }
                let ghost esv = es@;
                let m = es.len();
                let mut j: usize = 0;
                let mut found: bool = false;
                proof {
                    assert(esv.skip(0) =~= esv);
                }
                while j < m
                    invariant_except_break
                        !found,
                        spec_entry_lookup(esv, all[i as int]) == spec_entry_lookup(
                            esv.skip(j as int),
                            all[i as int],
                        ),
                    invariant
                        0 <= j <= m == es@.len(),
                        esv == es@,
                        0 <= i < all.len(),
                        seg@ == all[i as int],
                    ensures
                        found ==> j < m && spec_entry_lookup(esv, all[i as int]) == Some(
                            esv[j as int].1,
                        ),
                        !found ==> j == m && spec_entry_lookup(esv, all[i as int])
                            == spec_entry_lookup(esv.skip(j as int), all[i as int]),
                    decreases m - j,
                {
                    proof {
                        assert(esv.skip(j as int).first() == esv[j as int]);
                        assert(esv.skip(j as int).drop_first() =~= esv.skip(j as int + 1));
                    }
                    if str_eq(es[j].0.as_str(), seg.as_str()) {
                        proof {
                            assert(spec_entry_lookup(esv.skip(j as int), all[i as int])
                                == Some(esv[j as int].1));
                        }
                        found = true;
                        break;
                    }
                    j = j + 1;
                }
                if found {
                    current = &es[j].1;
                } else {
                    proof {
                        assert(esv.skip(m as int) =~= Seq::<(String, JsonNode)>::empty());
                        assert(spec_entry_lookup(esv, all[i as int]) is None);
                        assert(spec_walk(*current, all.skip(i as int)) is None);
                    }
                    return Err(PathError::SegmentNotFound);
                }
            },
            _ => {
                proof {
                    assert(spec_walk(*current, all.skip(i as int)) is None);
                }
                return Err(PathError::SegmentNotFound);
            },
        }
        i = i + 1;
    }
    proof {
        assert(all.skip(n as int) =~= Seq::<Seq<char>>::empty());
    }
    match current {
        JsonNode::Text(s) => Ok(s.clone()),
        _ => Err(PathError::NotAString),
    }
}

/// Whether one failed call aborts the fallback chain: only a transport
/// failure does (the network is down for every preset alike); an HTTP
/// error or a malformed response moves on to the next preset.
pub fn fallback_aborts(e: &LlmCallError) -> (r: bool)
    ensures
        r == (e is TransportError),
{
    match e {
        LlmCallError::TransportError(_) => true,
        _ => false,
    }
}

/// The entry recorded for one failed attempt in the final error listing:
/// the attempt's name with a short account of its failure.
pub fn attempt_label(name: &str, e: &LlmCallError) -> (r: String)
    ensures
        e matches LlmCallError::HttpError { code, .. } ==> r@ == name@ + (" (HTTP ")@
            + spec_decimal(code as nat) + (")")@,
        e matches LlmCallError::TransportError(m) ==> r@ == name@ + (" (Network error: ")@
            + m@ + (")")@,
        e matches LlmCallError::Other(m) ==> r@ == name@ + (" (")@ + m@ + (")")@,
{
    let mut s = name.to_owned();
    match e {
        LlmCallError::HttpError { code, .. } => {
            s.append(" (HTTP ");
            let code_s = u64_to_string(*code as u64);
            s.append(code_s.as_str());
            s.append(")");
        },
        LlmCallError::TransportError(m) => {
            s.append(" (Network error: ");
            s.append(m.as_str());
            s.append(")");
        },
        LlmCallError::Other(m) => {
            s.append(" (");
            s.append(m.as_str());
            s.append(")");
        },
    }
    s
}

/// The presets the fallback loop should try, in fallback order: each
/// order entry resolved to its preset, entries naming no preset skipped,
/// and presets whose deduplication key matches the current configuration
/// skipped (trying them again would only repeat the failed call).
pub open spec fn spec_fallback_candidates(
    order: Seq<u32>,
    ps: Seq<Preset>,
    current: LlmPresetFields,
) -> Seq<Preset>
    decreases order.len(),
{
    if order.len() == 0 {
        Seq::empty()
    } else {
        spec_fallback_candidates(order.drop_last(), ps, current) + (match spec_find_by_id(
            ps,
            order.last(),
        ) {
            Some(p) => if !spec_dedup_eq(p.fields, current) {
                seq![p]
            } else {
                Seq::empty()
            },
            None => Seq::empty(),
        })
    }
}

/// The presets the fallback loop should try for the current
/// configuration, in order.
pub fn fallback_candidates(file: &PresetsFile, current: &LlmPresetFields) -> (r: Vec<Preset>)
    ensures
        r@ == spec_fallback_candidates(file.fallback.order@, file.presets@, *current),
{
    let mut r: Vec<Preset> = Vec::new();
    let n = file.fallback.order.len();
    let mut i: usize = 0;
    while i < n
        invariant
            0 <= i <= n == file.fallback.order@.len(),
            r@ == spec_fallback_candidates(
                file.fallback.order@.take(i as int),
                file.presets@,
                *current,
            ),
        decreases n - i,
    {
        proof {
            assert(file.fallback.order@.take(i as int + 1).drop_last()
                =~= file.fallback.order@.take(i as int));
            assert(file.fallback.order@.take(i as int + 1).last() == file.fallback.order@[i as int]);
        }
        let id = file.fallback.order[i];
        match find_by_id(&file.presets, id) {
            Some(p) => {
                let same = crate::preset::dedup_eq(&p.fields, current);
                if !same {
                    r.push(p);
                    proof {
                        assert(r@ =~= spec_fallback_candidates(
                            file.fallback.order@.take(i as int + 1),
                            file.presets@,
                            *current,
                        ));
                    }
                } else {
                    proof {
                        assert(r@ =~= spec_fallback_candidates(
                            file.fallback.order@.take(i as int + 1),
                            file.presets@,
                            *current,
                        ));
                    }
                }
            },
            None => {
                proof {
                    assert(r@ =~= spec_fallback_candidates(
                        file.fallback.order@.take(i as int + 1),
                        file.presets@,
                        *current,
                    ));
                }
            },
        }
        i = i + 1;
    }
    proof {
        assert(file.fallback.order@.take(n as int) =~= file.fallback.order@);
    }
    r
}

} // verus!
