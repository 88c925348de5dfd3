//! Two-pass configuration validation.
//!
//! First pass: every top-level key outside the injected known-key set is
//! reported, and the document is refused before any typed reading. Second
//! pass (after typed reading): per-field rules in field order, reporting the
//! first violation only.

use vstd::prelude::*;

use crate::foundation::core_types::path::is_ascii_alpha;
use crate::text::{all_whitespace, chars_of, is_unicode_whitespace, push_str, same_text, string_of, trims_to_empty};

use super::model::WatcherConfig;
use super::url_validator::{spec_url_error_message, url_parse_outcome, validate_https_url};

verus! {

/// One configuration validation issue.
#[derive(Debug, Clone, PartialEq, Eq)]
pub enum ConfigIssue {
    /// The JSON document does not parse.
    Parse(String),
    /// A key outside the known-key set.
    UnknownKey {
        /// The unknown key.
        key: String,
        /// Its JSON pointer (e.g. `/vault_paht`).
        pointer: String,
    },
    /// Typed reading failed (type mismatch, missing field, bad enum value).
    TypeError(String),
    /// A per-field rule is violated.
    FieldViolation {
        /// The field.
        field: String,
        /// What the field must be.
        expected: String,
    },
    /// The configuration path could not be resolved.
    Discovery(String),
    /// The configuration file could not be read.
    Io {
        /// The path that was read.
        path: String,
        /// The I/O error detail.
        detail: String,
    },
}

/// The human-readable message of an issue.
pub open spec fn spec_issue_message(i: ConfigIssue) -> Seq<char> {
    match i {
        ConfigIssue::Parse(m) => "JSON 파싱 실패: "@ + m@,
        ConfigIssue::UnknownKey { key, pointer } => "알 수 없는 키 `"@ + key@ + "`(위치 "@
            + pointer@ + ")"@,
        ConfigIssue::TypeError(m) => "타입/필수 필드 위반: "@ + m@,
        ConfigIssue::FieldViolation { field, expected } => "필드 `"@ + field@ + "` 위반 — 기대: "@
            + expected@,
        ConfigIssue::Discovery(m) => "config 경로 해소 실패: "@ + m@,
        ConfigIssue::Io { path, detail } => "config 파일 읽기 실패 `"@ + path@ + "`: "@ + detail@,
    }
}

impl ConfigIssue {
    /// The human-readable message.
    pub fn message(&self) -> (m: String)
        ensures
            m@ == spec_issue_message(*self),
    {
        match self {
            ConfigIssue::Parse(msg) => {
                let mut out = string_of("JSON 파싱 실패: ");
                push_str(&mut out, msg.as_str());
                out
            },
            ConfigIssue::UnknownKey { key, pointer } => {
                let mut out = string_of("알 수 없는 키 `");
                push_str(&mut out, key.as_str());
                push_str(&mut out, "`(위치 ");
                push_str(&mut out, pointer.as_str());
                push_str(&mut out, ")");
                out
            },
            ConfigIssue::TypeError(msg) => {
                let mut out = string_of("타입/필수 필드 위반: ");
                push_str(&mut out, msg.as_str());
                out
            },
            ConfigIssue::FieldViolation { field, expected } => {
                let mut out = string_of("필드 `");
                push_str(&mut out, field.as_str());
                push_str(&mut out, "` 위반 — 기대: ");
                push_str(&mut out, expected.as_str());
                out
            },
            ConfigIssue::Discovery(msg) => {
                let mut out = string_of("config 경로 해소 실패: ");
                push_str(&mut out, msg.as_str());
                out
            },
            ConfigIssue::Io { path, detail } => {
                let mut out = string_of("config 파일 읽기 실패 `");
                push_str(&mut out, path.as_str());
                push_str(&mut out, "`: ");
                push_str(&mut out, detail.as_str());
                out
            },
        }
    }
}

/// Load or validation failure carrying one or more issues.
#[derive(Debug, Clone, PartialEq, Eq)]
pub struct ConfigError {
    /// The issues: all unknown keys, or a single other violation.
    pub issues: Vec<ConfigIssue>,
}

/// Texts joined with `sep` between consecutive ones.
pub open spec fn join_with(parts: Seq<Seq<char>>, sep: Seq<char>) -> Seq<char>
    decreases parts.len(),
{
    if parts.len() == 0 {
        Seq::empty()
    } else if parts.len() == 1 {
        parts[0]
    } else {
        join_with(parts.drop_last(), sep) + sep + parts.last()
    }
}

impl ConfigError {
    /// An error carrying the given issues.
    pub fn new(issues: Vec<ConfigIssue>) -> (e: Self)
        ensures
            e.issues@ == issues@,
    {
        ConfigError { issues }
    }

    /// An error carrying one issue.
    pub fn single(issue: ConfigIssue) -> (e: Self)
        ensures
            e.issues@ == seq![issue],
    {
        let mut issues = Vec::new();
        issues.push(issue);
        ConfigError { issues }
    }

    /// The issues.
    pub fn issues(&self) -> (s: &[ConfigIssue])
        ensures
            s@ == self.issues@,
    {
        self.issues.as_slice()
    }

    /// The summary message: the number of issues.
    pub fn message(&self) -> (s: String)
        ensures
            s@ == "config 검증 실패: "@ + crate::text::spec_decimal(self.issues@.len()) + " 개 이슈"@,
    {
        let mut s = string_of("config 검증 실패: ");
        crate::text::push_decimal(&mut s, self.issues.len() as u64);
        push_str(&mut s, " 개 이슈");
        s
    }

    /// All issue messages joined with `"; "`.
    pub fn report(&self) -> (r: String)
        ensures
            r@ == join_with(self.issues@.map_values(|i: ConfigIssue| spec_issue_message(i)), "; "@),
    {
        let ghost msgs = self.issues@.map_values(|i: ConfigIssue| spec_issue_message(i));
        let mut out = String::new();
        let n = self.issues.len();
        let mut i: usize = 0;
        while i < n
            invariant
                n == self.issues@.len(),
                msgs == self.issues@.map_values(|i: ConfigIssue| spec_issue_message(i)),
                i <= n,
                out@ == join_with(msgs.take(i as int), "; "@),
            decreases n - i,
        {
            assert(msgs.take(i + 1).drop_last() =~= msgs.take(i as int));
            if i > 0 {
                push_str(&mut out, "; ");
            }
            let m = self.issues[i].message();
            push_str(&mut out, m.as_str());
            i = i + 1;
            if i == 1 {
                assert(out@ =~= msgs.take(1)[0]);
            }
        }
        assert(msgs.take(n as int) =~= msgs);
        out
    }
}

/// The keys that are not in `known`, in document order.
pub open spec fn spec_unknown_keys(keys: Seq<Seq<char>>, known: Seq<Seq<char>>) -> Seq<Seq<char>>
    decreases keys.len(),
{
    if keys.len() == 0 {
        Seq::empty()
    } else {
        let prev = spec_unknown_keys(keys.drop_last(), known);
        if known.contains(keys.last()) {
            prev
        } else {
            prev.push(keys.last())
        }
    }
}

/// The issues are exactly the unknown-key issues of `unknown`, in order,
/// each with pointer `/key`.
pub open spec fn are_unknown_key_issues(issues: Seq<ConfigIssue>, unknown: Seq<Seq<char>>) -> bool {
    &&& issues.len() == unknown.len()
    &&& forall|i: int|
        0 <= i < issues.len() ==> ((#[trigger] issues[i] matches ConfigIssue::UnknownKey {
            key,
            pointer,
        } && key@ == unknown[i] && pointer@ == seq!['/'] + unknown[i]))
}

/// The views of a slice of string slices.
pub open spec fn str_views(s: Seq<&str>) -> Seq<Seq<char>> {
    s.map_values(|k: &str| k@)
}

fn is_known(key: &String, known: &[&str]) -> (r: bool)
    ensures
        r == str_views(known@).contains(key@),
{
    let n = known.len();
    let mut i: usize = 0;
    while i < n
        invariant
            n == known@.len(),
            i <= n,
            forall|j: int| 0 <= j < i ==> known@[j]@ != key@,
        decreases n - i,
    {
        if same_text(key.as_str(), known[i]) {
            assert(str_views(known@)[i as int] == key@);
            return true;
        }
        i = i + 1;
    }
    assert(!str_views(known@).contains(key@)) by {
        if str_views(known@).contains(key@) {
            let j = choose|j: int| 0 <= j < str_views(known@).len() && str_views(known@)[j] == key@;
            assert(known@[j]@ == key@);
        }
    }
    false
}

/// One unknown-key issue for every key outside `known`, in key order.
pub fn unknown_key_issues(keys: &Vec<String>, known: &[&str]) -> (r: Vec<ConfigIssue>)
    ensures
        are_unknown_key_issues(
            r@,
            spec_unknown_keys(keys@.map_values(|k: String| k@), str_views(known@)),
        ),
{
    let ghost kv = keys@.map_values(|k: String| k@);
    let mut out: Vec<ConfigIssue> = Vec::new();
    let n = keys.len();
    let mut i: usize = 0;
    while i < n
        invariant
            n == keys@.len(),
            kv == keys@.map_values(|k: String| k@),
            i <= n,
            are_unknown_key_issues(out@, spec_unknown_keys(kv.take(i as int), str_views(known@))),
        decreases n - i,
    {
        assert(kv.take(i + 1).drop_last() =~= kv.take(i as int));
        assert(kv.take(i + 1).last() == keys@[i as int]@);
        let key = &keys[i];
        let ghost prev = spec_unknown_keys(kv.take(i as int), str_views(known@));
        let ghost u = spec_unknown_keys(kv.take(i + 1), str_views(known@));
        if !is_known(key, known) {
            let mut pointer = string_of("/");
            push_str(&mut pointer, key.as_str());
            proof {
                reveal_strlit("/");
            }
            let ghost pv = pointer@;
            assert(pv =~= seq!['/'] + key@);
            let ghost before = out@;
            let k2 = key.clone();
            out.push(ConfigIssue::UnknownKey { key: k2, pointer });
            assert(u == prev.push(key@));
            assert forall|j: int| 0 <= j < out@.len() implies ((#[trigger] out@[j] matches ConfigIssue::UnknownKey {
                key,
                pointer,
            } && key@ == u[j] && pointer@ == seq!['/'] + u[j])) by {
                if j < before.len() {
                    assert(out@[j] == before[j]);
                    assert(u[j] == prev[j]);
                } else {
                    assert(u[j] == key@);
                }
            }
        } else {
            assert(u == prev);
        }
        i = i + 1;
    }
    assert(kv.take(n as int) =~= kv);
    out
}

/// What `serde_json` gives when a text is parsed as a generic JSON value:
/// `Err` with the parse error's message, `Ok(None)` when the document is not
/// an object, or `Ok(Some(keys))` with the object's top-level keys in the
/// order the parsed map yields them.
pub uninterp spec fn json_top_level_keys(raw: Seq<char>) -> Result<Option<Seq<Seq<char>>>, Seq<char>>;

/// Parses a JSON text and lists its top-level keys.
///
/// Trusted: calls `serde_json::from_str::<serde_json::Value>`, then reads the
/// keys of the value when it is an object, or renders the error with
/// `to_string`. The contract ties the result to the text through
/// `json_top_level_keys` only; which texts parse is left unsaid.
#[verifier::external_body]
fn parse_json_keys(raw: &str) -> (r: Result<Option<Vec<String>>, String>)
    ensures
        match r {
            Ok(None) => json_top_level_keys(raw@) == Ok::<Option<Seq<Seq<char>>>, Seq<char>>(None),
            Ok(Some(keys)) => json_top_level_keys(raw@) == Ok::<Option<Seq<Seq<char>>>, Seq<char>>(
                Some(keys@.map_values(|k: String| k@)),
            ),
            Err(m) => json_top_level_keys(raw@) == Err::<Option<Seq<Seq<char>>>, Seq<char>>(m@),
        },
{
    match serde_json::from_str::<serde_json::Value>(raw) {
        Ok(value) => Ok(value.as_object().map(|object| object.keys().cloned().collect())),
        Err(e) => Err(e.to_string()),
    }
}

/// The first pass given the parsed keys: the parse error, or every unknown
/// key, or acceptance (a non-object document passes to the typed pass).
pub open spec fn first_pass_holds(
    parsed: Result<Option<Seq<Seq<char>>>, Seq<char>>,
    known: Seq<Seq<char>>,
    r: Result<(), ConfigError>,
) -> bool {
    match parsed {
        Err(m) => (r matches Err(e) && e.issues@.len() == 1 && (e.issues@[0] matches ConfigIssue::Parse(
            pm,
        ) && pm@ == m)),
        Ok(None) => r is Ok,
        Ok(Some(keys)) => if spec_unknown_keys(keys, known).len() == 0 {
            r is Ok
        } else {
            (r matches Err(e) && are_unknown_key_issues(e.issues@, spec_unknown_keys(keys, known)))
        },
    }
}

/// First validation pass: parses the document and refuses it with one issue
/// per unknown top-level key (all of them, not just the first).
pub fn first_pass(raw_json: &str, known_keys: &[&str]) -> (r: Result<(), ConfigError>)
    ensures
        first_pass_holds(json_top_level_keys(raw_json@), str_views(known_keys@), r),
{
    match parse_json_keys(raw_json) {
        Err(m) => Err(ConfigError::single(ConfigIssue::Parse(m))),
        Ok(None) => Ok(()),
        Ok(Some(keys)) => {
            let unknown = unknown_key_issues(&keys, known_keys);
            if unknown.len() > 0 {
                Err(ConfigError::new(unknown))
            } else {
                Ok(())
            }
        },
    }
}

/// A non-empty absolute filesystem path: leading `/` or `\`, or a Windows
/// drive followed by a separator.
pub open spec fn is_absolute_fs_path(p: Seq<char>) -> bool {
    ||| (p.len() > 0 && (p[0] == '/' || p[0] == '\\'))
    ||| (p.len() >= 3 && is_ascii_alpha(p[0]) && p[1] == ':' && (p[2] == '/' || p[2] == '\\'))
}

/// The message describing why the endpoint is not an acceptable URL.
pub open spec fn spec_endpoint_error(raw: Seq<char>) -> Seq<char> {
    match url_parse_outcome(raw) {
        Err(m) => "URL 파싱 실패: "@ + m,
        Ok(s) => "허용되지 않는 스킴 `"@ + s + "`(https 만 허용)"@,
    }
}

/// The first per-field violation, in field order, as (field, expected).
pub open spec fn spec_first_field_violation(c: WatcherConfig) -> Option<(Seq<char>, Seq<char>)> {
    if !(c.vault_path@.len() > 0 && is_absolute_fs_path(c.vault_path@)) {
        Some(("vault_path"@, "비어있지 않은 절대 파일시스템 경로"@))
    } else if url_parse_outcome(c.server_endpoint@) != Ok::<Seq<char>, Seq<char>>("https"@) {
        Some(
            (
                "server_endpoint"@,
                "https 스킴의 유효한 URL("@ + spec_endpoint_error(c.server_endpoint@) + ")"@,
            ),
        )
    } else if (c.token matches Some(t) && all_whitespace(t.spec_value())) {
        Some(("token"@, "존재할 경우 비어있지 않은 문자열"@))
    } else if c.notify_consecutive_failures < 1 {
        Some(("notify_consecutive_failures"@, ">= 1 인 양의 정수"@))
    } else {
        None
    }
}

/// Decides `is_absolute_fs_path`.
fn is_absolute_fs(path: &str) -> (r: bool)
    ensures
        r == is_absolute_fs_path(path@),
{
    let v = chars_of(path);
    if v.len() > 0 && (v[0] == '/' || v[0] == '\\') {
        return true;
    }
    if v.len() >= 3 {
        let d = v[0];
        let is_alpha = (d >= 'a' && d <= 'z') || (d >= 'A' && d <= 'Z');
        return is_alpha && v[1] == ':' && (v[2] == '/' || v[2] == '\\');
    }
    false
}

fn field_violation(field: &str, expected: String) -> (i: ConfigIssue)
    ensures
        (i matches ConfigIssue::FieldViolation { field: f, expected: e } && f@ == field@
            && e@ == expected@),
{
    ConfigIssue::FieldViolation { field: string_of(field), expected }
}

/// Checks the per-field rules in field order and reports the first violation:
/// `vault_path` a non-empty absolute path, `server_endpoint` an `https` URL,
/// `token` not blank when present, `notify_consecutive_failures` at least 1.
pub fn first_field_violation(config: &WatcherConfig) -> (r: Option<ConfigIssue>)
    ensures
        match (r, spec_first_field_violation(*config)) {
            (None, None) => true,
            (Some(ConfigIssue::FieldViolation { field, expected }), Some((f, e))) => field@ == f
                && expected@ == e,
            _ => false,
        },
{
    if config.vault_path.as_str().is_empty() || !is_absolute_fs(config.vault_path.as_str()) {
        return Some(field_violation("vault_path", string_of("비어있지 않은 절대 파일시스템 경로")));
    }
    match validate_https_url(config.server_endpoint.as_str()) {
        Err(err) => {
            let mut expected = string_of("https 스킴의 유효한 URL(");
            let m = err.message();
            push_str(&mut expected, m.as_str());
            push_str(&mut expected, ")");
            return Some(field_violation("server_endpoint", expected));
        },
        Ok(_) => {},
    }
    if let Some(token) = &config.token {
        if trims_to_empty(token.expose()) {
            return Some(field_violation("token", string_of("존재할 경우 비어있지 않은 문자열")));
        }
    }
    if config.notify_consecutive_failures < 1 {
        return Some(field_violation("notify_consecutive_failures", string_of(">= 1 인 양의 정수")));
    }
    None
}

/// The second pass on a typed configuration: refused with its first field
/// violation, else accepted unchanged.
pub fn check_fields(config: WatcherConfig) -> (r: Result<WatcherConfig, ConfigError>)
    ensures
        match r {
            Ok(c) => c == config && spec_first_field_violation(config) is None,
            Err(e) => e.issues@.len() == 1 && match (e.issues@[0], spec_first_field_violation(config)) {
                (ConfigIssue::FieldViolation { field, expected }, Some((f, x))) => field@ == f
                    && expected@ == x,
                _ => false,
            },
        },
{
    match first_field_violation(&config) {
        Some(issue) => Err(ConfigError::single(issue)),
        None => Ok(config),
    }
}

/// A present token whose text is empty or made only of whitespace is never
/// accepted: `check_fields` refuses the configuration; and when the vault
/// path and the endpoint are valid, the one issue is a field violation on
/// `token`.
pub proof fn lemma_blank_token_refused(config: WatcherConfig, r: Result<WatcherConfig, ConfigError>)
    requires
        match r {
            Ok(c) => c == config && spec_first_field_violation(config) is None,
            Err(e) => e.issues@.len() == 1 && match (e.issues@[0], spec_first_field_violation(config)) {
                (ConfigIssue::FieldViolation { field, expected }, Some((f, x))) => field@ == f
                    && expected@ == x,
                _ => false,
            },
        },
        config.token matches Some(t) && forall|i: int|
            0 <= i < t.spec_value().len() ==> is_unicode_whitespace(#[trigger] t.spec_value()[i]),
    ensures
        r is Err,
        (config.vault_path@.len() > 0 && is_absolute_fs_path(config.vault_path@) && url_parse_outcome(
            config.server_endpoint@,
        ) == Ok::<Seq<char>, Seq<char>>("https"@)) ==> (r matches Err(e) && e.issues@[0]
            matches ConfigIssue::FieldViolation { field, .. } && field@ == "token"@),
{
}

/// The per-field rules, each on its own: a vault path that is empty or not
/// absolute is the first violation; with a valid vault path, an endpoint
/// that is not a parsed `https` URL is; a threshold of zero is always
/// refused; and a configuration meeting every rule (a valid vault path, an
/// `https` endpoint, no token or a token with a non-whitespace character,
/// a threshold of at least one) is accepted.
pub proof fn lemma_field_rules(config: WatcherConfig)
    ensures
        !(config.vault_path@.len() > 0 && is_absolute_fs_path(config.vault_path@))
            ==> (spec_first_field_violation(config) matches Some((f, _)) && f == "vault_path"@),
        (config.vault_path@.len() > 0 && is_absolute_fs_path(config.vault_path@) && url_parse_outcome(
            config.server_endpoint@,
        ) != Ok::<Seq<char>, Seq<char>>("https"@)) ==> (spec_first_field_violation(config) matches Some(
            (f, _),
        ) && f == "server_endpoint"@),
        config.notify_consecutive_failures == 0 ==> spec_first_field_violation(config) is Some,
        (config.vault_path@.len() > 0 && is_absolute_fs_path(config.vault_path@) && url_parse_outcome(
            config.server_endpoint@,
        ) == Ok::<Seq<char>, Seq<char>>("https"@) && (config.token matches Some(t) ==> exists|i: int|
            0 <= i < t.spec_value().len() && !is_unicode_whitespace(#[trigger] t.spec_value()[i]))
            && config.notify_consecutive_failures >= 1) ==> spec_first_field_violation(config) is None,
{
}

} // verus!
