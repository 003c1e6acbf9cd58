//! Server configuration: the shape of `config.toml`, the validation of the
//! sync filter rules, the CORS defaults, the parse-error hints for removed
//! keys, token resolution, and the log-level parser.

use tracing::level_filters::{LevelFilter, ParseLevelFilterError};
use vstd::prelude::*;

use crate::text::{
    ascii_lower, chars_of, contains_chars, contains_seq, decimal, eq_ignore_ascii_case, owned,
    push_chars, push_decimal, push_str, same_text, same_text_ignoring_ascii_case, string_of,
    trim_chars, trimmed,
};

verus! {

pub struct Config {
    pub database: DatabaseConfig,
    pub clock: ClockConfig,
    pub sync: SyncConfig,
    pub server: ServerConfig,
    pub logging: LoggingConfig,
}

pub struct DatabaseConfig {
    pub path: String,
}

pub struct ClockConfig {
    pub timezone: String,
    pub day_start_hour: i64,
}

pub struct SyncConfig {
    pub github_token: String,
    pub linear_token: String,
    /// Optional path to a secrets file holding the GitHub token (sops-nix
    /// style). When set, its trimmed contents win over `github_token`.
    pub github_token_path: Option<String>,
    /// Optional path to a secrets file holding the Linear token. When set,
    /// its trimmed contents win over `linear_token`.
    pub linear_token_path: Option<String>,
    pub github: GithubSyncConfig,
    pub linear: LinearSyncConfig,
}

pub struct GithubSyncConfig {
    pub exclude_drafts_unless_authored_by_me: bool,
    pub filters: Vec<GithubFilterRule>,
}

pub struct LinearSyncConfig {
    pub filters: Vec<LinearFilterRule>,
}

#[derive(Debug, Clone, PartialEq)]
pub struct GithubFilterRule {
    pub repo: Option<String>,
    pub author: Option<String>,
    pub reviewer: Option<String>,
    pub reviewing_team: Option<String>,
    pub exclude_others_drafts: bool,
    pub exclude_my_drafts: bool,
}

#[derive(Debug, Clone, PartialEq)]
pub struct LinearFilterRule {
    pub team: Option<String>,
    pub assignee: Option<String>,
    pub creator: Option<String>,
    pub project_lead: Option<String>,
}

pub struct ServerConfig {
    pub host: String,
    pub port: u16,
    pub depth_limit: Option<usize>,
    pub complexity_limit: Option<usize>,
    pub cors_origins: Vec<String>,
    pub frontend_dist: Option<String>,
}

pub struct LoggingConfig {
    pub level: String,
    pub directory: String,
}

impl Default for GithubSyncConfig {
    fn default() -> (r: Self)
        ensures
            !r.exclude_drafts_unless_authored_by_me,
            r.filters@.len() == 0,
    {
        GithubSyncConfig { exclude_drafts_unless_authored_by_me: false, filters: Vec::new() }
    }
}

impl Default for LinearSyncConfig {
    fn default() -> (r: Self)
        ensures
            r.filters@.len() == 0,
    {
        LinearSyncConfig { filters: Vec::new() }
    }
}

impl Default for GithubFilterRule {
    fn default() -> (r: Self)
        ensures
            r.is_empty_spec(),
    {
        GithubFilterRule {
            repo: None,
            author: None,
            reviewer: None,
            reviewing_team: None,
            exclude_others_drafts: false,
            exclude_my_drafts: false,
        }
    }
}

impl Default for LinearFilterRule {
    fn default() -> (r: Self)
        ensures
            r.is_empty_spec(),
    {
        LinearFilterRule { team: None, assignee: None, creator: None, project_lead: None }
    }
}

impl Default for LoggingConfig {
    /// Level `info`, directory `logs`.
    fn default() -> (r: Self)
        ensures
            r.level@ == "info"@,
            r.directory@ == "logs"@,
    {
        LoggingConfig { level: owned("info"), directory: owned("logs") }
    }
}

/// The CORS origins used when none are configured: the common Vite dev ports.
pub open spec fn default_origins() -> Seq<Seq<char>> {
    seq![
        "http://localhost:5173"@,
        "http://127.0.0.1:5173"@,
        "http://localhost:4173"@,
        "http://127.0.0.1:4173"@,
    ]
}

impl ServerConfig {
    /// Origins the web frontend may call from. Defaults to the common Vite
    /// dev ports so a source checkout works without extra config.
    pub fn allowed_origins(&self) -> (r: Vec<String>)
        ensures
            self.cors_origins@.len() == 0 ==> r@.map_values(|s: String| s@)
                == default_origins(),
            self.cors_origins@.len() > 0 ==> r@.map_values(|s: String| s@)
                == self.cors_origins@.map_values(|s: String| s@),
    {
        if self.cors_origins.len() == 0 {
            let mut v: Vec<String> = Vec::new();
            v.push(owned("http://localhost:5173"));
            v.push(owned("http://127.0.0.1:5173"));
            v.push(owned("http://localhost:4173"));
            v.push(owned("http://127.0.0.1:4173"));
            assert(v@.map_values(|s: String| s@) =~= default_origins());
            v
        } else {
            let mut v: Vec<String> = Vec::new();
            let mut i: usize = 0;
            while i < self.cors_origins.len()
                invariant
                    i <= self.cors_origins.len(),
                    v@.map_values(|s: String| s@) == self.cors_origins@.take(i as int).map_values(
                        |s: String| s@,
                    ),
                decreases self.cors_origins.len() - i,
            {
                v.push(owned(self.cors_origins[i].as_str()));
                assert(self.cors_origins@.take(i + 1).map_values(|s: String| s@)
                    =~= self.cors_origins@.take(i as int).map_values(|s: String| s@).push(
                    self.cors_origins@[i as int]@,
                ));
                assert(v@.map_values(|s: String| s@) =~= self.cors_origins@.take(
                    i as int,
                ).map_values(|s: String| s@).push(self.cors_origins@[i as int]@));
                i += 1;
            }
            assert(self.cors_origins@.take(i as int) =~= self.cors_origins@);
            v
        }
    }
}

impl GithubFilterRule {
    /// A rule with no condition at all.
    pub open spec fn is_empty_spec(&self) -> bool {
        &&& self.repo is None
        &&& self.author is None
        &&& self.reviewer is None
        &&& self.reviewing_team is None
        &&& !self.exclude_others_drafts
        &&& !self.exclude_my_drafts
    }

    /// True when the rule sets no condition.
    pub fn is_empty(&self) -> (r: bool)
        ensures
            r == self.is_empty_spec(),
    {
        self.repo.is_none() && self.author.is_none() && self.reviewer.is_none()
            && self.reviewing_team.is_none() && !self.exclude_others_drafts
            && !self.exclude_my_drafts
    }
}

impl LinearFilterRule {
    /// A rule with no condition at all.
    pub open spec fn is_empty_spec(&self) -> bool {
        &&& self.team is None
        &&& self.assignee is None
        &&& self.creator is None
        &&& self.project_lead is None
    }

    /// True when the rule sets no condition.
    pub fn is_empty(&self) -> (r: bool)
        ensures
            r == self.is_empty_spec(),
    {
        self.team.is_none() && self.assignee.is_none() && self.creator.is_none()
            && self.project_lead.is_none()
    }
}

/// True when an optional login is the bare word `me`.
pub open spec fn is_bare_me(v: Option<String>) -> bool {
    v matches Some(s) && s@ == "me"@
}

/// The complaint about rule `i` of the GitHub filters, if any.
pub open spec fn github_rule_problem(rule: GithubFilterRule, i: nat) -> Option<Seq<char>> {
    let at = "sync.github.filters["@ + decimal(i);
    if rule.is_empty_spec() {
        Some(at + "] has no conditions; set at least one field"@)
    } else if is_bare_me(rule.author) {
        Some(at + "].author = \"me\" is not allowed; use \"@me\" instead"@)
    } else if is_bare_me(rule.reviewer) {
        Some(at + "]: a review request for \"me\" is not allowed; use \"@me\" instead"@)
    } else {
        None
    }
}

/// The complaint about rule `i` of the Linear filters, if any.
pub open spec fn linear_rule_problem(rule: LinearFilterRule, i: nat) -> Option<Seq<char>> {
    if rule.is_empty_spec() {
        Some("sync.linear.filters["@ + decimal(i) + "] has no conditions; set at least one field"@)
    } else {
        None
    }
}

fn opt_is_bare_me(v: &Option<String>) -> (r: bool)
    ensures
        r == is_bare_me(*v),
{
    match v {
        Some(s) => same_text(s.as_str(), "me"),
        None => false,
    }
}

fn github_problem(rule: &GithubFilterRule, i: usize) -> (r: Option<String>)
    ensures
        r is Some == github_rule_problem(*rule, i as nat) is Some,
        r is Some ==> r->0@ == github_rule_problem(*rule, i as nat)->0,
{
    let mut at: Vec<char> = Vec::new();
    push_str(&mut at, "sync.github.filters[");
    push_decimal(&mut at, i as u128);
    if rule.is_empty() {
        push_str(&mut at, "] has no conditions; set at least one field");
        Some(string_of(at.as_slice()))
    } else if opt_is_bare_me(&rule.author) {
        push_str(&mut at, "].author = \"me\" is not allowed; use \"@me\" instead");
        Some(string_of(at.as_slice()))
    } else if opt_is_bare_me(&rule.reviewer) {
        push_str(&mut at, "]: a review request for \"me\" is not allowed; use \"@me\" instead");
        Some(string_of(at.as_slice()))
    } else {
        None
    }
}

impl GithubSyncConfig {
    /// Every rule must set at least one condition, and the author and
    /// review-request fields must say `@me`, never a bare `me`. The first offending rule is
    /// reported.
    pub fn validate(&self) -> (r: Result<(), String>)
        ensures
            r is Ok <==> forall|i: int|
                0 <= i < self.filters@.len() ==> github_rule_problem(
                    #[trigger] self.filters@[i],
                    i as nat,
                ) is None,
            r matches Err(m) ==> exists|i: int|
                0 <= i < self.filters@.len() && (forall|j: int|
                    0 <= j < i ==> github_rule_problem(#[trigger] self.filters@[j], j as nat)
                        is None) && github_rule_problem(self.filters@[i], i as nat) == Some(m@),
    {
        let mut i: usize = 0;
        while i < self.filters.len()
            invariant
                i <= self.filters.len(),
                forall|j: int|
                    0 <= j < i ==> github_rule_problem(#[trigger] self.filters@[j], j as nat)
                        is None,
            decreases self.filters.len() - i,
        {
            match github_problem(&self.filters[i], i) {
                Some(m) => {
                    return Err(m);
                },
                None => {},
            }
            i += 1;
        }
        Ok(())
    }
}

impl LinearSyncConfig {
    /// Every rule must set at least one condition; the first empty rule is
    /// reported.
    pub fn validate(&self) -> (r: Result<(), String>)
        ensures
            r is Ok <==> forall|i: int|
                0 <= i < self.filters@.len() ==> linear_rule_problem(
                    #[trigger] self.filters@[i],
                    i as nat,
                ) is None,
            r matches Err(m) ==> exists|i: int|
                0 <= i < self.filters@.len() && (forall|j: int|
                    0 <= j < i ==> linear_rule_problem(#[trigger] self.filters@[j], j as nat)
                        is None) && linear_rule_problem(self.filters@[i], i as nat) == Some(m@),
    {
        let mut i: usize = 0;
        while i < self.filters.len()
            invariant
                i <= self.filters.len(),
                forall|j: int|
                    0 <= j < i ==> linear_rule_problem(#[trigger] self.filters@[j], j as nat)
                        is None,
            decreases self.filters.len() - i,
        {
            if self.filters[i].is_empty() {
                let mut m: Vec<char> = Vec::new();
                push_str(&mut m, "sync.linear.filters[");
                push_decimal(&mut m, i as u128);
                push_str(&mut m, "] has no conditions; set at least one field");
                return Err(string_of(m.as_slice()));
            }
            i += 1;
        }
        Ok(())
    }
}

impl Config {
    /// The checks a parsed configuration must pass: the GitHub filter rules
    /// first, then the Linear ones; the first complaint is returned.
    pub fn validate(&self) -> (r: Result<(), String>)
        ensures
            r is Ok <==> (forall|i: int|
                0 <= i < self.sync.github.filters@.len() ==> github_rule_problem(
                    #[trigger] self.sync.github.filters@[i],
                    i as nat,
                ) is None) && (forall|i: int|
                0 <= i < self.sync.linear.filters@.len() ==> linear_rule_problem(
                    #[trigger] self.sync.linear.filters@[i],
                    i as nat,
                ) is None),
            r matches Err(m) ==> (exists|i: int|
                0 <= i < self.sync.github.filters@.len() && github_rule_problem(
                    self.sync.github.filters@[i],
                    i as nat,
                ) == Some(m@)) || (exists|i: int|
                0 <= i < self.sync.linear.filters@.len() && linear_rule_problem(
                    self.sync.linear.filters@[i],
                    i as nat,
                ) == Some(m@)),
    {
        match self.sync.github.validate() {
            Err(m) => Err(m),
            Ok(()) => self.sync.linear.validate(),
        }
    }
}

/// The hint added to a TOML parse error that mentions a removed or renamed
/// key.
pub open spec fn parse_hint(msg: Seq<char>) -> Seq<char> {
    if contains_seq(msg, "github_search_query"@) {
        " `github_search_query` was removed; use `[[sync.github.filters]]` instead."@
    } else if contains_seq(msg, "linear_team_keys"@) {
        " `linear_team_keys` was removed; use `[[sync.linear.filters]]` instead."@
    } else if contains_seq(msg, "exclude_draft"@) {
        " `exclude_draft` was renamed to `exclude_others_drafts`."@
    } else {
        ""@
    }
}

/// The hint for a TOML parse error message: removed `github_search_query`
/// and `linear_team_keys` point at the filter tables, and the old
/// `exclude_draft` at its new name; anything else gets no hint.
pub fn parse_error_hint(msg: &str) -> (r: &'static str)
    ensures
        r@ == parse_hint(msg@),
{
    let m = chars_of(msg);
    if contains_chars(&m, &chars_of("github_search_query")) {
        " `github_search_query` was removed; use `[[sync.github.filters]]` instead."
    } else if contains_chars(&m, &chars_of("linear_team_keys")) {
        " `linear_team_keys` was removed; use `[[sync.linear.filters]]` instead."
    } else if contains_chars(&m, &chars_of("exclude_draft")) {
        " `exclude_draft` was renamed to `exclude_others_drafts`."
    } else {
        ""
    }
}

/// The full message of a configuration that failed to parse.
pub open spec fn parse_failure_message(err: Seq<char>) -> Seq<char> {
    "failed to parse config:"@ + parse_hint(err) + " "@ + err
}

/// `failed to parse config:{hint} {err}` for a parse error's text.
pub fn parse_failure(err: &str) -> (r: String)
    ensures
        r@ == parse_failure_message(err@),
{
    let mut m: Vec<char> = Vec::new();
    push_str(&mut m, "failed to parse config:");
    push_str(&mut m, parse_error_hint(err));
    push_str(&mut m, " ");
    push_str(&mut m, err);
    assert(m@ =~= parse_failure_message(err@));
    string_of(m.as_slice())
}

/// Where a sync token comes from.
#[derive(Debug, Clone, PartialEq)]
pub enum TokenSource {
    /// The inline value from the config, used unchanged.
    Inline(String),
    /// A secrets file whose trimmed contents are the token.
    File(String),
}

/// Resolve where a token comes from: a non-blank `path` wins, otherwise the
/// inline value is used unchanged.
pub fn token_source(inline: &str, path: Option<&str>) -> (r: TokenSource)
    ensures
        match path {
            Some(p) if trimmed(p@).len() > 0 => r matches TokenSource::File(f) && f@ == p@,
            _ => r matches TokenSource::Inline(t) && t@ == inline@,
        },
{
    match path {
        Some(p) => {
            let t = trim_chars(&chars_of(p));
            if t.len() > 0 {
                TokenSource::File(owned(p))
            } else {
                TokenSource::Inline(owned(inline))
            }
        },
        None => TokenSource::Inline(owned(inline)),
    }
}

/// The token held by a secrets file: its contents, trimmed.
pub fn token_from_file(contents: &str) -> (r: String)
    ensures
        r@ == trimmed(contents@),
{
    let t = trim_chars(&chars_of(contents));
    string_of(t.as_slice())
}

/// The GitHub side of an actor in a filter rule.
#[derive(Debug, Clone, PartialEq)]
pub enum Author {
    Me,
    Login(String),
}

/// The Linear side of an actor in a filter rule.
#[derive(Debug, Clone, PartialEq)]
pub enum Actor {
    Me,
    Name(String),
}

/// Map a config string (`@me` or a login) to a GitHub actor.
pub fn parse_github_actor(s: &str) -> (r: Author)
    ensures
        s@ == "@me"@ ==> r is Me,
        s@ != "@me"@ ==> (r matches Author::Login(l) && l@ == s@),
{
    if same_text(s, "@me") {
        Author::Me
    } else {
        Author::Login(owned(s))
    }
}

/// Map a config string (`me` or a name) to a Linear actor.
pub fn parse_linear_actor(s: &str) -> (r: Actor)
    ensures
        s@ == "me"@ ==> r is Me,
        s@ != "me"@ ==> (r matches Actor::Name(n) && n@ == s@),
{
    if same_text(s, "me") {
        Actor::Me
    } else {
        Actor::Name(owned(s))
    }
}

} // verus!

verus! {

/// A log level filter: nothing, or records at that level and above.
#[derive(Clone, Copy, Debug, PartialEq, Eq, Structural)]
pub enum LogLevel {
    Off,
    Error,
    Warn,
    Info,
    Debug,
    Trace,
}

#[verifier::external_type_specification]
#[verifier::external_body]
pub struct ExParseLevelFilterError(ParseLevelFilterError);

/// A text of ASCII digits, possibly after one `+`, whose value is at most 5:
/// what `usize::from_str` accepts with a result in `0..=5`.
pub open spec fn small_level_number(s: Seq<char>) -> bool {
    let d = if s.len() > 0 && s[0] == '+' { s.drop_first() } else { s };
    &&& d.len() > 0
    &&& forall|k: int| 0 <= k < d.len() - 1 ==> #[trigger] d[k] == '0'
    &&& '0' <= d.last() && d.last() <= '5'
}

/// The texts `LevelFilter::from_str` accepts: a number 0-5, the empty text,
/// or one of the level names in any ASCII case.
pub open spec fn level_text_accepted(s: Seq<char>) -> bool {
    ||| small_level_number(s)
    ||| s.len() == 0
    ||| eq_ignore_ascii_case(s, "error"@)
    ||| eq_ignore_ascii_case(s, "warn"@)
    ||| eq_ignore_ascii_case(s, "info"@)
    ||| eq_ignore_ascii_case(s, "debug"@)
    ||| eq_ignore_ascii_case(s, "trace"@)
    ||| eq_ignore_ascii_case(s, "off"@)
}

/// The filter a number 0-5 names: 0 is off, then error, warn, info, debug
/// and trace.
pub open spec fn level_of_number(s: Seq<char>) -> LogLevel {
    let c = s.last();
    if c == '0' {
        LogLevel::Off
    } else if c == '1' {
        LogLevel::Error
    } else if c == '2' {
        LogLevel::Warn
    } else if c == '3' {
        LogLevel::Info
    } else if c == '4' {
        LogLevel::Debug
    } else {
        LogLevel::Trace
    }
}

/// The filter an accepted text gives: a number by its value, the empty
/// text `error`, a level name (in any ASCII case) that level.
pub open spec fn level_of_text(s: Seq<char>) -> LogLevel {
    if small_level_number(s) {
        level_of_number(s)
    } else if s.len() == 0 || eq_ignore_ascii_case(s, "error"@) {
        LogLevel::Error
    } else if eq_ignore_ascii_case(s, "warn"@) {
        LogLevel::Warn
    } else if eq_ignore_ascii_case(s, "info"@) {
        LogLevel::Info
    } else if eq_ignore_ascii_case(s, "debug"@) {
        LogLevel::Debug
    } else if eq_ignore_ascii_case(s, "trace"@) {
        LogLevel::Trace
    } else {
        LogLevel::Off
    }
}

/// Calls `LevelFilter::from_str` (tracing-core) and names the filter it
/// gives by a [`LogLevel`]. Its source accepts exactly the texts of
/// `level_text_accepted` and maps each to the filter of `level_of_text`.
#[verifier::external_body]
fn level_filter_from_str(s: &str) -> (r: Result<LogLevel, ParseLevelFilterError>)
    ensures
        r is Ok <==> level_text_accepted(s@),
        r matches Ok(l) ==> l == level_of_text(s@),
{
    match <LevelFilter as std::str::FromStr>::from_str(s) {
        Ok(LevelFilter::OFF) => Ok(LogLevel::Off),
        Ok(LevelFilter::ERROR) => Ok(LogLevel::Error),
        Ok(LevelFilter::WARN) => Ok(LogLevel::Warn),
        Ok(LevelFilter::INFO) => Ok(LogLevel::Info),
        Ok(LevelFilter::DEBUG) => Ok(LogLevel::Debug),
        Ok(_) => Ok(LogLevel::Trace),
        Err(e) => Err(e),
    }
}

/// The text `ParseLevelFilterError` displays, per its `Display` impl.
pub open spec fn level_error_text() -> Seq<char> {
    "error parsing level filter: expected one of \"off\", \"error\", \"warn\", \"info\", \"debug\", \"trace\", or a number 0-5"@
}

/// Calls the `Display` impl of `ParseLevelFilterError`, which pads one fixed
/// message.
#[verifier::external_body]
fn level_error_display(e: &ParseLevelFilterError) -> (r: String)
    ensures
        r@ == level_error_text(),
{
    format!("{}", e)
}

/// What `{:?}` prints for a text (quoted, with escapes).
pub uninterp spec fn debug_quoted(s: Seq<char>) -> Seq<char>;

/// ASCII letters, digits, spaces and hyphens: characters `{:?}` prints as
/// they are.
pub open spec fn plain_debug_text(s: Seq<char>) -> bool {
    forall|i: int| 0 <= i < s.len() ==> {
        let c = #[trigger] s[i];
        ('a' <= c && c <= 'z') || ('A' <= c && c <= 'Z') || ('0' <= c && c <= '9') || c == ' ' || c == '-'
    }
}

/// Calls the `Debug` impl of `str`; the result is named `debug_quoted`. A
/// text of characters that need no escape is printed between double quotes.
#[verifier::external_body]
fn debug_str(s: &str) -> (r: String)
    ensures
        r@ == debug_quoted(s@),
        plain_debug_text(s@) ==> r@ == seq!['"'] + s@ + seq!['"'],
{
    format!("{:?}", s)
}

/// The message for a log level that does not parse.
pub open spec fn invalid_level_message(s: Seq<char>) -> Seq<char> {
    "invalid log level "@ + debug_quoted(s) + ": "@ + level_error_text()
}

/// Parse a level string from config or env and return the level filter.
/// Unrecognized values give an error that names them.
pub fn parse_level(s: &str) -> (r: Result<LogLevel, String>)
    ensures
        r is Ok <==> level_text_accepted(s@),
        r matches Ok(l) ==> l == level_of_text(s@),
        r matches Err(m) ==> m@ == invalid_level_message(s@),
        plain_debug_text(s@) ==> (r matches Err(m) ==> m@ == "invalid log level \""@ + s@ + "\": "@
            + level_error_text()),
{
    match level_filter_from_str(s) {
        Ok(l) => Ok(l),
        Err(e) => {
            let mut m: Vec<char> = Vec::new();
            push_str(&mut m, "invalid log level ");
            let q = debug_str(s);
            push_str(&mut m, q.as_str());
            push_str(&mut m, ": ");
            let t = level_error_display(&e);
            push_str(&mut m, t.as_str());
            assert(m@ =~= invalid_level_message(s@));
            proof {
                if plain_debug_text(s@) {
                    reveal_strlit("invalid log level ");
                    reveal_strlit(": ");
                    reveal_strlit("invalid log level \"");
                    reveal_strlit("\": ");
                    assert(m@ =~= "invalid log level \""@ + s@ + "\": "@ + level_error_text());
                }
            }
            Err(string_of(m.as_slice()))
        },
    }
}

} // verus!
