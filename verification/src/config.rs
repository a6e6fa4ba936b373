//! Configuration: its structure, its rules, and environment placeholders in its source text.

use vstd::prelude::*;
use vstd::string::{StrSliceExecFns, StringExecFns};

use crate::error::{prefixed, AppError};
use crate::text;

verus! {

#[derive(Debug, Clone)]
pub struct AppConfig {
    pub rabbitmq: RabbitMqConfig,
    pub mongodb: MongoDbConfig,
    pub mysql: MySqlConfig,
    pub llm: LlmConfig,
    pub concurrency: ConcurrencyConfig,
    pub server: ServerConfig,
}

#[derive(Debug, Clone)]
pub struct RabbitMqConfig {
    pub uri: String,
    pub consume_queue: String,
    pub publish_queue: String,
    pub prefetch_count: u16,
    pub reconnect_initial_delay_ms: u64,
    pub reconnect_max_delay_ms: u64,
}

#[derive(Debug, Clone)]
pub struct MongoDbConfig {
    pub uri: String,
    pub database: String,
    pub collection: String,
}

#[derive(Debug, Clone)]
pub struct MySqlConfig {
    pub url: String,
    pub max_connections: u32,
}

#[derive(Debug, Clone)]
pub struct LlmConfig {
    pub provider: String,
    pub base_url: String,
    pub model: String,
    pub api_key: String,
    pub allow_empty_api_key: bool,
    pub timeout_secs: u64,
    pub max_retries: u32,
}

#[derive(Debug, Clone)]
pub struct ConcurrencyConfig {
    pub max_tasks: usize,
    pub max_llm_requests: usize,
}

#[derive(Debug, Clone)]
pub struct ServerConfig {
    pub health_port: u16,
}

/// What came of reading and parsing a configuration file. The texts are those that the reader
/// and the parser display for their errors.
pub enum ConfigInput {
    ReadFailed(String),
    ParseFailed(String),
    Parsed(AppConfig),
}

/// The rules that a broker configuration keeps.
pub open spec fn rabbitmq_valid(c: RabbitMqConfig) -> bool {
    &&& !text::is_blank(c.uri@)
    &&& !text::is_blank(c.consume_queue@)
    &&& !text::is_blank(c.publish_queue@)
    &&& c.prefetch_count > 0
    &&& 0 < c.reconnect_initial_delay_ms <= c.reconnect_max_delay_ms
}

/// The rules that an LLM configuration keeps.
pub open spec fn llm_valid(c: LlmConfig) -> bool {
    &&& !text::is_blank(c.provider@)
    &&& !text::is_blank(c.base_url@)
    &&& !text::is_blank(c.model@)
    &&& !text::is_blank(c.api_key@) || c.allow_empty_api_key
    &&& c.timeout_secs >= 1
    &&& c.max_retries <= 10
}

/// The rules that a whole configuration keeps.
pub open spec fn config_valid(c: AppConfig) -> bool {
    &&& rabbitmq_valid(c.rabbitmq)
    &&& !text::is_blank(c.mongodb.uri@)
    &&& !text::is_blank(c.mongodb.database@)
    &&& !text::is_blank(c.mongodb.collection@)
    &&& !text::is_blank(c.mysql.url@)
    &&& c.mysql.max_connections > 0
    &&& llm_valid(c.llm)
    &&& c.concurrency.max_tasks > 0
    &&& c.concurrency.max_llm_requests > 0
    &&& c.server.health_port > 0
}

/// The first broken rule among those of the broker, in words.
pub open spec fn rabbitmq_violation(c: RabbitMqConfig) -> Option<Seq<char>> {
    if text::is_blank(c.uri@) {
        Some("rabbitmq.uri is required"@)
    } else if text::is_blank(c.consume_queue@) {
        Some("rabbitmq.consume_queue is required"@)
    } else if text::is_blank(c.publish_queue@) {
        Some("rabbitmq.publish_queue is required"@)
    } else if c.prefetch_count == 0 {
        Some("rabbitmq.prefetch_count must be > 0"@)
    } else if c.reconnect_initial_delay_ms == 0 {
        Some("rabbitmq.reconnect_initial_delay_ms must be > 0"@)
    } else if c.reconnect_max_delay_ms < c.reconnect_initial_delay_ms {
        Some("rabbitmq.reconnect_max_delay_ms must be >= reconnect_initial_delay_ms"@)
    } else {
        None
    }
}

/// The first broken rule among those of the two databases, in words.
pub open spec fn database_violation(
    mongodb: MongoDbConfig,
    mysql: MySqlConfig,
) -> Option<Seq<char>> {
    if text::is_blank(mongodb.uri@) {
        Some("mongodb.uri is required"@)
    } else if text::is_blank(mongodb.database@) {
        Some("mongodb.database is required"@)
    } else if text::is_blank(mongodb.collection@) {
        Some("mongodb.collection is required"@)
    } else if text::is_blank(mysql.url@) {
        Some("mysql.url is required"@)
    } else if mysql.max_connections == 0 {
        Some("mysql.max_connections must be > 0"@)
    } else {
        None
    }
}

/// The first broken rule among those of the LLM, in words.
pub open spec fn llm_violation(c: LlmConfig) -> Option<Seq<char>> {
    if text::is_blank(c.provider@) {
        Some("llm.provider is required"@)
    } else if text::is_blank(c.base_url@) {
        Some("llm.base_url is required"@)
    } else if text::is_blank(c.model@) {
        Some("llm.model is required"@)
    } else if text::is_blank(c.api_key@) && !c.allow_empty_api_key {
        Some("llm.api_key is required unless llm.allow_empty_api_key=true"@)
    } else if c.timeout_secs < 1 {
        Some("llm.timeout_secs must be >= 1"@)
    } else if c.max_retries > 10 {
        Some("llm.max_retries must be <= 10"@)
    } else {
        None
    }
}

/// The first broken rule among the limits and the server, in words.
pub open spec fn limit_violation(
    concurrency: ConcurrencyConfig,
    server: ServerConfig,
) -> Option<Seq<char>> {
    if concurrency.max_tasks == 0 {
        Some("concurrency.max_tasks must be > 0"@)
    } else if concurrency.max_llm_requests == 0 {
        Some("concurrency.max_llm_requests must be > 0"@)
    } else if server.health_port == 0 {
        Some("server.health_port must be > 0"@)
    } else {
        None
    }
}

/// The first rule that a configuration breaks, in words.
pub open spec fn violation(c: AppConfig) -> Option<Seq<char>> {
    if let Some(m) = rabbitmq_violation(c.rabbitmq) {
        Some(m)
    } else if let Some(m) = database_violation(c.mongodb, c.mysql) {
        Some(m)
    } else if let Some(m) = llm_violation(c.llm) {
        Some(m)
    } else {
        limit_violation(c.concurrency, c.server)
    }
}

/// A configuration breaks some rule exactly where it does not keep them all.
pub proof fn violation_iff_invalid(c: AppConfig)
    ensures
        violation(c) is None <==> config_valid(c),
{
}

/// A failed check, with the rule in words.
fn reject(message: &str) -> (r: Result<(), AppError>)
    ensures
        r matches Err(AppError::Config(m)) && m@ == message@,
{
    Err(AppError::Config(message.to_owned()))
}

impl AppConfig {
    /// Settles what came of reading the file at `path` and parsing its text: the configuration
    /// where it keeps every rule, and otherwise the error to report.
    pub fn load(path: &str, input: ConfigInput) -> (r: Result<AppConfig, AppError>)
        ensures
            match input {
                ConfigInput::ReadFailed(e) => r matches Err(AppError::Config(m)) && m@
                    == "Failed to read config file "@ + path@ + ": "@ + e@,
                ConfigInput::ParseFailed(e) => r matches Err(AppError::Config(m)) && m@
                    == "Failed to parse config YAML: "@ + e@,
                ConfigInput::Parsed(c) => match violation(c) {
                    None => r == Ok::<AppConfig, AppError>(c),
                    Some(rule) => r matches Err(AppError::Config(m)) && m@ == rule,
                },
            },
    {
        match input {
            ConfigInput::ReadFailed(e) => {
                let mut message: String = prefixed("Failed to read config file ", path);
                message.append(": ");
                message.append(e.as_str());
                Err(AppError::Config(message))
            },
            ConfigInput::ParseFailed(e) => Err(
                AppError::Config(prefixed("Failed to parse config YAML: ", e.as_str())),
            ),
            ConfigInput::Parsed(c) => {
                match c.validate() {
                    Ok(()) => Ok(c),
                    Err(e) => Err(e),
                }
            },
        }
    }

    /// Checks every rule, and reports the first one that is broken.
    pub fn validate(&self) -> (r: Result<(), AppError>)
        ensures
            match violation(*self) {
                None => r is Ok,
                Some(rule) => r matches Err(AppError::Config(m)) && m@ == rule,
            },
    {
        if text::blank(self.rabbitmq.uri.as_str()) {
            return reject("rabbitmq.uri is required");
        }
        if text::blank(self.rabbitmq.consume_queue.as_str()) {
            return reject("rabbitmq.consume_queue is required");
        }
        if text::blank(self.rabbitmq.publish_queue.as_str()) {
            return reject("rabbitmq.publish_queue is required");
        }
        if self.rabbitmq.prefetch_count == 0 {
            return reject("rabbitmq.prefetch_count must be > 0");
        }
        if self.rabbitmq.reconnect_initial_delay_ms == 0 {
            return reject("rabbitmq.reconnect_initial_delay_ms must be > 0");
        }
        if self.rabbitmq.reconnect_max_delay_ms < self.rabbitmq.reconnect_initial_delay_ms {
            return reject("rabbitmq.reconnect_max_delay_ms must be >= reconnect_initial_delay_ms");
        }
        if text::blank(self.mongodb.uri.as_str()) {
            return reject("mongodb.uri is required");
        }
        if text::blank(self.mongodb.database.as_str()) {
            return reject("mongodb.database is required");
        }
        if text::blank(self.mongodb.collection.as_str()) {
            return reject("mongodb.collection is required");
        }
        if text::blank(self.mysql.url.as_str()) {
            return reject("mysql.url is required");
        }
        if self.mysql.max_connections == 0 {
            return reject("mysql.max_connections must be > 0");
        }
        if text::blank(self.llm.provider.as_str()) {
            return reject("llm.provider is required");
        }
        if text::blank(self.llm.base_url.as_str()) {
            return reject("llm.base_url is required");
        }
        if text::blank(self.llm.model.as_str()) {
            return reject("llm.model is required");
        }
        if text::blank(self.llm.api_key.as_str()) && !self.llm.allow_empty_api_key {
            return reject("llm.api_key is required unless llm.allow_empty_api_key=true");
        }
        if self.llm.timeout_secs < 1 {
            return reject("llm.timeout_secs must be >= 1");
        }
        if self.llm.max_retries > 10 {
            return reject("llm.max_retries must be <= 10");
        }
        if self.concurrency.max_tasks == 0 {
            return reject("concurrency.max_tasks must be > 0");
        }
        if self.concurrency.max_llm_requests == 0 {
            return reject("concurrency.max_llm_requests must be > 0");
        }
        if self.server.health_port == 0 {
            return reject("server.health_port must be > 0");
        }
        Ok(())
    }
}

/// The delay before the first reconnection, where the file names none.
pub fn default_reconnect_initial_delay_ms() -> (r: u64)
    ensures
        r == 1_000,
{
    1_000
}

/// The longest delay between reconnections, where the file names none.
pub fn default_reconnect_max_delay_ms() -> (r: u64)
    ensures
        r == 30_000,
{
    30_000
}

/// The LLM provider, where the file names none.
pub fn default_llm_provider() -> (r: String)
    ensures
        r@ == "openai_compatible"@,
{
    "openai_compatible".to_owned()
}

/// Whether the configured LLM is the service's own mock endpoint.
pub open spec fn is_mock_llm(c: LlmConfig) -> bool {
    &&& text::ascii_lower(c.provider@) == text::ascii_lower("simple_text_json"@)
    &&& text::has_suffix(text::without_end_slashes(c.base_url@), "/mock-llm"@)
}

/// Tests whether the configured LLM is the service's own mock endpoint.
pub fn mock_llm_enabled(config: &LlmConfig) -> (r: bool)
    ensures
        r == is_mock_llm(*config),
{
    text::same_ignoring_ascii_case(config.provider.as_str(), "simple_text_json")
        && text::ends_with_before_slashes(config.base_url.as_str(), "/mock-llm")
}

/// Whether a placeholder opens at position `i`.
pub open spec fn opens_at(s: Seq<char>, i: int) -> bool {
    0 <= i && i + 1 < s.len() && s[i] == '$' && s[i + 1] == '{'
}

/// The first position from `from` on where a placeholder opens; the length of the text where
/// there is none.
pub open spec fn next_open(s: Seq<char>, from: int) -> int
    decreases s.len() - from,
{
    if from + 1 >= s.len() {
        s.len() as int
    } else if opens_at(s, from) {
        from
    } else {
        next_open(s, from + 1)
    }
}

/// The first closing brace from `from` on; the length of the text where there is none.
pub open spec fn next_close(s: Seq<char>, from: int) -> int
    decreases s.len() - from,
{
    if from >= s.len() {
        s.len() as int
    } else if s[from] == '}' {
        from
    } else {
        next_close(s, from + 1)
    }
}

/// The value of a variable: that of its first entry, and empty where it has none.
pub open spec fn variable_value(vars: Seq<(Seq<char>, Seq<char>)>, name: Seq<char>) -> Seq<char>
    decreases vars.len(),
{
    if vars.len() == 0 {
        Seq::empty()
    } else if vars[0].0 == name {
        vars[0].1
    } else {
        variable_value(vars.drop_first(), name)
    }
}

/// The contents of a list of variables.
pub open spec fn variables(vars: Seq<(String, String)>) -> Seq<(Seq<char>, Seq<char>)> {
    vars.map_values(|v: (String, String)| (v.0@, v.1@))
}

/// The text from `from` on, with every `${NAME}` replaced by the value of `NAME`. What follows
/// an opening that is never closed stays as it is.
pub open spec fn substituted(
    s: Seq<char>,
    from: int,
    vars: Seq<(Seq<char>, Seq<char>)>,
) -> Seq<char>
    decreases s.len() - from,
{
    let open = next_open(s, from);
    let close = next_close(s, open + 2);
    if from <= open && open + 2 <= close < s.len() {
        s.subrange(from, open) + variable_value(vars, s.subrange(open + 2, close)) + substituted(
            s,
            close + 1,
            vars,
        )
    } else {
        s.subrange(from, s.len() as int)
    }
}

/// The names in the placeholders from `from` on, in the order in which they stand there.
pub open spec fn names_from(s: Seq<char>, from: int) -> Seq<Seq<char>>
    decreases s.len() - from,
{
    let open = next_open(s, from);
    let close = next_close(s, open + 2);
    if from <= open && open + 2 <= close < s.len() {
        seq![s.subrange(open + 2, close)] + names_from(s, close + 1)
    } else {
        Seq::empty()
    }
}

proof fn next_open_bounds(s: Seq<char>, from: int)
    requires
        0 <= from <= s.len(),
    ensures
        from <= next_open(s, from) <= s.len(),
        next_open(s, from) < s.len() ==> opens_at(s, next_open(s, from)),
        forall|i: int| from <= i < next_open(s, from) ==> !#[trigger] opens_at(s, i),
    decreases s.len() - from,
{
    if from + 1 < s.len() && !opens_at(s, from) {
        next_open_bounds(s, from + 1);
    }
}

proof fn next_close_bounds(s: Seq<char>, from: int)
    requires
        0 <= from,
    ensures
        from <= s.len() ==> from <= next_close(s, from) <= s.len(),
        next_close(s, from) < s.len() ==> s[next_close(s, from)] == '}',
    decreases s.len() - from,
{
    if from < s.len() && s[from] != '}' {
        next_close_bounds(s, from + 1);
    }
}

/// Finds the first position from `from` on where a placeholder opens.
fn find_open(chars: &Vec<char>, from: usize) -> (r: usize)
    requires
        from <= chars@.len(),
    ensures
        r == next_open(chars@, from as int),
{
    let mut i: usize = from;
    while i < chars.len() && chars.len() - i > 1
        invariant
            from <= i <= chars@.len(),
            next_open(chars@, i as int) == next_open(chars@, from as int),
        decreases chars@.len() - i,
    {
        if chars[i] == '$' && chars[i + 1] == '{' {
            return i;
        }
        i += 1;
    }
    chars.len()
}

/// Finds the first closing brace from `from` on.
fn find_close(chars: &Vec<char>, from: usize) -> (r: usize)
    requires
        from <= chars@.len(),
    ensures
        r == next_close(chars@, from as int),
{
    let mut i: usize = from;
    while i < chars.len()
        invariant
            from <= i <= chars@.len(),
            next_close(chars@, i as int) == next_close(chars@, from as int),
        decreases chars@.len() - i,
    {
        if chars[i] == '}' {
            return i;
        }
        i += 1;
    }
    chars.len()
}

/// Looks a variable up.
fn look_up(vars: &Vec<(String, String)>, name: &str) -> (r: String)
    ensures
        r@ == variable_value(variables(vars@), name@),
{
    let mut i: usize = 0;
    let ghost all = variables(vars@);
    assert(all.skip(0) =~= all);
    while i < vars.len()
        invariant
            i <= vars@.len(),
            all == variables(vars@),
            variable_value(all.skip(i as int), name@) == variable_value(all, name@),
        decreases vars@.len() - i,
    {
        assert(all.skip(i as int)[0] == all[i as int]);
        assert(all.skip(i as int).drop_first() =~= all.skip(i + 1));
        if text::same_text(vars[i].0.as_str(), name) {
            return vars[i].1.clone();
        }
        i += 1;
    }
    String::new()
}

/// The names of the variables that a text refers to, one for each placeholder.
pub fn placeholder_names(content: &str) -> (r: Vec<String>)
    ensures
        r@.map_values(|n: String| n@) == names_from(content@, 0),
{
    let chars = text::chars_of(content);
    let mut names: Vec<String> = Vec::new();
    let mut start: usize = 0;
    let ghost all = names_from(content@, 0);
    assert(names@.map_values(|n: String| n@) + names_from(content@, 0) =~= all);
    loop
        invariant
            chars@ == content@,
            start <= chars@.len(),
            all == names_from(content@, 0),
            names@.map_values(|n: String| n@) + names_from(content@, start as int) == all,
        ensures
            names@.map_values(|n: String| n@) == all,
        decreases chars@.len() - start,
    {
        let open: usize = find_open(&chars, start);
        proof {
            next_open_bounds(chars@, start as int);
            next_close_bounds(chars@, open + 2);
        }
        if open >= chars.len() {
            assert(names_from(content@, start as int) =~= Seq::empty());
            assert(names@.map_values(|n: String| n@) =~= all);
            break;
        }
        let close: usize = find_close(&chars, open + 2);
        if close >= chars.len() {
            assert(names_from(content@, start as int) =~= Seq::empty());
            assert(names@.map_values(|n: String| n@) =~= all);
            break;
        }
        let ghost before = names@.map_values(|n: String| n@);
        names.push(content.substring_char(open + 2, close).to_owned());
        proof {
            let name = content@.subrange(open + 2, close as int);
            assert(names@.map_values(|n: String| n@) =~= before.push(name));
            assert(before + (seq![name] + names_from(content@, close + 1)) =~= before.push(name)
                + names_from(content@, close + 1));
        }
        start = close + 1;
    }
    names
}

/// Replaces every `${NAME}` by the value of `NAME`, and by nothing where `NAME` has no value.
pub fn substitute_env_vars(content: &str, vars: &Vec<(String, String)>) -> (r: String)
    ensures
        r@ == substituted(content@, 0, variables(vars@)),
{
    let chars = text::chars_of(content);
    let mut out: String = String::new();
    let mut start: usize = 0;
    let ghost all = substituted(content@, 0, variables(vars@));
    assert(out@ + substituted(content@, 0, variables(vars@)) =~= all);
    loop
        invariant
            chars@ == content@,
            start <= chars@.len(),
            out@ + substituted(content@, start as int, variables(vars@)) == all,
        ensures
            start <= chars@.len(),
            out@ + content@.subrange(start as int, content@.len() as int) == all,
        decreases chars@.len() - start,
    {
        let open: usize = find_open(&chars, start);
        proof {
            next_open_bounds(chars@, start as int);
            next_close_bounds(chars@, open + 2);
        }
        if open >= chars.len() {
            break;
        }
        let close: usize = find_close(&chars, open + 2);
        if close >= chars.len() {
            break;
        }
        let ghost before = out@;
        let value: String = look_up(vars, content.substring_char(open + 2, close));
        out.append(content.substring_char(start, open));
        out.append(value.as_str());
        proof {
            let rest = substituted(content@, close + 1, variables(vars@));
            let kept = content@.subrange(start as int, open as int);
            assert(before + (kept + value@ + rest) =~= before + kept + value@ + rest);
        }
        start = close + 1;
    }
    out.append(content.substring_char(start, chars.len()));
    out
}

/// A text in which no placeholder is both opened and closed is kept as it is.
pub proof fn text_without_placeholders_is_kept(
    s: Seq<char>,
    vars: Seq<(Seq<char>, Seq<char>)>,
)
    requires
        forall|i: int, j: int|
            #![trigger s[i], s[j]]
            0 <= i && i + 2 <= j < s.len() && s[i] == '$' && s[i + 1] == '{' ==> s[j] != '}',
    ensures
        substituted(s, 0, vars) == s,
        names_from(s, 0).len() == 0,
{
    next_open_bounds(s, 0);
    next_close_bounds(s, next_open(s, 0) + 2);
    assert(s.subrange(0, s.len() as int) =~= s);
}

/// The result depends on no variable but those that the text names, so it is enough to look
/// those up.
pub proof fn only_named_variables_matter(
    s: Seq<char>,
    from: int,
    vars: Seq<(Seq<char>, Seq<char>)>,
    other: Seq<(Seq<char>, Seq<char>)>,
)
    requires
        forall|i: int|
            0 <= i < names_from(s, from).len() ==> variable_value(
                vars,
                #[trigger] names_from(s, from)[i],
            ) == variable_value(other, names_from(s, from)[i]),
    ensures
        substituted(s, from, vars) == substituted(s, from, other),
    decreases s.len() - from,
{
    let open = next_open(s, from);
    let close = next_close(s, open + 2);
    if from <= open && open + 2 <= close < s.len() {
        let names = names_from(s, from);
        let rest = names_from(s, close + 1);
        assert(names[0] == s.subrange(open + 2, close));
        assert forall|i: int| 0 <= i < rest.len() implies variable_value(vars, #[trigger] rest[i])
            == variable_value(other, rest[i]) by {
            assert(names[i + 1] == rest[i]);
        }
        only_named_variables_matter(s, close + 1, vars, other);
    }
}

proof fn next_open_in_suffix(s: Seq<char>, k: int, from: int)
    requires
        0 <= k <= s.len(),
        0 <= from,
    ensures
        next_open(s, k + from) == k + next_open(s.skip(k), from),
    decreases s.len() - k - from,
{
    if k + from + 1 < s.len() {
        assert(opens_at(s, k + from) == opens_at(s.skip(k), from));
        if !opens_at(s, k + from) {
            next_open_in_suffix(s, k, from + 1);
        }
    }
}

proof fn next_close_in_suffix(s: Seq<char>, k: int, from: int)
    requires
        0 <= k <= s.len(),
        0 <= from,
    ensures
        next_close(s, k + from) == k + next_close(s.skip(k), from),
    decreases s.len() - k - from,
{
    if k + from < s.len() && s[k + from] != '}' {
        next_close_in_suffix(s, k, from + 1);
    }
}

proof fn substituted_in_suffix(
    s: Seq<char>,
    k: int,
    from: int,
    vars: Seq<(Seq<char>, Seq<char>)>,
)
    requires
        0 <= k <= k + from <= s.len(),
    ensures
        substituted(s, k + from, vars) == substituted(s.skip(k), from, vars),
    decreases s.len() - k - from,
{
    let t = s.skip(k);
    let open = next_open(t, from);
    next_open_in_suffix(s, k, from);
    next_open_bounds(t, from);
    next_close_in_suffix(s, k, open + 2);
    let close = next_close(t, open + 2);
    if from <= open && open + 2 <= close < t.len() {
        substituted_in_suffix(s, k, close + 1, vars);
        assert(s.subrange(k + from, k + open) =~= t.subrange(from, open));
        assert(s.subrange(k + open + 2, k + close) =~= t.subrange(open + 2, close));
    } else {
        assert(s.subrange(k + from, s.len() as int) =~= t.subrange(from, t.len() as int));
    }
}

proof fn names_in_suffix(s: Seq<char>, k: int, from: int)
    requires
        0 <= k <= k + from <= s.len(),
    ensures
        names_from(s, k + from) == names_from(s.skip(k), from),
    decreases s.len() - k - from,
{
    let t = s.skip(k);
    let open = next_open(t, from);
    next_open_in_suffix(s, k, from);
    next_open_bounds(t, from);
    next_close_in_suffix(s, k, open + 2);
    let close = next_close(t, open + 2);
    if from <= open && open + 2 <= close < t.len() {
        names_in_suffix(s, k, close + 1);
        assert(s.subrange(k + open + 2, k + close) =~= t.subrange(open + 2, close));
    }
}

proof fn next_close_skips(s: Seq<char>, from: int, to: int)
    requires
        0 <= from <= to < s.len(),
        s[to] == '}',
        forall|i: int| from <= i < to ==> s[i] != '}',
    ensures
        next_close(s, from) == to,
    decreases to - from,
{
    if from < to {
        next_close_skips(s, from + 1, to);
    }
}

proof fn next_open_skips(s: Seq<char>, from: int, to: int)
    requires
        0 <= from <= to,
        opens_at(s, to),
        forall|i: int| from <= i < to ==> !#[trigger] opens_at(s, i),
    ensures
        next_open(s, from) == to,
    decreases to - from,
{
    if from < to {
        assert(!opens_at(s, from));
        next_open_skips(s, from + 1, to);
    }
}

/// The first placeholder of a text is replaced by the value of its variable, what stands before
/// it is kept, and what follows it is treated the same way. The value itself is not searched
/// for placeholders. Its name comes first among the names.
pub proof fn first_placeholder_is_replaced(
    before: Seq<char>,
    name: Seq<char>,
    after: Seq<char>,
    vars: Seq<(Seq<char>, Seq<char>)>,
)
    requires
        forall|i: int|
            0 <= i && i + 1 < before.len() && #[trigger] before[i] == '$' ==> before[i + 1] != '{',
        !name.contains('}'),
    ensures
        substituted(before + "${"@ + name + "}"@ + after, 0, vars) == before + variable_value(
            vars,
            name,
        ) + substituted(after, 0, vars),
        names_from(before + "${"@ + name + "}"@ + after, 0) == seq![name] + names_from(after, 0),
{
    reveal_strlit("${");
    reveal_strlit("}");
    let s = before + "${"@ + name + "}"@ + after;
    let open = before.len() as int;
    let close = open + 2 + name.len();
    assert(s[open] == '$' && s[open + 1] == '{');
    assert(s[close] == '}');
    assert forall|i: int| 0 <= i < open implies !#[trigger] opens_at(s, i) by {
        if i + 1 < open {
            assert(s[i] == before[i] && s[i + 1] == before[i + 1]);
        }
    }
    next_open_skips(s, 0, open);
    assert forall|i: int| open + 2 <= i < close implies s[i] != '}' by {
        assert(s[i] == name[i - open - 2]);
        assert(name.contains(name[i - open - 2]));
    }
    next_close_skips(s, open + 2, close);
    assert(s.subrange(0, open) =~= before);
    assert(s.subrange(open + 2, close) =~= name);
    assert(s.skip(close + 1) =~= after);
    substituted_in_suffix(s, close + 1, 0, vars);
    names_in_suffix(s, close + 1, 0);
}

/// The rules of a configuration, in the order in which they are checked, each with the words for
/// breaking it: where one is broken and all before it are kept, its words are reported; where all
/// are kept, nothing is.
pub proof fn first_broken_rule_is_reported(c: AppConfig)
    ensures
        ({
            let kept_1 = !text::is_blank(c.rabbitmq.uri@);
            let kept_2 = kept_1 && !text::is_blank(c.rabbitmq.consume_queue@);
            let kept_3 = kept_2 && !text::is_blank(c.rabbitmq.publish_queue@);
            let kept_4 = kept_3 && c.rabbitmq.prefetch_count > 0;
            let kept_5 = kept_4 && c.rabbitmq.reconnect_initial_delay_ms > 0;
            let kept_6 = kept_5 && c.rabbitmq.reconnect_max_delay_ms >= c.rabbitmq.reconnect_initial_delay_ms;
            let kept_7 = kept_6 && !text::is_blank(c.mongodb.uri@);
            let kept_8 = kept_7 && !text::is_blank(c.mongodb.database@);
            let kept_9 = kept_8 && !text::is_blank(c.mongodb.collection@);
            let kept_10 = kept_9 && !text::is_blank(c.mysql.url@);
            let kept_11 = kept_10 && c.mysql.max_connections > 0;
            let kept_12 = kept_11 && !text::is_blank(c.llm.provider@);
            let kept_13 = kept_12 && !text::is_blank(c.llm.base_url@);
            let kept_14 = kept_13 && !text::is_blank(c.llm.model@);
            let kept_15 = kept_14 && (c.llm.allow_empty_api_key || !text::is_blank(c.llm.api_key@));
            let kept_16 = kept_15 && c.llm.timeout_secs >= 1;
            let kept_17 = kept_16 && c.llm.max_retries <= 10;
            let kept_18 = kept_17 && c.concurrency.max_tasks > 0;
            let kept_19 = kept_18 && c.concurrency.max_llm_requests > 0;
            let kept_20 = kept_19 && c.server.health_port > 0;
            &&& !kept_1 ==> violation(c) == Some("rabbitmq.uri is required"@)
            &&& kept_1 && !kept_2 ==> violation(c) == Some(
                "rabbitmq.consume_queue is required"@,
            )
            &&& kept_2 && !kept_3 ==> violation(c) == Some(
                "rabbitmq.publish_queue is required"@,
            )
            &&& kept_3 && !kept_4 ==> violation(c) == Some(
                "rabbitmq.prefetch_count must be > 0"@,
            )
            &&& kept_4 && !kept_5 ==> violation(c) == Some(
                "rabbitmq.reconnect_initial_delay_ms must be > 0"@,
            )
            &&& kept_5 && !kept_6 ==> violation(c) == Some(
                "rabbitmq.reconnect_max_delay_ms must be >= reconnect_initial_delay_ms"@,
            )
            &&& kept_6 && !kept_7 ==> violation(c) == Some(
                "mongodb.uri is required"@,
            )
            &&& kept_7 && !kept_8 ==> violation(c) == Some(
                "mongodb.database is required"@,
            )
            &&& kept_8 && !kept_9 ==> violation(c) == Some(
                "mongodb.collection is required"@,
            )
            &&& kept_9 && !kept_10 ==> violation(c) == Some(
                "mysql.url is required"@,
            )
            &&& kept_10 && !kept_11 ==> violation(c) == Some(
                "mysql.max_connections must be > 0"@,
            )
            &&& kept_11 && !kept_12 ==> violation(c) == Some(
                "llm.provider is required"@,
            )
            &&& kept_12 && !kept_13 ==> violation(c) == Some(
                "llm.base_url is required"@,
            )
            &&& kept_13 && !kept_14 ==> violation(c) == Some(
                "llm.model is required"@,
            )
            &&& kept_14 && !kept_15 ==> violation(c) == Some(
                "llm.api_key is required unless llm.allow_empty_api_key=true"@,
            )
            &&& kept_15 && !kept_16 ==> violation(c) == Some(
                "llm.timeout_secs must be >= 1"@,
            )
            &&& kept_16 && !kept_17 ==> violation(c) == Some(
                "llm.max_retries must be <= 10"@,
            )
            &&& kept_17 && !kept_18 ==> violation(c) == Some(
                "concurrency.max_tasks must be > 0"@,
            )
            &&& kept_18 && !kept_19 ==> violation(c) == Some(
                "concurrency.max_llm_requests must be > 0"@,
            )
            &&& kept_19 && !kept_20 ==> violation(c) == Some(
                "server.health_port must be > 0"@,
            )
            &&& kept_20 ==> violation(c) is None
        }),
{
}

/// The mock endpoint is used exactly where the provider's name is that of the plain-text provider
/// but for the case of its letters, and the address, whatever slashes it ends with, ends with the
/// path of the endpoint.
pub proof fn mock_llm_is_known_by_provider_and_path(c: LlmConfig)
    ensures
        is_mock_llm(c) <==> {
            &&& text::ascii_lower(c.provider@) == "simple_text_json"@
            &&& exists|before: Seq<char>|
                text::without_end_slashes(c.base_url@) == #[trigger] (before + "/mock-llm"@)
        },
{
    reveal_strlit("simple_text_json");
    assert(text::ascii_lower("simple_text_json"@) =~= "simple_text_json"@);
    text::suffixes_stand_at_the_end(text::without_end_slashes(c.base_url@), "/mock-llm"@);
}

/// A variable has the value of its first entry, and an empty one where it has no entry.
pub proof fn variables_have_their_first_value(
    vars: Seq<(Seq<char>, Seq<char>)>,
    name: Seq<char>,
    k: int,
)
    requires
        0 <= k <= vars.len(),
        forall|i: int| 0 <= i < k ==> (#[trigger] vars[i]).0 != name,
        k < vars.len() ==> vars[k].0 == name,
    ensures
        k < vars.len() ==> variable_value(vars, name) == vars[k].1,
        k == vars.len() ==> variable_value(vars, name).len() == 0,
    decreases k,
{
    if k > 0 {
        let rest = vars.drop_first();
        assert(vars[0].0 != name);
        assert forall|i: int| 0 <= i < k - 1 implies (#[trigger] rest[i]).0 != name by {
            assert(rest[i] == vars[i + 1]);
        }
        variables_have_their_first_value(rest, name, k - 1);
    }
}

/// The contents of variables are their names and values, in order.
pub proof fn variable_contents(vars: Seq<(String, String)>, i: int)
    requires
        0 <= i < vars.len(),
    ensures
        variables(vars).len() == vars.len(),
        variables(vars)[i].0 == vars[i].0@,
        variables(vars)[i].1 == vars[i].1@,
{
}

} // verus!
