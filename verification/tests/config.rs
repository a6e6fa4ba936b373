use media_prompt::config::{
    default_llm_provider, default_reconnect_initial_delay_ms, default_reconnect_max_delay_ms,
    mock_llm_enabled, placeholder_names, substitute_env_vars, AppConfig, ConcurrencyConfig,
    ConfigInput, LlmConfig, MongoDbConfig, MySqlConfig, RabbitMqConfig, ServerConfig,
};
use media_prompt::error::AppError;

fn sample() -> AppConfig {
    AppConfig {
        rabbitmq: RabbitMqConfig {
            uri: "amqp://localhost".to_string(),
            consume_queue: "media_task_in".to_string(),
            publish_queue: "media_task_out".to_string(),
            prefetch_count: 5,
            reconnect_initial_delay_ms: default_reconnect_initial_delay_ms(),
            reconnect_max_delay_ms: default_reconnect_max_delay_ms(),
        },
        mongodb: MongoDbConfig {
            uri: "mongodb://localhost".to_string(),
            database: "script_db".to_string(),
            collection: "scripts".to_string(),
        },
        mysql: MySqlConfig { url: "mysql://localhost".to_string(), max_connections: 10 },
        llm: LlmConfig {
            provider: default_llm_provider(),
            base_url: "https://llm".to_string(),
            model: "m".to_string(),
            api_key: "k".to_string(),
            allow_empty_api_key: false,
            timeout_secs: 120,
            max_retries: 3,
        },
        concurrency: ConcurrencyConfig { max_tasks: 5, max_llm_requests: 10 },
        server: ServerConfig { health_port: 9999 },
    }
}

fn rejection(c: &AppConfig) -> String {
    match c.validate() {
        Ok(()) => panic!("accepted"),
        Err(AppError::Config(m)) => m,
        Err(e) => panic!("{}", e.message()),
    }
}

#[test]
fn defaults_are_as_documented() {
    assert_eq!(default_reconnect_initial_delay_ms(), 1_000);
    assert_eq!(default_reconnect_max_delay_ms(), 30_000);
    assert_eq!(default_llm_provider(), "openai_compatible");
    assert!(sample().validate().is_ok());
}

#[test]
fn each_rule_is_reported() {
    let mut c = sample();
    c.rabbitmq.uri = " ".to_string();
    assert_eq!(rejection(&c), "rabbitmq.uri is required");
    let mut c = sample();
    c.rabbitmq.consume_queue = String::new();
    assert_eq!(rejection(&c), "rabbitmq.consume_queue is required");
    let mut c = sample();
    c.rabbitmq.publish_queue = "\t".to_string();
    assert_eq!(rejection(&c), "rabbitmq.publish_queue is required");
    let mut c = sample();
    c.rabbitmq.prefetch_count = 0;
    assert_eq!(rejection(&c), "rabbitmq.prefetch_count must be > 0");
    let mut c = sample();
    c.rabbitmq.reconnect_initial_delay_ms = 0;
    assert_eq!(rejection(&c), "rabbitmq.reconnect_initial_delay_ms must be > 0");
    let mut c = sample();
    c.rabbitmq.reconnect_max_delay_ms = 999;
    assert_eq!(
        rejection(&c),
        "rabbitmq.reconnect_max_delay_ms must be >= reconnect_initial_delay_ms"
    );
    let mut c = sample();
    c.mongodb.uri = String::new();
    assert_eq!(rejection(&c), "mongodb.uri is required");
    let mut c = sample();
    c.mongodb.database = String::new();
    assert_eq!(rejection(&c), "mongodb.database is required");
    let mut c = sample();
    c.mongodb.collection = String::new();
    assert_eq!(rejection(&c), "mongodb.collection is required");
    let mut c = sample();
    c.mysql.url = String::new();
    assert_eq!(rejection(&c), "mysql.url is required");
    let mut c = sample();
    c.mysql.max_connections = 0;
    assert_eq!(rejection(&c), "mysql.max_connections must be > 0");
    let mut c = sample();
    c.llm.provider = String::new();
    assert_eq!(rejection(&c), "llm.provider is required");
    let mut c = sample();
    c.llm.base_url = String::new();
    assert_eq!(rejection(&c), "llm.base_url is required");
    let mut c = sample();
    c.llm.model = String::new();
    assert_eq!(rejection(&c), "llm.model is required");
    let mut c = sample();
    c.llm.api_key = " ".to_string();
    assert_eq!(rejection(&c), "llm.api_key is required unless llm.allow_empty_api_key=true");
    c.llm.allow_empty_api_key = true;
    assert!(c.validate().is_ok());
    let mut c = sample();
    c.llm.timeout_secs = 0;
    assert_eq!(rejection(&c), "llm.timeout_secs must be >= 1");
    let mut c = sample();
    c.llm.max_retries = 11;
    assert_eq!(rejection(&c), "llm.max_retries must be <= 10");
    let mut c = sample();
    c.concurrency.max_tasks = 0;
    assert_eq!(rejection(&c), "concurrency.max_tasks must be > 0");
    let mut c = sample();
    c.concurrency.max_llm_requests = 0;
    assert_eq!(rejection(&c), "concurrency.max_llm_requests must be > 0");
    let mut c = sample();
    c.server.health_port = 0;
    assert_eq!(rejection(&c), "server.health_port must be > 0");
}

#[test]
fn first_broken_rule_is_reported() {
    let mut c = sample();
    c.server.health_port = 0;
    c.mysql.url = String::new();
    assert_eq!(rejection(&c), "mysql.url is required");
}

#[test]
fn loading_reports_read_and_parse_failures() {
    let r = AppConfig::load("a.yaml", ConfigInput::ReadFailed("gone".to_string()));
    assert!(matches!(r, Err(AppError::Config(m)) if m == "Failed to read config file a.yaml: gone"));
    let r = AppConfig::load("a.yaml", ConfigInput::ParseFailed("bad".to_string()));
    assert!(matches!(r, Err(AppError::Config(m)) if m == "Failed to parse config YAML: bad"));
    let r = AppConfig::load("a.yaml", ConfigInput::Parsed(sample()));
    assert!(matches!(r, Ok(c) if c.server.health_port == 9999));
    let mut broken = sample();
    broken.llm.max_retries = 99;
    let r = AppConfig::load("a.yaml", ConfigInput::Parsed(broken));
    assert!(matches!(r, Err(AppError::Config(m)) if m == "llm.max_retries must be <= 10"));
}

#[test]
fn mock_llm_is_recognised() {
    let mut c = sample().llm;
    c.provider = "SIMPLE_text_json".to_string();
    c.base_url = "http://127.0.0.1:9999/mock-llm/".to_string();
    assert!(mock_llm_enabled(&c));
    c.base_url = "http://127.0.0.1:9999/other".to_string();
    assert!(!mock_llm_enabled(&c));
    c.base_url = "http://127.0.0.1:9999/mock-llm".to_string();
    c.provider = "openai_compatible".to_string();
    assert!(!mock_llm_enabled(&c));
}

fn pair(name: &str, value: &str) -> (String, String) {
    (name.to_string(), value.to_string())
}

#[test]
fn placeholders_are_replaced() {
    let vars = vec![pair("A", "1"), pair("KEY", "秘密"), pair("A", "2")];
    assert_eq!(substitute_env_vars("x=${A}, y=${KEY}${NONE}.", &vars), "x=1, y=秘密.");
    assert_eq!(substitute_env_vars("${A}", &vars), "1");
    assert_eq!(substitute_env_vars("$A {A} $ {A}", &vars), "$A {A} $ {A}");
    assert_eq!(substitute_env_vars("a${unclosed", &vars), "a${unclosed");
    assert_eq!(substitute_env_vars("", &vars), "");
}

#[test]
fn values_are_not_expanded_again() {
    let vars = vec![pair("A", "${B}"), pair("B", "2")];
    assert_eq!(substitute_env_vars("${A}-${B}", &vars), "${B}-2");
}

#[test]
fn text_without_placeholders_stays() {
    assert_eq!(substitute_env_vars("port: 9999 # 端口", &vec![pair("A", "1")]), "port: 9999 # 端口");
    assert_eq!(substitute_env_vars("} ${A ${A", &vec![pair("A", "1")]), "} ${A ${A");
}

#[test]
fn placeholder_names_come_in_order() {
    assert_eq!(placeholder_names("${A} and ${B}${A} $C ${D"), vec!["A", "B", "A"]);
    assert_eq!(placeholder_names("${}"), vec![""]);
    assert!(placeholder_names("none").is_empty());
}

#[test]
fn only_named_variables_are_used() {
    let some = vec![pair("A", "1")];
    let more = vec![pair("Z", "9"), pair("A", "1")];
    let s = "${A}${B}";
    assert_eq!(substitute_env_vars(s, &some), substitute_env_vars(s, &more));
}
