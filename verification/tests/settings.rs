use fcgiq::cli::Args;
use fcgiq::config::{Config, Fastcgi, FieldMapping, FieldSource, Queue, Sqs};
use fcgiq::dictionary::Dictionary;

#[test]
fn args_default_to_config_yaml() {
    assert_eq!(Args::default().config, "config.yaml");
}

#[test]
fn default_log_level_is_info() {
    assert_eq!(Config::default_log_level(), "INFO");
}

#[test]
fn config_can_be_built_and_cloned() {
    let mut cgi_environment = Dictionary::new();
    cgi_environment.insert("APP_ENV".to_string(), "test".to_string());
    let mut field_mappings = Dictionary::new();
    field_mappings.insert(
        "X_USER".to_string(),
        FieldMapping { source: FieldSource::BodyJson, field: "user".to_string() },
    );
    let config = Config {
        fastcgi: Fastcgi {
            address: "127.0.0.1".to_string(),
            port: 9000,
            script_path: "/srv/run.php".to_string(),
            max_parallel_requests: 4,
            cgi_environment,
        },
        queue: Queue {
            sqs: Sqs {
                api_endpoint_url: String::new(),
                queue_url: "https://sqs.example/q".to_string(),
                visibility_timeout: 30,
            },
        },
        field_mappings,
        log_level: Config::default_log_level(),
    };
    let copy = config.clone();
    assert_eq!(copy.fastcgi.port, 9000);
    assert_eq!(copy.fastcgi.cgi_environment.get("APP_ENV"), Some(&"test".to_string()));
    assert_eq!(copy.queue.sqs.visibility_timeout, 30);
    assert_eq!(copy.field_mappings.len(), 1);
    assert_eq!(copy.log_level, "INFO");
}
