use arc_runtime::config::{
    ConfigError, RawConfig, RawData, RawInfo, RawLlm, RawSliding, RawTimeRange, validate_config,
};

fn full_raw() -> RawConfig {
    RawConfig {
        id: Some(String::from("agent-1")),
        config_version: Some(String::from("1.0")),
        is_deployed: Some(false),
        info: RawInfo {
            name: Some(String::from("Analyst")),
            description: Some(String::from("a data analyst")),
            version: Some(String::from("0.1")),
            character: Some(String::from("You are a careful analyst.")),
            task: Some(String::from("Summarize the data.")),
        },
        data: RawData {
            enabled_views: Some(vec![String::from("prices")]),
            user_query: Some(String::from("top movers")),
            time_range: Some(RawTimeRange {
                sliding: Some(RawSliding {
                    minutes: Some(15),
                    start_backtest: Some(String::from("2024-01-01T00:00:00.000Z")),
                }),
                has_fixed: false,
            }),
        },
        llm: RawLlm {
            provider: Some(String::from("openai")),
            model: Some(String::from("gpt-4")),
            api_key: Some(String::from("key")),
            framework: Some(String::from("rig")),
        },
    }
}

#[test]
fn valid_document_carries_fields_over() {
    let cfg = validate_config(full_raw()).unwrap();
    assert_eq!(cfg.config_version, "1.0");
    assert_eq!(cfg.info.character, "You are a careful analyst.");
    assert_eq!(cfg.info.task, "Summarize the data.");
    assert_eq!(cfg.llm.api_key, "key");
    assert_eq!(cfg.data.user_query, "top movers");
    let sliding = cfg.data.time_range.sliding.unwrap();
    assert_eq!(sliding.minutes, 15);
    assert_eq!(sliding.start_backtest.unwrap(), "2024-01-01T00:00:00.000Z");
    assert_eq!(cfg.id.unwrap(), "agent-1");
    assert_eq!(cfg.data.enabled_views.unwrap(), vec![String::from("prices")]);
}

#[test]
fn missing_api_key_is_rejected() {
    let mut raw = full_raw();
    raw.llm.api_key = None;
    assert_eq!(validate_config(raw).unwrap_err(), ConfigError::MissingApiKey);
}

#[test]
fn missing_character_is_rejected() {
    let mut raw = full_raw();
    raw.info.character = None;
    assert_eq!(validate_config(raw).unwrap_err(), ConfigError::MissingCharacter);
}

#[test]
fn missing_task_is_rejected() {
    let mut raw = full_raw();
    raw.info.task = None;
    assert_eq!(validate_config(raw).unwrap_err(), ConfigError::MissingTask);
}

#[test]
fn missing_user_query_is_rejected() {
    let mut raw = full_raw();
    raw.data.user_query = None;
    assert_eq!(validate_config(raw).unwrap_err(), ConfigError::MissingUserQuery);
}

#[test]
fn missing_time_range_is_rejected() {
    let mut raw = full_raw();
    raw.data.time_range = None;
    assert_eq!(validate_config(raw).unwrap_err(), ConfigError::MissingTimeRange);
}

#[test]
fn sliding_without_minutes_is_rejected() {
    let mut raw = full_raw();
    raw.data.time_range = Some(RawTimeRange {
        sliding: Some(RawSliding {
            minutes: None,
            start_backtest: Some(String::from("2024-01-01T00:00:00.000Z")),
        }),
        has_fixed: false,
    });
    assert_eq!(validate_config(raw).unwrap_err(), ConfigError::MissingSlidingMinutes);
}

#[test]
fn first_missing_field_wins() {
    let mut raw = full_raw();
    raw.config_version = None;
    raw.info.task = None;
    raw.llm.api_key = None;
    assert_eq!(validate_config(raw).unwrap_err(), ConfigError::MissingConfigVersion);
}

#[test]
fn optional_fields_stay_absent() {
    let mut raw = full_raw();
    raw.id = None;
    raw.info.name = None;
    raw.data.enabled_views = None;
    raw.llm.provider = None;
    let cfg = validate_config(raw).unwrap();
    assert!(cfg.id.is_none());
    assert!(cfg.info.name.is_none());
    assert!(cfg.data.enabled_views.is_none());
    assert!(cfg.llm.provider.is_none());
}

#[test]
fn sliding_start_may_be_absent() {
    let mut raw = full_raw();
    raw.data.time_range = Some(RawTimeRange {
        sliding: Some(RawSliding { minutes: Some(5), start_backtest: None }),
        has_fixed: false,
    });
    let cfg = validate_config(raw).unwrap();
    let sliding = cfg.data.time_range.sliding.unwrap();
    assert_eq!(sliding.minutes, 5);
    assert!(sliding.start_backtest.is_none());
}
