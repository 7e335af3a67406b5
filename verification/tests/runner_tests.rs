use arc_runtime::config::{
    ConfigError, RawConfig, RawData, RawInfo, RawLlm, RawSliding, RawTimeRange,
};
use arc_runtime::prompt::Payload;
use arc_runtime::runner::{FetchErrorKind, FetchOutcome, start_run};

fn raw(with_sliding_start: bool) -> RawConfig {
    RawConfig {
        id: None,
        config_version: Some(String::from("1.0")),
        is_deployed: None,
        info: RawInfo {
            name: None,
            description: None,
            version: None,
            character: Some(String::from("You are a careful analyst.")),
            task: Some(String::from("Summarize the data.")),
        },
        data: RawData {
            enabled_views: None,
            user_query: Some(String::from("top movers")),
            time_range: Some(RawTimeRange {
                sliding: if with_sliding_start {
                    Some(RawSliding {
                        minutes: Some(15),
                        start_backtest: Some(String::from("2024-01-01T00:00:00.000Z")),
                    })
                } else {
                    None
                },
                has_fixed: false,
            }),
        },
        llm: RawLlm {
            provider: None,
            model: Some(String::from("gpt-4")),
            api_key: Some(String::from("key")),
            framework: None,
        },
    }
}

#[test]
fn malformed_input_terminates_before_any_record() {
    let mut bad = raw(true);
    bad.llm.api_key = None;
    let r = start_run(bad);
    assert_eq!(r.err().unwrap(), ConfigError::MissingApiKey);
}

#[test]
fn run_without_sliding_never_plans_a_fetch() {
    let (runner, records) = start_run(raw(false)).ok().unwrap();
    assert_eq!(records.len(), 1);
    assert_eq!(records[0].log_type, "INFO");
    assert_eq!(records[0].message, "Initializing agent...");
    let (client_records, plan) = runner.client_ready();
    assert!(plan.is_none());
    assert_eq!(client_records.len(), 1);
    assert_eq!(client_records[0].log_type, "SUCCESS");
    let (_, prompt) = runner.build_phase("");
    assert_eq!(prompt, "You are a careful analyst.\nSummarize the data.\n");
}

#[test]
fn run_with_sliding_start_plans_and_announces_the_fetch() {
    let (runner, _) = start_run(raw(true)).ok().unwrap();
    let (client_records, plan) = runner.client_ready();
    let req = plan.unwrap();
    assert_eq!(req.query, "top movers");
    assert_eq!(req.minutes, 15);
    assert_eq!(req.start_backtest, "2024-01-01T00:00:00.000Z");
    assert_eq!(client_records.len(), 2);
    assert_eq!(client_records[0].log_type, "SUCCESS");
    assert_eq!(client_records[0].message, "Agent initialized");
    assert_eq!(client_records[1].log_type, "INFO");
    assert_eq!(
        client_records[1].message,
        "Fetching data for 2024-01-01 00:00:00 on 15 minute interval"
    );
}

#[test]
fn fetched_empty_mapping_yields_no_data_section() {
    let (runner, _) = start_run(raw(true)).ok().unwrap();
    let outcome = FetchOutcome::Success {
        payload: Payload::EmptyMapping,
        time_text: String::from("\"3ms\""),
    };
    let (records, data_section) = runner.fetch_done(&outcome);
    assert_eq!(records.len(), 1);
    assert_eq!(records[0].log_type, "INFO");
    assert_eq!(records[0].message, "Received data from server in \"3ms\"");
    assert_eq!(
        data_section,
        "# Data to analyze:\n## Time Frame:\nStart_Date: 2024-01-01T00:00:00.000Z\n## Data:\nNo data available"
    );
}

#[test]
fn fetched_two_element_sequence_is_injected_pretty_printed() {
    let (runner, _) = start_run(raw(true)).ok().unwrap();
    let value = serde_json::Value::Array(vec![
        serde_json::Value::from(1),
        serde_json::Value::from(2),
    ]);
    let pretty = serde_json::to_string_pretty(&value).unwrap();
    let outcome = FetchOutcome::Success {
        payload: Payload::Content { pretty: Some(pretty.clone()) },
        time_text: String::from("\"3ms\""),
    };
    let (_, data_section) = runner.fetch_done(&outcome);
    assert!(data_section.contains("[\n  1,\n  2\n]"));
    assert_eq!(
        data_section,
        format!(
            "# Data to analyze:\n## Time Frame:\nStart_Date: 2024-01-01T00:00:00.000Z\n## Data:\n```json\n{}\n```",
            pretty
        )
    );
}

#[test]
fn fetch_failure_logs_one_error_and_the_run_reaches_invocation() {
    let (runner, _) = start_run(raw(true)).ok().unwrap();
    let outcome = FetchOutcome::Failure {
        kind: FetchErrorKind::Network,
        error_text: String::from("connection refused"),
    };
    let (records, data_section) = runner.fetch_done(&outcome);
    let errors: Vec<_> = records.iter().filter(|r| r.log_type == "ERROR").collect();
    assert_eq!(errors.len(), 1);
    assert_eq!(errors[0].message, "connection refused");
    assert_eq!(data_section, "");
    let (build_records, prompt) = runner.build_phase(&data_section);
    assert_eq!(build_records.len(), 4);
    assert_eq!(build_records[3].log_type, "INFO");
    assert_eq!(build_records[3].message, "Invoking agent...");
    assert_eq!(prompt, "You are a careful analyst.\nSummarize the data.\n");
}

#[test]
fn build_phase_logs_the_full_prompt() {
    let (runner, _) = start_run(raw(false)).ok().unwrap();
    let (records, prompt) = runner.build_phase("grounding");
    assert_eq!(records.len(), 4);
    assert_eq!(records[0].log_type, "INFO");
    assert_eq!(records[0].message, "Building prompt...");
    assert_eq!(records[1].log_type, "PROMPT");
    assert_eq!(records[1].message, prompt);
    assert_eq!(records[2].log_type, "SUCCESS");
    assert_eq!(records[2].message, "Prompt available");
    assert_eq!(records[3].log_type, "INFO");
    assert_eq!(records[3].message, "Invoking agent...");
}

#[test]
fn completion_success_ends_with_the_result_record() {
    let (runner, _) = start_run(raw(false)).ok().unwrap();
    let records = runner.completion_done(Ok(String::from("the answer"))).ok().unwrap();
    assert_eq!(records.len(), 2);
    assert_eq!(records[0].log_type, "SUCCESS");
    assert_eq!(records[0].message, "Agent invoked");
    assert_eq!(records[1].log_type, "RESULT");
    assert_eq!(records[1].message, "");
    assert_eq!(records[1].data, "the answer");
}

#[test]
fn completion_failure_is_fatal_and_writes_no_record() {
    let (runner, _) = start_run(raw(false)).ok().unwrap();
    let err = runner.completion_done(Err(String::from("provider unreachable")));
    assert_eq!(err.err().unwrap(), "provider unreachable");
}
