use family_policy::agent::{
    check_url_scheme, classify_response, decide_after_fetch, is_retryable, next_retry, retry_delay, AgentConfig,
    AgentConfigError, AgentSettings, AgentState, FetchDecision, FetchError, GitHubConfig, LoggingConfig,
    PolicyFetchResult, PollingScheduler, SecurityConfig,
};
use family_policy::state::{compute_config_hash, AppliedPolicies};
use std::time::Duration;

#[test]
fn agent_settings_default_values() {
    let settings = AgentSettings::default();
    assert_eq!(settings.poll_interval, 300);
    assert_eq!(settings.poll_jitter, 60);
    assert_eq!(settings.retry_interval, 60);
    assert_eq!(settings.max_retries, 3);
}

#[test]
fn logging_config_default_values() {
    let logging = LoggingConfig::default();
    assert_eq!(logging.level, "info");
    assert!(logging.file.is_none());
}

#[test]
fn polling_scheduler_creates_with_correct_intervals() {
    let scheduler = PollingScheduler::new(300, 60);
    assert_eq!(Duration::from_secs(scheduler.base_interval), Duration::from_secs(300));
    assert_eq!(Duration::from_secs(scheduler.jitter_range), Duration::from_secs(60));
}

#[test]
fn polling_scheduler_jitter_is_within_range() {
    let scheduler = PollingScheduler::new(300, 60);
    for _ in 0..100 {
        let interval = Duration::from_secs(scheduler.calculate_next_interval());
        assert!(interval >= Duration::from_secs(300));
        assert!(interval <= Duration::from_secs(360));
    }
}

#[test]
fn polling_scheduler_with_zero_jitter() {
    let scheduler = PollingScheduler::new(300, 0);
    for _ in 0..10 {
        let interval = Duration::from_secs(scheduler.calculate_next_interval());
        assert_eq!(interval, Duration::from_secs(300));
    }
}

#[test]
fn polling_scheduler_jitter_varies() {
    let scheduler = PollingScheduler::new(300, 60);
    let mut seen = std::collections::HashSet::new();
    for _ in 0..200 {
        seen.insert(scheduler.calculate_next_interval());
    }
    assert!(seen.len() > 1);
    assert_eq!(scheduler.interval_with_jitter(17), 317);
}

fn agent_config(url: &str, poll_interval: u64) -> AgentConfig {
    AgentConfig {
        github: GitHubConfig { policy_url: url.to_string(), access_token: None },
        agent: AgentSettings { poll_interval, ..AgentSettings::default() },
        logging: LoggingConfig::default(),
        security: SecurityConfig::default(),
    }
}

#[test]
fn agent_config_validation() {
    assert_eq!(agent_config("https://raw.githubusercontent.com/o/r/main/p.yaml", 300).validate(), Ok(()));
    assert_eq!(agent_config("http://example.com/policy.yaml", 300).validate(), Err(AgentConfigError::NotHttps));
    assert_eq!(agent_config("not a url", 300).validate(), Err(AgentConfigError::InvalidUrl));
    assert_eq!(
        agent_config("https://example.com/policy.yaml", 30).validate(),
        Err(AgentConfigError::PollIntervalTooShort)
    );
    assert_eq!(check_url_scheme(Some("https")), Ok(()));
    assert_eq!(check_url_scheme(Some("ftp")), Err(AgentConfigError::NotHttps));
    assert_eq!(check_url_scheme(None), Err(AgentConfigError::InvalidUrl));
}

#[test]
fn response_status_mapping() {
    assert!(matches!(
        classify_response(200, "x".to_string(), Some("\"e1\"".to_string())),
        Ok(PolicyFetchResult::Updated { ref content, ref etag }) if content == "x" && etag.as_deref() == Some("\"e1\"")
    ));
    assert!(matches!(classify_response(304, String::new(), None), Ok(PolicyFetchResult::NotModified)));
    assert_eq!(classify_response(401, String::new(), None).err(), Some(FetchError::Permission { status: 401 }));
    assert_eq!(classify_response(403, String::new(), None).err(), Some(FetchError::Permission { status: 403 }));
    assert_eq!(classify_response(404, String::new(), None).err(), Some(FetchError::NotFound));
    assert_eq!(classify_response(502, String::new(), None).err(), Some(FetchError::Transport { status: 502 }));
    assert!(is_retryable(FetchError::Transport { status: 500 }));
    assert!(!is_retryable(FetchError::NotFound));
}

#[test]
fn retry_backoff_doubles() {
    assert_eq!(retry_delay(60, 1), Some(60));
    assert_eq!(retry_delay(60, 2), Some(120));
    assert_eq!(retry_delay(60, 3), Some(240));
    assert_eq!(retry_delay(u64::MAX, 2), None);
    assert_eq!(next_retry(0, 3, 60), Some(60));
    assert_eq!(next_retry(2, 3, 60), Some(240));
    assert_eq!(next_retry(3, 3, 60), None);
}

#[test]
fn remote_not_modified_only_updates_last_checked() {
    let mut state = AgentState::new();
    state.mark_applied_at("sha256:aa".to_string(), Some("\"e1\"".to_string()), AppliedPolicies::default(), 100);
    let decision = decide_after_fetch(&state.config_hash, PolicyFetchResult::NotModified);
    assert!(matches!(decision, FetchDecision::MarkChecked));
    state.mark_checked_at(200);
    assert_eq!(state.last_checked, Some(200));
    assert_eq!(state.config_hash.as_deref(), Some("sha256:aa"));
    assert_eq!(state.github_etag.as_deref(), Some("\"e1\""));
    assert_eq!(state.last_updated, Some(100));
    assert!(state.applied_policies.chrome.is_none());
}

#[test]
fn same_content_only_records_etag() {
    let content = "policies: []\n".to_string();
    let current = Some(compute_config_hash(&content));
    let d = decide_after_fetch(&current, PolicyFetchResult::Updated { content: content.clone(), etag: Some("e2".to_string()) });
    assert!(matches!(d, FetchDecision::RecordEtag { ref etag } if etag.as_deref() == Some("e2")));
    let d = decide_after_fetch(&None, PolicyFetchResult::Updated { content, etag: None });
    assert!(matches!(d, FetchDecision::Apply { ref hash, .. } if hash.starts_with("sha256:")));
}

#[test]
fn new_agent_state_is_empty() {
    let state = AgentState::new();
    assert_eq!(state.version, "1.0");
    assert_eq!(state.machine_id.len(), 36);
    assert!(state.config_hash.is_none());
    assert!(state.github_etag.is_none());
}
