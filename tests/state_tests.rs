use family_policy::apply::{
    config_summary, state_info, count_privacy_in_state, count_privacy_settings_chrome, count_privacy_settings_edge, count_privacy_settings_firefox,
    remove_all_policies, BrowserCounts, RemovalError, ValidationResult,
};
use family_policy::diff::{create_summary, generate_extension_diffs, generate_privacy_diffs, ExtensionDiff};
use family_policy::browser::Browser;
use family_policy::privileges::{check_privileges, PrivilegeCheck, PrivilegeError};
use family_policy::state::{
    accept_loaded_state, compute_config_hash, create_state, encode, hash_from_digest, AppliedPolicies, BrowserState,
};

#[test]
fn browser_state_new_creates_empty_state() {
    let state = BrowserState::new();
    assert!(state.extensions.is_empty());
    assert!(state.disable_incognito.is_none());
    assert!(state.disable_inprivate.is_none());
    assert!(state.disable_private_browsing.is_none());
    assert!(state.disable_guest_mode.is_none());
}

#[test]
fn browser_state_is_empty_returns_true_for_new_state() {
    let state = BrowserState::new();
    assert!(state.is_empty());
}

#[test]
fn browser_state_is_empty_returns_false_with_extensions() {
    let mut state = BrowserState::new();
    state.extensions.push("test".to_string());
    assert!(!state.is_empty());
}

#[test]
fn browser_state_is_empty_returns_false_with_privacy_settings() {
    let mut state = BrowserState::new();
    state.disable_incognito = Some(true);
    assert!(!state.is_empty());
}

#[test]
fn browser_state_default_creates_empty_state() {
    let state = BrowserState::default();
    assert!(state.is_empty());
}

#[test]
fn applied_policies_default_creates_empty() {
    let policies = AppliedPolicies::default();
    assert!(policies.chrome.is_none());
    assert!(policies.firefox.is_none());
    assert!(policies.edge.is_none());
}

#[test]
fn hex_encode_empty_bytes() {
    let bytes: &[u8] = &[];
    let encoded = encode(bytes);
    assert_eq!(encoded, "");
}

#[test]
fn hex_encode_single_byte() {
    let bytes: &[u8] = &[0xff];
    let encoded = encode(bytes);
    assert_eq!(encoded, "ff");
}

#[test]
fn hex_encode_multiple_bytes() {
    let bytes: &[u8] = &[0x01, 0x23, 0x45, 0x67, 0x89, 0xab, 0xcd, 0xef];
    let encoded = encode(bytes);
    assert_eq!(encoded, "0123456789abcdef");
}

#[test]
fn hex_encode_pads_single_digit() {
    let bytes: &[u8] = &[0x00, 0x01, 0x0f];
    let encoded = encode(bytes);
    assert_eq!(encoded, "00010f");
}

#[test]
fn config_hash_of_empty_text_is_known_digest() {
    assert_eq!(
        compute_config_hash(""),
        "sha256:e3b0c44298fc1c149afbf4c8996fb92427ae41e4649b934ca495991b7852b855"
    );
    assert_eq!(compute_config_hash("abc"), compute_config_hash("abc"));
    assert_eq!(hash_from_digest(&[0xab]), "sha256:ab");
}

#[test]
fn state_version_gate() {
    let state = create_state("sha256:00".to_string(), AppliedPolicies::default(), 1_700_000_000);
    assert_eq!(state.version, "1.0");
    assert_eq!(state.last_updated, 1_700_000_000);
    assert!(accept_loaded_state(state).is_some());
    let mut old = create_state("sha256:00".to_string(), AppliedPolicies::default(), 0);
    old.version = "0.9".to_string();
    assert!(accept_loaded_state(old).is_none());
}

fn flags(incognito: Option<bool>, inprivate: Option<bool>, private: Option<bool>, guest: Option<bool>) -> BrowserState {
    BrowserState {
        extensions: vec![],
        disable_incognito: incognito,
        disable_inprivate: inprivate,
        disable_private_browsing: private,
        disable_guest_mode: guest,
    }
}

#[test]
fn test_count_privacy_settings_chrome() {
    let state = flags(Some(true), None, None, Some(false));
    assert_eq!(count_privacy_settings_chrome(&state), 2);
}

#[test]
fn test_count_privacy_settings_firefox() {
    let state = flags(None, None, Some(true), None);
    assert_eq!(count_privacy_settings_firefox(&state), 1);
}

#[test]
fn test_count_privacy_settings_edge() {
    let state = flags(None, Some(true), None, Some(true));
    assert_eq!(count_privacy_settings_edge(&state), 2);
}

#[test]
fn count_privacy_in_state_counts_all_flags() {
    assert_eq!(count_privacy_in_state(&flags(Some(true), Some(false), Some(true), None)), 3);
}

#[test]
fn apply_test_browser_counts_default() {
    let counts = BrowserCounts::default();
    assert_eq!(counts.chrome, 0);
    assert_eq!(counts.firefox, 0);
    assert_eq!(counts.edge, 0);
}

#[test]
fn user_commands_test_browser_counts_default() {
    let counts = BrowserCounts::default();
    assert_eq!(counts.chrome, 0);
    assert_eq!(counts.firefox, 0);
    assert_eq!(counts.edge, 0);
}

#[test]
fn removal_counts_come_from_state() {
    assert_eq!(remove_all_policies(None).err(), Some(RemovalError::NoState));
    let mut chrome = flags(Some(true), None, None, Some(false));
    chrome.extensions = vec!["a".to_string(), "b".to_string()];
    let state = create_state("h".to_string(), AppliedPolicies { chrome: Some(chrome), firefox: None, edge: None }, 0);
    let r = remove_all_policies(Some(&state)).ok().unwrap();
    assert_eq!(r.extensions_removed.chrome, 2);
    assert_eq!(r.privacy_settings_removed.chrome, 2);
    assert_eq!(r.extensions_removed.edge, 0);
}

#[test]
fn test_validation_result_creation() {
    let result = ValidationResult { valid: true, errors: vec![], warnings: vec!["Test warning".to_string()] };
    assert!(result.valid);
    assert_eq!(result.errors.len(), 0);
    assert_eq!(result.warnings.len(), 1);
}

#[test]
fn test_diff_summary_empty() {
    let summary = create_summary(&None, &None, &None);
    assert_eq!(summary.total_additions, 0);
    assert_eq!(summary.total_removals, 0);
    assert_eq!(summary.total_changes, 0);
}

#[test]
fn extension_diff_classifies_ids() {
    let (chrome, _, _) = family_policy::config::to_browser_configs(&family_policy::config::Config {
        policies: vec![family_policy::config::PolicyEntry {
            name: "p".to_string(),
            browsers: vec![Browser::Chrome],
            disable_private_mode: Some(true),
            disable_guest_mode: None,
            extensions: vec![family_policy::config::ExtensionEntry {
                name: "New".to_string(),
                id: family_policy::config::BrowserIdMap::Single("new".to_string()),
                force_installed: None,
                settings: serde_json::Value::Null,
            }],
        }],
    });
    let chrome = chrome.unwrap();
    let mut current = BrowserState::new();
    current.extensions = vec!["old".to_string()];
    let diffs = generate_extension_diffs(&chrome.extensions, Some(&current));
    assert_eq!(diffs.len(), 2);
    assert!(matches!(&diffs[0], ExtensionDiff::Added { id, .. } if id == "new"));
    assert!(matches!(&diffs[1], ExtensionDiff::Removed { id, .. } if id == "old"));
    current.extensions = vec!["new".to_string()];
    let diffs = generate_extension_diffs(&chrome.extensions, Some(&current));
    assert!(matches!(&diffs[0], ExtensionDiff::Unchanged { .. }));
    let privacy = generate_privacy_diffs(Browser::Chrome, Some(&current), Some(true), None);
    assert_eq!(privacy.len(), 1);
    assert_eq!(privacy[0].setting_name, "Disable Incognito Mode");
    assert_eq!(privacy[0].old_value, None);
    assert_eq!(privacy[0].new_value.as_deref(), Some("true"));
}

#[test]
fn test_privilege_check_user_level() {
    let check = PrivilegeCheck::user();
    assert!(check_privileges(check.clone(), false, false).is_ok());
    assert!(check_privileges(check, true, false).is_ok());
}

#[test]
fn test_privilege_check_admin_with_dry_run() {
    let check = PrivilegeCheck::admin_or_dry_run();
    assert!(check_privileges(check, true, false).is_ok());
}

#[test]
fn test_privilege_check_admin_only() {
    let check = PrivilegeCheck::admin();
    assert!(check_privileges(check, true, true).is_ok());
    assert_eq!(check_privileges(check, true, false), Err(PrivilegeError::InsufficientPrivileges));
}

#[test]
fn status_and_summary_views() {
    let mut chrome = flags(Some(true), None, None, None);
    chrome.extensions = vec!["a".to_string()];
    let state = create_state("sha256:ab".to_string(), AppliedPolicies { chrome: Some(chrome), firefox: None, edge: None }, 42);
    let info = state_info(&state);
    assert!(info.policies_applied);
    assert_eq!(info.extensions_count.chrome, 1);
    assert_eq!(info.privacy_settings_count.chrome, 1);
    assert_eq!(info.last_updated, Some(42));
    let empty = create_state("h".to_string(), AppliedPolicies::default(), 0);
    assert!(!state_info(&empty).policies_applied);
    let config = family_policy::config::Config {
        policies: vec![family_policy::config::PolicyEntry {
            name: "Kids".to_string(),
            browsers: vec![Browser::Edge, Browser::Chrome],
            disable_private_mode: None,
            disable_guest_mode: None,
            extensions: vec![],
        }],
    };
    let summary = config_summary(&config);
    assert_eq!(summary.policy_names, vec!["Kids".to_string()]);
    assert_eq!(summary.total_extensions, 0);
    assert_eq!(summary.browsers, vec!["Chrome".to_string(), "Edge".to_string()]);
}

#[test]
fn apply_result_counts_applied_policies() {
    let mut chrome = flags(Some(true), None, None, Some(true));
    chrome.extensions = vec!["a".to_string(), "b".to_string(), "c".to_string()];
    let applied = AppliedPolicies { chrome: Some(chrome), firefox: Some(flags(None, None, Some(true), None)), edge: None };
    let r = family_policy::apply::apply_result(true, &applied);
    assert!(r.changed);
    assert_eq!(r.extensions_applied.chrome, 3);
    assert_eq!(r.privacy_settings_applied.chrome, 2);
    assert_eq!(r.privacy_settings_applied.firefox, 1);
    assert_eq!(r.extensions_applied.edge, 0);
}

#[test]
fn diff_reports_dropped_browser_as_removed() {
    let mut edge = flags(None, Some(true), None, None);
    edge.extensions = vec!["old-edge".to_string()];
    let state = create_state("h".to_string(), AppliedPolicies { chrome: None, firefox: None, edge: Some(edge) }, 0);
    let config = family_policy::config::Config {
        policies: vec![family_policy::config::PolicyEntry {
            name: "p".to_string(),
            browsers: vec![Browser::Chrome],
            disable_private_mode: Some(true),
            disable_guest_mode: None,
            extensions: vec![],
        }],
    };
    let d = family_policy::diff::generate_diff(&config, Some(&state));
    assert!(d.chrome.is_some());
    assert!(d.firefox.is_none());
    let e = d.edge.unwrap();
    assert!(matches!(&e.extensions[0], ExtensionDiff::Removed { id, .. } if id == "old-edge"));
    assert_eq!(e.privacy_settings[0].setting_name, "Disable InPrivate Mode");
    assert_eq!(e.privacy_settings[0].new_value, None);
    assert_eq!(d.summary.total_removals, 1);
}
