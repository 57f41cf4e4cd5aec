use family_policy::browser::Browser;
use family_policy::config::{
    generate_firefox_install_url, to_browser_configs, validate_config, BrowserIdMap, Config, ConfigError,
    ExtensionEntry, PolicyEntry,
};
use family_policy::policy::{
    chromium_policy_settings, create_firefox_policies, format_chromium_extension_entry, get_chrome_browser_config,
    get_chrome_policy_dir, get_edge_browser_config, get_edge_policy_dir, get_firefox_policy_dir, get_plist_path,
    remove_chrome_policies, remove_edge_policies, ChromiumConfig, FirefoxPolicyError, PolicyValue,
};
use family_policy::reconcile::{plan_apply, plan_uninstall, record_outcome, should_apply, SurfacePlan};
use family_policy::state::{compute_config_hash, AppliedPolicies, BrowserState};
use family_policy::registry::{extension_policy_key, numbered_values, registry_writes, RegistryWrite, SettingValue};
use std::path::Path;

const UBLOCK: &str = "ddkjiahejlhfcafbddmgiahcphecmpfh";
const OTHER_A: &str = "cjpalhdlnbpafiamejdnhcphjbkeiagm";
const OTHER_B: &str = "eimadpbcbfnmbkopoojfekhnkhdbieeh";

fn ext(name: &str, id: BrowserIdMap) -> ExtensionEntry {
    ExtensionEntry { name: name.to_string(), id, force_installed: Some(true), settings: serde_json::Value::Null }
}

fn policy(browsers: Vec<Browser>, private: Option<bool>, guest: Option<bool>, extensions: Vec<ExtensionEntry>) -> PolicyEntry {
    PolicyEntry {
        name: "Test Policy".to_string(),
        browsers,
        disable_private_mode: private,
        disable_guest_mode: guest,
        extensions,
    }
}

fn chrome_config(ids: &[&str]) -> Config {
    Config {
        policies: vec![policy(
            vec![Browser::Chrome],
            None,
            None,
            ids.iter().map(|i| ext("Ext", BrowserIdMap::Single(i.to_string()))).collect(),
        )],
    }
}

#[test]
fn browser_id_map_single_returns_same_id_for_all_browsers() {
    let id_map = BrowserIdMap::Single("test-id".to_string());
    assert_eq!(id_map.get_id(Browser::Chrome), Some("test-id"));
    assert_eq!(id_map.get_id(Browser::Firefox), Some("test-id"));
    assert_eq!(id_map.get_id(Browser::Edge), Some("test-id"));
}

#[test]
fn browser_id_map_multiple_returns_correct_ids() {
    let map = vec![(Browser::Chrome, "chrome-id".to_string()), (Browser::Firefox, "firefox-id".to_string())];
    let id_map = BrowserIdMap::Multiple(map);
    assert_eq!(id_map.get_id(Browser::Chrome), Some("chrome-id"));
    assert_eq!(id_map.get_id(Browser::Firefox), Some("firefox-id"));
    assert_eq!(id_map.get_id(Browser::Edge), None);
}

#[test]
fn validate_accepts_valid_document() {
    assert_eq!(validate_config(&chrome_config(&[UBLOCK])), Ok(()));
}

#[test]
fn validate_rejects_each_defect() {
    assert_eq!(validate_config(&Config { policies: vec![] }), Err(ConfigError::NoPolicies));
    let no_browsers = Config { policies: vec![policy(vec![], None, None, vec![])] };
    assert_eq!(validate_config(&no_browsers), Err(ConfigError::NoBrowsers { policy: 0 }));
    let missing = Config {
        policies: vec![policy(
            vec![Browser::Chrome, Browser::Edge],
            None,
            None,
            vec![ext("x", BrowserIdMap::Multiple(vec![(Browser::Chrome, UBLOCK.to_string())]))],
        )],
    };
    assert_eq!(validate_config(&missing), Err(ConfigError::MissingId { policy: 0, extension: 0, browser: 1 }));
    let short = chrome_config(&["abc"]);
    assert_eq!(validate_config(&short), Err(ConfigError::InvalidIdLength { policy: 0, extension: 0, browser: 0 }));
    let upper = chrome_config(&["DDKJIAHEJLHFCAFBDDMGIAHCPHECMPFH"]);
    assert_eq!(validate_config(&upper), Err(ConfigError::InvalidIdChars { policy: 0, extension: 0, browser: 0 }));
    let empty_ff = Config {
        policies: vec![policy(vec![Browser::Firefox], None, None, vec![ext("x", BrowserIdMap::Single(String::new()))])],
    };
    assert_eq!(validate_config(&empty_ff), Err(ConfigError::EmptyFirefoxId { policy: 0, extension: 0, browser: 0 }));
}

#[test]
fn firefox_install_url_is_generated_from_id() {
    assert_eq!(
        generate_firefox_install_url("ublock@raymondhill.net"),
        "https://addons.mozilla.org/firefox/downloads/latest/ublock@raymondhill.net/latest.xpi"
    );
}

#[test]
fn to_browser_configs_maps_flags_per_browser() {
    let config = Config {
        policies: vec![policy(
            vec![Browser::Chrome, Browser::Firefox, Browser::Edge],
            Some(true),
            Some(false),
            vec![ext(
                "uBO",
                BrowserIdMap::Multiple(vec![
                    (Browser::Chrome, UBLOCK.to_string()),
                    (Browser::Firefox, "ublock@raymondhill.net".to_string()),
                    (Browser::Edge, OTHER_A.to_string()),
                ]),
            )],
        )],
    };
    let (chrome, firefox, edge) = to_browser_configs(&config);
    let chrome = chrome.unwrap();
    assert_eq!(chrome.disable_incognito, Some(true));
    assert_eq!(chrome.disable_guest_mode, Some(false));
    assert_eq!(chrome.extensions[0].id, UBLOCK);
    assert_eq!(chrome.extensions[0].update_url.as_deref(), Some("https://clients2.google.com/service/update2/crx"));
    let firefox = firefox.unwrap();
    assert_eq!(firefox.disable_private_browsing, Some(true));
    assert_eq!(
        firefox.extensions[0].install_url.as_deref(),
        Some("https://addons.mozilla.org/firefox/downloads/latest/ublock@raymondhill.net/latest.xpi")
    );
    let edge = edge.unwrap();
    assert_eq!(edge.disable_inprivate, Some(true));
    assert_eq!(edge.extensions[0].id, OTHER_A);
}

#[test]
fn to_browser_configs_skips_unmentioned_browsers() {
    let (chrome, firefox, edge) = to_browser_configs(&chrome_config(&[UBLOCK]));
    assert!(chrome.is_some());
    assert!(firefox.is_none());
    assert!(edge.is_none());
}

#[test]
fn test_chrome_browser_config() {
    let config = get_chrome_browser_config();
    assert_eq!(config.browser_name, "Chrome");
    assert_eq!(config.registry_key, r"SOFTWARE\Policies\Google\Chrome");
    assert_eq!(config.bundle_id, "com.google.Chrome");
}

#[test]
fn test_edge_browser_config() {
    let config = get_edge_browser_config();
    assert_eq!(config.browser_name, "Edge");
    assert_eq!(config.registry_key, r"SOFTWARE\Policies\Microsoft\Edge");
    assert_eq!(config.bundle_id, "com.microsoft.Edge");
}

#[test]
fn test_policy_dir_paths() {
    assert_eq!(Path::new(get_chrome_policy_dir()), Path::new("/etc/opt/chrome/policies/managed"));
    assert_eq!(Path::new(get_edge_policy_dir()), Path::new("/etc/opt/microsoft/edge/policies/managed"));
    assert_eq!(Path::new(get_firefox_policy_dir()), Path::new("/etc/firefox/policies"));
}

#[test]
fn test_remove_chrome_policies_succeeds() {
    let result = remove_chrome_policies();
    let _ = result;
}

#[test]
fn test_remove_edge_policies_succeeds() {
    let result = remove_edge_policies();
    let _ = result;
}

#[test]
fn removal_lists_written_values() {
    let r = remove_chrome_policies();
    assert_eq!(r.registry_list_key, r"SOFTWARE\Policies\Google\Chrome\ExtensionInstallForcelist");
    assert_eq!(r.value_names, vec!["ExtensionInstallForcelist", "IncognitoModeAvailability", "BrowserGuestModeEnabled"]);
    let e = remove_edge_policies();
    assert_eq!(e.value_names[1], "InPrivateModeAvailability");
    assert_eq!(e.policy_dir, "/etc/opt/microsoft/edge/policies/managed");
}

#[test]
fn plist_path_is_under_managed_preferences() {
    assert_eq!(get_plist_path("com.google.Chrome"), "/Library/Managed Preferences/com.google.Chrome.plist");
}

#[test]
fn chromium_entry_uses_default_update_url() {
    let (chrome, _, _) = to_browser_configs(&chrome_config(&[UBLOCK]));
    let e = format_chromium_extension_entry(&chrome.unwrap().extensions[0]);
    assert_eq!(e, "ddkjiahejlhfcafbddmgiahcphecmpfh;https://clients2.google.com/service/update2/crx");
}

#[test]
fn chromium_settings_order_and_values() {
    let config = Config { policies: vec![policy(vec![Browser::Edge], Some(true), Some(true), vec![ext("e", BrowserIdMap::Single(OTHER_A.to_string()))])] };
    let (_, _, edge) = to_browser_configs(&config);
    let shared = ChromiumConfig::from_edge(edge.unwrap());
    let settings = chromium_policy_settings(&shared, &get_edge_browser_config());
    assert_eq!(settings.len(), 3);
    assert_eq!(settings[0].key, "InPrivateModeAvailability");
    assert!(matches!(settings[0].value, PolicyValue::Number(1)));
    assert_eq!(settings[1].key, "BrowserGuestModeEnabled");
    assert!(matches!(settings[1].value, PolicyValue::Flag(false)));
    assert_eq!(settings[2].key, "ExtensionInstallForcelist");
}

#[test]
fn firefox_policies_need_install_urls() {
    let config = Config {
        policies: vec![policy(vec![Browser::Firefox], Some(true), None, vec![ext("u", BrowserIdMap::Single("ublock@raymondhill.net".to_string()))])],
    };
    let (_, firefox, _) = to_browser_configs(&config);
    let mut firefox = firefox.unwrap();
    let p = create_firefox_policies(&firefox).unwrap();
    assert!(p.disable_private_browsing);
    assert_eq!(p.extension_settings[0].0, "ublock@raymondhill.net");
    firefox.extensions[0].install_url = None;
    assert_eq!(create_firefox_policies(&firefox).err(), Some(FirefoxPolicyError::MissingInstallUrl { index: 0 }));
}

fn forcelist(plan: &SurfacePlan) -> Vec<String> {
    match plan {
        SurfacePlan::Chromium { settings, .. } => settings
            .iter()
            .find(|s| s.key == "ExtensionInstallForcelist")
            .map(|s| match &s.value {
                PolicyValue::TextList(l) => l.clone(),
                _ => vec![],
            })
            .unwrap_or_default(),
        _ => vec![],
    }
}

#[test]
fn cold_install_single_chrome_extension() {
    let config = chrome_config(&[UBLOCK]);
    let plan = plan_apply(&config, &AppliedPolicies::default());
    assert_eq!(forcelist(&plan.chrome), vec![format!("{};https://clients2.google.com/service/update2/crx", UBLOCK)]);
    assert!(matches!(plan.firefox, SurfacePlan::Untouched));
    assert!(matches!(plan.edge, SurfacePlan::Untouched));
    let applied = record_outcome(plan, true, true, true, AppliedPolicies::default());
    assert_eq!(applied.chrome.unwrap().extensions, vec![UBLOCK.to_string()]);
}

#[test]
fn reapply_same_document_is_skipped() {
    let text = "policies:\n  - name: test\n";
    let hash = compute_config_hash(text);
    assert!(should_apply(None, &hash, false));
    assert!(!should_apply(Some(&hash), &compute_config_hash(text), false));
    assert!(should_apply(Some(&hash), &hash, true));
}

#[test]
fn switching_documents_rewrites_the_list() {
    let first = chrome_config(&[UBLOCK]);
    let plan = plan_apply(&first, &AppliedPolicies::default());
    let applied = record_outcome(plan, true, true, true, AppliedPolicies::default());
    let second = chrome_config(&[OTHER_A, OTHER_B]);
    let plan2 = plan_apply(&second, &applied);
    let list = forcelist(&plan2.chrome);
    assert_eq!(list.len(), 2);
    assert!(list[0].starts_with(OTHER_A));
    assert!(list[1].starts_with(OTHER_B));
    assert!(!list.iter().any(|e| e.contains(UBLOCK)));
    assert_ne!(compute_config_hash("a: 1"), compute_config_hash("a: 2"));
}

#[test]
fn dropping_a_browser_removes_its_surface() {
    let both = Config {
        policies: vec![policy(vec![Browser::Chrome, Browser::Edge], None, None, vec![ext("u", BrowserIdMap::Single(UBLOCK.to_string()))])],
    };
    let plan = plan_apply(&both, &AppliedPolicies::default());
    let applied = record_outcome(plan, true, true, true, AppliedPolicies::default());
    let plan2 = plan_apply(&chrome_config(&[UBLOCK]), &applied);
    assert!(matches!(plan2.edge, SurfacePlan::Remove));
}

#[test]
fn failed_surface_keeps_previous_record() {
    let plan = plan_apply(&chrome_config(&[UBLOCK]), &AppliedPolicies::default());
    let applied = record_outcome(plan, false, true, true, AppliedPolicies::default());
    assert!(applied.chrome.is_none());
}

#[test]
fn uninstall_covers_recorded_browsers() {
    let applied = AppliedPolicies { chrome: Some(BrowserState::new()), firefox: None, edge: Some(BrowserState::new()) };
    assert_eq!(plan_uninstall(&applied), vec![Browser::Chrome, Browser::Edge]);
    assert!(plan_uninstall(&AppliedPolicies::default()).is_empty());
}

#[test]
fn registry_encoding_of_extension_settings() {
    assert_eq!(
        extension_policy_key(r"SOFTWARE\Policies\Google\Chrome", UBLOCK),
        format!(r"SOFTWARE\Policies\Google\Chrome\3rdparty\extensions\{}\policy", UBLOCK)
    );
    let settings = vec![
        ("enabled".to_string(), SettingValue::Bool(true)),
        ("count".to_string(), SettingValue::Unsigned(7)),
        ("ratio".to_string(), SettingValue::OtherNumber),
        ("mode".to_string(), SettingValue::Text("strict".to_string())),
        ("lists".to_string(), SettingValue::List(vec![Some("a".to_string()), None, Some("c".to_string())])),
    ];
    let writes = registry_writes(&settings);
    assert_eq!(writes.len(), 4);
    assert!(matches!(&writes[0], RegistryWrite::Dword { name, value: 1 } if name == "enabled"));
    assert!(matches!(&writes[1], RegistryWrite::Dword { name, value: 7 } if name == "count"));
    assert!(matches!(&writes[2], RegistryWrite::Text { name, value } if name == "mode" && value == "strict"));
    match &writes[3] {
        RegistryWrite::List { subkey, entries } => {
            assert_eq!(subkey, "lists");
            assert_eq!(entries, &vec![(1, "a".to_string()), (3, "c".to_string())]);
        }
        _ => panic!("expected a list"),
    }
    assert_eq!(numbered_values(&vec!["x".to_string(), "y".to_string()]), vec![(1, "x".to_string()), (2, "y".to_string())]);
}
