//! What each browser's policy surface receives, and what removing it deletes.

use vstd::prelude::*;

use crate::config::{ChromeConfig, EdgeConfig, Extension, FirefoxConfig, DEFAULT_CHROME_UPDATE_URL};
use crate::state::BrowserState;

verus! {

/// Where one Chromium-based browser keeps its managed policies.
pub struct ChromiumBrowserConfig {
    /// Human-readable browser name.
    pub browser_name: &'static str,
    /// Windows registry key under HKLM.
    pub registry_key: &'static str,
    /// macOS bundle identifier.
    pub bundle_id: &'static str,
    /// Linux managed-policy directory.
    pub policy_dir: &'static str,
}

/// Linux policy directory of Chrome.
pub fn get_chrome_policy_dir() -> (r: &'static str)
    ensures
        r@ == "/etc/opt/chrome/policies/managed"@,
{
    "/etc/opt/chrome/policies/managed"
}

/// Linux policy directory of Chromium.
pub fn get_chromium_policy_dir() -> (r: &'static str)
    ensures
        r@ == "/etc/chromium/policies/managed"@,
{
    "/etc/chromium/policies/managed"
}

/// Linux policy directory of Edge.
pub fn get_edge_policy_dir() -> (r: &'static str)
    ensures
        r@ == "/etc/opt/microsoft/edge/policies/managed"@,
{
    "/etc/opt/microsoft/edge/policies/managed"
}

/// Linux policy directory of Firefox.
pub fn get_firefox_policy_dir() -> (r: &'static str)
    ensures
        r@ == "/etc/firefox/policies"@,
{
    "/etc/firefox/policies"
}

/// Where Chrome's policies live on each platform.
pub fn get_chrome_browser_config() -> (r: ChromiumBrowserConfig)
    ensures
        r.browser_name@ == "Chrome"@,
        r.registry_key@ == "SOFTWARE\\Policies\\Google\\Chrome"@,
        r.bundle_id@ == "com.google.Chrome"@,
        r.policy_dir@ == "/etc/opt/chrome/policies/managed"@,
{
    ChromiumBrowserConfig {
        browser_name: "Chrome",
        registry_key: "SOFTWARE\\Policies\\Google\\Chrome",
        bundle_id: "com.google.Chrome",
        policy_dir: get_chrome_policy_dir(),
    }
}

/// Where Edge's policies live on each platform.
pub fn get_edge_browser_config() -> (r: ChromiumBrowserConfig)
    ensures
        r.browser_name@ == "Edge"@,
        r.registry_key@ == "SOFTWARE\\Policies\\Microsoft\\Edge"@,
        r.bundle_id@ == "com.microsoft.Edge"@,
        r.policy_dir@ == "/etc/opt/microsoft/edge/policies/managed"@,
{
    ChromiumBrowserConfig {
        browser_name: "Edge",
        registry_key: "SOFTWARE\\Policies\\Microsoft\\Edge",
        bundle_id: "com.microsoft.Edge",
        policy_dir: get_edge_policy_dir(),
    }
}

/// The part of a browser configuration shared by Chrome and Edge.
pub struct ChromiumConfig {
    pub extensions: Vec<Extension>,
    /// Incognito (Chrome) or InPrivate (Edge).
    pub disable_private_mode: Option<bool>,
    pub disable_guest_mode: Option<bool>,
}

impl ChromiumConfig {
    /// Chrome's configuration in the shared form.
    pub fn from_chrome(config: ChromeConfig) -> (r: Self)
        ensures
            r.extensions == config.extensions,
            r.disable_private_mode == config.disable_incognito,
            r.disable_guest_mode == config.disable_guest_mode,
    {
        ChromiumConfig {
            extensions: config.extensions,
            disable_private_mode: config.disable_incognito,
            disable_guest_mode: config.disable_guest_mode,
        }
    }

    /// Edge's configuration in the shared form.
    pub fn from_edge(config: EdgeConfig) -> (r: Self)
        ensures
            r.extensions == config.extensions,
            r.disable_private_mode == config.disable_inprivate,
            r.disable_guest_mode == config.disable_guest_mode,
    {
        ChromiumConfig {
            extensions: config.extensions,
            disable_private_mode: config.disable_inprivate,
            disable_guest_mode: config.disable_guest_mode,
        }
    }
}

/// The forced-install entry of a Chromium extension: `<id>;<update_url>`.
pub open spec fn forcelist_entry(x: Extension) -> Seq<char> {
    x.id@ + ";"@ + match x.update_url {
        Some(u) => u@,
        None => DEFAULT_CHROME_UPDATE_URL@,
    }
}

/// Formats a Chromium forced-install entry.
pub fn format_chromium_extension_entry(ext: &Extension) -> (r: String)
    ensures
        r@ == forcelist_entry(*ext),
{
    let mut s = ext.id.clone();
    s.append(";");
    match &ext.update_url {
        Some(u) => s.append(u.as_str()),
        None => s.append(DEFAULT_CHROME_UPDATE_URL),
    }
    s
}

/// A value written to a policy surface. Registry writers store flags and
/// numbers as DWORDs and lists as numbered values; plist and JSON writers
/// use their native booleans, integers and arrays.
pub enum PolicyValue {
    Flag(bool),
    Number(u32),
    TextList(Vec<String>),
}

/// One named policy value.
pub struct PolicySetting {
    pub key: String,
    pub value: PolicyValue,
}

/// Spec form of a policy value.
pub enum PolicyValueView {
    Flag(bool),
    Number(u32),
    TextList(Seq<Seq<char>>),
}

/// The spec form of a policy value.
pub open spec fn value_view(v: PolicyValue) -> PolicyValueView {
    match v {
        PolicyValue::Flag(b) => PolicyValueView::Flag(b),
        PolicyValue::Number(n) => PolicyValueView::Number(n),
        PolicyValue::TextList(l) => PolicyValueView::TextList(l@.map_values(|s: String| s@)),
    }
}

/// The spec form of a list of settings.
pub open spec fn settings_view(v: Seq<PolicySetting>) -> Seq<(Seq<char>, PolicyValueView)> {
    v.map_values(|s: PolicySetting| (s.key@, value_view(s.value)))
}

/// Policy name of the private-mode switch: Chrome calls it incognito, Edge InPrivate.
pub open spec fn private_mode_key(browser_name: Seq<char>) -> Seq<char> {
    if browser_name == "Chrome"@ {
        "IncognitoModeAvailability"@
    } else {
        "InPrivateModeAvailability"@
    }
}

/// The settings a Chromium configuration writes, in the order they are
/// applied: the private-mode switch (1 means disabled) when the flag is set,
/// then guest mode (enabled is the inverse of the flag), then the
/// forced-install list when there are extensions.
pub open spec fn chromium_settings(c: ChromiumConfig, browser_name: Seq<char>) -> Seq<(Seq<char>, PolicyValueView)> {
    let private = if c.disable_private_mode == Some(true) {
        seq![(private_mode_key(browser_name), PolicyValueView::Number(1))]
    } else {
        seq![]
    };
    let guest = match c.disable_guest_mode {
        Some(g) => seq![("BrowserGuestModeEnabled"@, PolicyValueView::Flag(!g))],
        None => seq![],
    };
    let list = if c.extensions@.len() > 0 {
        seq![("ExtensionInstallForcelist"@, PolicyValueView::TextList(c.extensions@.map_values(|x: Extension| forcelist_entry(x))))]
    } else {
        seq![]
    };
    private + guest + list
}

/// The forced-install entries of a list of extensions.
pub fn forcelist_entries(exts: &Vec<Extension>) -> (r: Vec<String>)
    ensures
        r@.map_values(|s: String| s@) == exts@.map_values(|x: Extension| forcelist_entry(x)),
{
    let mut out: Vec<String> = Vec::new();
    let mut i: usize = 0;
    while i < exts.len()
        invariant
            i <= exts@.len(),
            out@.len() == i,
            forall|j: int| 0 <= j < i ==> #[trigger] out@[j]@ == forcelist_entry(exts@[j]),
        decreases exts@.len() - i,
    {
        out.push(format_chromium_extension_entry(&exts[i]));
        i = i + 1;
    }
    assert(out@.map_values(|s: String| s@) =~= exts@.map_values(|x: Extension| forcelist_entry(x)));
    out
}

/// The policy settings a Chromium browser receives, in application order.
pub fn chromium_policy_settings(config: &ChromiumConfig, browser_config: &ChromiumBrowserConfig) -> (r: Vec<PolicySetting>)
    ensures
        settings_view(r@) == chromium_settings(*config, browser_config.browser_name@),
{
    let mut out: Vec<PolicySetting> = Vec::new();
    let ghost name = browser_config.browser_name@;
    if config.disable_private_mode == Some(true) {
        let chrome = "Chrome".to_owned();
        let given = browser_config.browser_name.to_owned();
        let key = if given == chrome {
            "IncognitoModeAvailability".to_owned()
        } else {
            "InPrivateModeAvailability".to_owned()
        };
        out.push(PolicySetting { key, value: PolicyValue::Number(1) });
    }
    match config.disable_guest_mode {
        Some(g) => {
            out.push(PolicySetting { key: "BrowserGuestModeEnabled".to_owned(), value: PolicyValue::Flag(!g) });
        },
        None => {},
    }
    if config.extensions.len() > 0 {
        let entries = forcelist_entries(&config.extensions);
        out.push(PolicySetting { key: "ExtensionInstallForcelist".to_owned(), value: PolicyValue::TextList(entries) });
    }
    assert(settings_view(out@) =~= chromium_settings(*config, name));
    out
}

/// Identifiers of a list of extensions, in order.
pub open spec fn ext_ids(v: Seq<Extension>) -> Seq<Seq<char>> {
    v.map_values(|x: Extension| x.id@)
}

/// Copies the identifiers of a list of extensions.
pub fn extension_ids(exts: &Vec<Extension>) -> (r: Vec<String>)
    ensures
        r@.map_values(|s: String| s@) == ext_ids(exts@),
{
    let mut out: Vec<String> = Vec::new();
    let mut i: usize = 0;
    while i < exts.len()
        invariant
            i <= exts@.len(),
            out@.len() == i,
            forall|j: int| 0 <= j < i ==> #[trigger] out@[j]@ == exts@[j].id@,
        decreases exts@.len() - i,
    {
        out.push(exts[i].id.clone());
        i = i + 1;
    }
    assert(out@.map_values(|s: String| s@) =~= ext_ids(exts@));
    out
}

/// What was applied to Chrome: extensions, incognito and guest mode.
pub fn chrome_state(config: &ChromeConfig) -> (r: BrowserState)
    ensures
        r.extensions@.map_values(|s: String| s@) == ext_ids(config.extensions@),
        r.disable_incognito == config.disable_incognito,
        r.disable_guest_mode == config.disable_guest_mode,
        r.disable_inprivate is None,
        r.disable_private_browsing is None,
{
    BrowserState {
        extensions: extension_ids(&config.extensions),
        disable_incognito: config.disable_incognito,
        disable_inprivate: None,
        disable_private_browsing: None,
        disable_guest_mode: config.disable_guest_mode,
    }
}

/// What was applied to Edge: extensions, InPrivate and guest mode.
pub fn edge_state(config: &EdgeConfig) -> (r: BrowserState)
    ensures
        r.extensions@.map_values(|s: String| s@) == ext_ids(config.extensions@),
        r.disable_inprivate == config.disable_inprivate,
        r.disable_guest_mode == config.disable_guest_mode,
        r.disable_incognito is None,
        r.disable_private_browsing is None,
{
    BrowserState {
        extensions: extension_ids(&config.extensions),
        disable_incognito: None,
        disable_inprivate: config.disable_inprivate,
        disable_private_browsing: None,
        disable_guest_mode: config.disable_guest_mode,
    }
}

/// What was applied to Firefox: extensions and private browsing.
pub fn firefox_state(config: &FirefoxConfig) -> (r: BrowserState)
    ensures
        r.extensions@.map_values(|s: String| s@) == ext_ids(config.extensions@),
        r.disable_private_browsing == config.disable_private_browsing,
        r.disable_incognito is None,
        r.disable_inprivate is None,
        r.disable_guest_mode is None,
{
    BrowserState {
        extensions: extension_ids(&config.extensions),
        disable_incognito: None,
        disable_inprivate: None,
        disable_private_browsing: config.disable_private_browsing,
        disable_guest_mode: None,
    }
}

/// Firefox's `policies.json` content: each extension force-installed from its
/// install URL, and private browsing disabled when asked.
pub struct FirefoxPolicies {
    /// Add-on identifier and install URL, in document order.
    pub extension_settings: Vec<(String, String)>,
    pub disable_private_browsing: bool,
}

/// Why Firefox's policy document could not be built.
#[derive(Clone, Copy, Debug, PartialEq, Eq, Structural)]
pub enum FirefoxPolicyError {
    /// The extension at this position has no install URL.
    MissingInstallUrl { index: usize },
}

/// Builds Firefox's policy document. Fails exactly when an extension lacks
/// an install URL, naming the first such one.
pub fn create_firefox_policies(config: &FirefoxConfig) -> (r: Result<FirefoxPolicies, FirefoxPolicyError>)
    ensures
        r is Ok <==> forall|j: int| 0 <= j < config.extensions@.len() ==> (#[trigger] config.extensions@[j]).install_url is Some,
        match r {
            Ok(p) => {
                &&& p.extension_settings@.len() == config.extensions@.len()
                &&& forall|j: int| 0 <= j < config.extensions@.len() ==> {
                    &&& (#[trigger] p.extension_settings@[j]).0@ == config.extensions@[j].id@
                    &&& p.extension_settings@[j].1@ == config.extensions@[j].install_url->0@
                }
                &&& p.disable_private_browsing == (config.disable_private_browsing == Some(true))
            },
            Err(FirefoxPolicyError::MissingInstallUrl { index }) => {
                &&& index < config.extensions@.len()
                &&& config.extensions@[index as int].install_url is None
                &&& forall|j: int| 0 <= j < index ==> (#[trigger] config.extensions@[j]).install_url is Some
            },
        },
{
    let mut settings: Vec<(String, String)> = Vec::new();
    let mut i: usize = 0;
    while i < config.extensions.len()
        invariant
            i <= config.extensions@.len(),
            settings@.len() == i,
            forall|j: int| 0 <= j < i ==> (#[trigger] config.extensions@[j]).install_url is Some,
            forall|j: int| 0 <= j < i ==> {
                &&& (#[trigger] settings@[j]).0@ == config.extensions@[j].id@
                &&& settings@[j].1@ == config.extensions@[j].install_url->0@
            },
        decreases config.extensions@.len() - i,
    {
        let ext = &config.extensions[i];
        match &ext.install_url {
            Some(url) => {
                settings.push((ext.id.clone(), url.clone()));
            },
            None => {
                return Err(FirefoxPolicyError::MissingInstallUrl { index: i });
            },
        }
        i = i + 1;
    }
    Ok(FirefoxPolicies {
        extension_settings: settings,
        disable_private_browsing: config.disable_private_browsing == Some(true),
    })
}

} // verus!

verus! {

/// What removing a Chromium browser's policies deletes on each platform.
pub struct ChromiumRemoval {
    /// Windows: the registry key holding the numbered forced-install values.
    pub registry_list_key: String,
    /// Windows: the policy key whose values are deleted.
    pub registry_key: String,
    /// Windows registry values and macOS plist keys that are deleted.
    pub value_names: Vec<String>,
    /// macOS bundle identifier of the managed-preferences plist.
    pub bundle_id: String,
    /// Linux policy directory; its `browser-policy.json` is deleted, and the
    /// directory too once empty.
    pub policy_dir: String,
}

/// Everything this tool writes for a Chromium browser: the forced-install
/// list, the private-mode switch and guest mode.
pub open spec fn removal_ok(r: ChromiumRemoval, b: ChromiumBrowserConfig) -> bool {
    &&& r.registry_list_key@ == b.registry_key@ + "\\ExtensionInstallForcelist"@
    &&& r.registry_key@ == b.registry_key@
    &&& r.value_names@.map_values(|s: String| s@) == seq!["ExtensionInstallForcelist"@, private_mode_key(b.browser_name@), "BrowserGuestModeEnabled"@]
    &&& r.bundle_id@ == b.bundle_id@
    &&& r.policy_dir@ == b.policy_dir@
}

/// What removing a Chromium browser's policies deletes.
pub fn remove_chromium_policies(browser_config: &ChromiumBrowserConfig) -> (r: ChromiumRemoval)
    ensures
        removal_ok(r, *browser_config),
{
    let mut list_key = browser_config.registry_key.to_owned();
    list_key.append("\\ExtensionInstallForcelist");
    let chrome = "Chrome".to_owned();
    let given = browser_config.browser_name.to_owned();
    let private_key = if given == chrome {
        "IncognitoModeAvailability".to_owned()
    } else {
        "InPrivateModeAvailability".to_owned()
    };
    let mut names: Vec<String> = Vec::new();
    names.push("ExtensionInstallForcelist".to_owned());
    names.push(private_key);
    names.push("BrowserGuestModeEnabled".to_owned());
    let r = ChromiumRemoval {
        registry_list_key: list_key,
        registry_key: browser_config.registry_key.to_owned(),
        value_names: names,
        bundle_id: browser_config.bundle_id.to_owned(),
        policy_dir: browser_config.policy_dir.to_owned(),
    };
    assert(r.value_names@.map_values(|s: String| s@) =~= seq!["ExtensionInstallForcelist"@, private_mode_key(browser_config.browser_name@), "BrowserGuestModeEnabled"@]);
    r
}

/// What removing Chrome's policies deletes.
pub fn remove_chrome_policies() -> (r: ChromiumRemoval)
    ensures
        exists|b: ChromiumBrowserConfig| b.browser_name@ == "Chrome"@ && #[trigger] removal_ok(r, b),
{
    let b = get_chrome_browser_config();
    let r = remove_chromium_policies(&b);
    assert(removal_ok(r, b));
    r
}

/// What removing Edge's policies deletes.
pub fn remove_edge_policies() -> (r: ChromiumRemoval)
    ensures
        exists|b: ChromiumBrowserConfig| b.browser_name@ == "Edge"@ && #[trigger] removal_ok(r, b),
{
    let b = get_edge_browser_config();
    let r = remove_chromium_policies(&b);
    assert(removal_ok(r, b));
    r
}

/// The managed-preferences plist of a bundle on macOS.
pub open spec fn plist_path(bundle_id: Seq<char>) -> Seq<char> {
    "/Library/Managed Preferences/"@ + bundle_id + ".plist"@
}

/// Path of the managed-preferences plist of a bundle.
pub fn get_plist_path(bundle_id: &str) -> (r: String)
    ensures
        r@ == plist_path(bundle_id@),
{
    let mut s = "/Library/Managed Preferences/".to_owned();
    s.append(bundle_id);
    s.append(".plist");
    s
}

/// Path of the plist holding one extension's settings on macOS:
/// `{bundle_id}.extensions.{ext_id}.plist` among the managed preferences.
pub fn extension_settings_plist_path(bundle_id: &str, ext_id: &str) -> (r: String)
    ensures
        r@ == plist_path(bundle_id@ + ".extensions."@ + ext_id@),
{
    let mut name = bundle_id.to_owned();
    name.append(".extensions.");
    name.append(ext_id);
    get_plist_path(name.as_str())
}

} // verus!

verus! {

/// Where Firefox reads its `policies.json` on a platform (on Windows, the
/// 64-bit install location).
pub open spec fn firefox_policy_path(p: crate::browser::Platform) -> Seq<char> {
    match p {
        crate::browser::Platform::Windows => "C:\\Program Files\\Mozilla Firefox\\distribution\\policies.json"@,
        crate::browser::Platform::MacOS => "/Applications/Firefox.app/Contents/Resources/distribution/policies.json"@,
        crate::browser::Platform::Linux => "/etc/firefox/policies/policies.json"@,
    }
}

/// Path of Firefox's policy file on a platform.
pub fn get_firefox_policy_path(platform: crate::browser::Platform) -> (r: String)
    ensures
        r@ == firefox_policy_path(platform),
{
    match platform {
        crate::browser::Platform::Windows => "C:\\Program Files\\Mozilla Firefox\\distribution\\policies.json".to_owned(),
        crate::browser::Platform::MacOS => "/Applications/Firefox.app/Contents/Resources/distribution/policies.json".to_owned(),
        crate::browser::Platform::Linux => "/etc/firefox/policies/policies.json".to_owned(),
    }
}

} // verus!
