//! Counts and summaries of applies, removals and the applied state.

use vstd::prelude::*;

use crate::browser::Browser;
use crate::config::Config;
use crate::state::{BrowserState, State};

verus! {

/// A count per browser.
pub struct BrowserCounts {
    pub chrome: usize,
    pub firefox: usize,
    pub edge: usize,
}

impl Default for BrowserCounts {
    fn default() -> (r: Self)
        ensures
            r.chrome == 0 && r.firefox == 0 && r.edge == 0,
    {
        BrowserCounts { chrome: 0, firefox: 0, edge: 0 }
    }
}

/// Result of applying policies.
pub struct ApplyResult {
    /// Whether policies were actually changed.
    pub changed: bool,
    pub extensions_applied: BrowserCounts,
    pub privacy_settings_applied: BrowserCounts,
    pub errors: Vec<String>,
    pub warnings: Vec<String>,
}

/// Result of removing policies.
pub struct RemovalResult {
    pub extensions_removed: BrowserCounts,
    pub privacy_settings_removed: BrowserCounts,
    pub errors: Vec<String>,
}

/// Options of a local one-shot apply.
pub struct LocalArgs {
    /// Path of the policy document (a default location when absent).
    pub config: Option<String>,
    /// Remove what was applied instead of applying.
    pub uninstall: bool,
    /// Show what would change without changing anything.
    pub dry_run: bool,
}

/// Outcome of checking a document without applying it.
pub struct ValidationResult {
    pub valid: bool,
    pub errors: Vec<String>,
    pub warnings: Vec<String>,
}

/// What the status view shows of the applied state.
pub struct StateInfo {
    pub policies_applied: bool,
    /// Seconds since the Unix epoch.
    pub last_updated: Option<i64>,
    pub extensions_count: BrowserCounts,
    pub privacy_settings_count: BrowserCounts,
    pub config_hash: String,
}

/// What the status view shows of a policy document.
pub struct ConfigSummary {
    pub policy_names: Vec<String>,
    pub total_extensions: usize,
    pub browsers: Vec<String>,
}

/// Outcome of asking for elevated privileges.
pub struct ElevationResult {
    pub success: bool,
    pub error: Option<String>,
}

/// 1 when the flag is set, else 0.
pub open spec fn set_count(f: Option<bool>) -> nat {
    if f is Some { 1 } else { 0 }
}

/// Number of privacy flags recorded in a browser state.
pub open spec fn privacy_count(s: BrowserState) -> nat {
    set_count(s.disable_incognito) + set_count(s.disable_inprivate) + set_count(s.disable_private_browsing)
        + set_count(s.disable_guest_mode)
}

/// Counts the privacy flags recorded in a browser state.
pub fn count_privacy_in_state(state: &BrowserState) -> (r: usize)
    ensures
        r == privacy_count(*state),
{
    let mut count: usize = 0;
    if state.disable_incognito.is_some() {
        count = count + 1;
    }
    if state.disable_inprivate.is_some() {
        count = count + 1;
    }
    if state.disable_private_browsing.is_some() {
        count = count + 1;
    }
    if state.disable_guest_mode.is_some() {
        count = count + 1;
    }
    count
}

/// Chrome's privacy flags: incognito and guest mode.
pub fn count_privacy_settings_chrome(state: &BrowserState) -> (r: usize)
    ensures
        r == set_count(state.disable_incognito) + set_count(state.disable_guest_mode),
{
    let mut count: usize = 0;
    if state.disable_incognito.is_some() {
        count = count + 1;
    }
    if state.disable_guest_mode.is_some() {
        count = count + 1;
    }
    count
}

/// Firefox's privacy flag: private browsing.
pub fn count_privacy_settings_firefox(state: &BrowserState) -> (r: usize)
    ensures
        r == set_count(state.disable_private_browsing),
{
    if state.disable_private_browsing.is_some() { 1 } else { 0 }
}

/// Edge's privacy flags: InPrivate and guest mode.
pub fn count_privacy_settings_edge(state: &BrowserState) -> (r: usize)
    ensures
        r == set_count(state.disable_inprivate) + set_count(state.disable_guest_mode),
{
    let mut count: usize = 0;
    if state.disable_inprivate.is_some() {
        count = count + 1;
    }
    if state.disable_guest_mode.is_some() {
        count = count + 1;
    }
    count
}

/// Extensions recorded for a browser, 0 when absent.
pub open spec fn ext_count(s: Option<BrowserState>) -> nat {
    match s {
        Some(b) => b.extensions@.len(),
        None => 0,
    }
}

/// Privacy flags recorded for a browser, 0 when absent.
pub open spec fn flag_count(s: Option<BrowserState>) -> nat {
    match s {
        Some(b) => privacy_count(b),
        None => 0,
    }
}

/// Why an uninstall cannot proceed.
#[derive(Clone, Copy, Debug, PartialEq, Eq, Structural)]
pub enum RemovalError {
    /// No state file: nothing was applied, so nothing is removed.
    NoState,
}

/// What an uninstall removes, counted from the applied state; fails when no
/// state was found. The surfaces and the state file themselves are removed
/// by the caller.
pub fn remove_all_policies(current_state: Option<&State>) -> (r: Result<RemovalResult, RemovalError>)
    ensures
        r is Err <==> current_state is None,
        r is Ok ==> {
            let a = current_state->0.applied_policies;
            let v = r->Ok_0;
            &&& v.extensions_removed.chrome == ext_count(a.chrome)
            &&& v.extensions_removed.firefox == ext_count(a.firefox)
            &&& v.extensions_removed.edge == ext_count(a.edge)
            &&& v.privacy_settings_removed.chrome == flag_count(a.chrome)
            &&& v.privacy_settings_removed.firefox == flag_count(a.firefox)
            &&& v.privacy_settings_removed.edge == flag_count(a.edge)
            &&& v.errors@.len() == 0
        },
{
    let state = match current_state {
        Some(s) => s,
        None => {
            return Err(RemovalError::NoState);
        },
    };
    let mut result = RemovalResult {
        extensions_removed: BrowserCounts::default(),
        privacy_settings_removed: BrowserCounts::default(),
        errors: Vec::new(),
    };
    match &state.applied_policies.chrome {
        Some(c) => {
            result.extensions_removed.chrome = c.extensions.len();
            result.privacy_settings_removed.chrome = count_privacy_in_state(c);
        },
        None => {},
    }
    match &state.applied_policies.firefox {
        Some(c) => {
            result.extensions_removed.firefox = c.extensions.len();
            result.privacy_settings_removed.firefox = count_privacy_in_state(c);
        },
        None => {},
    }
    match &state.applied_policies.edge {
        Some(c) => {
            result.extensions_removed.edge = c.extensions.len();
            result.privacy_settings_removed.edge = count_privacy_in_state(c);
        },
        None => {},
    }
    Ok(result)
}

/// Chrome's privacy flags recorded for a browser, 0 when absent.
pub open spec fn chrome_flags(s: Option<BrowserState>) -> nat {
    match s {
        Some(b) => set_count(b.disable_incognito) + set_count(b.disable_guest_mode),
        None => 0,
    }
}

/// Firefox's privacy flag recorded, 0 when absent.
pub open spec fn firefox_flags(s: Option<BrowserState>) -> nat {
    match s {
        Some(b) => set_count(b.disable_private_browsing),
        None => 0,
    }
}

/// Edge's privacy flags recorded, 0 when absent.
pub open spec fn edge_flags(s: Option<BrowserState>) -> nat {
    match s {
        Some(b) => set_count(b.disable_inprivate) + set_count(b.disable_guest_mode),
        None => 0,
    }
}

/// The status view of an applied state: counts per browser, and whether
/// anything is applied at all.
pub fn state_info(state: &State) -> (r: StateInfo)
    ensures
        r.extensions_count.chrome == ext_count(state.applied_policies.chrome),
        r.extensions_count.firefox == ext_count(state.applied_policies.firefox),
        r.extensions_count.edge == ext_count(state.applied_policies.edge),
        r.privacy_settings_count.chrome == chrome_flags(state.applied_policies.chrome),
        r.privacy_settings_count.firefox == firefox_flags(state.applied_policies.firefox),
        r.privacy_settings_count.edge == edge_flags(state.applied_policies.edge),
        r.policies_applied == (r.extensions_count.chrome > 0 || r.extensions_count.firefox > 0 || r.extensions_count.edge > 0
            || r.privacy_settings_count.chrome > 0 || r.privacy_settings_count.firefox > 0 || r.privacy_settings_count.edge > 0),
        r.last_updated == Some(state.last_updated),
        r.config_hash == state.config_hash,
{
    let mut extensions_count = BrowserCounts::default();
    let mut privacy = BrowserCounts::default();
    match &state.applied_policies.chrome {
        Some(c) => {
            extensions_count.chrome = c.extensions.len();
            privacy.chrome = count_privacy_settings_chrome(c);
        },
        None => {},
    }
    match &state.applied_policies.firefox {
        Some(c) => {
            extensions_count.firefox = c.extensions.len();
            privacy.firefox = count_privacy_settings_firefox(c);
        },
        None => {},
    }
    match &state.applied_policies.edge {
        Some(c) => {
            extensions_count.edge = c.extensions.len();
            privacy.edge = count_privacy_settings_edge(c);
        },
        None => {},
    }
    let policies_applied = extensions_count.chrome > 0 || extensions_count.firefox > 0 || extensions_count.edge > 0
        || privacy.chrome > 0 || privacy.firefox > 0 || privacy.edge > 0;
    StateInfo {
        policies_applied,
        last_updated: Some(state.last_updated),
        extensions_count,
        privacy_settings_count: privacy,
        config_hash: state.config_hash.clone(),
    }
}

/// The display name of a browser in summaries.
pub open spec fn display_name(b: Browser) -> Seq<char> {
    match b {
        Browser::Chrome => "Chrome"@,
        Browser::Firefox => "Firefox"@,
        Browser::Edge => "Edge"@,
    }
}

fn display_string(b: Browser) -> (r: String)
    ensures
        r@ == display_name(b),
{
    match b {
        Browser::Chrome => "Chrome".to_owned(),
        Browser::Firefox => "Firefox".to_owned(),
        Browser::Edge => "Edge".to_owned(),
    }
}

/// The total number of extension entries of a list of policy entries.
pub open spec fn extension_total(ps: Seq<crate::config::PolicyEntry>) -> int
    decreases ps.len(),
{
    if ps.len() == 0 { 0 } else { extension_total(ps.drop_last()) + ps.last().extensions@.len() }
}

/// Whether some entry of the document names browser `b`.
pub open spec fn mentions_browser(c: Config, b: Browser) -> bool {
    exists|i: int| 0 <= i < c.policies@.len() && (#[trigger] c.policies@[i]).browsers@.contains(b)
}

/// Display names of the browsers mentioned, in the order Chrome, Firefox, Edge.
pub open spec fn mentioned_names(chrome: bool, firefox: bool, edge: bool) -> Seq<Seq<char>> {
    (if chrome { seq![display_name(Browser::Chrome)] } else { seq![] })
        + (if firefox { seq![display_name(Browser::Firefox)] } else { seq![] })
        + (if edge { seq![display_name(Browser::Edge)] } else { seq![] })
}

/// A summary of a policy document: its entry names, its number of extension
/// entries (capped at the largest `usize`), and each browser it names, once.
pub fn config_summary(config: &Config) -> (r: ConfigSummary)
    ensures
        r.policy_names@.map_values(|s: String| s@) == config.policies@.map_values(|p: crate::config::PolicyEntry| p.name@),
        r.total_extensions == if extension_total(config.policies@) > usize::MAX { usize::MAX as int } else { extension_total(config.policies@) },
        r.browsers@.map_values(|s: String| s@) == mentioned_names(
            mentions_browser(*config, Browser::Chrome), mentions_browser(*config, Browser::Firefox), mentions_browser(*config, Browser::Edge)),
{
    let mut names: Vec<String> = Vec::new();
    let mut total: usize = 0;
    let mut seen_chrome = false;
    let mut seen_firefox = false;
    let mut seen_edge = false;
    let mut i: usize = 0;
    while i < config.policies.len()
        invariant
            i <= config.policies@.len(),
            names@.len() == i,
            forall|j: int| 0 <= j < i ==> (#[trigger] names@[j])@ == config.policies@[j].name@,
            total == if extension_total(config.policies@.subrange(0, i as int)) > usize::MAX { usize::MAX as int }
                else { extension_total(config.policies@.subrange(0, i as int)) },
            seen_chrome == exists|j: int| 0 <= j < i && (#[trigger] config.policies@[j]).browsers@.contains(Browser::Chrome),
            seen_firefox == exists|j: int| 0 <= j < i && (#[trigger] config.policies@[j]).browsers@.contains(Browser::Firefox),
            seen_edge == exists|j: int| 0 <= j < i && (#[trigger] config.policies@[j]).browsers@.contains(Browser::Edge),
        decreases config.policies@.len() - i,
    {
        let p = &config.policies[i];
        let ghost prefix = config.policies@.subrange(0, i + 1);
        assert(prefix.drop_last() =~= config.policies@.subrange(0, i as int));
        assert(prefix.last() == config.policies@[i as int]);
        names.push(p.name.clone());
        total = total.saturating_add(p.extensions.len());
        let has_chrome = crate::config::lists_browser(&p.browsers, Browser::Chrome);
        let has_firefox = crate::config::lists_browser(&p.browsers, Browser::Firefox);
        let has_edge = crate::config::lists_browser(&p.browsers, Browser::Edge);
        proof {
            if has_chrome { assert(config.policies@[i as int].browsers@.contains(Browser::Chrome)); }
            if has_firefox { assert(config.policies@[i as int].browsers@.contains(Browser::Firefox)); }
            if has_edge { assert(config.policies@[i as int].browsers@.contains(Browser::Edge)); }
        }
        seen_chrome = seen_chrome || has_chrome;
        seen_firefox = seen_firefox || has_firefox;
        seen_edge = seen_edge || has_edge;
        i = i + 1;
    }
    assert(config.policies@.subrange(0, config.policies@.len() as int) =~= config.policies@);
    assert(names@.map_values(|s: String| s@) =~= config.policies@.map_values(|p: crate::config::PolicyEntry| p.name@));
    let mut browsers: Vec<String> = Vec::new();
    if seen_chrome {
        browsers.push(display_string(Browser::Chrome));
    }
    if seen_firefox {
        browsers.push(display_string(Browser::Firefox));
    }
    if seen_edge {
        browsers.push(display_string(Browser::Edge));
    }
    assert(browsers@.map_values(|s: String| s@) =~= mentioned_names(seen_chrome, seen_firefox, seen_edge));
    ConfigSummary { policy_names: names, total_extensions: total, browsers }
}

/// What an apply reports: whether the document changed, and how many
/// extensions and privacy flags each browser received.
pub fn apply_result(changed: bool, applied: &crate::state::AppliedPolicies) -> (r: ApplyResult)
    ensures
        r.changed == changed,
        r.extensions_applied.chrome == ext_count(applied.chrome),
        r.extensions_applied.firefox == ext_count(applied.firefox),
        r.extensions_applied.edge == ext_count(applied.edge),
        r.privacy_settings_applied.chrome == flag_count(applied.chrome),
        r.privacy_settings_applied.firefox == flag_count(applied.firefox),
        r.privacy_settings_applied.edge == flag_count(applied.edge),
        r.errors@.len() == 0,
        r.warnings@.len() == 0,
{
    let mut result = ApplyResult {
        changed,
        extensions_applied: BrowserCounts::default(),
        privacy_settings_applied: BrowserCounts::default(),
        errors: Vec::new(),
        warnings: Vec::new(),
    };
    match &applied.chrome {
        Some(c) => {
            result.extensions_applied.chrome = c.extensions.len();
            result.privacy_settings_applied.chrome = count_privacy_in_state(c);
        },
        None => {},
    }
    match &applied.firefox {
        Some(c) => {
            result.extensions_applied.firefox = c.extensions.len();
            result.privacy_settings_applied.firefox = count_privacy_in_state(c);
        },
        None => {},
    }
    match &applied.edge {
        Some(c) => {
            result.extensions_applied.edge = c.extensions.len();
            result.privacy_settings_applied.edge = count_privacy_in_state(c);
        },
        None => {},
    }
    result
}

} // verus!
