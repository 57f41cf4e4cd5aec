//! Planning an apply over the previous applied state, recording its outcome, and uninstalling.

use vstd::prelude::*;

use crate::browser::Browser;
use crate::config::{
    Config, to_browser_configs, chrome_present, firefox_present, edge_present, policies_targets,
    exts_view, last_flag, urls_for,
};
use crate::policy::{
    ChromiumConfig, FirefoxPolicies, PolicySetting, chromium_policy_settings,
    chromium_settings, create_firefox_policies, chrome_state, edge_state, firefox_state,
    get_chrome_browser_config, get_edge_browser_config, settings_view, ext_ids,
};
use crate::state::{AppliedPolicies, BrowserState};

verus! {

/// What an apply does to one browser's policy surface.
pub enum SurfacePlan {
    /// Rewrite a Chromium browser's surface with exactly these settings (the
    /// old forced-install list is wiped first) and record `state`.
    Chromium { settings: Vec<PolicySetting>, state: BrowserState },
    /// Rewrite Firefox's policy file and record `state`.
    Firefox { policies: FirefoxPolicies, state: BrowserState },
    /// Remove everything this tool wrote to the surface.
    Remove,
    /// Leave the surface alone.
    Untouched,
}

/// The surface operations of one apply, in the fixed order Chrome, Firefox, Edge.
pub struct ApplyPlan {
    pub chrome: SurfacePlan,
    pub firefox: SurfacePlan,
    pub edge: SurfacePlan,
}

/// Whether the document configures browser `b`.
pub open spec fn configures(c: Config, b: Browser) -> bool {
    match b {
        Browser::Chrome => chrome_present(c),
        Browser::Firefox => firefox_present(c),
        Browser::Edge => edge_present(c),
    }
}

/// Identifiers the document force-installs in browser `b`, in order.
pub open spec fn planned_ids(c: Config, b: Browser) -> Seq<Seq<char>> {
    policies_targets(c.policies@, b).map_values(|t: (Seq<char>, Seq<char>, serde_json::Value)| t.0)
}

/// Identifiers a surface plan leaves on the surface: `None` when it does not
/// touch the surface.
pub open spec fn ids_after(p: SurfacePlan) -> Option<Seq<Seq<char>>> {
    match p {
        SurfacePlan::Chromium { state, .. } => Some(state.extensions@.map_values(|s: String| s@)),
        SurfacePlan::Firefox { state, .. } => Some(state.extensions@.map_values(|s: String| s@)),
        SurfacePlan::Remove => Some(seq![]),
        SurfacePlan::Untouched => None,
    }
}

/// Whether an applied-state record holds browser `b`.
pub open spec fn records(a: AppliedPolicies, b: Browser) -> bool {
    match b {
        Browser::Chrome => a.chrome is Some,
        Browser::Firefox => a.firefox is Some,
        Browser::Edge => a.edge is Some,
    }
}

/// The plan for browser `b` within an apply plan.
pub open spec fn plan_for(p: ApplyPlan, b: Browser) -> SurfacePlan {
    match b {
        Browser::Chrome => p.chrome,
        Browser::Firefox => p.firefox,
        Browser::Edge => p.edge,
    }
}

/// How a surface plan treats browser `b` given the new document and what was
/// previously applied: rewrite it with the document's identifiers when the
/// document configures it, remove it when only the previous apply did, and
/// leave it alone otherwise.
pub open spec fn plan_matches(p: SurfacePlan, c: Config, previous: AppliedPolicies, b: Browser) -> bool {
    if configures(c, b) {
        ids_after(p) == Some(planned_ids(c, b)) && !(p is Remove) && !(p is Untouched)
    } else if records(previous, b) {
        p is Remove
    } else {
        p is Untouched
    }
}

proof fn lemma_ids_of_targets(exts: Seq<crate::config::Extension>, c: Config, b: Browser)
    requires
        exts_view(exts) == policies_targets(c.policies@, b),
    ensures
        ext_ids(exts) == planned_ids(c, b),
{
    assert(ext_ids(exts).len() == exts_view(exts).len());
    assert(ext_ids(exts) =~= planned_ids(c, b)) by {
        assert forall|i: int| 0 <= i < exts.len() implies ext_ids(exts)[i] == planned_ids(c, b)[i] by {
            assert(exts_view(exts)[i] == policies_targets(c.policies@, b)[i]);
        }
    }
}

/// A Chromium surface plan writes the settings of the browser's share of
/// the document: its extensions, with default update URLs, and its flags.
pub open spec fn chromium_surface(p: SurfacePlan, c: Config, b: Browser, name: Seq<char>) -> bool {
    p is Chromium ==> exists|cc: ChromiumConfig| {
        &&& exts_view(cc.extensions@) == policies_targets(c.policies@, b)
        &&& (forall|q: int| 0 <= q < cc.extensions@.len() ==> urls_for(#[trigger] cc.extensions@[q], b))
        &&& cc.disable_private_mode == last_flag(c.policies@, b, false)
        &&& cc.disable_guest_mode == last_flag(c.policies@, b, true)
        &&& settings_view(p->settings@) == #[trigger] chromium_settings(cc, name)
    }
}

/// Firefox's policy file lists each planned add-on with its generated
/// install URL, and disables private browsing when the document asks.
pub open spec fn firefox_surface(p: SurfacePlan, c: Config) -> bool {
    p is Firefox ==> {
        &&& p->policies.extension_settings@.map_values(|e: (String, String)| (e.0@, e.1@))
            == planned_ids(c, Browser::Firefox).map_values(|id: Seq<char>| (id, crate::config::firefox_install_url(id)))
        &&& p->policies.disable_private_browsing == (last_flag(c.policies@, Browser::Firefox, false) == Some(true))
    }
}

/// Plans an apply of `config` over what `previous` records.
pub fn plan_apply(config: &Config, previous: &AppliedPolicies) -> (r: ApplyPlan)
    ensures
        plan_matches(r.chrome, *config, *previous, Browser::Chrome),
        plan_matches(r.firefox, *config, *previous, Browser::Firefox),
        plan_matches(r.edge, *config, *previous, Browser::Edge),
        chromium_surface(r.chrome, *config, Browser::Chrome, "Chrome"@),
        chromium_surface(r.edge, *config, Browser::Edge, "Edge"@),
        firefox_surface(r.firefox, *config),
{
    let (chrome, firefox, edge) = to_browser_configs(config);
    let chrome_plan = match chrome {
        Some(c) => {
            let state = chrome_state(&c);
            let ghost exts = c.extensions@;
            proof { lemma_ids_of_targets(exts, *config, Browser::Chrome); }
            let shared = ChromiumConfig::from_chrome(c);
            let settings = chromium_policy_settings(&shared, &get_chrome_browser_config());
            SurfacePlan::Chromium { settings, state }
        },
        None => if previous.chrome.is_some() { SurfacePlan::Remove } else { SurfacePlan::Untouched },
    };
    let firefox_plan = match firefox {
        Some(c) => {
            let state = firefox_state(&c);
            proof { lemma_ids_of_targets(c.extensions@, *config, Browser::Firefox); }
            assert(forall|q: int| 0 <= q < c.extensions@.len() ==> (#[trigger] c.extensions@[q]).install_url is Some) by {
                assert forall|q: int| 0 <= q < c.extensions@.len() implies (#[trigger] c.extensions@[q]).install_url is Some by {
                    assert(urls_for(c.extensions@[q], Browser::Firefox));
                }
            }
            let policies = match create_firefox_policies(&c) {
                Ok(p) => p,
                Err(_) => {
                    assert(false);
                    FirefoxPolicies { extension_settings: Vec::new(), disable_private_browsing: false }
                },
            };
            proof {
                let ids = planned_ids(*config, Browser::Firefox);
                assert(ext_ids(c.extensions@) == ids);
                assert forall|q: int| 0 <= q < c.extensions@.len() implies
                    #[trigger] c.extensions@[q].install_url->0@ == crate::config::firefox_install_url(c.extensions@[q].id@) by {
                    assert(urls_for(c.extensions@[q], Browser::Firefox));
                }
                assert(policies.extension_settings@.map_values(|e: (String, String)| (e.0@, e.1@))
                    =~= ids.map_values(|id: Seq<char>| (id, crate::config::firefox_install_url(id)))) by {
                    assert forall|q: int| 0 <= q < ids.len() implies ids[q] == c.extensions@[q].id@ by {
                        assert(ext_ids(c.extensions@)[q] == c.extensions@[q].id@);
                    }
                }
            }
            SurfacePlan::Firefox { policies, state }
        },
        None => if previous.firefox.is_some() { SurfacePlan::Remove } else { SurfacePlan::Untouched },
    };
    let edge_plan = match edge {
        Some(c) => {
            let state = edge_state(&c);
            proof { lemma_ids_of_targets(c.extensions@, *config, Browser::Edge); }
            let shared = ChromiumConfig::from_edge(c);
            let settings = chromium_policy_settings(&shared, &get_edge_browser_config());
            SurfacePlan::Chromium { settings, state }
        },
        None => if previous.edge.is_some() { SurfacePlan::Remove } else { SurfacePlan::Untouched },
    };
    ApplyPlan { chrome: chrome_plan, firefox: firefox_plan, edge: edge_plan }
}

} // verus!

verus! {

/// An apply touches the surfaces unless the document's hash equals the one
/// recorded by the last successful apply; a dry run always goes through.
pub open spec fn apply_needed(current: Option<Seq<char>>, new_hash: Seq<char>, dry_run: bool) -> bool {
    dry_run || current != Some(new_hash)
}

/// Decides whether an apply must touch the surfaces.
pub fn should_apply(current_hash: Option<&str>, new_hash: &str, dry_run: bool) -> (r: bool)
    ensures
        r == apply_needed(crate::config::opt_str_view(current_hash), new_hash@, dry_run),
{
    if dry_run {
        return true;
    }
    match current_hash {
        None => true,
        Some(h) => {
            let a = h.to_owned();
            let b = new_hash.to_owned();
            !(a == b)
        },
    }
}

/// What the applied-state records for one browser after its surface plan ran:
/// a rewrite that succeeded records its state, a removal that succeeded
/// records nothing, and otherwise the previous record stays.
pub open spec fn recorded_after(p: SurfacePlan, ok: bool, previous: Option<BrowserState>) -> Option<BrowserState> {
    match p {
        SurfacePlan::Chromium { state, .. } => if ok { Some(state) } else { previous },
        SurfacePlan::Firefox { state, .. } => if ok { Some(state) } else { previous },
        SurfacePlan::Remove => if ok { None } else { previous },
        SurfacePlan::Untouched => previous,
    }
}

fn record_one(p: SurfacePlan, ok: bool, previous: Option<BrowserState>) -> (r: Option<BrowserState>)
    ensures
        r == recorded_after(p, ok, previous),
{
    match p {
        SurfacePlan::Chromium { settings, state } => if ok { Some(state) } else { previous },
        SurfacePlan::Firefox { policies, state } => if ok { Some(state) } else { previous },
        SurfacePlan::Remove => if ok { None } else { previous },
        SurfacePlan::Untouched => previous,
    }
}

/// The applied policies after a plan ran, given which surfaces succeeded:
/// only the successful part of the plan is recorded.
pub fn record_outcome(plan: ApplyPlan, chrome_ok: bool, firefox_ok: bool, edge_ok: bool, previous: AppliedPolicies) -> (r: AppliedPolicies)
    ensures
        r.chrome == recorded_after(plan.chrome, chrome_ok, previous.chrome),
        r.firefox == recorded_after(plan.firefox, firefox_ok, previous.firefox),
        r.edge == recorded_after(plan.edge, edge_ok, previous.edge),
{
    AppliedPolicies {
        chrome: record_one(plan.chrome, chrome_ok, previous.chrome),
        firefox: record_one(plan.firefox, firefox_ok, previous.firefox),
        edge: record_one(plan.edge, edge_ok, previous.edge),
    }
}

/// The hash to record after an apply: the new one when every surface
/// succeeded, else the previous one, so that the next poll retries.
pub fn next_config_hash(previous: Option<String>, new_hash: String, all_ok: bool) -> (r: Option<String>)
    ensures
        all_ok ==> r == Some(new_hash),
        !all_ok ==> r == previous,
{
    if all_ok { Some(new_hash) } else { previous }
}

/// The browsers whose surfaces an uninstall clears: every browser the
/// applied-state records, in the order Chrome, Firefox, Edge.
pub fn plan_uninstall(applied: &AppliedPolicies) -> (r: Vec<Browser>)
    ensures
        forall|b: Browser| records(*applied, b) <==> r@.contains(b),
        r@.no_duplicates(),
{
    let mut out: Vec<Browser> = Vec::new();
    if applied.chrome.is_some() {
        out.push(Browser::Chrome);
    }
    let ghost c = out@;
    if applied.firefox.is_some() {
        out.push(Browser::Firefox);
    }
    let ghost f = out@;
    if applied.edge.is_some() {
        out.push(Browser::Edge);
    }
    assert forall|b: Browser| records(*applied, b) <==> out@.contains(b) by {
        assert(forall|i: int| 0 <= i < out@.len() ==> records(*applied, #[trigger] out@[i]));
        if records(*applied, b) {
            match b {
                Browser::Chrome => { assert(out@[0] == b); },
                Browser::Firefox => { assert(out@[c.len() as int] == b); },
                Browser::Edge => { assert(out@[f.len() as int] == b); },
            }
        }
    }
    out
}

/// Applying the same document twice touches the surfaces once: the first
/// apply goes through when the recorded hash differs, records the
/// document's hash, and the second apply then finds nothing to do.
pub proof fn lemma_reapply_is_noop(content: Seq<u8>, recorded: Option<Seq<char>>)
    requires
        recorded != Some(crate::state::hash_text(crate::state::sha256_of(content))),
    ensures
        apply_needed(recorded, crate::state::hash_text(crate::state::sha256_of(content)), false),
        !apply_needed(Some(crate::state::hash_text(crate::state::sha256_of(content))),
            crate::state::hash_text(crate::state::sha256_of(content)), false),
{
}

/// After applying one document and then another, an identifier the first
/// installed in a browser and the second does not install there is gone
/// from that browser's surface: the second apply's plan (as `plan_apply`
/// makes it over the record of the first) rewrites the surface with the
/// second document's identifiers, or removes it.
pub proof fn lemma_switch_leaves_no_stale_id(
    previous: Config,
    next: Config,
    recorded: AppliedPolicies,
    plan: ApplyPlan,
    b: Browser,
    id: Seq<char>,
)
    requires
        records(recorded, b) == configures(previous, b),
        plan_matches(plan_for(plan, b), next, recorded, b),
        planned_ids(previous, b).contains(id),
        !planned_ids(next, b).contains(id),
    ensures
        ids_after(plan_for(plan, b)) is Some,
        !ids_after(plan_for(plan, b))->0.contains(id),
{
    let i = choose|i: int| 0 <= i < planned_ids(previous, b).len() && planned_ids(previous, b)[i] == id;
    assert(policies_targets(previous.policies@, b).len() > 0);
    assert(configures(previous, b));
}

} // verus!
