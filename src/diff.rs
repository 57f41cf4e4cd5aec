//! What a new policy document would change, per browser.

use vstd::prelude::*;

use crate::browser::Browser;
use crate::config::{Config, Extension, to_browser_configs};
use crate::policy::ext_ids;
use crate::state::{BrowserState, State};

verus! {

/// How one extension differs between the applied state and a new document.
pub enum ExtensionDiff {
    Added { id: String, name: String },
    Removed { id: String, name: Option<String> },
    Unchanged { id: String, name: String },
}

/// A privacy setting whose value changes.
pub struct PrivacySettingDiff {
    pub setting_name: String,
    pub old_value: Option<String>,
    pub new_value: Option<String>,
}

/// The differences for one browser.
pub struct BrowserDiff {
    pub browser: Browser,
    pub extensions: Vec<ExtensionDiff>,
    pub privacy_settings: Vec<PrivacySettingDiff>,
}

/// Totals over all browsers.
pub struct DiffSummary {
    pub total_additions: usize,
    pub total_removals: usize,
    pub total_changes: usize,
}

/// The differences a new document would make, per browser.
pub struct PolicyDiff {
    pub chrome: Option<BrowserDiff>,
    pub firefox: Option<BrowserDiff>,
    pub edge: Option<BrowserDiff>,
    pub summary: DiffSummary,
}

/// The identifier an extension difference is about.
pub open spec fn diff_id(d: ExtensionDiff) -> Seq<char> {
    match d {
        ExtensionDiff::Added { id, .. } => id@,
        ExtensionDiff::Removed { id, .. } => id@,
        ExtensionDiff::Unchanged { id, .. } => id@,
    }
}

/// Identifiers of a list of strings.
pub open spec fn views(v: Seq<String>) -> Seq<Seq<char>> {
    v.map_values(|s: String| s@)
}

/// Identifiers currently applied to a browser.
pub open spec fn current_ids(current: Option<&BrowserState>) -> Seq<Seq<char>> {
    match current {
        Some(s) => views(s.extensions@),
        None => seq![],
    }
}

/// Each difference is classified correctly: added means new and not
/// applied, unchanged means both, removed means applied and not new.
pub open spec fn diff_correct(d: ExtensionDiff, new_ids: Seq<Seq<char>>, old_ids: Seq<Seq<char>>) -> bool {
    match d {
        ExtensionDiff::Added { id, .. } => new_ids.contains(id@) && !old_ids.contains(id@),
        ExtensionDiff::Unchanged { id, .. } => new_ids.contains(id@) && old_ids.contains(id@),
        ExtensionDiff::Removed { id, name } => old_ids.contains(id@) && !new_ids.contains(id@) && name is None,
    }
}

/// A list of differences classifies every identifier of either side exactly once.
pub open spec fn diffs_complete(r: Seq<ExtensionDiff>, new_ids: Seq<Seq<char>>, old_ids: Seq<Seq<char>>) -> bool {
    &&& forall|k: int| 0 <= k < r.len() ==> diff_correct(#[trigger] r[k], new_ids, old_ids)
    &&& forall|id: Seq<char>| (new_ids.contains(id) || old_ids.contains(id)) ==> exists|k: int| 0 <= k < r.len() && #[trigger] diff_id(r[k]) == id
    &&& forall|k1: int, k2: int| 0 <= k1 < k2 < r.len() ==> diff_id(#[trigger] r[k1]) != diff_id(#[trigger] r[k2])
}

/// Some difference in `r` is about `id`.
pub open spec fn mentioned(r: Seq<ExtensionDiff>, id: Seq<char>) -> bool {
    exists|k: int| 0 <= k < r.len() && #[trigger] diff_id(r[k]) == id
}

/// Whether `id` occurs among the identifiers of `v`.
fn contains_id(v: &Vec<String>, id: &String) -> (r: bool)
    ensures
        r == views(v@).contains(id@),
{
    let mut i: usize = 0;
    while i < v.len()
        invariant
            i <= v@.len(),
            forall|j: int| 0 <= j < i ==> v@[j]@ != id@,
        decreases v@.len() - i,
    {
        if v[i] == *id {
            assert(views(v@)[i as int] == id@);
            return true;
        }
        i = i + 1;
    }
    proof {
        if views(v@).contains(id@) {
            let j = choose|j: int| 0 <= j < views(v@).len() && views(v@)[j] == id@;
            assert(v@[j]@ == id@);
        }
    }
    false
}

/// Whether some difference in `r` is about `id`.
fn mentions(r: &Vec<ExtensionDiff>, id: &String) -> (b: bool)
    ensures
        b == mentioned(r@, id@),
{
    let mut i: usize = 0;
    while i < r.len()
        invariant
            i <= r@.len(),
            forall|k: int| 0 <= k < i ==> #[trigger] diff_id(r@[k]) != id@,
        decreases r@.len() - i,
    {
        let same = match &r[i] {
            ExtensionDiff::Added { id: x, .. } => *x == *id,
            ExtensionDiff::Removed { id: x, .. } => *x == *id,
            ExtensionDiff::Unchanged { id: x, .. } => *x == *id,
        };
        if same {
            assert(diff_id(r@[i as int]) == id@);
            return true;
        }
        i = i + 1;
    }
    false
}

/// Classifies each extension identifier of a new browser configuration
/// against what is applied: new ones first, in document order, then the
/// applied ones that go away.
pub fn generate_extension_diffs(new_extensions: &Vec<Extension>, current_state: Option<&BrowserState>) -> (r: Vec<ExtensionDiff>)
    ensures
        diffs_complete(r@, ext_ids(new_extensions@), current_ids(current_state)),
{
    let ghost new_ids = ext_ids(new_extensions@);
    let empty: Vec<String> = Vec::new();
    let current: &Vec<String> = match current_state {
        Some(s) => &s.extensions,
        None => &empty,
    };
    let ghost old_ids = views(current@);
    assert(old_ids == current_ids(current_state));
    let mut out: Vec<ExtensionDiff> = Vec::new();
    let mut i: usize = 0;
    while i < new_extensions.len()
        invariant
            i <= new_extensions@.len(),
            new_ids == ext_ids(new_extensions@),
            old_ids == views(current@),
            forall|k: int| 0 <= k < out@.len() ==> diff_correct(#[trigger] out@[k], new_ids, old_ids),
            forall|k: int| 0 <= k < out@.len() ==> !(#[trigger] out@[k] is Removed),
            forall|j: int| 0 <= j < i ==> mentioned(out@, new_ids[j]),
            forall|k1: int, k2: int| 0 <= k1 < k2 < out@.len() ==> diff_id(#[trigger] out@[k1]) != diff_id(#[trigger] out@[k2]),
        decreases new_extensions@.len() - i,
    {
        let ext = &new_extensions[i];
        assert(new_ids[i as int] == ext.id@);
        assert(new_ids.contains(ext.id@));
        if !mentions(&out, &ext.id) {
            let ghost before = out@;
            if contains_id(current, &ext.id) {
                out.push(ExtensionDiff::Unchanged { id: ext.id.clone(), name: ext.name.clone() });
            } else {
                out.push(ExtensionDiff::Added { id: ext.id.clone(), name: ext.name.clone() });
            }
            assert(diff_id(out@[before.len() as int]) == new_ids[i as int]);
            assert(mentioned(out@, new_ids[i as int]));
            assert forall|j: int| 0 <= j < i + 1 implies mentioned(out@, new_ids[j]) by {
                if j < i {
                    let k = choose|k: int| 0 <= k < before.len() && #[trigger] diff_id(before[k]) == new_ids[j];
                    assert(out@[k] == before[k]);
                    assert(out@[k] == before[k]);
                } else {
                    assert(diff_id(out@[before.len() as int]) == new_ids[j]);
                }
            }
        }
        i = i + 1;
    }
    assert(new_ids.len() == new_extensions@.len());
    assert(i == new_extensions@.len());
    assert forall|j: int| 0 <= j < new_ids.len() implies mentioned(out@, new_ids[j]) by {
        assert(j < i);
    }
    let mut c: usize = 0;
    while c < current.len()
        invariant
            c <= current@.len(),
            new_ids == ext_ids(new_extensions@),
            old_ids == views(current@),
            forall|k: int| 0 <= k < out@.len() ==> diff_correct(#[trigger] out@[k], new_ids, old_ids),
            forall|j: int| 0 <= j < new_ids.len() ==> mentioned(out@, new_ids[j]),
            forall|j: int| 0 <= j < c ==> mentioned(out@, old_ids[j]),
            forall|k1: int, k2: int| 0 <= k1 < k2 < out@.len() ==> diff_id(#[trigger] out@[k1]) != diff_id(#[trigger] out@[k2]),
        decreases current@.len() - c,
    {
        let id = &current[c];
        assert(old_ids[c as int] == id@);
        assert(old_ids.contains(id@));
        if !mentions(&out, id) {
            let ghost before = out@;
            proof {
                if new_ids.contains(id@) {
                    let j = choose|j: int| 0 <= j < new_ids.len() && #[trigger] new_ids[j] == id@;
                    assert(mentioned(out@, new_ids[j]));
                }
            }
            out.push(ExtensionDiff::Removed { id: id.clone(), name: None });
            assert(diff_id(out@[before.len() as int]) == old_ids[c as int]);
            assert(mentioned(out@, old_ids[c as int]));
            assert forall|j: int| 0 <= j < new_ids.len() implies mentioned(out@, new_ids[j]) by {
                let k = choose|k: int| 0 <= k < before.len() && #[trigger] diff_id(before[k]) == new_ids[j];
                    assert(out@[k] == before[k]);
                assert(out@[k] == before[k]);
            }
            assert forall|j: int| 0 <= j < c + 1 implies mentioned(out@, old_ids[j]) by {
                if j < c {
                    let k = choose|k: int| 0 <= k < before.len() && #[trigger] diff_id(before[k]) == old_ids[j];
                    assert(out@[k] == before[k]);
                    assert(out@[k] == before[k]);
                } else {
                    assert(diff_id(out@[before.len() as int]) == old_ids[j]);
                }
            }
        }
        c = c + 1;
    }
    assert forall|id: Seq<char>| (new_ids.contains(id) || old_ids.contains(id)) implies exists|k: int| 0 <= k < out@.len() && #[trigger] diff_id(out@[k]) == id by {
        if new_ids.contains(id) {
            let j = choose|j: int| 0 <= j < new_ids.len() && new_ids[j] == id;
            assert(mentioned(out@, new_ids[j]));
        } else {
            let j = choose|j: int| 0 <= j < old_ids.len() && old_ids[j] == id;
            assert(mentioned(out@, old_ids[j]));
        }
    }
    out
}

} // verus!

verus! {

/// The text of an optional flag: `true`, `false`, or absent.
pub open spec fn flag_text(v: Option<bool>) -> Option<Seq<char>> {
    match v {
        Some(true) => Some("true"@),
        Some(false) => Some("false"@),
        None => None,
    }
}

fn flag_string(v: Option<bool>) -> (r: Option<String>)
    ensures
        match r {
            Some(s) => flag_text(v) == Some(s@),
            None => flag_text(v) is None,
        },
{
    match v {
        Some(true) => Some("true".to_owned()),
        Some(false) => Some("false".to_owned()),
        None => None,
    }
}

/// The spec form of a privacy setting difference.
pub open spec fn privacy_view(d: PrivacySettingDiff) -> (Seq<char>, Option<Seq<char>>, Option<Seq<char>>) {
    (d.setting_name@, match d.old_value { Some(s) => Some(s@), None => None }, match d.new_value { Some(s) => Some(s@), None => None })
}

/// The change of one flag, if its value differs.
pub open spec fn flag_change(name: Seq<char>, prev: Option<bool>, next: Option<bool>) -> Seq<(Seq<char>, Option<Seq<char>>, Option<Seq<char>>)> {
    if prev != next {
        seq![(name, flag_text(prev), flag_text(next))]
    } else {
        seq![]
    }
}

fn push_flag_change(out: &mut Vec<PrivacySettingDiff>, name: &str, prev: Option<bool>, next: Option<bool>)
    ensures
        final(out)@.map_values(|d: PrivacySettingDiff| privacy_view(d))
            == old(out)@.map_values(|d: PrivacySettingDiff| privacy_view(d)) + flag_change(name@, prev, next),
{
    let ghost before = out@;
    if prev != next {
        out.push(PrivacySettingDiff { setting_name: name.to_owned(), old_value: flag_string(prev), new_value: flag_string(next) });
    }
    assert(out@.map_values(|d: PrivacySettingDiff| privacy_view(d))
        =~= before.map_values(|d: PrivacySettingDiff| privacy_view(d)) + flag_change(name@, prev, next));
}

/// A field of an optional browser state.
pub open spec fn old_flag(current: Option<&BrowserState>, f: spec_fn(BrowserState) -> Option<bool>) -> Option<bool> {
    match current {
        Some(s) => f(*s),
        None => None,
    }
}

/// The privacy flags a browser has, in the order its differences are listed:
/// Chrome has incognito and guest mode, Firefox private browsing, Edge
/// InPrivate and guest mode. Each is (name, old value, new value).
pub open spec fn privacy_changes(b: Browser, current: Option<&BrowserState>, private: Option<bool>, guest: Option<bool>) -> Seq<(Seq<char>, Option<Seq<char>>, Option<Seq<char>>)> {
    match b {
        Browser::Chrome =>
            flag_change("Disable Incognito Mode"@, old_flag(current, |s: BrowserState| s.disable_incognito), private)
            + flag_change("Disable Guest Mode"@, old_flag(current, |s: BrowserState| s.disable_guest_mode), guest),
        Browser::Firefox =>
            flag_change("Disable Private Browsing"@, old_flag(current, |s: BrowserState| s.disable_private_browsing), private),
        Browser::Edge =>
            flag_change("Disable InPrivate Mode"@, old_flag(current, |s: BrowserState| s.disable_inprivate), private)
            + flag_change("Disable Guest Mode"@, old_flag(current, |s: BrowserState| s.disable_guest_mode), guest),
    }
}

/// Lists the privacy flags of a browser whose value changes.
pub fn generate_privacy_diffs(b: Browser, current: Option<&BrowserState>, private: Option<bool>, guest: Option<bool>) -> (r: Vec<PrivacySettingDiff>)
    ensures
        r@.map_values(|d: PrivacySettingDiff| privacy_view(d)) == privacy_changes(b, current, private, guest),
{
    let mut out: Vec<PrivacySettingDiff> = Vec::new();
    assert(out@.map_values(|d: PrivacySettingDiff| privacy_view(d)) =~= seq![]);
    match b {
        Browser::Chrome => {
            let prev = match current { Some(s) => s.disable_incognito, None => None };
            push_flag_change(&mut out, "Disable Incognito Mode", prev, private);
            let prev = match current { Some(s) => s.disable_guest_mode, None => None };
            push_flag_change(&mut out, "Disable Guest Mode", prev, guest);
        },
        Browser::Firefox => {
            let prev = match current { Some(s) => s.disable_private_browsing, None => None };
            push_flag_change(&mut out, "Disable Private Browsing", prev, private);
        },
        Browser::Edge => {
            let prev = match current { Some(s) => s.disable_inprivate, None => None };
            push_flag_change(&mut out, "Disable InPrivate Mode", prev, private);
            let prev = match current { Some(s) => s.disable_guest_mode, None => None };
            push_flag_change(&mut out, "Disable Guest Mode", prev, guest);
        },
    }
    out
}

/// Counts additions and removals among extension differences.
fn count_kinds(v: &Vec<ExtensionDiff>) -> (r: (usize, usize))
    ensures
        r.0 == v@.filter(|d: ExtensionDiff| d is Added).len(),
        r.1 == v@.filter(|d: ExtensionDiff| d is Removed).len(),
{
    let mut added: usize = 0;
    let mut removed: usize = 0;
    let mut i: usize = 0;
    while i < v.len()
        invariant
            i <= v@.len(),
            added == v@.subrange(0, i as int).filter(|d: ExtensionDiff| d is Added).len(),
            removed == v@.subrange(0, i as int).filter(|d: ExtensionDiff| d is Removed).len(),
            added <= i,
            removed <= i,
        decreases v@.len() - i,
    {
        let ghost prefix = v@.subrange(0, i + 1);
        assert(prefix.drop_last() =~= v@.subrange(0, i as int));
        assert(prefix.last() == v@[i as int]);
        proof {
            reveal(Seq::filter);
        }
        match &v[i] {
            ExtensionDiff::Added { .. } => { added = added + 1; },
            ExtensionDiff::Removed { .. } => { removed = removed + 1; },
            ExtensionDiff::Unchanged { .. } => {},
        }
        i = i + 1;
    }
    assert(v@.subrange(0, v@.len() as int) =~= v@);
    (added, removed)
}

/// Additions in an optional browser difference.
pub open spec fn additions(d: Option<BrowserDiff>) -> int {
    match d {
        Some(b) => b.extensions@.filter(|x: ExtensionDiff| x is Added).len() as int,
        None => 0,
    }
}

/// Removals in an optional browser difference.
pub open spec fn removals(d: Option<BrowserDiff>) -> int {
    match d {
        Some(b) => b.extensions@.filter(|x: ExtensionDiff| x is Removed).len() as int,
        None => 0,
    }
}

/// Privacy changes in an optional browser difference.
pub open spec fn changes(d: Option<BrowserDiff>) -> int {
    match d {
        Some(b) => b.privacy_settings@.len() as int,
        None => 0,
    }
}

fn browser_totals(d: &Option<BrowserDiff>) -> (r: (usize, usize, usize))
    ensures
        r.0 == additions(*d),
        r.1 == removals(*d),
        r.2 == changes(*d),
{
    match d {
        Some(b) => {
            let (a, r) = count_kinds(&b.extensions);
            (a, r, b.privacy_settings.len())
        },
        None => (0, 0, 0),
    }
}

/// The sum of three counts, capped at the largest `usize`.
pub open spec fn capped_sum(a: int, b: int, c: int) -> int {
    if a + b + c > usize::MAX { usize::MAX as int } else { a + b + c }
}

/// Sums additions, removals and privacy changes over the three browsers
/// (each total capped at the largest `usize`).
pub fn create_summary(chrome: &Option<BrowserDiff>, firefox: &Option<BrowserDiff>, edge: &Option<BrowserDiff>) -> (r: DiffSummary)
    ensures
        r.total_additions == capped_sum(additions(*chrome), additions(*firefox), additions(*edge)),
        r.total_removals == capped_sum(removals(*chrome), removals(*firefox), removals(*edge)),
        r.total_changes == capped_sum(changes(*chrome), changes(*firefox), changes(*edge)),
{
    let c = browser_totals(chrome);
    let f = browser_totals(firefox);
    let e = browser_totals(edge);
    DiffSummary {
        total_additions: c.0.saturating_add(f.0).saturating_add(e.0),
        total_removals: c.1.saturating_add(f.1).saturating_add(e.1),
        total_changes: c.2.saturating_add(f.2).saturating_add(e.2),
    }
}

/// The differences for one browser between its applied state and its new
/// configuration.
pub open spec fn browser_diff_ok(d: BrowserDiff, b: Browser, exts: Seq<Extension>, current: Option<&BrowserState>, private: Option<bool>, guest: Option<bool>) -> bool {
    &&& d.browser == b
    &&& diffs_complete(d.extensions@, ext_ids(exts), current_ids(current))
    &&& d.privacy_settings@.map_values(|x: PrivacySettingDiff| privacy_view(x)) == privacy_changes(b, current, private, guest)
}

/// The applied state of one browser, if any.
pub open spec fn applied_for(current: Option<&State>, b: Browser) -> Option<&BrowserState> {
    match current {
        Some(s) => match b {
            Browser::Chrome => match &s.applied_policies.chrome { Some(x) => Some(x), None => None },
            Browser::Firefox => match &s.applied_policies.firefox { Some(x) => Some(x), None => None },
            Browser::Edge => match &s.applied_policies.edge { Some(x) => Some(x), None => None },
        },
        None => None,
    }
}

fn applied_ref(current: Option<&State>, b: Browser) -> (r: Option<&BrowserState>)
    ensures
        r == applied_for(current, b),
{
    match current {
        Some(s) => match b {
            Browser::Chrome => match &s.applied_policies.chrome { Some(x) => Some(x), None => None },
            Browser::Firefox => match &s.applied_policies.firefox { Some(x) => Some(x), None => None },
            Browser::Edge => match &s.applied_policies.edge { Some(x) => Some(x), None => None },
        },
        None => None,
    }
}

/// The differences for a browser the new document no longer configures:
/// everything recorded for it goes, when anything is recorded.
fn removed_browser(b: Browser, cur: Option<&BrowserState>) -> (r: Option<BrowserDiff>)
    ensures
        r is Some <==> cur is Some,
        r is Some ==> browser_diff_ok(r->0, b, Seq::<Extension>::empty(), cur, None, None),
{
    match cur {
        Some(_) => {
            let none: Vec<Extension> = Vec::new();
            let d = BrowserDiff {
                browser: b,
                extensions: generate_extension_diffs(&none, cur),
                privacy_settings: generate_privacy_diffs(b, cur, None, None),
            };
            assert(ext_ids(none@) =~= ext_ids(Seq::<Extension>::empty()));
            Some(d)
        },
        None => None,
    }
}

/// What applying `new_config` would change relative to `current_state`, per
/// browser the document configures or the state records (a browser the
/// document drops has all its recorded extensions removed); read-only.
pub fn generate_diff(new_config: &Config, current_state: Option<&State>) -> (r: PolicyDiff)
    ensures
        r.chrome is Some <==> (crate::config::chrome_present(*new_config) || applied_for(current_state, Browser::Chrome) is Some),
        !crate::config::chrome_present(*new_config) && r.chrome is Some ==>
            browser_diff_ok(r.chrome->0, Browser::Chrome, Seq::<Extension>::empty(), applied_for(current_state, Browser::Chrome), None, None),
        r.firefox is Some <==> (crate::config::firefox_present(*new_config) || applied_for(current_state, Browser::Firefox) is Some),
        !crate::config::firefox_present(*new_config) && r.firefox is Some ==>
            browser_diff_ok(r.firefox->0, Browser::Firefox, Seq::<Extension>::empty(), applied_for(current_state, Browser::Firefox), None, None),
        r.edge is Some <==> (crate::config::edge_present(*new_config) || applied_for(current_state, Browser::Edge) is Some),
        !crate::config::edge_present(*new_config) && r.edge is Some ==>
            browser_diff_ok(r.edge->0, Browser::Edge, Seq::<Extension>::empty(), applied_for(current_state, Browser::Edge), None, None),
        crate::config::chrome_present(*new_config) ==> exists|exts: Seq<Extension>|
            crate::config::exts_view(exts) == crate::config::policies_targets(new_config.policies@, Browser::Chrome)
            && #[trigger] browser_diff_ok(r.chrome->0, Browser::Chrome, exts, applied_for(current_state, Browser::Chrome),
                crate::config::last_flag(new_config.policies@, Browser::Chrome, false), crate::config::last_flag(new_config.policies@, Browser::Chrome, true)),
        crate::config::firefox_present(*new_config) ==> exists|exts: Seq<Extension>|
            crate::config::exts_view(exts) == crate::config::policies_targets(new_config.policies@, Browser::Firefox)
            && #[trigger] browser_diff_ok(r.firefox->0, Browser::Firefox, exts, applied_for(current_state, Browser::Firefox),
                crate::config::last_flag(new_config.policies@, Browser::Firefox, false), None),
        crate::config::edge_present(*new_config) ==> exists|exts: Seq<Extension>|
            crate::config::exts_view(exts) == crate::config::policies_targets(new_config.policies@, Browser::Edge)
            && #[trigger] browser_diff_ok(r.edge->0, Browser::Edge, exts, applied_for(current_state, Browser::Edge),
                crate::config::last_flag(new_config.policies@, Browser::Edge, false), crate::config::last_flag(new_config.policies@, Browser::Edge, true)),
        r.summary.total_additions == capped_sum(additions(r.chrome), additions(r.firefox), additions(r.edge)),
        r.summary.total_removals == capped_sum(removals(r.chrome), removals(r.firefox), removals(r.edge)),
        r.summary.total_changes == capped_sum(changes(r.chrome), changes(r.firefox), changes(r.edge)),
{
    let (chrome, firefox, edge) = to_browser_configs(new_config);
    let chrome_diff = match chrome {
        Some(c) => {
            let cur = applied_ref(current_state, Browser::Chrome);
            let d = BrowserDiff {
                browser: Browser::Chrome,
                extensions: generate_extension_diffs(&c.extensions, cur),
                privacy_settings: generate_privacy_diffs(Browser::Chrome, cur, c.disable_incognito, c.disable_guest_mode),
            };
            assert(browser_diff_ok(d, Browser::Chrome, c.extensions@, cur, c.disable_incognito, c.disable_guest_mode));
            Some(d)
        },
        None => removed_browser(Browser::Chrome, applied_ref(current_state, Browser::Chrome)),
    };
    let firefox_diff = match firefox {
        Some(c) => {
            let cur = applied_ref(current_state, Browser::Firefox);
            let d = BrowserDiff {
                browser: Browser::Firefox,
                extensions: generate_extension_diffs(&c.extensions, cur),
                privacy_settings: generate_privacy_diffs(Browser::Firefox, cur, c.disable_private_browsing, None),
            };
            assert(browser_diff_ok(d, Browser::Firefox, c.extensions@, cur, c.disable_private_browsing, None));
            Some(d)
        },
        None => removed_browser(Browser::Firefox, applied_ref(current_state, Browser::Firefox)),
    };
    let edge_diff = match edge {
        Some(c) => {
            let cur = applied_ref(current_state, Browser::Edge);
            let d = BrowserDiff {
                browser: Browser::Edge,
                extensions: generate_extension_diffs(&c.extensions, cur),
                privacy_settings: generate_privacy_diffs(Browser::Edge, cur, c.disable_inprivate, c.disable_guest_mode),
            };
            assert(browser_diff_ok(d, Browser::Edge, c.extensions@, cur, c.disable_inprivate, c.disable_guest_mode));
            Some(d)
        },
        None => removed_browser(Browser::Edge, applied_ref(current_state, Browser::Edge)),
    };
    let summary = create_summary(&chrome_diff, &firefox_diff, &edge_diff);
    PolicyDiff { chrome: chrome_diff, firefox: firefox_diff, edge: edge_diff, summary }
}

} // verus!
