//! The policy document: its validation and its split into per-browser configurations.

use vstd::prelude::*;
use vstd::string::*;

use crate::browser::Browser;

verus! {

/// Lets verified code carry per-extension settings, a JSON value it never
/// looks inside.
#[verifier::external_type_specification]
#[verifier::external_body]
pub struct ExJsonValue(serde_json::Value);

/// Relies on serde_json's derived `Clone` for `Value`, which copies the value
/// structurally.
pub assume_specification[ <serde_json::Value as Clone>::clone ](v: &serde_json::Value) -> (r:
    serde_json::Value)
    ensures
        r == *v,
;

/// A policy document: an ordered list of policy entries.
pub struct Config {
    pub policies: Vec<PolicyEntry>,
}

/// One policy entry, applied to each browser it names.
pub struct PolicyEntry {
    pub name: String,
    pub browsers: Vec<Browser>,
    /// Chrome: incognito, Firefox: private browsing, Edge: InPrivate.
    pub disable_private_mode: Option<bool>,
    /// Chrome and Edge only; ignored for Firefox.
    pub disable_guest_mode: Option<bool>,
    pub extensions: Vec<ExtensionEntry>,
}

/// An extension to force-install, with its identifier per browser.
pub struct ExtensionEntry {
    pub name: String,
    pub id: BrowserIdMap,
    pub force_installed: Option<bool>,
    /// Extension-specific settings (a JSON object; `Null` when there are none).
    pub settings: serde_json::Value,
}

/// An extension identifier: one for every browser, or one per browser.
pub enum BrowserIdMap {
    Single(String),
    /// Browser to identifier; the first entry for a browser is the one used.
    Multiple(Vec<(Browser, String)>),
}

/// The identifier listed first for `b` among `entries`.
pub open spec fn lookup_id(entries: Seq<(Browser, String)>, b: Browser) -> Option<Seq<char>>
    decreases entries.len(),
{
    if entries.len() == 0 {
        None
    } else if entries[0].0 == b {
        Some(entries[0].1@)
    } else {
        lookup_id(entries.drop_first(), b)
    }
}

/// The identifier an extension has for a browser, if any.
pub open spec fn id_for(m: BrowserIdMap, b: Browser) -> Option<Seq<char>> {
    match m {
        BrowserIdMap::Single(s) => Some(s@),
        BrowserIdMap::Multiple(v) => lookup_id(v@, b),
    }
}

/// The view of an optional string slice.
pub open spec fn opt_str_view(o: Option<&str>) -> Option<Seq<char>> {
    match o {
        Some(s) => Some(s@),
        None => None,
    }
}

impl BrowserIdMap {
    /// The extension identifier for a specific browser.
    pub fn get_id(&self, browser: Browser) -> (r: Option<&str>)
        ensures
            opt_str_view(r) == id_for(*self, browser),
    {
        match self {
            BrowserIdMap::Single(id) => Some(id.as_str()),
            BrowserIdMap::Multiple(entries) => {
                let mut i: usize = 0;
                assert(entries@.subrange(0, entries@.len() as int) =~= entries@);
                while i < entries.len()
                    invariant
                        i <= entries@.len(),
                        id_for(*self, browser) == lookup_id(entries@, browser),
                        lookup_id(entries@, browser) == lookup_id(entries@.subrange(i as int, entries@.len() as int), browser),
                    decreases entries@.len() - i,
                {
                    let ghost rest = entries@.subrange(i as int, entries@.len() as int);
                    assert(rest.drop_first() =~= entries@.subrange(i + 1, entries@.len() as int));
                    assert(rest[0] == entries@[i as int]);
                    if entries[i].0 == browser {
                        return Some(entries[i].1.as_str());
                    }
                    i = i + 1;
                }
                assert(entries@.subrange(i as int, entries@.len() as int) =~= Seq::<(Browser, String)>::empty());
                None
            },
        }
    }
}

/// A character allowed in a Chromium extension identifier.
pub open spec fn is_id_char(c: char) -> bool {
    ('a' <= c && c <= 'z') || ('0' <= c && c <= '9')
}

/// Chromium identifiers (Chrome, Edge) are 32 characters of `[a-z0-9]`.
pub open spec fn valid_chromium_id(s: Seq<char>) -> bool {
    s.len() == 32 && forall|i: int| 0 <= i < s.len() ==> is_id_char(#[trigger] s[i])
}

/// Whether an extension's identifier for `b` is acceptable.
pub open spec fn id_acceptable(id: Option<Seq<char>>, b: Browser) -> bool {
    match id {
        None => false,
        Some(s) => if b == Browser::Firefox {
            s.len() > 0
        } else {
            valid_chromium_id(s)
        },
    }
}

/// An extension entry has an acceptable identifier for every listed browser.
pub open spec fn extension_valid(e: ExtensionEntry, browsers: Seq<Browser>) -> bool {
    forall|k: int| 0 <= k < browsers.len() ==> id_acceptable(id_for(e.id, browsers[k]), browsers[k])
}

/// A policy entry targets at least one browser and all its extensions are valid.
pub open spec fn policy_valid(p: PolicyEntry) -> bool {
    &&& p.browsers@.len() > 0
    &&& forall|j: int| 0 <= j < p.extensions@.len() ==> extension_valid(#[trigger] p.extensions@[j], p.browsers@)
}

/// A policy document is valid: non-empty, and every entry valid.
pub open spec fn config_valid(c: Config) -> bool {
    &&& c.policies@.len() > 0
    &&& forall|i: int| 0 <= i < c.policies@.len() ==> policy_valid(#[trigger] c.policies@[i])
}

/// Why a policy document was rejected. Indices name the policy entry, the
/// extension within it, and the position of the browser in its browser list.
#[derive(Clone, Copy, Debug, PartialEq, Eq, Structural)]
pub enum ConfigError {
    NoPolicies,
    NoBrowsers { policy: usize },
    MissingId { policy: usize, extension: usize, browser: usize },
    InvalidIdLength { policy: usize, extension: usize, browser: usize },
    InvalidIdChars { policy: usize, extension: usize, browser: usize },
    EmptyFirefoxId { policy: usize, extension: usize, browser: usize },
}

/// What is wrong with the identifier of `e` for the browser at position `k`.
pub open spec fn id_issue(e: ExtensionEntry, browsers: Seq<Browser>, k: int, issue: IdIssue) -> bool {
    &&& 0 <= k < browsers.len()
    &&& match issue {
        IdIssue::Missing => id_for(e.id, browsers[k]) is None,
        IdIssue::Length => browsers[k] != Browser::Firefox && id_for(e.id, browsers[k]) is Some
            && id_for(e.id, browsers[k])->0.len() != 32,
        IdIssue::Chars => browsers[k] != Browser::Firefox && id_for(e.id, browsers[k]) is Some
            && id_for(e.id, browsers[k])->0.len() == 32 && !valid_chromium_id(id_for(e.id, browsers[k])->0),
        IdIssue::EmptyFirefox => browsers[k] == Browser::Firefox && id_for(e.id, browsers[k]) is Some
            && id_for(e.id, browsers[k])->0.len() == 0,
    }
}

/// The kinds of problem an extension identifier can have.
#[derive(Clone, Copy, Debug, PartialEq, Eq, Structural)]
pub enum IdIssue {
    Missing,
    Length,
    Chars,
    EmptyFirefox,
}

/// The error reported for an identifier problem at the given indices.
pub open spec fn issue_error(issue: IdIssue, p: usize, x: usize, k: usize) -> ConfigError {
    match issue {
        IdIssue::Missing => ConfigError::MissingId { policy: p, extension: x, browser: k },
        IdIssue::Length => ConfigError::InvalidIdLength { policy: p, extension: x, browser: k },
        IdIssue::Chars => ConfigError::InvalidIdChars { policy: p, extension: x, browser: k },
        IdIssue::EmptyFirefox => ConfigError::EmptyFirefoxId { policy: p, extension: x, browser: k },
    }
}

/// The error names a real defect of the document.
pub open spec fn error_holds(c: Config, e: ConfigError) -> bool {
    match e {
        ConfigError::NoPolicies => c.policies@.len() == 0,
        ConfigError::NoBrowsers { policy } => policy < c.policies@.len()
            && c.policies@[policy as int].browsers@.len() == 0,
        _ => exists|p: usize, x: usize, k: usize, issue: IdIssue|
            p < c.policies@.len() && x < c.policies@[p as int].extensions@.len()
            && e == issue_error(issue, p, x, k)
            && #[trigger] id_issue(c.policies@[p as int].extensions@[x as int], c.policies@[p as int].browsers@, k as int, issue),
    }
}

/// Whether every character of `s` may appear in a Chromium identifier.
fn all_id_chars(s: &str) -> (r: bool)
    ensures
        r == (forall|i: int| 0 <= i < s@.len() ==> is_id_char(#[trigger] s@[i])),
{
    let n = s.unicode_len();
    let mut i: usize = 0;
    while i < n
        invariant
            n == s@.len(),
            i <= n,
            forall|j: int| 0 <= j < i ==> is_id_char(#[trigger] s@[j]),
        decreases n - i,
    {
        let c = s.get_char(i);
        if !(('a' <= c && c <= 'z') || ('0' <= c && c <= '9')) {
            return false;
        }
        i = i + 1;
    }
    true
}

/// Checks one identifier for one browser.
fn check_id(id: Option<&str>, browser: Browser) -> (r: Option<IdIssue>)
    ensures
        r is None <==> id_acceptable(opt_str_view(id), browser),
        match r {
            Some(issue) => match issue {
                IdIssue::Missing => id is None,
                IdIssue::Length => browser != Browser::Firefox && id is Some && id->0@.len() != 32,
                IdIssue::Chars => browser != Browser::Firefox && id is Some && id->0@.len() == 32
                    && !valid_chromium_id(id->0@),
                IdIssue::EmptyFirefox => browser == Browser::Firefox && id is Some && id->0@.len() == 0,
            },
            None => true,
        },
{
    match id {
        None => Some(IdIssue::Missing),
        Some(s) => {
            if browser.is_chromium() {
                if s.unicode_len() != 32 {
                    Some(IdIssue::Length)
                } else if !all_id_chars(s) {
                    Some(IdIssue::Chars)
                } else {
                    None
                }
            } else if s.unicode_len() == 0 {
                Some(IdIssue::EmptyFirefox)
            } else {
                None
            }
        },
    }
}

/// Checks an extension against each browser of its policy; on failure gives
/// the position of the first offending browser and what is wrong.
fn validate_extension_entry(ext: &ExtensionEntry, browsers: &Vec<Browser>) -> (r: Result<(), (usize, IdIssue)>)
    ensures
        r is Ok <==> extension_valid(*ext, browsers@),
        match r {
            Err((k, issue)) => id_issue(*ext, browsers@, k as int, issue),
            Ok(_) => true,
        },
{
    let mut k: usize = 0;
    while k < browsers.len()
        invariant
            k <= browsers@.len(),
            forall|q: int| 0 <= q < k ==> id_acceptable(id_for(ext.id, browsers@[q]), browsers@[q]),
        decreases browsers@.len() - k,
    {
        let b = browsers[k];
        let id = ext.id.get_id(b);
        match check_id(id, b) {
            Some(issue) => {
                return Err((k, issue));
            },
            None => {},
        }
        k = k + 1;
    }
    Ok(())
}

/// Checks one policy entry; on failure gives the error at policy index `p`.
fn validate_policy_entry(policy: &PolicyEntry, p: usize, Ghost(c): Ghost<Config>) -> (r: Result<(), ConfigError>)
    requires
        p < c.policies@.len(),
        c.policies@[p as int] == *policy,
    ensures
        r is Ok <==> policy_valid(*policy),
        match r {
            Err(e) => error_holds(c, e) && e != ConfigError::NoPolicies,
            Ok(_) => true,
        },
{
    if policy.browsers.len() == 0 {
        return Err(ConfigError::NoBrowsers { policy: p });
    }
    let mut x: usize = 0;
    while x < policy.extensions.len()
        invariant
            x <= policy.extensions@.len(),
            p < c.policies@.len(),
            c.policies@[p as int] == *policy,
            forall|j: int| 0 <= j < x ==> extension_valid(#[trigger] policy.extensions@[j], policy.browsers@),
        decreases policy.extensions@.len() - x,
    {
        match validate_extension_entry(&policy.extensions[x], &policy.browsers) {
            Err((k, issue)) => {
                let e = match issue {
                    IdIssue::Missing => ConfigError::MissingId { policy: p, extension: x, browser: k },
                    IdIssue::Length => ConfigError::InvalidIdLength { policy: p, extension: x, browser: k },
                    IdIssue::Chars => ConfigError::InvalidIdChars { policy: p, extension: x, browser: k },
                    IdIssue::EmptyFirefox => ConfigError::EmptyFirefoxId { policy: p, extension: x, browser: k },
                };
                assert(e == issue_error(issue, p, x, k));
                assert(id_issue(c.policies@[p as int].extensions@[x as int], c.policies@[p as int].browsers@, k as int, issue));
                return Err(e);
            },
            Ok(()) => {},
        }
        x = x + 1;
    }
    Ok(())
}

/// Validates a policy document: it must hold at least one entry, each entry
/// must name a browser, and each extension must have an acceptable
/// identifier for every browser of its entry.
pub fn validate_config(config: &Config) -> (r: Result<(), ConfigError>)
    ensures
        r is Ok <==> config_valid(*config),
        r == Err::<(), ConfigError>(ConfigError::NoPolicies) <==> config.policies@.len() == 0,
        match r {
            Err(e) => error_holds(*config, e),
            Ok(_) => true,
        },
{
    if config.policies.len() == 0 {
        return Err(ConfigError::NoPolicies);
    }
    let mut i: usize = 0;
    while i < config.policies.len()
        invariant
            0 < config.policies@.len(),
            i <= config.policies@.len(),
            forall|j: int| 0 <= j < i ==> policy_valid(#[trigger] config.policies@[j]),
        decreases config.policies@.len() - i,
    {
        let res = validate_policy_entry(&config.policies[i], i, Ghost(*config));
        match res {
            Err(e) => {
                return Err(e);
            },
            Ok(()) => {},
        }
        i = i + 1;
    }
    Ok(())
}

} // verus!

verus! {

/// Default Chrome Web Store update URL.
pub const DEFAULT_CHROME_UPDATE_URL: &'static str = "https://clients2.google.com/service/update2/crx";

/// Firefox Add-ons base URL for generated install URLs.
pub const FIREFOX_ADDONS_BASE: &'static str = "https://addons.mozilla.org/firefox/downloads/latest";

/// Firefox's install URL for an add-on identifier.
pub open spec fn firefox_install_url(id: Seq<char>) -> Seq<char> {
    FIREFOX_ADDONS_BASE@ + "/"@ + id + "/latest.xpi"@
}

/// Builds Firefox's install URL for an add-on identifier.
pub fn generate_firefox_install_url(id: &str) -> (r: String)
    ensures
        r@ == firefox_install_url(id@),
{
    let mut s = FIREFOX_ADDONS_BASE.to_owned();
    s.append("/");
    s.append(id);
    s.append("/latest.xpi");
    s
}

/// An extension as handed to one browser's policy writer.
pub struct Extension {
    pub id: String,
    pub name: String,
    /// Chromium update URL (absent means the Chrome Web Store default).
    pub update_url: Option<String>,
    /// Firefox install URL.
    pub install_url: Option<String>,
    pub settings: serde_json::Value,
}

/// Chrome's part of a policy document.
pub struct ChromeConfig {
    pub extensions: Vec<Extension>,
    pub disable_incognito: Option<bool>,
    pub disable_guest_mode: Option<bool>,
}

/// Firefox's part of a policy document.
pub struct FirefoxConfig {
    pub extensions: Vec<Extension>,
    pub disable_private_browsing: Option<bool>,
}

/// Edge's part of a policy document.
pub struct EdgeConfig {
    pub extensions: Vec<Extension>,
    pub disable_inprivate: Option<bool>,
    pub disable_guest_mode: Option<bool>,
}

/// What the policy writers read of an extension: identifier, name, settings.
pub open spec fn ext_view(x: Extension) -> (Seq<char>, Seq<char>, serde_json::Value) {
    (x.id@, x.name@, x.settings)
}

/// Views of a list of extensions.
pub open spec fn exts_view(v: Seq<Extension>) -> Seq<(Seq<char>, Seq<char>, serde_json::Value)> {
    v.map_values(|x: Extension| ext_view(x))
}

/// The URLs an extension carries for browser `t`: Chromium browsers get the
/// default update URL, Firefox gets the generated install URL.
pub open spec fn urls_for(x: Extension, t: Browser) -> bool {
    if t == Browser::Firefox {
        x.update_url is None && x.install_url is Some && x.install_url->0@ == firefox_install_url(x.id@)
    } else {
        x.update_url is Some && x.update_url->0@ == DEFAULT_CHROME_UPDATE_URL@ && x.install_url is None
    }
}

/// The extensions that entry `e` contributes to browser `t`, one for each
/// time `t` is listed among `bs`, when `e` has an identifier for `t`.
pub open spec fn ext_targets(e: ExtensionEntry, bs: Seq<Browser>, t: Browser) -> Seq<(Seq<char>, Seq<char>, serde_json::Value)>
    decreases bs.len(),
{
    if bs.len() == 0 {
        seq![]
    } else {
        let rest = ext_targets(e, bs.drop_last(), t);
        if bs.last() == t && id_for(e.id, t) is Some {
            rest.push((id_for(e.id, t)->0, e.name@, e.settings))
        } else {
            rest
        }
    }
}

/// The extensions a list of entries contributes to browser `t`, in order.
pub open spec fn entries_targets(es: Seq<ExtensionEntry>, bs: Seq<Browser>, t: Browser) -> Seq<(Seq<char>, Seq<char>, serde_json::Value)>
    decreases es.len(),
{
    if es.len() == 0 {
        seq![]
    } else {
        entries_targets(es.drop_last(), bs, t) + ext_targets(es.last(), bs, t)
    }
}

/// The extensions a list of policy entries contributes to browser `t`, in order.
pub open spec fn policies_targets(ps: Seq<PolicyEntry>, t: Browser) -> Seq<(Seq<char>, Seq<char>, serde_json::Value)>
    decreases ps.len(),
{
    if ps.len() == 0 {
        seq![]
    } else {
        policies_targets(ps.drop_last(), t) + entries_targets(ps.last().extensions@, ps.last().browsers@, t)
    }
}

/// The value a privacy flag takes for browser `t`: the last entry that
/// names `t` and sets the flag decides.
pub open spec fn last_flag(ps: Seq<PolicyEntry>, t: Browser, guest: bool) -> Option<bool>
    decreases ps.len(),
{
    if ps.len() == 0 {
        None
    } else {
        let p = ps.last();
        let f = if guest { p.disable_guest_mode } else { p.disable_private_mode };
        if p.browsers@.contains(t) && f is Some {
            f
        } else {
            last_flag(ps.drop_last(), t, guest)
        }
    }
}

/// Makes the extension that `ext` contributes to browser `t`.
fn make_extension(ext: &ExtensionEntry, id: &str, t: Browser) -> (r: Extension)
    ensures
        ext_view(r) == (id@, ext.name@, ext.settings),
        urls_for(r, t),
{
    let update_url = if t.is_chromium() {
        Some(DEFAULT_CHROME_UPDATE_URL.to_owned())
    } else {
        None
    };
    let install_url = if t.is_chromium() {
        None
    } else {
        Some(generate_firefox_install_url(id))
    };
    Extension {
        id: id.to_owned(),
        name: ext.name.clone(),
        update_url,
        install_url,
        settings: ext.settings.clone(),
    }
}

/// Appends what entry `ext` contributes to browser `t`.
fn push_ext_targets(ext: &ExtensionEntry, bs: &Vec<Browser>, t: Browser, out: &mut Vec<Extension>)
    ensures
        exts_view(final(out)@) == exts_view(old(out)@) + ext_targets(*ext, bs@, t),
        forall|q: int| 0 <= q < old(out)@.len() ==> final(out)@[q] == old(out)@[q],
        forall|q: int| old(out)@.len() <= q < final(out)@.len() ==> urls_for(#[trigger] final(out)@[q], t),
{
    let ghost start = out@;
    let mut k: usize = 0;
    while k < bs.len()
        invariant
            k <= bs@.len(),
            start.len() <= out@.len(),
            exts_view(out@) == exts_view(start) + ext_targets(*ext, bs@.subrange(0, k as int), t),
            forall|q: int| 0 <= q < start.len() ==> out@[q] == start[q],
            forall|q: int| start.len() <= q < out@.len() ==> urls_for(#[trigger] out@[q], t),
        decreases bs@.len() - k,
    {
        let ghost before = out@;
        assert(bs@.subrange(0, k + 1).drop_last() =~= bs@.subrange(0, k as int));
        if bs[k] == t {
            match ext.id.get_id(t) {
                Some(id) => {
                    let x = make_extension(ext, id, t);
                    out.push(x);
                    assert(exts_view(out@) =~= exts_view(before).push(ext_view(x)));
                },
                None => {},
            }
        }
        k = k + 1;
    }
    assert(bs@.subrange(0, bs@.len() as int) =~= bs@);
}

/// Appends what a list of entries contributes to browser `t`.
fn push_entries_targets(es: &Vec<ExtensionEntry>, bs: &Vec<Browser>, t: Browser, out: &mut Vec<Extension>)
    ensures
        exts_view(final(out)@) == exts_view(old(out)@) + entries_targets(es@, bs@, t),
        forall|q: int| 0 <= q < old(out)@.len() ==> final(out)@[q] == old(out)@[q],
        forall|q: int| old(out)@.len() <= q < final(out)@.len() ==> urls_for(#[trigger] final(out)@[q], t),
{
    let ghost start = out@;
    let mut j: usize = 0;
    while j < es.len()
        invariant
            j <= es@.len(),
            start.len() <= out@.len(),
            exts_view(out@) == exts_view(start) + entries_targets(es@.subrange(0, j as int), bs@, t),
            forall|q: int| 0 <= q < start.len() ==> out@[q] == start[q],
            forall|q: int| start.len() <= q < out@.len() ==> urls_for(#[trigger] out@[q], t),
        decreases es@.len() - j,
    {
        assert(es@.subrange(0, j + 1).drop_last() =~= es@.subrange(0, j as int));
        push_ext_targets(&es[j], bs, t, out);
        assert(exts_view(out@) =~= exts_view(start) + entries_targets(es@.subrange(0, j + 1), bs@, t));
        j = j + 1;
    }
    assert(es@.subrange(0, es@.len() as int) =~= es@);
}

/// All extensions a policy document installs in browser `t`, in document order.
pub fn extensions_for(config: &Config, t: Browser) -> (r: Vec<Extension>)
    ensures
        exts_view(r@) == policies_targets(config.policies@, t),
        forall|q: int| 0 <= q < r@.len() ==> urls_for(#[trigger] r@[q], t),
{
    let mut out: Vec<Extension> = Vec::new();
    let mut i: usize = 0;
    assert(exts_view(out@) =~= seq![]);
    while i < config.policies.len()
        invariant
            i <= config.policies@.len(),
            exts_view(out@) == policies_targets(config.policies@.subrange(0, i as int), t),
            forall|q: int| 0 <= q < out@.len() ==> urls_for(#[trigger] out@[q], t),
        decreases config.policies@.len() - i,
    {
        assert(config.policies@.subrange(0, i + 1).drop_last() =~= config.policies@.subrange(0, i as int));
        push_entries_targets(&config.policies[i].extensions, &config.policies[i].browsers, t, &mut out);
        i = i + 1;
    }
    assert(config.policies@.subrange(0, config.policies@.len() as int) =~= config.policies@);
    out
}

/// Whether `t` occurs in `bs`.
pub fn lists_browser(bs: &Vec<Browser>, t: Browser) -> (r: bool)
    ensures
        r == bs@.contains(t),
{
    let mut k: usize = 0;
    while k < bs.len()
        invariant
            k <= bs@.len(),
            forall|q: int| 0 <= q < k ==> bs@[q] != t,
        decreases bs@.len() - k,
    {
        if bs[k] == t {
            return true;
        }
        k = k + 1;
    }
    false
}

/// The value a privacy flag takes for browser `t` (guest mode when `guest`,
/// private mode otherwise).
pub fn flag_for(config: &Config, t: Browser, guest: bool) -> (r: Option<bool>)
    ensures
        r == last_flag(config.policies@, t, guest),
{
    let mut result: Option<bool> = None;
    let mut i: usize = 0;
    while i < config.policies.len()
        invariant
            i <= config.policies@.len(),
            result == last_flag(config.policies@.subrange(0, i as int), t, guest),
        decreases config.policies@.len() - i,
    {
        let ghost prefix = config.policies@.subrange(0, i + 1);
        assert(prefix.drop_last() =~= config.policies@.subrange(0, i as int));
        assert(prefix.last() == config.policies@[i as int]);
        let p = &config.policies[i];
        let f = if guest { p.disable_guest_mode } else { p.disable_private_mode };
        if f.is_some() && lists_browser(&p.browsers, t) {
            result = f;
        }
        i = i + 1;
    }
    assert(config.policies@.subrange(0, config.policies@.len() as int) =~= config.policies@);
    result
}

/// Whether Chrome gets a configuration from `c`.
pub open spec fn chrome_present(c: Config) -> bool {
    policies_targets(c.policies@, Browser::Chrome).len() > 0
        || last_flag(c.policies@, Browser::Chrome, false) is Some
        || last_flag(c.policies@, Browser::Chrome, true) is Some
}

/// Whether Firefox gets a configuration from `c`.
pub open spec fn firefox_present(c: Config) -> bool {
    policies_targets(c.policies@, Browser::Firefox).len() > 0
        || last_flag(c.policies@, Browser::Firefox, false) is Some
}

/// Whether Edge gets a configuration from `c`.
pub open spec fn edge_present(c: Config) -> bool {
    policies_targets(c.policies@, Browser::Edge).len() > 0
        || last_flag(c.policies@, Browser::Edge, false) is Some
        || last_flag(c.policies@, Browser::Edge, true) is Some
}

/// Splits a policy document into one configuration per browser. A browser
/// gets one exactly when some entry gives it an extension or a privacy flag;
/// private mode maps to Chrome's incognito, Firefox's private browsing and
/// Edge's InPrivate; guest mode is ignored for Firefox.
pub fn to_browser_configs(config: &Config) -> (r: (Option<ChromeConfig>, Option<FirefoxConfig>, Option<EdgeConfig>))
    ensures
        r.0 is Some <==> chrome_present(*config),
        r.1 is Some <==> firefox_present(*config),
        r.2 is Some <==> edge_present(*config),
        r.0 is Some ==> {
            let c = r.0->0;
            &&& exts_view(c.extensions@) == policies_targets(config.policies@, Browser::Chrome)
            &&& forall|q: int| 0 <= q < c.extensions@.len() ==> urls_for(#[trigger] c.extensions@[q], Browser::Chrome)
            &&& c.disable_incognito == last_flag(config.policies@, Browser::Chrome, false)
            &&& c.disable_guest_mode == last_flag(config.policies@, Browser::Chrome, true)
        },
        r.1 is Some ==> {
            let c = r.1->0;
            &&& exts_view(c.extensions@) == policies_targets(config.policies@, Browser::Firefox)
            &&& forall|q: int| 0 <= q < c.extensions@.len() ==> urls_for(#[trigger] c.extensions@[q], Browser::Firefox)
            &&& c.disable_private_browsing == last_flag(config.policies@, Browser::Firefox, false)
        },
        r.2 is Some ==> {
            let c = r.2->0;
            &&& exts_view(c.extensions@) == policies_targets(config.policies@, Browser::Edge)
            &&& forall|q: int| 0 <= q < c.extensions@.len() ==> urls_for(#[trigger] c.extensions@[q], Browser::Edge)
            &&& c.disable_inprivate == last_flag(config.policies@, Browser::Edge, false)
            &&& c.disable_guest_mode == last_flag(config.policies@, Browser::Edge, true)
        },
{
    let chrome_ext = extensions_for(config, Browser::Chrome);
    let chrome_incognito = flag_for(config, Browser::Chrome, false);
    let chrome_guest = flag_for(config, Browser::Chrome, true);
    let firefox_ext = extensions_for(config, Browser::Firefox);
    let firefox_private = flag_for(config, Browser::Firefox, false);
    let edge_ext = extensions_for(config, Browser::Edge);
    let edge_inprivate = flag_for(config, Browser::Edge, false);
    let edge_guest = flag_for(config, Browser::Edge, true);

    let chrome = if chrome_ext.len() > 0 || chrome_incognito.is_some() || chrome_guest.is_some() {
        Some(ChromeConfig { extensions: chrome_ext, disable_incognito: chrome_incognito, disable_guest_mode: chrome_guest })
    } else {
        None
    };
    let firefox = if firefox_ext.len() > 0 || firefox_private.is_some() {
        Some(FirefoxConfig { extensions: firefox_ext, disable_private_browsing: firefox_private })
    } else {
        None
    };
    let edge = if edge_ext.len() > 0 || edge_inprivate.is_some() || edge_guest.is_some() {
        Some(EdgeConfig { extensions: edge_ext, disable_inprivate: edge_inprivate, disable_guest_mode: edge_guest })
    } else {
        None
    };
    (chrome, firefox, edge)
}

} // verus!
