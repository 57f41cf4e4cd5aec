//! Browsers and platforms, and where browsers are installed.

use vstd::prelude::*;

verus! {

/// A browser whose managed policies this agent controls.
#[derive(Clone, Copy, Debug, PartialEq, Eq, Hash, Structural)]
pub enum Browser {
    Chrome,
    Firefox,
    Edge,
}

/// The lowercase name of a browser, as written in policy documents.
pub open spec fn browser_name(b: Browser) -> Seq<char> {
    match b {
        Browser::Chrome => "chrome"@,
        Browser::Firefox => "firefox"@,
        Browser::Edge => "edge"@,
    }
}

impl Browser {
    /// Lowercase string form of the browser.
    pub fn as_str(&self) -> (r: &'static str)
        ensures
            r@ == browser_name(*self),
    {
        match self {
            Browser::Chrome => "chrome",
            Browser::Firefox => "firefox",
            Browser::Edge => "edge",
        }
    }

    /// Whether this browser is built on Chromium (and shares its policy format).
    pub fn is_chromium(&self) -> (r: bool)
        ensures
            r == (*self != Browser::Firefox),
    {
        !matches!(self, Browser::Firefox)
    }
}

/// The operating systems the agent supports.
#[derive(Clone, Copy, Debug, PartialEq, Eq, Structural)]
pub enum Platform {
    Windows,
    MacOS,
    Linux,
}

/// Human-readable name of a platform.
pub open spec fn platform_name(p: Platform) -> Seq<char> {
    match p {
        Platform::Windows => "Windows"@,
        Platform::MacOS => "macOS"@,
        Platform::Linux => "Linux"@,
    }
}

impl Platform {
    /// Human-readable name.
    pub fn name(&self) -> (r: &'static str)
        ensures
            r@ == platform_name(*self),
    {
        match self {
            Platform::Windows => "Windows",
            Platform::MacOS => "macOS",
            Platform::Linux => "Linux",
        }
    }
}

/// Where a browser's executable is usually installed on a platform.
pub open spec fn install_paths(b: Browser, p: Platform) -> Seq<Seq<char>> {
    match (b, p) {
        (Browser::Chrome, Platform::Windows) => seq![
            "C:\\Program Files\\Google\\Chrome\\Application\\chrome.exe"@,
            "C:\\Program Files (x86)\\Google\\Chrome\\Application\\chrome.exe"@,
        ],
        (Browser::Chrome, Platform::MacOS) => seq![
            "/Applications/Google Chrome.app/Contents/MacOS/Google Chrome"@,
        ],
        (Browser::Chrome, Platform::Linux) => seq![
            "/usr/bin/google-chrome"@,
            "/usr/bin/google-chrome-stable"@,
            "/usr/bin/chromium"@,
            "/usr/bin/chromium-browser"@,
        ],
        (Browser::Firefox, Platform::Windows) => seq![
            "C:\\Program Files\\Mozilla Firefox\\firefox.exe"@,
            "C:\\Program Files (x86)\\Mozilla Firefox\\firefox.exe"@,
        ],
        (Browser::Firefox, Platform::MacOS) => seq![
            "/Applications/Firefox.app/Contents/MacOS/firefox"@,
        ],
        (Browser::Firefox, Platform::Linux) => seq![
            "/usr/bin/firefox"@,
            "/usr/bin/firefox-esr"@,
        ],
        (Browser::Edge, Platform::Windows) => seq![
            "C:\\Program Files\\Microsoft\\Edge\\Application\\msedge.exe"@,
            "C:\\Program Files (x86)\\Microsoft\\Edge\\Application\\msedge.exe"@,
        ],
        (Browser::Edge, Platform::MacOS) => seq![
            "/Applications/Microsoft Edge.app/Contents/MacOS/Microsoft Edge"@,
        ],
        (Browser::Edge, Platform::Linux) => seq![
            "/usr/bin/microsoft-edge"@,
            "/usr/bin/microsoft-edge-stable"@,
        ],
    }
}

/// Views of a vector of strings.
pub open spec fn strings_view(v: Seq<String>) -> Seq<Seq<char>> {
    v.map_values(|s: String| s@)
}

/// Builds an owned vector from string literals.
fn owned_strings(items: &[&str]) -> (r: Vec<String>)
    ensures
        strings_view(r@) == items@.map_values(|s: &str| s@),
{
    let mut out: Vec<String> = Vec::new();
    let mut i: usize = 0;
    while i < items.len()
        invariant
            i <= items@.len(),
            out@.len() == i,
            forall|j: int| 0 <= j < i ==> #[trigger] out@[j]@ == items@[j]@,
        decreases items@.len() - i,
    {
        out.push(items[i].to_owned());
        i = i + 1;
    }
    assert(strings_view(out@) =~= items@.map_values(|s: &str| s@));
    out
}

/// Possible install locations of Chrome on a platform.
pub fn get_chrome_paths(platform: Platform) -> (r: Vec<String>)
    ensures
        strings_view(r@) == install_paths(Browser::Chrome, platform),
{
    browser_paths(Browser::Chrome, platform)
}

/// Possible install locations of Firefox on a platform.
pub fn get_firefox_paths(platform: Platform) -> (r: Vec<String>)
    ensures
        strings_view(r@) == install_paths(Browser::Firefox, platform),
{
    browser_paths(Browser::Firefox, platform)
}

/// Possible install locations of Edge on a platform.
pub fn get_edge_paths(platform: Platform) -> (r: Vec<String>)
    ensures
        strings_view(r@) == install_paths(Browser::Edge, platform),
{
    browser_paths(Browser::Edge, platform)
}

/// Possible install locations of a browser on a platform.
pub fn browser_paths(browser: Browser, platform: Platform) -> (r: Vec<String>)
    ensures
        strings_view(r@) == install_paths(browser, platform),
{
    let items: &[&str] = match (browser, platform) {
        (Browser::Chrome, Platform::Windows) => &[
            "C:\\Program Files\\Google\\Chrome\\Application\\chrome.exe",
            "C:\\Program Files (x86)\\Google\\Chrome\\Application\\chrome.exe",
        ],
        (Browser::Chrome, Platform::MacOS) => &[
            "/Applications/Google Chrome.app/Contents/MacOS/Google Chrome",
        ],
        (Browser::Chrome, Platform::Linux) => &[
            "/usr/bin/google-chrome",
            "/usr/bin/google-chrome-stable",
            "/usr/bin/chromium",
            "/usr/bin/chromium-browser",
        ],
        (Browser::Firefox, Platform::Windows) => &[
            "C:\\Program Files\\Mozilla Firefox\\firefox.exe",
            "C:\\Program Files (x86)\\Mozilla Firefox\\firefox.exe",
        ],
        (Browser::Firefox, Platform::MacOS) => &[
            "/Applications/Firefox.app/Contents/MacOS/firefox",
        ],
        (Browser::Firefox, Platform::Linux) => &[
            "/usr/bin/firefox",
            "/usr/bin/firefox-esr",
        ],
        (Browser::Edge, Platform::Windows) => &[
            "C:\\Program Files\\Microsoft\\Edge\\Application\\msedge.exe",
            "C:\\Program Files (x86)\\Microsoft\\Edge\\Application\\msedge.exe",
        ],
        (Browser::Edge, Platform::MacOS) => &[
            "/Applications/Microsoft Edge.app/Contents/MacOS/Microsoft Edge",
        ],
        (Browser::Edge, Platform::Linux) => &[
            "/usr/bin/microsoft-edge",
            "/usr/bin/microsoft-edge-stable",
        ],
    };
    let r = owned_strings(items);
    assert(strings_view(r@) =~= install_paths(browser, platform));
    r
}

/// Relies on std::path::Path::exists: whether a file is at that path now.
/// What is on disk changes, so nothing is promised of the answer.
#[verifier::external_body]
fn path_exists(path: &str) -> (r: bool) {
    std::path::Path::new(path).exists()
}

/// Whether any of the browser's usual install locations exists on disk.
pub fn is_browser_available(browser: Browser, platform: Platform) -> (r: bool)
    ensures
        install_paths(browser, platform).len() == 0 ==> !r,
{
    let paths = browser_paths(browser, platform);
    let mut i: usize = 0;
    while i < paths.len()
        invariant
            i <= paths@.len(),
        decreases paths@.len() - i,
    {
        if path_exists(paths[i].as_str()) {
            return true;
        }
        i = i + 1;
    }
    false
}

} // verus!
