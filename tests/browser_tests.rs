use family_policy::browser::{
    get_chrome_paths, get_edge_paths, get_firefox_paths, is_browser_available, Browser, Platform,
};
use std::path::Path;

#[test]
fn test_browser_clone() {
    let browser = Browser::Chrome;
    let cloned = browser.clone();
    assert_eq!(browser, cloned);
}

#[test]
fn test_browser_copy() {
    let browser = Browser::Firefox;
    let copied = browser;
    assert_eq!(browser, copied);
}

#[test]
fn test_browser_equality() {
    assert_eq!(Browser::Chrome, Browser::Chrome);
    assert_ne!(Browser::Chrome, Browser::Firefox);
    assert_ne!(Browser::Firefox, Browser::Edge);
}

#[test]
fn test_browser_debug() {
    let browser = Browser::Chrome;
    let debug_str = format!("{:?}", browser);
    assert!(debug_str.contains("Chrome"));
}

#[test]
fn browser_as_str_is_lowercase_name() {
    assert_eq!(Browser::Chrome.as_str(), "chrome");
    assert_eq!(Browser::Firefox.as_str(), "firefox");
    assert_eq!(Browser::Edge.as_str(), "edge");
}

#[test]
fn test_platform_name() {
    assert_eq!(Platform::Windows.name(), "Windows");
    assert_eq!(Platform::MacOS.name(), "macOS");
    assert_eq!(Platform::Linux.name(), "Linux");
}

#[test]
fn test_platform_clone() {
    let platform = Platform::Linux;
    let cloned = platform.clone();
    assert_eq!(platform, cloned);
}

#[test]
fn test_platform_equality() {
    assert_eq!(Platform::Windows, Platform::Windows);
    assert_ne!(Platform::Windows, Platform::Linux);
    assert_ne!(Platform::MacOS, Platform::Linux);
}

#[test]
fn test_platform_debug() {
    let platform = Platform::MacOS;
    let debug_str = format!("{:?}", platform);
    assert!(debug_str.contains("MacOS"));
}

#[test]
fn test_is_browser_available_returns_bool() {
    let _ = is_browser_available(Browser::Chrome, Platform::Linux);
    let _ = is_browser_available(Browser::Firefox, Platform::Linux);
    let _ = is_browser_available(Browser::Edge, Platform::Linux);
}

#[test]
fn test_get_chrome_paths_not_empty() {
    let paths = get_chrome_paths(Platform::Linux);
    assert!(!paths.is_empty(), "Chrome paths should not be empty");
}

#[test]
fn test_get_firefox_paths_not_empty() {
    let paths = get_firefox_paths(Platform::Linux);
    assert!(!paths.is_empty(), "Firefox paths should not be empty");
}

#[test]
fn test_get_edge_paths_not_empty() {
    let paths = get_edge_paths(Platform::Linux);
    assert!(!paths.is_empty(), "Edge paths should not be empty");
}

#[test]
fn test_chrome_paths_are_absolute() {
    let paths = get_chrome_paths(Platform::Linux);
    for path in paths {
        assert!(Path::new(&path).is_absolute(), "Chrome path should be absolute: {:?}", path);
    }
}

#[test]
fn test_firefox_paths_are_absolute() {
    let paths = get_firefox_paths(Platform::Linux);
    for path in paths {
        assert!(Path::new(&path).is_absolute(), "Firefox path should be absolute: {:?}", path);
    }
}

#[test]
fn test_edge_paths_are_absolute() {
    let paths = get_edge_paths(Platform::Linux);
    for path in paths {
        assert!(Path::new(&path).is_absolute(), "Edge path should be absolute: {:?}", path);
    }
}

#[test]
fn test_linux_chrome_paths_include_common_locations() {
    let paths = get_chrome_paths(Platform::Linux);
    assert!(paths.iter().any(|p| p.contains("google-chrome")));
}

#[test]
fn test_linux_firefox_paths_include_firefox() {
    let paths = get_firefox_paths(Platform::Linux);
    assert!(paths.iter().any(|p| p.contains("firefox")));
}

#[test]
fn test_windows_paths_include_program_files() {
    let chrome_paths = get_chrome_paths(Platform::Windows);
    assert!(chrome_paths.iter().any(|p| p.contains("Program Files")));
}

#[test]
fn test_macos_paths_include_applications() {
    let chrome_paths = get_chrome_paths(Platform::MacOS);
    assert!(chrome_paths.iter().any(|p| p.contains("/Applications/")));
}
