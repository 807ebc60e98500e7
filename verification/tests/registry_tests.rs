use app_launcher::platform::Platform;
use app_launcher::registry::{build_registry, Registry, CHATWORK};

fn strings(items: &[&str]) -> Vec<String> {
    items.iter().map(|s| s.to_string()).collect()
}

#[test]
fn every_platform_registers_the_same_four_keys() {
    let expected = strings(&["docker-desktop", "slack", "chatwork", "chrome"]);
    assert_eq!(build_registry(Platform::Windows).keys(), expected);
    assert_eq!(build_registry(Platform::MacOs).keys(), expected);
    assert_eq!(build_registry(Platform::Linux).keys(), expected);
}

#[test]
fn windows_targets_are_absolute_paths() {
    let apps = build_registry(Platform::Windows);
    assert_eq!(
        apps.get("docker-desktop"),
        Some(r"C:\Program Files\Docker\Docker\Docker Desktop.exe")
    );
    assert_eq!(apps.get("slack"), Some(r"C:\Users\%USERNAME%\AppData\Local\slack\slack.exe"));
    assert_eq!(
        apps.get("chrome"),
        Some(r"C:\Program Files\Google\Chrome\Application\chrome.exe")
    );
}

#[test]
fn macos_targets_are_application_bundles() {
    let apps = build_registry(Platform::MacOs);
    assert_eq!(
        apps.get("docker-desktop"),
        Some("/Applications/Docker.app/Contents/MacOS/Docker Desktop")
    );
    assert_eq!(apps.get("slack"), Some("/Applications/Slack.app/Contents/MacOS/Slack"));
    assert_eq!(
        apps.get("chrome"),
        Some("/Applications/Google Chrome.app/Contents/MacOS/Google Chrome")
    );
}

#[test]
fn linux_targets_are_command_names() {
    let apps = build_registry(Platform::Linux);
    assert_eq!(apps.get("docker-desktop"), Some("docker-desktop"));
    assert_eq!(apps.get("slack"), Some("/usr/bin/slack"));
    assert_eq!(apps.get("chrome"), Some("google-chrome"));
}

#[test]
fn chatwork_url_is_shared_by_all_platforms() {
    assert_eq!(CHATWORK, "chatwork");
    for platform in [Platform::Windows, Platform::MacOs, Platform::Linux] {
        assert_eq!(build_registry(platform).get(CHATWORK), Some("https://www.chatwork.com/"));
    }
}

#[test]
fn keys_are_case_sensitive() {
    let apps = build_registry(Platform::Linux);
    assert_eq!(apps.get("Slack"), None);
    assert_eq!(apps.get("SLACK"), None);
    assert_eq!(apps.get("slack "), None);
    assert_eq!(apps.get(""), None);
}

#[test]
fn new_registry_is_empty() {
    let apps = Registry::new();
    assert_eq!(apps.keys(), Vec::<String>::new());
    assert_eq!(apps.get("slack"), None);
}

#[test]
fn insert_appends_new_keys_in_order() {
    let mut apps = Registry::new();
    apps.insert("b", "/bin/b");
    apps.insert("a", "/bin/a");
    apps.insert("c", "/bin/c");
    assert_eq!(apps.keys(), strings(&["b", "a", "c"]));
    assert_eq!(apps.get("a"), Some("/bin/a"));
    assert_eq!(apps.get("b"), Some("/bin/b"));
    assert_eq!(apps.get("c"), Some("/bin/c"));
}

#[test]
fn insert_replaces_the_target_of_a_registered_key() {
    let mut apps = Registry::new();
    apps.insert("a", "/bin/a");
    apps.insert("b", "/bin/b");
    apps.insert("a", "/opt/a");
    assert_eq!(apps.keys(), strings(&["a", "b"]));
    assert_eq!(apps.get("a"), Some("/opt/a"));
    assert_eq!(apps.get("b"), Some("/bin/b"));
}

#[test]
fn keys_hold_no_duplicates() {
    let mut apps = build_registry(Platform::Linux);
    apps.insert("slack", "slack");
    apps.insert("chrome", "chromium");
    apps.insert("zoom", "zoom");
    apps.insert("zoom", "/usr/bin/zoom");
    let keys = apps.keys();
    assert_eq!(keys, strings(&["docker-desktop", "slack", "chatwork", "chrome", "zoom"]));
    for (i, key) in keys.iter().enumerate() {
        assert!(keys.iter().skip(i + 1).all(|other| other != key));
        assert!(apps.get(key).is_some());
    }
    assert_eq!(apps.get("zoom"), Some("/usr/bin/zoom"));
}

#[test]
fn platform_is_read_from_the_operating_system_name() {
    assert_eq!(Platform::from_os_name("windows"), Some(Platform::Windows));
    assert_eq!(Platform::from_os_name("macos"), Some(Platform::MacOs));
    assert_eq!(Platform::from_os_name("linux"), Some(Platform::Linux));
    assert_eq!(Platform::from_os_name("freebsd"), None);
    assert_eq!(Platform::from_os_name("Linux"), None);
    assert_eq!(Platform::from_os_name(""), None);
}

#[test]
fn only_linux_skips_the_path_check() {
    assert!(Platform::Windows.must_check_path());
    assert!(Platform::MacOs.must_check_path());
    assert!(!Platform::Linux.must_check_path());
}
