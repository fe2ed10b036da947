use zerolimit::alternate::{alternate_search_dir, find_alternate_proxy_exe};
use zerolimit::error::CommandError;
use zerolimit::listing::DirEntry;
use zerolimit::names::Platform;

fn entry(name: &str, is_file: bool) -> DirEntry {
    DirEntry {
        dir: "/opt/proxy".to_string(),
        name: name.to_string(),
        path: format!("/opt/proxy/{}", name),
        is_file,
        is_dir: !is_file,
        depth: 0,
        config_beside: false,
    }
}

fn siblings() -> Vec<DirEntry> {
    vec![
        entry("config.yaml", true),
        entry("cli-proxy-api", true),
        entry("cliproxy-plus-data", false),
        entry("cli-proxy-api-plus", true),
        entry("CLIProxyAPIPlus-old", true),
        entry("cliproxy.dll", true),
        entry("cli-proxy-api-v2", true),
    ]
}

#[test]
fn search_directory_is_the_parent() {
    assert_eq!(alternate_search_dir("/opt/proxy/cli-proxy-api"), Ok("/opt/proxy".to_string()));
    assert_eq!(alternate_search_dir("cli-proxy-api"), Ok("".to_string()));
    assert_eq!(alternate_search_dir("/"), Err(CommandError::InvalidPath));
    assert_eq!(alternate_search_dir(""), Err(CommandError::InvalidPath));
}

#[test]
fn plus_build_is_found_beside_the_plain_one() {
    let list = siblings();
    assert_eq!(
        find_alternate_proxy_exe("/opt/proxy/cli-proxy-api", "plus", Some(&list), Platform::Unix),
        Ok(Some("/opt/proxy/cli-proxy-api-plus".to_string()))
    );
}

#[test]
fn plain_build_is_found_beside_the_plus_one() {
    let list = siblings();
    assert_eq!(
        find_alternate_proxy_exe(
            "/opt/proxy/cli-proxy-api-plus",
            "standard",
            Some(&list),
            Platform::Unix
        ),
        Ok(Some("/opt/proxy/cli-proxy-api".to_string()))
    );
}

#[test]
fn the_current_executable_is_never_the_alternate() {
    let list = siblings();
    assert_eq!(
        find_alternate_proxy_exe("/opt/proxy/cli-proxy-api", "", Some(&list), Platform::Unix),
        Ok(Some("/opt/proxy/cli-proxy-api-v2".to_string()))
    );
    assert_eq!(
        find_alternate_proxy_exe(
            "/opt/proxy/cli-proxy-api-plus",
            "plus",
            Some(&list),
            Platform::Unix
        ),
        Ok(Some("/opt/proxy/CLIProxyAPIPlus-old".to_string()))
    );
}

#[test]
fn nothing_is_found_where_no_build_fits() {
    let list = vec![entry("config.yaml", true), entry("cli-proxy-api", true)];
    assert_eq!(
        find_alternate_proxy_exe("/opt/proxy/cli-proxy-api", "plus", Some(&list), Platform::Unix),
        Ok(None)
    );
    assert_eq!(
        find_alternate_proxy_exe("/opt/proxy/cli-proxy-api", "plus", Some(&Vec::new()), Platform::Unix),
        Ok(None)
    );
    assert_eq!(
        find_alternate_proxy_exe("/opt/proxy/cli-proxy-api", "plus", Some(&siblings()), Platform::Windows),
        Ok(None)
    );
}

#[test]
fn unreadable_directory_is_an_invalid_path() {
    assert_eq!(
        find_alternate_proxy_exe("/opt/proxy/cli-proxy-api", "plus", None, Platform::Unix),
        Err(CommandError::InvalidPath)
    );
    assert_eq!(
        find_alternate_proxy_exe("/", "plus", Some(&siblings()), Platform::Unix),
        Err(CommandError::InvalidPath)
    );
}

#[test]
fn the_current_executable_is_known_however_its_path_is_written() {
    let list = vec![entry("cli-proxy-api", true), entry("cli-proxy-api-v2", true)];
    for current in ["/opt/proxy//cli-proxy-api", "/opt/proxy/./cli-proxy-api", "/opt/proxy/cli-proxy-api/"] {
        assert_eq!(
            find_alternate_proxy_exe(current, "standard", Some(&list), Platform::Unix),
            Ok(Some("/opt/proxy/cli-proxy-api-v2".to_string())),
            "{}",
            current
        );
    }
}
