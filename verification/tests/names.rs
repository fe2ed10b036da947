use zerolimit::names::{
    is_artifact_lowered, is_config_file, is_config_lowered, is_executable_file,
    is_executable_lowered, is_managed_file, is_plus_lowered, is_sibling_lowered,
    needs_executable_bit, Platform,
};

fn chars(s: &str) -> Vec<char> {
    s.chars().collect()
}

#[test]
fn configuration_files_are_protected() {
    for name in [
        "config.yaml",
        "config.example.yaml",
        "settings.yml",
        "auth.json",
        "Cargo.toml",
        ".env",
        "CONFIG.YAML",
        "cliproxy.Json",
    ] {
        assert!(is_config_file(name), "{}", name);
    }
    for name in ["cli-proxy-api", "cliproxy.exe", "README.md", "yaml.txt", "", "config.yaml.bak"] {
        assert!(!is_config_file(name), "{}", name);
    }
}

#[test]
fn configuration_suffix_needs_no_dot() {
    assert!(is_config_lowered(&chars("production-env")));
    assert!(is_config_lowered(&chars("yaml")));
    assert!(!is_config_lowered(&chars("yam")));
}

#[test]
fn artifacts_of_the_proxy_are_managed() {
    assert!(is_managed_file("cli-proxy-api"));
    assert!(is_managed_file("CLIProxyAPI.exe"));
    assert!(is_managed_file("old-cliproxy.bak"));
    assert!(is_managed_file("libcli-proxy.so"));
    assert!(!is_managed_file("cliproxy.yaml"));
    assert!(!is_managed_file("cli-proxy.json"));
    assert!(!is_managed_file("README.md"));
    assert!(!is_managed_file("cli_proxy"));
    assert!(is_artifact_lowered(&chars("cliproxy.yaml")));
}

#[test]
fn executable_names_follow_the_platform() {
    assert!(is_executable_file("cli-proxy-api", Platform::Unix));
    assert!(is_executable_file("CLIProxyAPI", Platform::Unix));
    assert!(is_executable_file("cli-proxy-api-plus", Platform::Unix));
    assert!(!is_executable_file("cli-proxy-api.exe", Platform::Unix));
    assert!(!is_executable_file("cliproxy.dll", Platform::Unix));
    assert!(!is_executable_file("cliproxy.dylib", Platform::Unix));
    assert!(!is_executable_file("proxy-cli", Platform::Unix));
    assert!(!is_executable_file("my-cliproxy", Platform::Unix));
    assert!(is_executable_file("cli-proxy-api.exe", Platform::Windows));
    assert!(is_executable_file("CLIProxyAPI.EXE", Platform::Windows));
    assert!(!is_executable_file("cli-proxy-api", Platform::Windows));
    assert!(!is_executable_file("cliproxy.dll", Platform::Windows));
    assert!(is_executable_lowered(&chars("c-l-i-proxy"), Platform::Unix));
}

#[test]
fn sibling_names_admit_exe_everywhere() {
    assert!(is_sibling_lowered(&chars("cli-proxy-api.exe"), Platform::Unix));
    assert!(is_sibling_lowered(&chars("cli-proxy-api"), Platform::Unix));
    assert!(!is_sibling_lowered(&chars("cliproxy.dll"), Platform::Unix));
    assert!(!is_sibling_lowered(&chars("cliproxy.dylib"), Platform::Unix));
    assert!(is_sibling_lowered(&chars("cliproxy.exe"), Platform::Windows));
    assert!(!is_sibling_lowered(&chars("cliproxy"), Platform::Windows));
    assert!(!is_sibling_lowered(&chars("proxy.exe"), Platform::Windows));
}

#[test]
fn plus_marker_and_executable_bit() {
    assert!(is_plus_lowered(&chars("cli-proxy-api-plus")));
    assert!(!is_plus_lowered(&chars("cli-proxy-api")));
    assert!(needs_executable_bit("CLIProxyAPI"));
    assert!(needs_executable_bit("my-cliproxy-tool"));
    assert!(!needs_executable_bit("CLIPROXYAPI"));
    assert!(!needs_executable_bit("cli-proxy-api"));
}
