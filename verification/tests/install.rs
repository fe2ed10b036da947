use std::collections::{BTreeMap, BTreeSet};
use std::io::{Cursor, Write};
use zerolimit::archive::ArchiveKind;
use zerolimit::error::CommandError;
use zerolimit::extract::{ArchiveEntry, ExtractStep};
use zerolimit::install::{
    begin_install, download_and_extract_proxy, InstallAction, InstallEvent, InstallLocation,
    Installation, Phase, USER_AGENT,
};
use zerolimit::listing::DirEntry;
use zerolimit::names::Platform;
use zip::write::{SimpleFileOptions, ZipWriter};

const ROOT: &str = "/home/u/.zerolimit/cli_proxy";

/// A directory tree held in memory, in place of the installation directory.
struct Disk {
    files: BTreeMap<Vec<String>, Vec<u8>>,
    dirs: BTreeSet<Vec<String>>,
}

fn parts(path: &str) -> Vec<String> {
    path.split('/').filter(|p| !p.is_empty()).map(|p| p.to_string()).collect()
}

fn text_of(dir: &[String]) -> String {
    let mut text = ROOT.to_string();
    for part in dir {
        text.push('/');
        text.push_str(part);
    }
    text
}

impl Disk {
    fn new(files: &[(&str, &str)]) -> Disk {
        let mut disk = Disk { files: BTreeMap::new(), dirs: BTreeSet::new() };
        for (path, content) in files {
            disk.write(&parts(path), content.as_bytes().to_vec());
        }
        disk
    }

    fn holds(&self, path: &[String]) -> bool {
        path.is_empty() || self.files.contains_key(path) || self.dirs.contains(path)
    }

    fn make_dir(&mut self, path: &[String]) {
        for end in 1..=path.len() {
            self.dirs.insert(path[..end].to_vec());
        }
    }

    fn write(&mut self, path: &[String], content: Vec<u8>) {
        self.make_dir(&path[..path.len() - 1]);
        self.files.insert(path.to_vec(), content);
    }

    fn read(&self, path: &str) -> Option<String> {
        self.files.get(&parts(path)).map(|bytes| String::from_utf8(bytes.clone()).unwrap())
    }

    fn entry(&self, path: &[String]) -> DirEntry {
        let dir = text_of(&path[..path.len() - 1]);
        let name = path[path.len() - 1].clone();
        DirEntry {
            path: format!("{}/{}", dir, name),
            dir,
            name,
            is_file: self.files.contains_key(path),
            is_dir: self.dirs.contains(path),
            depth: path.len() - 1,
            config_beside: {
                let mut beside = path[..path.len() - 1].to_vec();
                beside.push("config.yaml".to_string());
                self.holds(&beside)
            },
        }
    }

    fn listing(&self, top_level_only: bool) -> Vec<DirEntry> {
        let mut all: Vec<Vec<String>> = self.files.keys().cloned().collect();
        all.extend(self.dirs.iter().cloned());
        all.sort();
        all.iter()
            .filter(|path| !top_level_only || path.len() == 1)
            .map(|path| self.entry(path))
            .collect()
    }
}

fn zip_of(entries: &[(&str, &str)]) -> Vec<u8> {
    let mut writer = ZipWriter::new(Cursor::new(Vec::new()));
    for (name, content) in entries {
        let options = SimpleFileOptions::default();
        if name.ends_with('/') {
            writer.add_directory(*name, options).unwrap();
        } else {
            writer.start_file(*name, options).unwrap();
            writer.write_all(content.as_bytes()).unwrap();
        }
    }
    writer.finish().unwrap().into_inner()
}

fn gzip_of(content: &[u8]) -> Vec<u8> {
    let mut encoder =
        flate2::write::GzEncoder::new(Vec::new(), flate2::Compression::default());
    encoder.write_all(content).unwrap();
    encoder.finish().unwrap()
}

fn begin(url: &str) -> Installation {
    begin_install(url, None, Some("/home/u".to_string()), Platform::Unix).unwrap()
}

/// Carries out one extraction: probes the candidates, then does what the
/// steps say. `payload` gives the content of the entry at a position.
fn extract(
    installation: &mut Installation,
    disk: &mut Disk,
    probe: InstallAction,
    payload: &mut dyn FnMut(&mut Option<zerolimit::archive::ZipSource>, usize) -> Vec<u8>,
) -> InstallAction {
    let (mut candidates, mut source) = match probe {
        InstallAction::Probe { candidates, source } => (candidates, source),
        _ => panic!("expected a probe"),
    };
    for candidate in candidates.iter_mut() {
        assert!(!candidate.present);
        if let Some(destination) = &candidate.destination {
            candidate.present = disk.holds(destination);
        }
    }
    let steps = match download_and_extract_proxy(installation, InstallEvent::Probed(candidates.clone())) {
        InstallAction::Extract { steps } => steps,
        _ => panic!("expected an extraction"),
    };
    assert_eq!(installation.phase, Phase::Extracting);
    assert_eq!(steps.len(), candidates.len());
    for (index, step) in steps.iter().enumerate() {
        match step {
            ExtractStep::Reject => assert_eq!(candidates[index].destination, None),
            ExtractStep::Keep => assert!(disk.holds(candidates[index].destination.as_ref().unwrap())),
            ExtractStep::CreateDir { .. } => disk.make_dir(candidates[index].destination.as_ref().unwrap()),
            ExtractStep::WriteFile { .. } => {
                let content = payload(&mut source, index);
                disk.write(candidates[index].destination.as_ref().unwrap(), content);
            }
        }
    }
    download_and_extract_proxy(installation, InstallEvent::Extracted)
}

/// Carries out what completes an installation and returns its outcome.
fn complete(disk: &mut Disk, tree: &[DirEntry], action: InstallAction) -> Result<String, CommandError> {
    match action {
        InstallAction::Complete { renames, outcome, mark_executable } => {
            assert!(mark_executable);
            for index in renames {
                let from: Vec<String> = parts(&tree[index].path[ROOT.len()..]);
                let mut to = from.clone();
                *to.last_mut().unwrap() = "config.yaml".to_string();
                assert!(!disk.holds(&to));
                let content = disk.files.remove(&from).unwrap();
                disk.files.insert(to, content);
            }
            outcome
        }
        _ => panic!("expected the completion"),
    }
}

/// Installs a zip archive onto the disk, as a caller of the library would.
fn install_zip(disk: &mut Disk, archive: Vec<u8>) -> Result<String, CommandError> {
    let mut installation = begin("https://host/releases/CLIProxyAPI_linux_amd64.zip");
    assert_eq!(installation.kind, ArchiveKind::Zip);
    let listing = disk.listing(true);
    match download_and_extract_proxy(&mut installation, InstallEvent::Listed(listing.clone())) {
        InstallAction::Clean { remove } => {
            for index in remove {
                disk.files.remove(&parts(&listing[index].name)).unwrap();
            }
        }
        _ => panic!("expected a cleaning"),
    }
    match download_and_extract_proxy(&mut installation, InstallEvent::Cleaned) {
        InstallAction::Download { url, user_agent } => {
            assert_eq!(url, "https://host/releases/CLIProxyAPI_linux_amd64.zip");
            assert_eq!(user_agent, "CLIProxyAPI");
        }
        _ => panic!("expected a download"),
    }
    let probe = download_and_extract_proxy(
        &mut installation,
        InstallEvent::Downloaded { status: 200, body: archive },
    );
    if let InstallAction::Fail { failure } = probe {
        return Err(failure);
    }
    assert_eq!(installation.phase, Phase::Probing);
    let scan = extract(&mut installation, disk, probe, &mut |source, index| {
        source.as_mut().unwrap().payload(index).unwrap()
    });
    assert!(matches!(scan, InstallAction::Scan));
    let tree = disk.listing(false);
    let done = download_and_extract_proxy(&mut installation, InstallEvent::Scanned(tree.clone()));
    assert_eq!(installation.phase, Phase::Finished);
    complete(disk, &tree, done)
}

#[test]
fn installation_begins_in_the_directory_asked_for() {
    let begun = begin_install(
        "https://host/proxy.tar.gz",
        Some("/srv/proxy".to_string()),
        Some("/home/u".to_string()),
        Platform::Windows,
    );
    assert_eq!(
        begun,
        Ok(Installation {
            url: "https://host/proxy.tar.gz".to_string(),
            kind: ArchiveKind::TarGz,
            location: InstallLocation { base: "/srv/proxy".to_string(), below: Vec::new() },
            platform: Platform::Windows,
            phase: Phase::Listing,
        })
    );
}

#[test]
fn installation_defaults_to_the_home_directory() {
    let begun = begin("https://host/proxy.zip");
    assert_eq!(
        begun.location,
        InstallLocation {
            base: "/home/u".to_string(),
            below: vec![".zerolimit".to_string(), "cli_proxy".to_string()],
        }
    );
    assert_eq!(USER_AGENT, "CLIProxyAPI");
}

#[test]
fn installation_without_any_directory_is_refused() {
    assert_eq!(
        begin_install("https://host/proxy.zip", None, None, Platform::Unix),
        Err(CommandError::General("Could not determine user home directory".to_string()))
    );
}

#[test]
fn unsupported_format_is_rejected_before_anything_is_fetched() {
    for url in ["https://host/proxy.rar", "https://host/proxy.7z", "https://host/proxy"] {
        assert_eq!(
            begin_install(url, Some("/srv/proxy".to_string()), None, Platform::Unix),
            Err(CommandError::UnsupportedFormat { url: url.to_string() })
        );
        assert_eq!(
            begin_install(url, None, None, Platform::Unix),
            Err(CommandError::UnsupportedFormat { url: url.to_string() })
        );
    }
}

#[test]
fn protected_file_is_preserved() {
    let mut disk = Disk::new(&[
        ("config.yaml", "port: 9999 # mine"),
        ("cli-proxy-api", "old binary"),
        ("auths/user.json", "{\"token\": 1}"),
        ("notes.txt", "keep me"),
    ]);
    let archive = zip_of(&[
        ("cli-proxy-api", "new binary"),
        ("config.yaml", "port: 8317"),
        ("config.example.yaml", "port: 8317 # example"),
        ("auths/user.json", "{}"),
        ("notes.txt", "shipped notes"),
    ]);
    let outcome = install_zip(&mut disk, archive);
    assert_eq!(outcome, Ok(format!("{}/cli-proxy-api", ROOT)));
    assert_eq!(disk.read("config.yaml"), Some("port: 9999 # mine".to_string()));
    assert_eq!(disk.read("auths/user.json"), Some("{\"token\": 1}".to_string()));
    assert_eq!(disk.read("cli-proxy-api"), Some("new binary".to_string()));
    assert_eq!(disk.read("notes.txt"), Some("shipped notes".to_string()));
    assert_eq!(disk.read("config.example.yaml"), Some("port: 8317 # example".to_string()));
}

#[test]
fn first_time_config_is_materialized() {
    let mut disk = Disk::new(&[]);
    let archive = zip_of(&[
        ("cli-proxy-api", "binary"),
        ("config.example.yaml", "port: 8317 # example"),
        ("README.md", "read me"),
    ]);
    let outcome = install_zip(&mut disk, archive);
    assert_eq!(outcome, Ok(format!("{}/cli-proxy-api", ROOT)));
    assert_eq!(disk.read("config.yaml"), Some("port: 8317 # example".to_string()));
    assert_eq!(disk.read("config.example.yaml"), None);
    assert_eq!(disk.read("README.md"), Some("read me".to_string()));
}

#[test]
fn shipped_config_is_used_the_first_time() {
    let mut disk = Disk::new(&[]);
    let archive = zip_of(&[
        ("config.yaml", "port: 1"),
        ("config.example.yaml", "port: 2"),
        ("cliproxy", "binary"),
    ]);
    assert_eq!(install_zip(&mut disk, archive), Ok(format!("{}/cliproxy", ROOT)));
    assert_eq!(disk.read("config.yaml"), Some("port: 1".to_string()));
    assert_eq!(disk.read("config.example.yaml"), Some("port: 2".to_string()));
}

#[test]
fn executable_is_discovered_one_directory_deep() {
    let mut disk = Disk::new(&[("config.yaml", "mine")]);
    let archive = zip_of(&[
        ("CLIProxyAPI_6.0.0_linux_amd64/", ""),
        ("CLIProxyAPI_6.0.0_linux_amd64/LICENSE", "license"),
        ("CLIProxyAPI_6.0.0_linux_amd64/cli-proxy-api", "binary"),
        ("CLIProxyAPI_6.0.0_linux_amd64/config.example.yaml", "example"),
    ]);
    let outcome = install_zip(&mut disk, archive);
    assert_eq!(outcome, Ok(format!("{}/CLIProxyAPI_6.0.0_linux_amd64/cli-proxy-api", ROOT)));
    assert_eq!(disk.read("config.yaml"), Some("mine".to_string()));
    assert_eq!(
        disk.read("CLIProxyAPI_6.0.0_linux_amd64/config.yaml"),
        Some("example".to_string())
    );
    assert_eq!(disk.read("CLIProxyAPI_6.0.0_linux_amd64/config.example.yaml"), None);
}

#[test]
fn stale_artifacts_are_removed_before_extraction() {
    let mut disk = Disk::new(&[
        ("cli-proxy-api", "old"),
        ("cli-proxy-api-plus", "old plus"),
        ("cliproxy.yaml", "mine"),
        ("unrelated.bin", "other"),
    ]);
    let archive = zip_of(&[("cli-proxy-api", "new")]);
    assert_eq!(install_zip(&mut disk, archive), Ok(format!("{}/cli-proxy-api", ROOT)));
    assert_eq!(disk.read("cli-proxy-api"), Some("new".to_string()));
    assert_eq!(disk.read("cli-proxy-api-plus"), None);
    assert_eq!(disk.read("cliproxy.yaml"), Some("mine".to_string()));
    assert_eq!(disk.read("unrelated.bin"), Some("other".to_string()));
}

#[test]
fn entries_that_would_escape_are_not_extracted() {
    let mut disk = Disk::new(&[]);
    let archive = zip_of(&[
        ("../escaped.txt", "evil"),
        ("cli-proxy-api", "binary"),
        ("docs/../../escaped-too.txt", "evil"),
        ("docs/../inside.txt", "fine"),
    ]);
    assert_eq!(install_zip(&mut disk, archive), Ok(format!("{}/cli-proxy-api", ROOT)));
    let written: Vec<String> = disk.files.keys().map(|path| path.join("/")).collect();
    assert_eq!(written, vec!["cli-proxy-api".to_string(), "inside.txt".to_string()]);
}

#[test]
fn missing_executable_is_reported_after_the_renames() {
    let mut disk = Disk::new(&[]);
    let archive = zip_of(&[("README.md", "read me"), ("config.example.yaml", "example")]);
    assert_eq!(install_zip(&mut disk, archive), Err(CommandError::ExecutableNotFound));
    assert_eq!(disk.read("config.yaml"), Some("example".to_string()));
}

#[test]
fn refused_download_ends_the_installation() {
    let mut installation = begin("https://host/proxy.zip");
    download_and_extract_proxy(&mut installation, InstallEvent::Listed(Vec::new()));
    download_and_extract_proxy(&mut installation, InstallEvent::Cleaned);
    let action = download_and_extract_proxy(
        &mut installation,
        InstallEvent::Downloaded { status: 404, body: b"not found".to_vec() },
    );
    match action {
        InstallAction::Fail { failure } => {
            assert_eq!(failure, CommandError::DownloadFailed { status: 404 })
        }
        _ => panic!("expected a failure"),
    }
    assert_eq!(installation.phase, Phase::Finished);
}

#[test]
fn unreadable_archive_ends_the_installation() {
    let mut disk = Disk::new(&[("config.yaml", "mine")]);
    let outcome = install_zip(&mut disk, b"<html>not an archive</html>".to_vec());
    assert!(matches!(outcome, Err(CommandError::ArchiveReadError { .. })));
    assert_eq!(disk.read("config.yaml"), Some("mine".to_string()));
}

#[test]
fn reported_failure_ends_the_installation() {
    let mut installation = begin("https://host/proxy.zip");
    download_and_extract_proxy(&mut installation, InstallEvent::Listed(Vec::new()));
    let action = download_and_extract_proxy(
        &mut installation,
        InstallEvent::Failed { message: "Failed to create proxy dir: denied".to_string() },
    );
    match action {
        InstallAction::Fail { failure } => assert_eq!(
            failure,
            CommandError::General("Failed to create proxy dir: denied".to_string())
        ),
        _ => panic!("expected a failure"),
    }
    assert_eq!(installation.phase, Phase::Finished);
}

#[test]
fn report_out_of_turn_ends_the_installation() {
    let mut installation = begin("https://host/proxy.zip");
    let action = download_and_extract_proxy(&mut installation, InstallEvent::Cleaned);
    assert!(matches!(action, InstallAction::Fail { failure: CommandError::General(_) }));
    assert_eq!(installation.phase, Phase::Finished);
    let action = download_and_extract_proxy(&mut installation, InstallEvent::Listed(Vec::new()));
    assert!(matches!(action, InstallAction::Fail { failure: CommandError::General(_) }));
    assert_eq!(installation.phase, Phase::Finished);
}

#[test]
fn tar_archive_is_merged_from_its_scratch_directory() {
    let mut disk = Disk::new(&[("config.yaml", "mine"), ("pkg/settings.toml", "mine too")]);
    let scratch: Vec<(&str, bool, &str)> = vec![
        ("cli-proxy-api", false, "binary"),
        ("config.yaml", false, "shipped"),
        ("pkg", true, ""),
        ("pkg/settings.toml", false, "shipped"),
        ("pkg/data.txt", false, "data"),
    ];
    let mut installation = begin("https://host/releases/CLIProxyAPI_linux_amd64.tar.gz");
    assert_eq!(installation.kind, ArchiveKind::TarGz);
    download_and_extract_proxy(&mut installation, InstallEvent::Listed(disk.listing(true)));
    download_and_extract_proxy(&mut installation, InstallEvent::Cleaned);
    let unpack = download_and_extract_proxy(
        &mut installation,
        InstallEvent::Downloaded { status: 200, body: gzip_of(b"the bytes of a tar archive") },
    );
    match unpack {
        InstallAction::Unpack { tar } => assert_eq!(tar, b"the bytes of a tar archive".to_vec()),
        _ => panic!("expected an unpacking"),
    }
    assert_eq!(installation.phase, Phase::Unpacking);
    let entries: Vec<ArchiveEntry> = scratch
        .iter()
        .map(|(path, is_dir, _)| ArchiveEntry {
            path: Some(path.to_string()),
            is_dir: *is_dir,
            unix_mode: None,
        })
        .collect();
    let probe = download_and_extract_proxy(&mut installation, InstallEvent::Unpacked(entries));
    assert!(matches!(probe, InstallAction::Probe { source: None, .. }));
    let scan = extract(&mut installation, &mut disk, probe, &mut |_, index| {
        scratch[index].2.as_bytes().to_vec()
    });
    assert!(matches!(scan, InstallAction::Scan));
    let tree = disk.listing(false);
    let done = download_and_extract_proxy(&mut installation, InstallEvent::Scanned(tree.clone()));
    assert_eq!(complete(&mut disk, &tree, done), Ok(format!("{}/cli-proxy-api", ROOT)));
    assert_eq!(disk.read("config.yaml"), Some("mine".to_string()));
    assert_eq!(disk.read("pkg/settings.toml"), Some("mine too".to_string()));
    assert_eq!(disk.read("pkg/data.txt"), Some("data".to_string()));
    assert_eq!(disk.read("cli-proxy-api"), Some("binary".to_string()));
}

#[test]
fn tar_archive_that_is_not_gzip_ends_the_installation() {
    for body in [&b"plain tar bytes"[..], b"", &[0x1f, 0x8b, 8, 0, 0]] {
        let mut installation = begin("https://host/proxy.tgz");
        download_and_extract_proxy(&mut installation, InstallEvent::Listed(Vec::new()));
        download_and_extract_proxy(&mut installation, InstallEvent::Cleaned);
        let action = download_and_extract_proxy(
            &mut installation,
            InstallEvent::Downloaded { status: 200, body: body.to_vec() },
        );
        assert!(matches!(
            action,
            InstallAction::Fail { failure: CommandError::ArchiveReadError { .. } }
        ));
        assert_eq!(installation.phase, Phase::Finished);
    }
}
