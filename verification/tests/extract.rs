use zerolimit::archive::{ArchiveKind, EntryHeader};
use zerolimit::extract::{
    candidate_of, candidates, entry_of_header, extraction_steps, ArchiveEntry, Candidate,
    ExtractStep, EXECUTABLE_MODE,
};
use zerolimit::names::Platform;

fn parts(path: &str) -> Vec<String> {
    path.split('/').filter(|p| !p.is_empty()).map(|p| p.to_string()).collect()
}

fn file(path: &str, present: bool) -> Candidate {
    Candidate { destination: Some(parts(path)), is_dir: false, unix_mode: None, present }
}

fn dir(path: &str, present: bool) -> Candidate {
    Candidate { destination: Some(parts(path)), is_dir: true, unix_mode: None, present }
}

fn steps(list: &[Candidate]) -> Vec<ExtractStep> {
    extraction_steps(ArchiveKind::Zip, Platform::Unix, &list.to_vec())
}

#[test]
fn headers_become_entries() {
    let header = EntryHeader {
        name: "bin/".to_string(),
        enclosed: Some("bin/".to_string()),
        unix_mode: Some(0o40755),
    };
    assert_eq!(
        entry_of_header(&header),
        ArchiveEntry { path: Some("bin/".to_string()), is_dir: true, unix_mode: Some(0o40755) }
    );
    let header =
        EntryHeader { name: "../x".to_string(), enclosed: None, unix_mode: None };
    assert_eq!(entry_of_header(&header), ArchiveEntry { path: None, is_dir: false, unix_mode: None });
}

#[test]
fn entries_become_candidates() {
    let entry = ArchiveEntry {
        path: Some("pkg/./bin/../cli-proxy-api".to_string()),
        is_dir: false,
        unix_mode: Some(0o100755),
    };
    assert_eq!(
        candidate_of(&entry, Platform::Unix),
        Candidate {
            destination: Some(parts("pkg/cli-proxy-api")),
            is_dir: false,
            unix_mode: Some(0o100755),
            present: false
        }
    );
    let escaping = ArchiveEntry { path: Some("a/../../b".to_string()), is_dir: false, unix_mode: None };
    let unnamed = ArchiveEntry { path: None, is_dir: false, unix_mode: None };
    let found = candidates(&vec![escaping, unnamed, entry], Platform::Unix);
    assert_eq!(found.len(), 3);
    assert_eq!(found[0].destination, None);
    assert_eq!(found[1].destination, None);
    assert_eq!(found[2].destination, Some(parts("pkg/cli-proxy-api")));
}

#[test]
fn present_configuration_is_kept() {
    let plan = steps(&[
        file("config.yaml", true),
        file("settings.JSON", true),
        file("sub/dir/.env", true),
        file("cli-proxy-api", true),
        file("README.md", true),
    ]);
    assert_eq!(
        plan,
        vec![
            ExtractStep::Keep,
            ExtractStep::Keep,
            ExtractStep::Keep,
            ExtractStep::WriteFile { mode: None },
            ExtractStep::WriteFile { mode: None },
        ]
    );
}

#[test]
fn absent_configuration_is_written() {
    let plan = steps(&[file("config.yaml", false), file("sub/auth.json", false)]);
    assert_eq!(
        plan,
        vec![ExtractStep::WriteFile { mode: None }, ExtractStep::WriteFile { mode: None }]
    );
}

#[test]
fn configuration_is_written_once() {
    let plan = steps(&[
        file("config.yaml", false),
        file("other.txt", false),
        file("config.yaml", false),
        file("other.txt", false),
    ]);
    assert_eq!(
        plan,
        vec![
            ExtractStep::WriteFile { mode: None },
            ExtractStep::WriteFile { mode: None },
            ExtractStep::Keep,
            ExtractStep::WriteFile { mode: None },
        ]
    );
}

#[test]
fn earlier_entries_occupy_the_directories_above_them() {
    let plan = steps(&[file("data.yaml/inner.txt", false), file("data.yaml", false)]);
    assert_eq!(plan, vec![ExtractStep::WriteFile { mode: None }, ExtractStep::Keep]);
    let plan = steps(&[dir("conf.json", false), file("conf.json", false)]);
    assert_eq!(plan, vec![ExtractStep::CreateDir { mode: None }, ExtractStep::Keep]);
    let plan = steps(&[file("a/config.yaml", false), file("config.yaml", false)]);
    assert_eq!(
        plan,
        vec![ExtractStep::WriteFile { mode: None }, ExtractStep::WriteFile { mode: None }]
    );
}

#[test]
fn entries_without_destination_are_rejected() {
    let unsafe_entry = Candidate { destination: None, is_dir: false, unix_mode: Some(0o644), present: true };
    let unsafe_dir = Candidate { destination: None, is_dir: true, unix_mode: None, present: false };
    assert_eq!(steps(&[unsafe_entry, unsafe_dir]), vec![ExtractStep::Reject, ExtractStep::Reject]);
}

#[test]
fn directories_are_created_even_where_they_exist() {
    assert_eq!(
        steps(&[dir("bin", true), dir("settings.yaml", true)]),
        vec![ExtractStep::CreateDir { mode: None }, ExtractStep::CreateDir { mode: None }]
    );
}

#[test]
fn stored_permission_bits_win() {
    let mut binary = file("cli-proxy-api", false);
    binary.unix_mode = Some(0o100700);
    let mut named = file("cliproxy", false);
    named.unix_mode = Some(0o100644);
    assert_eq!(
        steps(&[binary, named]),
        vec![
            ExtractStep::WriteFile { mode: Some(0o100700) },
            ExtractStep::WriteFile { mode: Some(0o100644) },
        ]
    );
}

#[test]
fn binary_names_get_the_executable_bits() {
    assert_eq!(EXECUTABLE_MODE, 0o755);
    assert_eq!(
        steps(&[
            file("CLIProxyAPI", false),
            file("pkg/my-cliproxy-tool", false),
            file("cli-proxy-api", false),
            file("CLIProxyAPI/readme.txt", false),
            dir("cliproxy", false),
        ]),
        vec![
            ExtractStep::WriteFile { mode: Some(0o755) },
            ExtractStep::WriteFile { mode: Some(0o755) },
            ExtractStep::WriteFile { mode: None },
            ExtractStep::WriteFile { mode: None },
            ExtractStep::CreateDir { mode: Some(0o755) },
        ]
    );
}

#[test]
fn only_zip_on_unix_gives_permission_bits() {
    let mut binary = file("CLIProxyAPI", false);
    binary.unix_mode = Some(0o100755);
    let list = vec![binary, file("cliproxy", false)];
    let none = vec![ExtractStep::WriteFile { mode: None }, ExtractStep::WriteFile { mode: None }];
    assert_eq!(extraction_steps(ArchiveKind::Zip, Platform::Windows, &list), none);
    assert_eq!(extraction_steps(ArchiveKind::TarGz, Platform::Unix, &list), none);
    assert_eq!(extraction_steps(ArchiveKind::TarGz, Platform::Windows, &list), none);
}

#[test]
fn tar_entries_follow_the_same_rule() {
    let list = vec![dir("pkg", false), file("pkg/config.yaml", true), file("pkg/cli-proxy-api", true)];
    assert_eq!(
        extraction_steps(ArchiveKind::TarGz, Platform::Unix, &list),
        vec![
            ExtractStep::CreateDir { mode: None },
            ExtractStep::Keep,
            ExtractStep::WriteFile { mode: None },
        ]
    );
}

#[test]
fn no_candidates_no_steps() {
    assert_eq!(steps(&[]), Vec::new());
}

#[test]
fn reported_destinations_that_are_not_plain_are_rejected() {
    let reported = |list: &[&str], is_dir: bool| Candidate {
        destination: Some(list.iter().map(|p| p.to_string()).collect()),
        is_dir,
        unix_mode: None,
        present: false,
    };
    let list = vec![
        reported(&["..", "evil"], false),
        reported(&["a/b"], false),
        reported(&["ok", ""], false),
        reported(&["."], true),
        reported(&["ok", "fine.txt"], false),
    ];
    assert_eq!(
        extraction_steps(ArchiveKind::Zip, Platform::Unix, &list),
        vec![
            ExtractStep::Reject,
            ExtractStep::Reject,
            ExtractStep::Reject,
            ExtractStep::Reject,
            ExtractStep::WriteFile { mode: None },
        ]
    );
    let list = vec![reported(&["C:", "evil"], false), reported(&["a\\b"], false)];
    assert_eq!(
        extraction_steps(ArchiveKind::Zip, Platform::Windows, &list),
        vec![ExtractStep::Reject, ExtractStep::Reject]
    );
    assert_eq!(
        extraction_steps(ArchiveKind::TarGz, Platform::Unix, &list),
        vec![ExtractStep::WriteFile { mode: None }, ExtractStep::WriteFile { mode: None }]
    );
}

#[test]
fn rejected_entries_leave_nothing_behind() {
    let climbing = Candidate {
        destination: Some(vec!["data.yaml".to_string(), "..".to_string()]),
        is_dir: false,
        unix_mode: None,
        present: false,
    };
    assert_eq!(
        steps(&[climbing, file("data.yaml", false)]),
        vec![ExtractStep::Reject, ExtractStep::WriteFile { mode: None }]
    );
}
