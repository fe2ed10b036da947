//! Installation of a release archive, step by step. The library decides;
//! its caller lists directories, downloads, and writes files, and reports
//! back after each action.

use crate::archive::{
    archive_kind, check_download_status, gunzip, gunzipped, is_success, kind_of_url, opens_all,
    zip_directory, ArchiveKind, EntryHeader, HeaderText, ZipSource,
};
use crate::error::CommandError;
use crate::extract::{
    candidate_of, candidates, carried_out, entry_of_header, extraction_steps, is_candidate_of,
    is_occupied, lemma_free_place_is_written, lemma_last_write_stays, step_at, ArchiveEntry,
    Candidate, ExtractStep,
};
use crate::listing::{
    config_renames, has_active_config, has_earlier_example, is_example, is_executable_entry,
    is_found_executable, lemma_example_becomes_config, lists_renames, lists_stale,
    locate_executable, names_each_once, renamed, stale_artifacts, DirEntry,
};
use crate::names::Platform;
use crate::paths::resolve;
use vstd::prelude::*;
use vstd::string::*;

verus! {

/// The client identifier sent with the download.
pub const USER_AGENT: &'static str = "CLIProxyAPI";

/// The directory below the user's home directory that holds the default
/// installation directory.
pub const DEFAULT_SUBDIRECTORY: &'static str = ".zerolimit";

/// The name of the default installation directory.
pub const DEFAULT_DIRECTORY: &'static str = "cli_proxy";

/// The text of the failure that answers a report out of turn.
pub const OUT_OF_TURN: &'static str = "The installation did not expect this report";

/// Where to install: a directory, given by a base path and the names of the
/// directories to descend into from there.
#[derive(Clone, Debug, PartialEq, Eq)]
pub struct InstallLocation {
    pub base: String,
    pub below: Vec<String>,
}

/// How far an installation has come.
#[derive(Clone, Copy, Debug, PartialEq, Eq, Structural)]
pub enum Phase {
    /// Waiting for the listing of the installation directory.
    Listing,
    /// Waiting for the stale artifacts to be removed and the directory to be
    /// created.
    Cleaning,
    /// Waiting for the download.
    Downloading,
    /// Waiting for a tar archive to be unpacked into a scratch directory.
    Unpacking,
    /// Waiting to learn which destinations exist.
    Probing,
    /// Waiting for the extraction.
    Extracting,
    /// Waiting for the listing of what was installed.
    Scanning,
    /// Nothing more to do.
    Finished,
}

/// An installation under way.
#[derive(Clone, Debug, PartialEq, Eq)]
pub struct Installation {
    pub url: String,
    pub kind: ArchiveKind,
    pub location: InstallLocation,
    pub platform: Platform,
    pub phase: Phase,
}

impl Installation {
    /// Whether the installation is of an archive that its address names: the
    /// kind is the one that the address's suffix stands for.
    pub open spec fn well_formed(self) -> bool {
        kind_of_url(self.url@) == Some(self.kind)
    }
}

/// What the caller reports.
pub enum InstallEvent {
    /// The entries directly in the installation directory; none where the
    /// directory is not there or cannot be read.
    Listed(Vec<DirEntry>),
    /// The stale artifacts were removed as far as they could be, and the
    /// installation directory exists.
    Cleaned,
    /// The server answered the download.
    Downloaded { status: u16, body: Vec<u8> },
    /// A tar archive was unpacked into a scratch directory; these are the
    /// entries of that directory's tree, each directory before what it
    /// holds.
    Unpacked(Vec<ArchiveEntry>),
    /// The candidates, each with the fact whether its destination is there.
    Probed(Vec<Candidate>),
    /// The extraction steps were carried out.
    Extracted,
    /// The entries of the installation directory's tree.
    Scanned(Vec<DirEntry>),
    /// An action that has to succeed failed.
    Failed { message: String },
}

/// What the caller does next.
pub enum InstallAction {
    /// Remove the listed entries at these positions, ignoring failures, then
    /// create the installation directory.
    Clean { remove: Vec<usize> },
    /// Fetch the archive.
    Download { url: String, user_agent: String },
    /// Unpack the tar archive, which these bytes are, into a fresh scratch
    /// directory and list it.
    Unpack { tar: Vec<u8> },
    /// Find out which of the candidates' destinations exist.
    Probe { candidates: Vec<Candidate>, source: Option<ZipSource> },
    /// Carry out the steps, one for each candidate.
    Extract { steps: Vec<ExtractStep> },
    /// List the installation directory's tree.
    Scan,
    /// Rename the example configurations at these positions of the listing
    /// to `config.yaml`, ignoring failures; then, where an executable was
    /// found, give it the executable permission if asked to, and report the
    /// outcome.
    Complete { renames: Vec<usize>, outcome: Result<String, CommandError>, mark_executable: bool },
    /// Give up with this failure.
    Fail { failure: CommandError },
}

/// The location that an installation uses: the directory asked for, or the
/// default one below the home directory.
pub open spec fn location_for(target_dir: Option<String>, home_dir: Option<String>) -> Option<
    (Seq<char>, Seq<Seq<char>>),
> {
    match target_dir {
        Some(dir) => Some((dir@, Seq::<Seq<char>>::empty())),
        None => match home_dir {
            Some(home) => Some((home@, seq![DEFAULT_SUBDIRECTORY@, DEFAULT_DIRECTORY@])),
            None => None,
        },
    }
}

/// Whether a candidate is the one for the zip entry with this header: its
/// destination is the resolved path that the reader found safe, it is a
/// directory where the stored name ends in a slash, and it is not yet known
/// to be there.
pub open spec fn matches_header(candidate: Candidate, header: HeaderText, platform: Platform)
    -> bool {
    &&& candidate.target() == match header.enclosed {
        Some(path) => resolve(path, platform),
        None => None,
    }
    &&& candidate.is_dir == "/"@.is_suffix_of(header.name)
    &&& candidate.unix_mode == header.unix_mode
    &&& !candidate.present
}

/// Whether the outcome is the one that the listing of what was installed
/// gives: the path of the executable that the search finds, or
/// `ExecutableNotFound` where there is none.
pub open spec fn is_outcome(
    outcome: Result<String, CommandError>,
    tree: Seq<DirEntry>,
    platform: Platform,
) -> bool {
    match outcome {
        Ok(path) => exists|i: int| #[trigger]
            is_found_executable(tree, platform, i) && path@ == tree[i].path@,
        Err(failure) => failure == CommandError::ExecutableNotFound && forall|j: int|
            0 <= j < tree.len() ==> !is_executable_entry(#[trigger] tree[j], platform),
    }
}

/// Whether an action and a next phase are what an installation answers to
/// the download of a zip archive, given the entries of the archive that the
/// body holds. A body that the reader does not take for a zip archive, and
/// one with an entry that the reader does not open, end the installation
/// with `ArchiveReadError`. Any other is answered with a probe: the source
/// has the entries of the body, and there is one candidate for each entry.
pub open spec fn is_zip_answer(
    directory: Option<Seq<Option<HeaderText>>>,
    platform: Platform,
    phase: Phase,
    action: InstallAction,
) -> bool {
    match directory {
        Some(entries) => if opens_all(entries) {
            &&& phase == Phase::Probing
            &&& action matches InstallAction::Probe { candidates, source: Some(source) }
            &&& source.entries() == entries
            &&& candidates@.len() == entries.len()
            &&& forall|i: int|
                0 <= i < candidates@.len() ==> matches_header(
                    #[trigger] candidates@[i],
                    entries[i]->0,
                    platform,
                )
        } else {
            &&& phase == Phase::Finished
            &&& action matches InstallAction::Fail { failure }
            &&& failure is ArchiveReadError
        },
        None => {
            &&& phase == Phase::Finished
            &&& action matches InstallAction::Fail { failure }
            &&& failure is ArchiveReadError
        },
    }
}

/// Whether an action and a next phase are what an installation answers to an
/// event.
pub open spec fn is_install_step(
    before: Installation,
    event: InstallEvent,
    phase: Phase,
    action: InstallAction,
) -> bool {
    match (before.phase, event) {
        (_, InstallEvent::Failed { message }) => {
            &&& phase == Phase::Finished
            &&& action matches InstallAction::Fail { failure: CommandError::General(text) }
            &&& text@ == message@
        },
        (Phase::Listing, InstallEvent::Listed(listing)) => {
            &&& phase == Phase::Cleaning
            &&& action matches InstallAction::Clean { remove }
            &&& lists_stale(listing@, listing@.len() as int, remove@)
        },
        (Phase::Cleaning, InstallEvent::Cleaned) => {
            &&& phase == Phase::Downloading
            &&& action matches InstallAction::Download { url, user_agent }
            &&& url@ == before.url@
            &&& user_agent@ == USER_AGENT@
        },
        (Phase::Downloading, InstallEvent::Downloaded { status, body }) => {
            if !is_success(status) {
                &&& phase == Phase::Finished
                &&& action matches InstallAction::Fail { failure }
                &&& failure == (CommandError::DownloadFailed { status })
            } else {
                match before.kind {
                    ArchiveKind::TarGz => match gunzipped(body@) {
                        Some(tar) => {
                            &&& phase == Phase::Unpacking
                            &&& action matches InstallAction::Unpack { tar: handed }
                            &&& handed@ == tar
                        },
                        None => {
                            &&& phase == Phase::Finished
                            &&& action matches InstallAction::Fail { failure }
                            &&& failure is ArchiveReadError
                        },
                    },
                    ArchiveKind::Zip => is_zip_answer(
                        zip_directory(body@),
                        before.platform,
                        phase,
                        action,
                    ),
                }
            }
        },
        (Phase::Unpacking, InstallEvent::Unpacked(entries)) => {
            &&& phase == Phase::Probing
            &&& action matches InstallAction::Probe { candidates, source: None }
            &&& candidates@.len() == entries@.len()
            &&& forall|i: int|
                0 <= i < candidates@.len() ==> is_candidate_of(
                    #[trigger] candidates@[i],
                    entries@[i],
                    before.platform,
                )
        },
        (Phase::Probing, InstallEvent::Probed(list)) => {
            &&& phase == Phase::Extracting
            &&& action matches InstallAction::Extract { steps }
            &&& steps@.len() == list@.len()
            &&& forall|i: int|
                0 <= i < steps@.len() ==> #[trigger] steps@[i] == step_at(
                    before.kind,
                    before.platform,
                    list@,
                    i,
                )
        },
        (Phase::Extracting, InstallEvent::Extracted) => {
            &&& phase == Phase::Scanning
            &&& action is Scan
        },
        (Phase::Scanning, InstallEvent::Scanned(tree)) => {
            &&& phase == Phase::Finished
            &&& action matches InstallAction::Complete { renames, outcome, mark_executable }
            &&& lists_renames(tree@, tree@.len() as int, renames@)
            &&& is_outcome(outcome, tree@, before.platform)
            &&& mark_executable == (before.platform == Platform::Unix)
        },
        _ => {
            &&& phase == Phase::Finished
            &&& action matches InstallAction::Fail { failure: CommandError::General(text) }
            &&& text@ == OUT_OF_TURN@
        },
    }
}

/// Begins an installation. An address that ends in no recognized archive
/// suffix is refused as `UnsupportedFormat` before anything else is looked
/// at, so that nothing is fetched for it. The installation directory is the
/// one asked for or, where none is, the default one below the home
/// directory; with neither the installation is refused. An installation
/// that begins waits for the listing of its directory.
pub fn begin_install(
    url: &str,
    target_dir: Option<String>,
    home_dir: Option<String>,
    platform: Platform,
) -> (begun: Result<Installation, CommandError>)
    ensures
        match kind_of_url(url@) {
            None => begun matches Err(CommandError::UnsupportedFormat { url: refused })
                && refused@ == url@,
            Some(kind) => match location_for(target_dir, home_dir) {
                None => begun matches Err(CommandError::General(text)) && text@
                    == "Could not determine user home directory"@,
                Some(place) => {
                    &&& begun matches Ok(installation)
                    &&& installation.well_formed()
                    &&& installation.url@ == url@
                    &&& installation.kind == kind
                    &&& installation.platform == platform
                    &&& installation.phase == Phase::Listing
                    &&& installation.location.base@ == place.0
                    &&& crate::paths::texts(installation.location.below@) == place.1
                },
            },
        },
{
    let kind = match archive_kind(url) {
        Ok(kind) => kind,
        Err(refusal) => {
            return Err(refusal);
        },
    };
    let location = match target_dir {
        Some(dir) => InstallLocation { base: dir, below: Vec::new() },
        None => match home_dir {
            Some(home) => {
                let mut below: Vec<String> = Vec::new();
                below.push(String::from_str(DEFAULT_SUBDIRECTORY));
                below.push(String::from_str(DEFAULT_DIRECTORY));
                proof {
                    assert(crate::paths::texts(below@) =~= seq![
                        DEFAULT_SUBDIRECTORY@,
                        DEFAULT_DIRECTORY@,
                    ]);
                }
                InstallLocation { base: home, below }
            },
            None => {
                return Err(
                    CommandError::General(
                        String::from_str("Could not determine user home directory"),
                    ),
                );
            },
        },
    };
    proof {
        if location.below@.len() == 0 {
            assert(crate::paths::texts(location.below@) =~= Seq::<Seq<char>>::empty());
        }
    }
    Ok(Installation { url: url.to_owned(), kind, location, platform, phase: Phase::Listing })
}

/// The candidates for the entries of a zip archive, in order.
fn zip_candidates(headers: &Vec<EntryHeader>, platform: Platform) -> (found: Vec<Candidate>)
    ensures
        found@.len() == headers@.len(),
        forall|i: int|
            0 <= i < found@.len() ==> matches_header(
                #[trigger] found@[i],
                headers@[i]@,
                platform,
            ),
{
    let mut found: Vec<Candidate> = Vec::new();
    let mut i: usize = 0;
    while i < headers.len()
        invariant
            i <= headers.len(),
            found@.len() == i,
            forall|k: int|
                0 <= k < i ==> matches_header(#[trigger] found@[k], headers@[k]@, platform),
        decreases headers.len() - i,
    {
        let entry = entry_of_header(&headers[i]);
        found.push(candidate_of(&entry, platform));
        i += 1;
    }
    found
}

/// Answers the download of a zip archive: opens it and makes a candidate of
/// each entry.
fn zip_downloaded(installation: &mut Installation, body: Vec<u8>) -> (action: InstallAction)
    requires
        old(installation).kind == ArchiveKind::Zip,
        old(installation).phase == Phase::Downloading,
    ensures
        final(installation).url == old(installation).url,
        final(installation).kind == old(installation).kind,
        final(installation).location == old(installation).location,
        final(installation).platform == old(installation).platform,
        is_zip_answer(
            zip_directory(body@),
            old(installation).platform,
            final(installation).phase,
            action,
        ),
{
    let mut source = match ZipSource::open(body) {
        Ok(source) => source,
        Err(failure) => {
            installation.phase = Phase::Finished;
            return InstallAction::Fail { failure };
        },
    };
    let headers = match source.read_headers() {
        Ok(headers) => headers,
        Err(failure) => {
            installation.phase = Phase::Finished;
            return InstallAction::Fail { failure };
        },
    };
    let candidates = zip_candidates(&headers, installation.platform);
    installation.phase = Phase::Probing;
    proof {
        assert forall|i: int| 0 <= i < candidates@.len() implies matches_header(
            #[trigger] candidates@[i],
            source.entries()[i]->0,
            installation.platform,
        ) by {
            assert(source.entries()[i] == Some(headers@[i]@));
        }
    }
    InstallAction::Probe { candidates, source: Some(source) }
}

/// Answers the listing of what was installed.
fn scanned(installation: &mut Installation, tree: Vec<DirEntry>) -> (action: InstallAction)
    ensures
        final(installation).url == old(installation).url,
        final(installation).kind == old(installation).kind,
        final(installation).location == old(installation).location,
        final(installation).platform == old(installation).platform,
        final(installation).phase == Phase::Finished,
        action matches InstallAction::Complete { renames, outcome, mark_executable } && {
            &&& lists_renames(tree@, tree@.len() as int, renames@)
            &&& is_outcome(outcome, tree@, old(installation).platform)
            &&& mark_executable == (old(installation).platform == Platform::Unix)
        },
{
    let renames = config_renames(&tree);
    let outcome = match locate_executable(&tree, installation.platform) {
        Some(i) => {
            let path = tree[i].path.clone();
            proof {
                assert(is_found_executable(tree@, installation.platform, i as int));
                assert(path@ == tree@[i as int].path@);
            }
            Ok(path)
        },
        None => Err(CommandError::ExecutableNotFound),
    };
    installation.phase = Phase::Finished;
    InstallAction::Complete {
        renames,
        outcome,
        mark_executable: matches!(installation.platform, Platform::Unix),
    }
}

/// Takes an installation one step further: given what the caller reports,
/// says what to do next.
///
/// The steps, in order: the listing of the directory is answered with the
/// stale artifacts to remove; their removal with the download; the download
/// with the candidates to probe (for a tar archive, after it was
/// uncompressed here and unpacked into a scratch directory by the caller);
/// the probe with the extraction steps; the
/// extraction with a scan; and the scan with the example configurations to
/// put in place and the path of the executable, or `ExecutableNotFound`. A
/// download that the server refused ends the installation with
/// `DownloadFailed`, an archive that cannot be read with `ArchiveReadError`,
/// a reported failure with its message, and an event that does not belong to
/// the phase with a failure as well.
pub fn download_and_extract_proxy(installation: &mut Installation, event: InstallEvent) -> (action:
    InstallAction)
    ensures
        final(installation).url == old(installation).url,
        final(installation).kind == old(installation).kind,
        final(installation).location == old(installation).location,
        final(installation).platform == old(installation).platform,
        old(installation).well_formed() ==> final(installation).well_formed(),
        is_install_step(*old(installation), event, final(installation).phase, action),
{
    let phase = installation.phase;
    match event {
        InstallEvent::Failed { message } => {
            installation.phase = Phase::Finished;
            InstallAction::Fail { failure: CommandError::General(message) }
        },
        InstallEvent::Listed(listing) => {
            if matches!(phase, Phase::Listing) {
                let remove = stale_artifacts(&listing);
                installation.phase = Phase::Cleaning;
                InstallAction::Clean { remove }
            } else {
                unexpected(installation)
            }
        },
        InstallEvent::Cleaned => {
            if matches!(phase, Phase::Cleaning) {
                installation.phase = Phase::Downloading;
                InstallAction::Download {
                    url: installation.url.clone(),
                    user_agent: String::from_str(USER_AGENT),
                }
            } else {
                unexpected(installation)
            }
        },
        InstallEvent::Downloaded { status, body } => {
            if !matches!(phase, Phase::Downloading) {
                unexpected(installation)
            } else if let Err(failure) = check_download_status(status) {
                installation.phase = Phase::Finished;
                InstallAction::Fail { failure }
            } else {
                match installation.kind {
                    ArchiveKind::TarGz => match gunzip(body.as_slice()) {
                        Ok(tar) => {
                            installation.phase = Phase::Unpacking;
                            InstallAction::Unpack { tar }
                        },
                        Err(failure) => {
                            installation.phase = Phase::Finished;
                            InstallAction::Fail { failure }
                        },
                    },
                    ArchiveKind::Zip => zip_downloaded(installation, body),
                }
            }
        },
        InstallEvent::Unpacked(entries) => {
            if matches!(phase, Phase::Unpacking) {
                let found = candidates(&entries, installation.platform);
                installation.phase = Phase::Probing;
                InstallAction::Probe { candidates: found, source: None }
            } else {
                unexpected(installation)
            }
        },
        InstallEvent::Probed(list) => {
            if matches!(phase, Phase::Probing) {
                let steps = extraction_steps(installation.kind, installation.platform, &list);
                installation.phase = Phase::Extracting;
                InstallAction::Extract { steps }
            } else {
                unexpected(installation)
            }
        },
        InstallEvent::Extracted => {
            if matches!(phase, Phase::Extracting) {
                installation.phase = Phase::Scanning;
                InstallAction::Scan
            } else {
                unexpected(installation)
            }
        },
        InstallEvent::Scanned(tree) => {
            if matches!(phase, Phase::Scanning) {
                scanned(installation, tree)
            } else {
                unexpected(installation)
            }
        },
    }
}

/// Ends the installation over an event that does not belong to its phase.
fn unexpected(installation: &mut Installation) -> (action: InstallAction)
    ensures
        final(installation).url == old(installation).url,
        final(installation).kind == old(installation).kind,
        final(installation).location == old(installation).location,
        final(installation).platform == old(installation).platform,
        final(installation).phase == Phase::Finished,
        action matches InstallAction::Fail { failure: CommandError::General(text) } && text@
            == OUT_OF_TURN@,
{
    installation.phase = Phase::Finished;
    InstallAction::Fail { failure: CommandError::General(String::from_str(OUT_OF_TURN)) }
}

/// Nothing is fetched for an address of an unsupported format. A download
/// is asked for only by an installation that has cleaned its directory, and
/// only for its own address, whose suffix names a kind of archive.
pub proof fn lemma_unsupported_is_never_fetched(
    before: Installation,
    event: InstallEvent,
    phase: Phase,
    action: InstallAction,
)
    requires
        before.well_formed(),
        is_install_step(before, event, phase, action),
        action is Download,
    ensures
        before.phase == Phase::Cleaning,
        action->url@ == before.url@,
        kind_of_url(action->url@) is Some,
{
}

/// An installation that has finished stays finished: whatever is reported
/// to it, it answers with a failure.
pub proof fn lemma_finished_is_final(
    before: Installation,
    event: InstallEvent,
    phase: Phase,
    action: InstallAction,
)
    requires
        before.phase == Phase::Finished,
        is_install_step(before, event, phase, action),
    ensures
        phase == Phase::Finished,
        action is Fail,
{
}

/// Where the listing of what was installed shows an executable, the
/// installation ends with the path of one: `ExecutableNotFound` comes only
/// where the listing shows none, at whatever depth.
pub proof fn lemma_listed_executable_is_found(
    outcome: Result<String, CommandError>,
    tree: Seq<DirEntry>,
    platform: Platform,
    j: int,
)
    requires
        is_outcome(outcome, tree, platform),
        0 <= j < tree.len(),
        is_executable_entry(tree[j], platform),
    ensures
        outcome is Ok,
{
}

/// The first time, the example that the archive ships becomes the
/// configuration, with the content that the archive has for it.
///
/// The entry at `k` of the archive is a file with a place inside the
/// installation directory that is free when its turn comes, and no later
/// entry lands on the same place. The listing of what was installed shows
/// that file at `i` as an example configuration, `named` holding the
/// content of each listed file by its directory and name; its directory has
/// no active configuration and no earlier example. Then after the
/// extraction and the renames, `config.yaml` in that directory holds the
/// content of the entry, and nothing is left under the example's own name.
pub proof fn lemma_first_install_materializes_config(
    kind: ArchiveKind,
    platform: Platform,
    files: Map<Seq<Seq<char>>, Seq<u8>>,
    list: Seq<Candidate>,
    steps: Seq<ExtractStep>,
    contents: Seq<Seq<u8>>,
    k: int,
    tree: Seq<DirEntry>,
    named: Map<(Seq<char>, Seq<char>), Seq<u8>>,
    renames: Seq<usize>,
    i: int,
)
    requires
        steps.len() == list.len(),
        contents.len() == list.len(),
        forall|n: int|
            0 <= n < steps.len() ==> #[trigger] steps[n] == step_at(kind, platform, list, n),
        0 <= k < list.len(),
        list[k].place(platform) is Some,
        !list[k].is_dir,
        !is_occupied(list, k, platform),
        forall|j: int| k < j < list.len() ==> (#[trigger] list[j]).target() != list[k].target(),
        tree.len() <= usize::MAX,
        lists_renames(tree, tree.len() as int, renames),
        names_each_once(tree),
        0 <= i < tree.len(),
        is_example(tree[i]),
        !tree[i].config_beside,
        !has_active_config(tree, tree[i].dir@),
        !has_earlier_example(tree, i),
        named.contains_key((tree[i].dir@, tree[i].name@)),
        named[(tree[i].dir@, tree[i].name@)] == carried_out(
            files,
            list,
            steps,
            contents,
            list.len() as int,
        )[list[k].target()->0],
    ensures
        ({
            let after = renamed(named, tree, renames, renames.len() as int);
            &&& after.contains_key((tree[i].dir@, "config.yaml"@))
            &&& after[(tree[i].dir@, "config.yaml"@)] == contents[k]
            &&& !after.contains_key((tree[i].dir@, tree[i].name@))
        }),
{
    lemma_free_place_is_written(kind, platform, list, k);
    assert(steps[k] == step_at(kind, platform, list, k));
    lemma_last_write_stays(
        kind,
        platform,
        files,
        list,
        steps,
        contents,
        k,
        list.len() as int,
    );
    lemma_example_becomes_config(named, tree, renames, i);
}

} // verus!
