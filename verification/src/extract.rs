//! Extraction of an archive into a live installation directory: which
//! entries are written, which are left out, and why a configuration file
//! that is already there stays as it is.

use crate::archive::{ArchiveKind, EntryHeader};
use crate::names::{
    is_config_file, is_protected, needs_executable_bit, wants_executable_bit, Platform,
};
use crate::paths::{
    all_plain, are_plain, file_name_of, is_leading_part, leads, lemma_resolved_is_confined,
    resolve, resolve_path, texts,
};
use crate::text::{chars_of, ends_with};
use vstd::prelude::*;

verus! {

/// The permission bits of an executable: read and execute for all, write for
/// the owner.
pub const EXECUTABLE_MODE: u32 = 0o755;

/// One entry of an archive, as far as extraction depends on it.
#[derive(Clone, Debug, PartialEq, Eq)]
pub struct ArchiveEntry {
    /// The entry's path relative to the archive's root, or `None` where the
    /// archive reader refused its name.
    pub path: Option<String>,
    /// Whether the entry is a directory.
    pub is_dir: bool,
    /// The permission bits stored with the entry.
    pub unix_mode: Option<u32>,
}

/// An entry with the place that it would be extracted to.
#[derive(Clone, Debug, PartialEq, Eq)]
pub struct Candidate {
    /// The components of the destination below the installation directory,
    /// or `None` where the entry has no safe destination.
    pub destination: Option<Vec<String>>,
    /// Whether the entry is a directory.
    pub is_dir: bool,
    /// The permission bits stored with the entry.
    pub unix_mode: Option<u32>,
    /// Whether the destination is there before extraction begins.
    pub present: bool,
}

/// What extraction does with one entry.
#[derive(Clone, Copy, Debug, PartialEq, Eq, Structural)]
pub enum ExtractStep {
    /// The entry has no safe destination: nothing is done.
    Reject,
    /// The destination is a configuration file that is already there: it is
    /// left as it is.
    Keep,
    /// The destination is created as a directory, with these permission bits
    /// where some are given.
    CreateDir { mode: Option<u32> },
    /// The entry's content is written to the destination, after the
    /// directories above it are created, with these permission bits where
    /// some are given.
    WriteFile { mode: Option<u32> },
}

impl Candidate {
    /// The components of the destination as texts.
    pub open spec fn target(self) -> Option<Seq<Seq<char>>> {
        match self.destination {
            Some(parts) => Some(texts(parts@)),
            None => None,
        }
    }

    /// The place that extraction may write to: the destination where it is
    /// made of plain components only, so that it lies inside the
    /// installation directory; `None` for any other.
    pub open spec fn place(self, platform: Platform) -> Option<Seq<Seq<char>>> {
        match self.target() {
            Some(parts) => if are_plain(parts, platform) {
                Some(parts)
            } else {
                None
            },
            None => None,
        }
    }

    /// The file name of the destination; empty where there is none.
    pub open spec fn file_name(self) -> Seq<char> {
        match self.destination {
            Some(parts) => file_name_of(texts(parts@)),
            None => Seq::<char>::empty(),
        }
    }
}

/// The entry that a zip header describes.
pub fn entry_of_header(header: &EntryHeader) -> (entry: ArchiveEntry)
    ensures
        entry.is_dir == "/"@.is_suffix_of(header.name@),
        entry.unix_mode == header.unix_mode,
        entry.path is Some == header.enclosed is Some,
        entry.path matches Some(path) ==> path@ == header.enclosed->0@,
{
    let name = chars_of(header.name.as_str());
    ArchiveEntry {
        path: match &header.enclosed {
            Some(path) => Some(path.clone()),
            None => None,
        },
        is_dir: ends_with(&name, "/"),
        unix_mode: header.unix_mode,
    }
}

/// The destination of an entry: its path resolved on the platform, where it
/// has one and the resolved path stays inside the installation directory.
pub open spec fn destination_of(entry: ArchiveEntry, platform: Platform) -> Option<
    Seq<Seq<char>>,
> {
    match entry.path {
        Some(path) => resolve(path@, platform),
        None => None,
    }
}

/// Whether a candidate is the one for an entry: it has the entry's
/// destination and properties, and is not yet known to be there.
pub open spec fn is_candidate_of(candidate: Candidate, entry: ArchiveEntry, platform: Platform)
    -> bool {
    &&& candidate.target() == destination_of(entry, platform)
    &&& candidate.is_dir == entry.is_dir
    &&& candidate.unix_mode == entry.unix_mode
    &&& !candidate.present
}

/// The candidate for an entry, not yet known to be there.
pub fn candidate_of(entry: &ArchiveEntry, platform: Platform) -> (candidate: Candidate)
    ensures
        is_candidate_of(candidate, *entry, platform),
{
    let destination = match &entry.path {
        Some(path) => resolve_path(path.as_str(), platform),
        None => None,
    };
    Candidate { destination, is_dir: entry.is_dir, unix_mode: entry.unix_mode, present: false }
}

/// The candidates for the entries of an archive, in order.
pub fn candidates(entries: &Vec<ArchiveEntry>, platform: Platform) -> (found: Vec<Candidate>)
    ensures
        found@.len() == entries@.len(),
        forall|i: int|
            0 <= i < found@.len() ==> is_candidate_of(
                #[trigger] found@[i],
                entries@[i],
                platform,
            ),
{
    let mut found: Vec<Candidate> = Vec::new();
    let mut i: usize = 0;
    while i < entries.len()
        invariant
            i <= entries.len(),
            found@.len() == i,
            forall|k: int|
                0 <= k < i ==> is_candidate_of(#[trigger] found@[k], entries@[k], platform),
        decreases entries.len() - i,
    {
        found.push(candidate_of(&entries[i], platform));
        i += 1;
    }
    found
}

/// Whether extracting `earlier` leaves something at the destination of
/// `later`: both have a place, and the place of `later` is that of `earlier`
/// or a directory above it.
pub open spec fn leaves_behind(earlier: Candidate, later: Candidate, platform: Platform) -> bool {
    match (earlier.place(platform), later.place(platform)) {
        (Some(made), Some(wanted)) => is_leading_part(wanted, made),
        _ => false,
    }
}

/// Whether the destination of the candidate at `i` is there when its turn
/// comes: it was there before extraction began, or an earlier entry left
/// something at it.
pub open spec fn is_occupied(list: Seq<Candidate>, i: int, platform: Platform) -> bool {
    list[i].present || exists|j: int|
        0 <= j < i && #[trigger] leaves_behind(list[j], list[i], platform)
}

/// The permission bits given to a destination. Only a zip archive on a
/// platform with permission bits gives any: those stored with the entry, or
/// those of an executable where none are stored and the file name asks for
/// them.
pub open spec fn mode_of(kind: ArchiveKind, platform: Platform, candidate: Candidate) -> Option<
    u32,
> {
    if kind != ArchiveKind::Zip || platform != Platform::Unix {
        None
    } else if candidate.unix_mode is Some {
        candidate.unix_mode
    } else if wants_executable_bit(candidate.file_name()) {
        Some(EXECUTABLE_MODE)
    } else {
        None
    }
}

/// What extraction does with the candidate at `i`. A candidate without a
/// destination, and one whose destination holds a component that is not
/// plain, is rejected, whoever made the candidate.
pub open spec fn step_at(kind: ArchiveKind, platform: Platform, list: Seq<Candidate>, i: int)
    -> ExtractStep {
    if list[i].place(platform) is None {
        ExtractStep::Reject
    } else if list[i].is_dir {
        ExtractStep::CreateDir { mode: mode_of(kind, platform, list[i]) }
    } else if is_protected(list[i].file_name()) && is_occupied(list, i, platform) {
        ExtractStep::Keep
    } else {
        ExtractStep::WriteFile { mode: mode_of(kind, platform, list[i]) }
    }
}

/// The file name of a destination.
fn last_component(parts: &Vec<String>) -> (name: String)
    ensures
        name@ == file_name_of(texts(parts@)),
{
    if parts.len() == 0 {
        String::new()
    } else {
        parts[parts.len() - 1].clone()
    }
}

/// The permission bits given to a destination.
fn mode_for(kind: ArchiveKind, platform: Platform, candidate: &Candidate) -> (mode: Option<u32>)
    requires
        candidate.destination is Some,
    ensures
        mode == mode_of(kind, platform, *candidate),
{
    if !matches!(kind, ArchiveKind::Zip) || !matches!(platform, Platform::Unix) {
        return None;
    }
    if candidate.unix_mode.is_some() {
        return candidate.unix_mode;
    }
    match &candidate.destination {
        Some(parts) => {
            let name = last_component(parts);
            if needs_executable_bit(name.as_str()) {
                Some(EXECUTABLE_MODE)
            } else {
                None
            }
        },
        None => None,
    }
}

/// Whether the destination of the candidate at `i` is there when its turn
/// comes.
fn occupied(list: &Vec<Candidate>, i: usize, platform: Platform) -> (taken: bool)
    requires
        i < list.len(),
        list[i as int].place(platform) is Some,
    ensures
        taken == is_occupied(list@, i as int, platform),
{
    if list[i].present {
        return true;
    }
    let wanted = match &list[i].destination {
        Some(parts) => parts,
        None => {
            return false;
        },
    };
    let mut j: usize = 0;
    while j < i
        invariant
            j <= i,
            i < list.len(),
            list[i as int].destination == Some(*wanted),
            list[i as int].place(platform) is Some,
            forall|k: int|
                0 <= k < j ==> !leaves_behind(#[trigger] list@[k], list@[i as int], platform),
        decreases i - j,
    {
        match &list[j].destination {
            Some(made) => {
                if all_plain(made, platform) && leads(wanted, made) {
                    proof {
                        assert(leaves_behind(list@[j as int], list@[i as int], platform));
                    }
                    return true;
                }
            },
            None => {},
        }
        j += 1;
    }
    false
}

/// Plans the extraction of an archive: one step for each candidate, in
/// order. An entry without a destination inside the installation directory
/// is rejected, a directory is created, and a file is written unless it is
/// a configuration file whose destination is there when its turn comes.
pub fn extraction_steps(kind: ArchiveKind, platform: Platform, list: &Vec<Candidate>) -> (steps:
    Vec<ExtractStep>)
    ensures
        steps@.len() == list@.len(),
        forall|i: int|
            0 <= i < steps@.len() ==> #[trigger] steps@[i] == step_at(kind, platform, list@, i),
{
    let mut steps: Vec<ExtractStep> = Vec::new();
    let mut i: usize = 0;
    while i < list.len()
        invariant
            i <= list.len(),
            steps@.len() == i,
            forall|k: int|
                0 <= k < i ==> #[trigger] steps@[k] == step_at(kind, platform, list@, k),
        decreases list.len() - i,
    {
        let candidate = &list[i];
        let step = match &candidate.destination {
            None => ExtractStep::Reject,
            Some(parts) => {
                if !all_plain(parts, platform) {
                    ExtractStep::Reject
                } else if candidate.is_dir {
                    ExtractStep::CreateDir { mode: mode_for(kind, platform, candidate) }
                } else {
                    let name = last_component(parts);
                    if is_config_file(name.as_str()) && occupied(list, i, platform) {
                        ExtractStep::Keep
                    } else {
                        ExtractStep::WriteFile { mode: mode_for(kind, platform, candidate) }
                    }
                }
            },
        };
        steps.push(step);
        i += 1;
    }
    steps
}

/// The files below the installation directory after the first `upto` steps
/// were carried out on `files`: each file's content by the components of
/// its path. A step that writes puts the entry's content at its destination;
/// no other step changes a file.
pub open spec fn carried_out(
    files: Map<Seq<Seq<char>>, Seq<u8>>,
    list: Seq<Candidate>,
    steps: Seq<ExtractStep>,
    contents: Seq<Seq<u8>>,
    upto: int,
) -> Map<Seq<Seq<char>>, Seq<u8>>
    decreases upto,
{
    if upto <= 0 {
        files
    } else {
        let before = carried_out(files, list, steps, contents, upto - 1);
        match (steps[upto - 1], list[upto - 1].target()) {
            (ExtractStep::WriteFile { .. }, Some(path)) => before.insert(path, contents[upto - 1]),
            _ => before,
        }
    }
}

/// A configuration file that is there before extraction begins is not
/// written: the step for an entry that would land on it is `Keep`.
pub proof fn lemma_present_config_is_kept(
    kind: ArchiveKind,
    platform: Platform,
    list: Seq<Candidate>,
    i: int,
)
    requires
        0 <= i < list.len(),
        list[i].place(platform) is Some,
        !list[i].is_dir,
        list[i].present,
        is_protected(list[i].file_name()),
    ensures
        step_at(kind, platform, list, i) == ExtractStep::Keep,
{
}

/// Of two files in one archive that land on the same configuration file,
/// the later one is not written: what the first wrote stays.
pub proof fn lemma_config_is_written_once(
    kind: ArchiveKind,
    platform: Platform,
    list: Seq<Candidate>,
    i: int,
    j: int,
)
    requires
        0 <= i < j < list.len(),
        list[j].place(platform) is Some,
        list[i].target() == list[j].target(),
        !list[j].is_dir,
        is_protected(list[j].file_name()),
    ensures
        step_at(kind, platform, list, j) == ExtractStep::Keep,
{
    assert(leaves_behind(list[i], list[j], platform));
}

/// Extraction writes nothing outside the installation directory: wherever
/// a step creates or writes, whoever made the candidate, the destination is
/// made of plain components.
pub proof fn lemma_steps_stay_inside(
    kind: ArchiveKind,
    platform: Platform,
    list: Seq<Candidate>,
    i: int,
)
    requires
        0 <= i < list.len(),
        step_at(kind, platform, list, i) != ExtractStep::Reject,
    ensures
        list[i].target() is Some,
        are_plain(list[i].target()->0, platform),
{
}

/// A candidate made from an entry of an archive is rejected only where the
/// entry has no path or its path does not resolve: where the path resolves,
/// the candidate has a place.
pub proof fn lemma_resolved_candidate_has_place(
    candidate: Candidate,
    entry: ArchiveEntry,
    platform: Platform,
)
    requires
        is_candidate_of(candidate, entry, platform),
    ensures
        candidate.place(platform) == destination_of(entry, platform),
{
    if entry.path is Some {
        lemma_resolved_is_confined(entry.path->0@, platform);
    }
}

/// Extraction leaves a configuration file that is there byte for byte as
/// it was. Whatever the archive holds: if a file with a protected name is
/// among the files before extraction, and the probe reported its path as
/// existing for every entry that lands on it, then after any number of the
/// planned steps the file is still there with the content it had.
pub proof fn lemma_extraction_preserves_config(
    kind: ArchiveKind,
    platform: Platform,
    files: Map<Seq<Seq<char>>, Seq<u8>>,
    list: Seq<Candidate>,
    steps: Seq<ExtractStep>,
    contents: Seq<Seq<u8>>,
    path: Seq<Seq<char>>,
    upto: int,
)
    requires
        0 <= upto <= list.len(),
        steps.len() == list.len(),
        contents.len() == list.len(),
        forall|i: int|
            0 <= i < steps.len() ==> #[trigger] steps[i] == step_at(kind, platform, list, i),
        files.contains_key(path),
        is_protected(file_name_of(path)),
        forall|i: int|
            0 <= i < list.len() && (#[trigger] list[i]).target() == Some(path) ==> list[i].present,
    ensures
        carried_out(files, list, steps, contents, upto).contains_key(path),
        carried_out(files, list, steps, contents, upto)[path] == files[path],
    decreases upto,
{
    if upto > 0 {
        lemma_extraction_preserves_config(
            kind,
            platform,
            files,
            list,
            steps,
            contents,
            path,
            upto - 1,
        );
        let i = upto - 1;
        assert(steps[i] == step_at(kind, platform, list, i));
        if list[i].target() == Some(path) {
            assert(list[i].present);
            assert(list[i].file_name() == file_name_of(path));
        }
    }
}

/// What an entry wrote stays where no later entry is written to the same
/// place: after the step of the entry at `k` and any number of further
/// steps, its destination holds its content.
pub proof fn lemma_last_write_stays(
    kind: ArchiveKind,
    platform: Platform,
    files: Map<Seq<Seq<char>>, Seq<u8>>,
    list: Seq<Candidate>,
    steps: Seq<ExtractStep>,
    contents: Seq<Seq<u8>>,
    k: int,
    upto: int,
)
    requires
        0 <= k < upto <= list.len(),
        steps.len() == list.len(),
        contents.len() == list.len(),
        forall|i: int|
            0 <= i < steps.len() ==> #[trigger] steps[i] == step_at(kind, platform, list, i),
        steps[k] is WriteFile,
        forall|j: int|
            k < j < list.len() && (#[trigger] steps[j]) is WriteFile ==> list[j].target()
                != list[k].target(),
    ensures
        list[k].target() is Some,
        carried_out(files, list, steps, contents, upto).contains_key(list[k].target()->0),
        carried_out(files, list, steps, contents, upto)[list[k].target()->0] == contents[k],
    decreases upto,
{
    assert(steps[k] == step_at(kind, platform, list, k));
    if upto > k + 1 {
        lemma_last_write_stays(kind, platform, files, list, steps, contents, k, upto - 1);
        assert(steps[upto - 1] is WriteFile ==> list[upto - 1].target() != list[k].target());
    }
}

/// An entry with a place inside the installation directory that is a file
/// and finds its destination free is written, whatever its name.
pub proof fn lemma_free_place_is_written(
    kind: ArchiveKind,
    platform: Platform,
    list: Seq<Candidate>,
    k: int,
)
    requires
        0 <= k < list.len(),
        list[k].place(platform) is Some,
        !list[k].is_dir,
        !is_occupied(list, k, platform),
    ensures
        step_at(kind, platform, list, k) is WriteFile,
{
}

} // verus!
