//! Release archives: which kinds are accepted, and what a zip archive held
//! in memory contains.

use crate::error::CommandError;
use crate::text::{ends_with, lowercase, lowered_chars};
use vstd::prelude::*;

verus! {

/// `zip::ZipArchive`, the reader of a zip archive. Nothing inside it is
/// visible here.
#[verifier::external_type_specification]
#[verifier::external_body]
#[verifier::reject_recursive_types(R)]
pub struct ExZipArchive<R>(zip::ZipArchive<R>);

/// `std::io::Cursor`, a reading position over bytes in memory. Nothing
/// inside it is visible here.
#[verifier::external_type_specification]
#[verifier::external_body]
#[verifier::reject_recursive_types(T)]
pub struct ExCursor<T>(std::io::Cursor<T>);

/// `zip::result::ZipError`, the failure of the zip reader. Only its text is
/// used.
#[verifier::external_type_specification]
#[verifier::external_body]
pub struct ExZipError(zip::result::ZipError);

/// `std::io::Error`, the failure of a read. Only its text is used.
#[verifier::external_type_specification]
#[verifier::external_body]
pub struct ExIoError(std::io::Error);

/// The kinds of archive that can be installed.
#[derive(Clone, Copy, Debug, PartialEq, Eq, Structural)]
pub enum ArchiveKind {
    /// A zip archive.
    Zip,
    /// A tar archive compressed with gzip.
    TarGz,
}

/// The kind of archive that a lower-cased address names by its suffix.
pub open spec fn kind_of_lowered(lower: Seq<char>) -> Option<ArchiveKind> {
    if ".zip"@.is_suffix_of(lower) {
        Some(ArchiveKind::Zip)
    } else if ".tar.gz"@.is_suffix_of(lower) || ".tgz"@.is_suffix_of(lower) {
        Some(ArchiveKind::TarGz)
    } else {
        None
    }
}

/// The kind of archive that an address names, whatever the case of its
/// letters.
pub open spec fn kind_of_url(url: Seq<char>) -> Option<ArchiveKind> {
    kind_of_lowered(lowercase(url))
}

/// Whether a response status reports success.
pub open spec fn is_success(status: u16) -> bool {
    200 <= status <= 299
}

/// The kind of archive that a lower-cased address names.
pub fn archive_kind_lowered(lower: &Vec<char>) -> (kind: Option<ArchiveKind>)
    ensures
        kind == kind_of_lowered(lower@),
{
    if ends_with(lower, ".zip") {
        Some(ArchiveKind::Zip)
    } else if ends_with(lower, ".tar.gz") || ends_with(lower, ".tgz") {
        Some(ArchiveKind::TarGz)
    } else {
        None
    }
}

/// The kind of archive behind a download address. An address with no
/// recognized suffix is refused, and the refusal carries the address.
pub fn archive_kind(url: &str) -> (kind: Result<ArchiveKind, CommandError>)
    ensures
        match kind_of_url(url@) {
            Some(k) => kind == Ok::<ArchiveKind, CommandError>(k),
            None => kind matches Err(CommandError::UnsupportedFormat { url: refused })
                && refused@ == url@,
        },
{
    let lower = lowered_chars(url);
    match archive_kind_lowered(&lower) {
        Some(kind) => Ok(kind),
        None => Err(CommandError::UnsupportedFormat { url: url.to_owned() }),
    }
}

/// Accepts a download whose status reports success and refuses any other
/// with that status.
pub fn check_download_status(status: u16) -> (checked: Result<(), CommandError>)
    ensures
        is_success(status) ==> checked == Ok::<(), CommandError>(()),
        !is_success(status) ==> checked == Err::<(), CommandError>(
            CommandError::DownloadFailed { status },
        ),
{
    if 200 <= status && status <= 299 {
        Ok(())
    } else {
        Err(CommandError::DownloadFailed { status })
    }
}

/// What a zip archive records about one entry, besides its content.
#[derive(Clone, Debug, PartialEq, Eq)]
pub struct EntryHeader {
    /// The entry's name as stored.
    pub name: String,
    /// The entry's name as a path, where the archive reader found it safe to
    /// join to a directory.
    pub enclosed: Option<String>,
    /// The permission bits stored with the entry.
    pub unix_mode: Option<u32>,
}

/// An entry header as plain values.
pub struct HeaderText {
    pub name: Seq<char>,
    pub enclosed: Option<Seq<char>>,
    pub unix_mode: Option<u32>,
}

impl View for EntryHeader {
    type V = HeaderText;

    open spec fn view(&self) -> HeaderText {
        HeaderText {
            name: self.name@,
            enclosed: match self.enclosed {
                Some(path) => Some(path@),
                None => None,
            },
            unix_mode: self.unix_mode,
        }
    }
}

/// The entries that a zip archive holds, in the order of its central
/// directory: for each entry its header where the reader opens the entry
/// and `None` where it does not.
pub uninterp spec fn zip_entries(archive: zip::ZipArchive<std::io::Cursor<Vec<u8>>>) -> Seq<
    Option<HeaderText>,
>;

/// The contents of the entries that a zip archive holds, in the same order:
/// for each entry its uncompressed content where the reader opens and
/// unpacks it and `None` where it does not.
pub uninterp spec fn zip_payloads(archive: zip::ZipArchive<std::io::Cursor<Vec<u8>>>) -> Seq<
    Option<Seq<u8>>,
>;

/// The entries of the zip archive that the bytes hold, each as the archive
/// has it, or `None` where the reader does not take the bytes for a zip
/// archive.
pub uninterp spec fn zip_directory(bytes: Seq<u8>) -> Option<Seq<Option<HeaderText>>>;

/// Whether the reader opens every entry.
pub open spec fn opens_all(entries: Seq<Option<HeaderText>>) -> bool {
    forall|i: int| 0 <= i < entries.len() ==> (#[trigger] entries[i]) is Some
}

/// `zip::ZipArchive::new` on a cursor over the bytes: reads the central
/// directory. Whether the reader takes the bytes, and which entries the
/// archive then has, depends on the bytes alone; both are known here only
/// by name.
#[verifier::external_body]
fn zip_open(bytes: Vec<u8>) -> (opened: Result<
    zip::ZipArchive<std::io::Cursor<Vec<u8>>>,
    zip::result::ZipError,
>)
    ensures
        match opened {
            Ok(archive) => zip_directory(bytes@) == Some(zip_entries(archive)),
            Err(_) => zip_directory(bytes@) is None,
        },
{
    zip::ZipArchive::new(std::io::Cursor::new(bytes))
}

/// `zip::ZipArchive::len`: the number of entries in the archive, which is
/// also the number of contents.
#[verifier::external_body]
fn zip_len(archive: &zip::ZipArchive<std::io::Cursor<Vec<u8>>>) -> (count: usize)
    ensures
        count == zip_entries(*archive).len(),
        count == zip_payloads(*archive).len(),
{
    archive.len()
}

/// `zip::ZipArchive::by_index`, then `name`, `enclosed_name` and `unix_mode`
/// of the entry found. The archive's entries stay as they are. The call
/// succeeds exactly for an index below the number of entries whose entry
/// the reader opens, which depends on the archive alone, and the header
/// that comes back is the one at that index.
#[verifier::external_body]
fn zip_header(archive: &mut zip::ZipArchive<std::io::Cursor<Vec<u8>>>, index: usize) -> (header:
    Result<EntryHeader, zip::result::ZipError>)
    ensures
        zip_entries(*final(archive)) == zip_entries(*old(archive)),
        zip_payloads(*final(archive)) == zip_payloads(*old(archive)),
        match header {
            Ok(found) => index < zip_entries(*old(archive)).len() && zip_entries(
                *old(archive),
            )[index as int] == Some(found@),
            Err(_) => index >= zip_entries(*old(archive)).len() || zip_entries(
                *old(archive),
            )[index as int] is None,
        },
{
    let file = archive.by_index(index)?;
    Ok(
        EntryHeader {
            name: file.name().to_string(),
            enclosed: file.enclosed_name().map(|path| path.to_string_lossy().into_owned()),
            unix_mode: file.unix_mode(),
        },
    )
}

/// `zip::ZipArchive::by_index`, then `read_to_end` on the entry found: the
/// entry's content, uncompressed. The archive's entries stay as they are.
/// The call succeeds exactly for an index below the number of entries whose
/// entry the reader opens and unpacks, which depends on the archive alone.
#[verifier::external_body]
fn zip_payload(archive: &mut zip::ZipArchive<std::io::Cursor<Vec<u8>>>, index: usize) -> (payload:
    Result<Vec<u8>, zip::result::ZipError>)
    ensures
        zip_entries(*final(archive)) == zip_entries(*old(archive)),
        zip_payloads(*final(archive)) == zip_payloads(*old(archive)),
        match payload {
            Ok(data) => index < zip_payloads(*old(archive)).len() && zip_payloads(
                *old(archive),
            )[index as int] == Some(data@),
            Err(_) => index >= zip_payloads(*old(archive)).len() || zip_payloads(
                *old(archive),
            )[index as int] is None,
        },
{
    let mut file = archive.by_index(index)?;
    let mut data = Vec::new();
    std::io::Read::read_to_end(&mut file, &mut data)?;
    Ok(data)
}

/// The text that `zip::result::ZipError` displays.
#[verifier::external_body]
fn zip_error_text(error: &zip::result::ZipError) -> (text: String) {
    error.to_string()
}

/// The failure that stands for an error of the archive reader.
fn archive_error(error: &zip::result::ZipError) -> (failure: CommandError)
    ensures
        failure is ArchiveReadError,
{
    CommandError::ArchiveReadError { detail: zip_error_text(error) }
}

/// The content of a gzip stream, uncompressed, or `None` where the bytes are
/// no sound gzip stream.
pub uninterp spec fn gunzipped(body: Seq<u8>) -> Option<Seq<u8>>;

/// `flate2::read::GzDecoder::new` on the bytes, then `read_to_end` on the
/// decoder: the uncompressed content of the stream. The result depends on
/// the bytes alone; it is known here only by name.
#[verifier::external_body]
fn gz_decode(body: &[u8]) -> (decoded: Result<Vec<u8>, std::io::Error>)
    ensures
        match decoded {
            Ok(data) => gunzipped(body@) == Some(data@),
            Err(_) => gunzipped(body@) is None,
        },
{
    let mut data = Vec::new();
    std::io::Read::read_to_end(&mut flate2::read::GzDecoder::new(body), &mut data)?;
    Ok(data)
}

/// The text that `std::io::Error` displays.
#[verifier::external_body]
fn io_error_text(error: &std::io::Error) -> (text: String) {
    error.to_string()
}

/// Uncompresses a gzip stream. Bytes that are no sound gzip stream give
/// `ArchiveReadError`.
pub fn gunzip(body: &[u8]) -> (unpacked: Result<Vec<u8>, CommandError>)
    ensures
        match gunzipped(body@) {
            Some(data) => unpacked matches Ok(found) && found@ == data,
            None => unpacked matches Err(failure) && failure is ArchiveReadError,
        },
{
    match gz_decode(body) {
        Ok(data) => Ok(data),
        Err(error) => Err(CommandError::ArchiveReadError { detail: io_error_text(&error) }),
    }
}

/// A zip archive held in memory.
pub struct ZipSource {
    archive: zip::ZipArchive<std::io::Cursor<Vec<u8>>>,
}

impl ZipSource {
    /// The archive's entries, in order: for each its header where the
    /// reader opens it.
    pub closed spec fn entries(&self) -> Seq<Option<HeaderText>> {
        zip_entries(self.archive)
    }

    /// The contents of the archive's entries, in order: for each its content
    /// where the reader opens and unpacks it.
    pub closed spec fn payloads(&self) -> Seq<Option<Seq<u8>>> {
        zip_payloads(self.archive)
    }

    /// Opens the archive that the bytes hold: the source that comes back
    /// has the entries of that archive. Bytes that the reader does not take
    /// for a zip archive give `ArchiveReadError`, and no others do.
    pub fn open(bytes: Vec<u8>) -> (opened: Result<ZipSource, CommandError>)
        ensures
            match zip_directory(bytes@) {
                Some(directory) => opened matches Ok(source) && source.entries() == directory,
                None => opened matches Err(failure) && failure is ArchiveReadError,
            },
    {
        match zip_open(bytes) {
            Ok(archive) => Ok(ZipSource { archive }),
            Err(error) => Err(archive_error(&error)),
        }
    }

    /// The number of entries.
    pub fn len(&self) -> (count: usize)
        ensures
            count == self.entries().len(),
            count == self.payloads().len(),
    {
        zip_len(&self.archive)
    }

    /// The headers of all entries, in order. The reading succeeds exactly
    /// where the reader opens every entry; otherwise it ends with
    /// `ArchiveReadError`. The archive stays as it is.
    pub fn read_headers(&mut self) -> (read: Result<Vec<EntryHeader>, CommandError>)
        ensures
            final(self).entries() == old(self).entries(),
            final(self).payloads() == old(self).payloads(),
            match read {
                Ok(found) => {
                    &&& opens_all(old(self).entries())
                    &&& found@.len() == old(self).entries().len()
                    &&& forall|i: int|
                        0 <= i < found@.len() ==> old(self).entries()[i] == Some(
                            (#[trigger] found@[i])@,
                        )
                },
                Err(failure) => failure is ArchiveReadError && !opens_all(old(self).entries()),
            },
    {
        let count = zip_len(&self.archive);
        let mut found: Vec<EntryHeader> = Vec::new();
        let mut index: usize = 0;
        while index < count
            invariant
                index <= count,
                count == old(self).entries().len(),
                self.entries() == old(self).entries(),
                self.payloads() == old(self).payloads(),
                found@.len() == index,
                forall|i: int|
                    0 <= i < index ==> old(self).entries()[i] == Some((#[trigger] found@[i])@),
            decreases count - index,
        {
            match zip_header(&mut self.archive, index) {
                Ok(header) => found.push(header),
                Err(error) => {
                    proof {
                        assert(old(self).entries()[index as int] is None);
                    }
                    return Err(archive_error(&error));
                },
            }
            index += 1;
        }
        proof {
            assert forall|i: int| 0 <= i < old(self).entries().len() implies (
            #[trigger] old(self).entries()[i]) is Some by {
                assert(old(self).entries()[i] == Some(found@[i]@));
            }
        }
        Ok(found)
    }

    /// The content of the entry at `index`. The reading succeeds exactly
    /// for an index below the number of entries whose entry the reader
    /// opens and unpacks; otherwise it ends with `ArchiveReadError`. The
    /// archive stays as it is.
    pub fn payload(&mut self, index: usize) -> (read: Result<Vec<u8>, CommandError>)
        ensures
            final(self).entries() == old(self).entries(),
            final(self).payloads() == old(self).payloads(),
            match read {
                Ok(data) => index < old(self).payloads().len() && old(self).payloads()[index as int]
                    == Some(data@),
                Err(failure) => failure is ArchiveReadError && (index >= old(
                    self,
                ).payloads().len() || old(self).payloads()[index as int] is None),
            },
    {
        match zip_payload(&mut self.archive, index) {
            Ok(data) => Ok(data),
            Err(error) => Err(archive_error(&error)),
        }
    }
}

} // verus!
