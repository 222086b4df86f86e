//! Reading a zip archive that is held in memory, entry by entry.

use vstd::prelude::*;
use crate::error::ErrorKind;
use crate::error::ErrorView;
use crate::error::InstallError;
use crate::text::ends_with_slash;
use vstd::string::StrSliceExecFns;

verus! {

/// `zip::ZipArchive`, the archive reader: carried through, never looked
/// into.
#[verifier::external_type_specification]
#[verifier::external_body]
#[verifier::reject_recursive_types(R)]
pub struct ExZipArchive<R>(zip::ZipArchive<R>);

/// `std::io::Cursor`, which lets the archive reader seek in bytes held in
/// memory.
#[verifier::external_type_specification]
#[verifier::external_body]
#[verifier::reject_recursive_types(T)]
pub struct ExCursor<T>(std::io::Cursor<T>);

/// `zip::result::ZipError`, the archive reader's error.
#[verifier::external_type_specification]
#[verifier::external_body]
pub struct ExZipError(zip::result::ZipError);

/// What the archive says of one entry before its content is read.
#[derive(Debug)]
pub struct EntryHeader {
    /// The declared name, if it can be decoded as text.
    pub name: Option<String>,
    /// The components of the path that the archive reader makes of the
    /// declared name, if the reader finds that it stays inside the directory
    /// it is unpacked into. The reader passes over a leading root or drive,
    /// so this may be present for a rooted name: see
    /// [`EntryHeader::confined`].
    pub safe_path: Option<Vec<String>>,
}

/// The mathematical value of an [`EntryHeader`].
pub struct HeaderView {
    pub name: Option<Seq<char>>,
    pub safe_path: Option<Seq<Seq<char>>>,
}

/// The view of a path: its components, each as a sequence of characters.
pub open spec fn path_view(path: Seq<String>) -> Seq<Seq<char>> {
    Seq::new(path.len(), |i: int| path[i]@)
}

impl View for EntryHeader {
    type V = HeaderView;

    open spec fn view(&self) -> HeaderView {
        HeaderView {
            name: match self.name {
                Some(name) => Some(name@),
                None => None,
            },
            safe_path: match self.safe_path {
                Some(path) => Some(path_view(path@)),
                None => None,
            },
        }
    }
}

/// One entry of an archive, as the archive reader presents it: what
/// asking for the entry yields, and what reading its content yields. Either
/// may be a complaint instead.
pub struct EntryView {
    pub header: Result<HeaderView, Seq<char>>,
    pub content: Result<Seq<u8>, Seq<char>>,
}

/// The entries that an open archive holds, in the order the archive
/// declares them.
pub uninterp spec fn archive_entries(archive: zip::ZipArchive<std::io::Cursor<Vec<u8>>>) -> Seq<
    EntryView,
>;

/// The archive reader's complaint about `bytes`, if `bytes` is not a zip
/// container that it can open.
pub uninterp spec fn archive_complaint(bytes: Seq<u8>) -> Option<Seq<char>>;

/// The entries that the archive reader finds in `bytes`, in the order the
/// archive declares them, where it can open `bytes`.
pub uninterp spec fn archive_contents(bytes: Seq<u8>) -> Seq<EntryView>;

/// What an archive reader's error says when printed.
pub uninterp spec fn zip_error_text(error: zip::result::ZipError) -> Seq<char>;

/// The archive error for a complaint of the archive reader.
pub open spec fn archive_failure(complaint: Seq<char>) -> ErrorView {
    ErrorView { kind: ErrorKind::ArchiveFormat, message: complaint }
}

/// `zip::ZipArchive::new` on a cursor over `bytes`. It succeeds exactly on
/// the bytes for which [`archive_complaint`] names no complaint, and the
/// archive then holds the entries that [`archive_contents`] names for these
/// bytes; on failure the error prints as the complaint named.
#[verifier::external_body]
fn open_archive(bytes: Vec<u8>) -> (r: Result<
    zip::ZipArchive<std::io::Cursor<Vec<u8>>>,
    zip::result::ZipError,
>)
    ensures
        match r {
            Ok(archive) => archive_complaint(bytes@) is None && archive_entries(archive)
                == archive_contents(bytes@),
            Err(error) => archive_complaint(bytes@) == Some(zip_error_text(error)),
        },
{
    zip::ZipArchive::new(std::io::Cursor::new(bytes))
}

/// `zip::ZipArchive::len`: the number of entries the archive holds.
#[verifier::external_body]
fn archive_len(archive: &zip::ZipArchive<std::io::Cursor<Vec<u8>>>) -> (n: usize)
    ensures
        n == archive_entries(*archive).len(),
{
    archive.len()
}

/// `zip::ZipArchive::by_index`, and of the entry it yields
/// `zip::read::ZipFile::name` and `zip::read::ZipFile::enclosed_name`, the
/// latter split into its components. For an index in range the result is the
/// header of that entry, for any other index an error; the archive holds
/// afterwards what it held before.
#[verifier::external_body]
fn entry_header(archive: &mut zip::ZipArchive<std::io::Cursor<Vec<u8>>>, index: usize) -> (r:
    Result<EntryHeader, zip::result::ZipError>)
    ensures
        archive_entries(*final(archive)) == archive_entries(*old(archive)),
        index >= archive_entries(*old(archive)).len() ==> r is Err,
        index < archive_entries(*old(archive)).len() ==> match r {
            Ok(header) => archive_entries(*old(archive))[index as int].header == Ok::<
                HeaderView,
                Seq<char>,
            >(header@),
            Err(error) => archive_entries(*old(archive))[index as int].header == Err::<
                HeaderView,
                Seq<char>,
            >(zip_error_text(error)),
        },
{
    let file = archive.by_index(index)?;
    Ok(
        EntryHeader {
            name: file.name().ok().map(|name| name.into_owned()),
            safe_path: file.enclosed_name().map(
                |path| path.iter().map(|part| part.to_string_lossy().into_owned()).collect(),
            ),
        },
    )
}

/// `zip::ZipArchive::by_index`, and of the entry it yields
/// `std::io::Read::read_to_end`. For an index in range the result is the
/// whole content of that entry, for any other index an error; the archive
/// holds afterwards what it held before.
#[verifier::external_body]
fn entry_content(archive: &mut zip::ZipArchive<std::io::Cursor<Vec<u8>>>, index: usize) -> (r:
    Result<Vec<u8>, zip::result::ZipError>)
    ensures
        archive_entries(*final(archive)) == archive_entries(*old(archive)),
        index >= archive_entries(*old(archive)).len() ==> r is Err,
        index < archive_entries(*old(archive)).len() ==> match r {
            Ok(content) => archive_entries(*old(archive))[index as int].content == Ok::<
                Seq<u8>,
                Seq<char>,
            >(content@),
            Err(error) => archive_entries(*old(archive))[index as int].content == Err::<
                Seq<u8>,
                Seq<char>,
            >(zip_error_text(error)),
        },
{
    let mut file = archive.by_index(index)?;
    let mut content = Vec::new();
    std::io::Read::read_to_end(&mut file, &mut content)?;
    Ok(content)
}

/// The `Display` text of a `zip::result::ZipError`.
#[verifier::external_body]
fn describe_zip_error(error: &zip::result::ZipError) -> (text: String)
    ensures
        text@ == zip_error_text(*error),
{
    error.to_string()
}

/// A zip archive opened from bytes in memory.
pub struct Archive {
    inner: zip::ZipArchive<std::io::Cursor<Vec<u8>>>,
}

impl View for Archive {
    type V = Seq<EntryView>;

    closed spec fn view(&self) -> Seq<EntryView> {
        archive_entries(self.inner)
    }
}

/// What opening `bytes` as an archive yields: the entries found in `bytes`
/// where the reader has no complaint about them, else the archive error that
/// carries the complaint.
pub open spec fn opened(bytes: Seq<u8>) -> Result<Seq<EntryView>, ErrorView> {
    match archive_complaint(bytes) {
        None => Ok(archive_contents(bytes)),
        Some(complaint) => Err(archive_failure(complaint)),
    }
}

/// The value of an attempt to open an archive.
pub open spec fn opened_view(r: Result<Archive, InstallError>) -> Result<Seq<EntryView>, ErrorView> {
    match r {
        Ok(archive) => Ok(archive@),
        Err(error) => Err(error@),
    }
}

/// What asking for the header of `entry` yields.
pub open spec fn header_outcome(entry: EntryView) -> Result<HeaderView, ErrorView> {
    match entry.header {
        Ok(header) => Ok(header),
        Err(complaint) => Err(archive_failure(complaint)),
    }
}

/// What reading the content of `entry` yields.
pub open spec fn content_outcome(entry: EntryView) -> Result<Seq<u8>, ErrorView> {
    match entry.content {
        Ok(content) => Ok(content),
        Err(complaint) => Err(archive_failure(complaint)),
    }
}

impl Archive {
    /// Opens `bytes` as a zip archive. Bytes that are not a zip container
    /// are an archive error that carries the reader's message.
    pub fn open(bytes: Vec<u8>) -> (r: Result<Archive, InstallError>)
        ensures
            opened_view(r) == opened(bytes@),
    {
        match open_archive(bytes) {
            Ok(inner) => Ok(Archive { inner }),
            Err(error) => Err(
                InstallError {
                    kind: ErrorKind::ArchiveFormat,
                    message: describe_zip_error(&error),
                },
            ),
        }
    }

    /// The number of entries.
    pub fn len(&self) -> (n: usize)
        ensures
            n == self@.len(),
    {
        archive_len(&self.inner)
    }

    /// The header of entry `index`. An entry that the reader cannot
    /// present, or that does not exist, is an archive error that carries
    /// the reader's message.
    pub fn header(&mut self, index: usize) -> (r: Result<EntryHeader, InstallError>)
        ensures
            final(self)@ == old(self)@,
            r is Err ==> r->Err_0.kind == ErrorKind::ArchiveFormat,
            index >= old(self)@.len() ==> r is Err,
            index < old(self)@.len() ==> match r {
                Ok(header) => header_outcome(old(self)@[index as int]) == Ok::<
                    HeaderView,
                    ErrorView,
                >(header@),
                Err(error) => header_outcome(old(self)@[index as int]) == Err::<
                    HeaderView,
                    ErrorView,
                >(error@),
            },
    {
        match entry_header(&mut self.inner, index) {
            Ok(header) => Ok(header),
            Err(error) => Err(
                InstallError {
                    kind: ErrorKind::ArchiveFormat,
                    message: describe_zip_error(&error),
                },
            ),
        }
    }

    /// The whole content of entry `index`. Content that cannot be read, or
    /// of an entry that does not exist, is an archive error that carries
    /// the reader's message.
    pub fn content(&mut self, index: usize) -> (r: Result<Vec<u8>, InstallError>)
        ensures
            final(self)@ == old(self)@,
            r is Err ==> r->Err_0.kind == ErrorKind::ArchiveFormat,
            index >= old(self)@.len() ==> r is Err,
            index < old(self)@.len() ==> match r {
                Ok(content) => content_outcome(old(self)@[index as int]) == Ok::<
                    Seq<u8>,
                    ErrorView,
                >(content@),
                Err(error) => content_outcome(old(self)@[index as int]) == Err::<
                    Seq<u8>,
                    ErrorView,
                >(error@),
            },
    {
        match entry_content(&mut self.inner, index) {
            Ok(content) => Ok(content),
            Err(error) => Err(
                InstallError {
                    kind: ErrorKind::ArchiveFormat,
                    message: describe_zip_error(&error),
                },
            ),
        }
    }
}

/// What an entry is unpacked as.
#[derive(Clone, Copy, Debug, PartialEq, Eq, Structural)]
pub enum EntryKind {
    File,
    Directory,
}

/// An entry that can be unpacked: the place it goes to, relative to the
/// directory that the archive is unpacked into, and what it is. Its content
/// is read from the archive when it is needed.
#[derive(Debug)]
pub struct ArchiveEntry {
    pub path: Vec<String>,
    pub kind: EntryKind,
}

/// The mathematical value of an [`ArchiveEntry`].
pub struct ArchiveEntryView {
    pub path: Seq<Seq<char>>,
    pub kind: EntryKind,
}

impl View for ArchiveEntry {
    type V = ArchiveEntryView;

    open spec fn view(&self) -> ArchiveEntryView {
        ArchiveEntryView { path: path_view(self.path@), kind: self.kind }
    }
}

/// Whether `name` begins with `/` or `\`, or with a letter followed by `:`.
pub open spec fn begins_rooted(name: Seq<char>) -> bool {
    ||| name.len() >= 1 && (name[0] == '/' || name[0] == '\\')
    ||| name.len() >= 2 && name[1] == ':' && (('a' <= name[0] && name[0] <= 'z') || ('A'
        <= name[0] && name[0] <= 'Z'))
}

impl HeaderView {
    /// The entry is a directory: its name ends in `/`.
    pub open spec fn is_directory(self) -> bool {
        match self.name {
            Some(name) => name.len() > 0 && name.last() == '/',
            None => false,
        }
    }

    /// The declared name is rooted: it begins with `/` or `\`, or with a
    /// drive, that is a letter followed by `:`.
    pub open spec fn is_rooted(self) -> bool {
        match self.name {
            Some(name) => begins_rooted(name),
            None => false,
        }
    }

    /// The entry to unpack for this header: none where the declared name is
    /// rooted or the reader found no path that stays inside, else a
    /// directory or a file at the path the reader gave.
    pub open spec fn confined(self) -> Option<ArchiveEntryView> {
        match self.safe_path {
            None => None,
            Some(path) => if self.is_rooted() {
                None
            } else {
                Some(
                    ArchiveEntryView {
                        path,
                        kind: if self.is_directory() {
                            EntryKind::Directory
                        } else {
                            EntryKind::File
                        },
                    },
                )
            },
        }
    }
}

impl EntryHeader {
    /// Whether the entry is a directory: its name ends in `/`.
    pub fn is_directory(&self) -> (d: bool)
        ensures
            d == self@.is_directory(),
    {
        match &self.name {
            Some(name) => ends_with_slash(name.as_str()),
            None => false,
        }
    }

    /// Whether the declared name is rooted: it begins with `/` or `\`, or
    /// with a drive, that is a letter followed by `:`.
    pub fn is_rooted(&self) -> (rooted: bool)
        ensures
            rooted == self@.is_rooted(),
    {
        match &self.name {
            Some(name) => {
                let text = name.as_str();
                let n = text.unicode_len();
                if n == 0 {
                    return false;
                }
                let first = text.get_char(0);
                if first == '/' || first == '\\' {
                    return true;
                }
                if n < 2 {
                    return false;
                }
                let letter = ('a' <= first && first <= 'z') || ('A' <= first && first <= 'Z');
                letter && text.get_char(1) == ':'
            },
            None => false,
        }
    }

    /// The entry to unpack for this header, or `None` where the declared
    /// path cannot be confined to the directory that is unpacked into: such
    /// an entry is left out. That is so where the name is rooted, and where
    /// the archive reader found no path that stays inside.
    pub fn confined(self) -> (r: Option<ArchiveEntry>)
        ensures
            match r {
                Some(entry) => self@.confined() == Some(entry@),
                None => self@.confined() is None,
            },
    {
        let kind = if self.is_directory() {
            EntryKind::Directory
        } else {
            EntryKind::File
        };
        if self.is_rooted() {
            return None;
        }
        match self.safe_path {
            None => None,
            Some(path) => Some(ArchiveEntry { path, kind }),
        }
    }
}

} // verus!
