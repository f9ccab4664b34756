//! Reading the packaged product: a zip archive held in memory, taken apart
//! entry by entry.
//!
//! The archive format is read by the `zip` crate. What that crate returns is
//! believed, not proved: the items marked `external_body` below say what is
//! believed of it. Everything built on them is proved.
//!
//! Whether an entry's name stays inside the directory it is unpacked into is
//! asked twice: of the archive reader, which reads the name as the platform
//! reads paths, and of a walk of this library's own along the components of
//! the name, by either separator. An entry is written only where both find
//! that it stays inside.

use vstd::prelude::*;

use crate::text::{ends_with_slash, has_trailing_slash, stays_inside, walk_stays_inside};

verus! {

/// `zip::ZipArchive`, the archive reader. Nothing is known of what is inside
/// a value of it but what the names below say.
#[verifier::external_type_specification]
#[verifier::external_body]
#[verifier::reject_recursive_types(R)]
pub struct ExZipArchive<R>(zip::ZipArchive<R>);

/// `std::io::Cursor`, through which the archive reader reads bytes that are
/// held in memory.
#[verifier::external_type_specification]
#[verifier::external_body]
#[verifier::reject_recursive_types(T)]
pub struct ExCursor<T>(std::io::Cursor<T>);

/// `zip::read::ZipFile`, an entry that the archive reader has handed out.
#[verifier::external_type_specification]
#[verifier::external_body]
pub struct ExZipFile<'a>(zip::read::ZipFile<'a>);

/// `zip::result::ZipError`, the archive reader's error. It is passed on and
/// never looked into.
#[verifier::external_type_specification]
#[verifier::external_body]
pub struct ExZipError(zip::result::ZipError);

/// `zip::result::InvalidPassword`, the archive reader's word for an entry
/// that it cannot decrypt. It is passed on and never looked into.
#[verifier::external_type_specification]
#[verifier::external_body]
pub struct ExInvalidPassword(zip::result::InvalidPassword);

/// `std::io::Error`, the error of a failed read. It is passed on and never
/// looked into.
#[verifier::external_type_specification]
#[verifier::external_body]
pub struct ExIoError(std::io::Error);

/// What an archive holds at one place of its directory: nothing that can be
/// opened (`None`), or the declared name of the entry with its decoded
/// content, where the content can be decoded.
pub type EntryModel = Option<(Seq<char>, Option<Seq<u8>>)>;

/// The directory that `zip::ZipArchive::new` reads out of `data`, entry by
/// entry in the directory's order, or `None` where it refuses `data`. Each
/// entry is as [`archive_entries`] describes it.
pub uninterp spec fn directory_of(data: Seq<u8>) -> Option<Seq<Option<(Seq<char>, Option<Seq<u8>>)>>>;

/// What an opened archive holds, entry by entry in the directory's order.
/// An entry is `None` where `by_index_decrypt` with an empty password does not
/// hand it out, and else as [`opened_entry`] describes it.
pub uninterp spec fn archive_entries(
    archive: zip::ZipArchive<std::io::Cursor<Vec<u8>>>,
) -> Seq<Option<(Seq<char>, Option<Seq<u8>>)>>;

/// What an entry handed out by the archive holds: the name that `name`
/// returns, and the bytes that reading it to its end yields, or `None` where
/// that reading fails.
pub uninterp spec fn opened_entry(file: zip::read::ZipFile<'_>) -> (Seq<char>, Option<Seq<u8>>);

/// `zip::ZipArchive::new` on a cursor over `data`. The directory it reads is a
/// function of the bytes alone, and is given the name [`directory_of`]; the
/// archive that comes back holds that directory.
#[verifier::external_body]
fn parse_archive(data: Vec<u8>) -> (r: Result<
    zip::ZipArchive<std::io::Cursor<Vec<u8>>>,
    zip::result::ZipError,
>)
    ensures
        match r {
            Ok(archive) => directory_of(data@) == Some(archive_entries(archive)),
            Err(_) => directory_of(data@) is None,
        },
{
    zip::ZipArchive::new(std::io::Cursor::new(data))
}

/// `zip::ZipArchive::len`: the number of entries of the directory.
#[verifier::external_body]
fn entry_count(archive: &zip::ZipArchive<std::io::Cursor<Vec<u8>>>) -> (n: usize)
    ensures
        n == archive_entries(*archive).len(),
{
    archive.len()
}

/// `zip::ZipArchive::by_index_decrypt` with an empty password, which for an
/// entry that is not encrypted is not used at all. This function is taken in
/// place of `by_index` because it hands back as a value what `by_index`
/// panics on: an entry that carries an AES header and is not marked as
/// encrypted.
///
/// The call changes nothing of what the archive holds. No entry is handed
/// out for an index at or past the end of the directory. Below the end, an
/// entry is handed out exactly where the archive holds one at `index`, and
/// is then that entry.
#[verifier::external_body]
fn open_entry<'a>(
    archive: &'a mut zip::ZipArchive<std::io::Cursor<Vec<u8>>>,
    index: usize,
    password: &[u8],
) -> (r: Result<Result<zip::read::ZipFile<'a>, zip::result::InvalidPassword>, zip::result::ZipError>)
    requires
        password@.len() == 0,
    ensures
        archive_entries(*final(archive)) == archive_entries(*old(archive)),
        match r {
            Ok(Ok(file)) => index < archive_entries(*old(archive)).len() && archive_entries(
                *old(archive),
            )[index as int] == Some(opened_entry(file)),
            _ => index < archive_entries(*old(archive)).len() ==> archive_entries(
                *old(archive),
            )[index as int] is None,
        },
{
    archive.by_index_decrypt(index, password)
}

/// `zip::read::ZipFile::name`: the declared name of the entry.
#[verifier::external_body]
fn entry_name(file: &zip::read::ZipFile<'_>) -> (r: String)
    ensures
        r@ == opened_entry(*file).0,
{
    file.name().to_string()
}

/// Whether a name begins at the root: its first character is a slash.
pub open spec fn begins_at_root(name: Seq<char>) -> bool {
    name.len() >= 1 && name[0] == '/'
}

/// Whether a name begins by stepping out of where it stands: it is `..`, or
/// it begins with `../`.
pub open spec fn begins_with_parent(name: Seq<char>) -> bool {
    name.len() >= 2 && name[0] == '.' && name[1] == '.' && (name.len() == 2 || name[2] == '/')
}

/// Whether a name leads out of the directory it is joined to, whatever the
/// platform: it holds a NUL, begins at the root, or begins by stepping out.
pub open spec fn plainly_escapes(name: Seq<char>) -> bool {
    name.contains('\0') || begins_at_root(name) || begins_with_parent(name)
}

/// Whether every platform reads a name alike as a path: it holds neither a
/// backslash, which parts components on some platforms only, nor a colon,
/// which marks a drive on some platforms only.
pub open spec fn reads_alike(name: Seq<char>) -> bool {
    !name.contains('\\') && !name.contains(':')
}

/// `zip::read::ZipFile::enclosed_name`: the declared name as a path, where the
/// crate finds that it stays inside the directory it is joined to. It
/// refuses a name that holds a NUL; then it walks the components of the path
/// as the platform reads them, refuses a prefix or a root, and refuses a
/// parent component that would bring the count of plain components below
/// nothing.
///
/// What is said here of every name: a path that comes back is the declared
/// name; it holds no NUL; its first component is neither the root nor the
/// parent directory. What is said of a name that every platform reads alike,
/// which holds no backslash and no colon: a path comes back exactly where the
/// name holds no NUL, does not begin with a slash, and the walk along its
/// components stays inside. This rests on how the standard library is
/// documented to part a path: by slashes, with empty components and single
/// dots left out.
#[verifier::external_body]
fn entry_enclosed_name(file: &zip::read::ZipFile<'_>) -> (r: Option<String>)
    ensures
        r matches Some(path) ==> path@ == opened_entry(*file).0 && !plainly_escapes(path@) && (
        reads_alike(path@) ==> stays_inside(path@)),
        r is None ==> !reads_alike(opened_entry(*file).0) || plainly_escapes(
            opened_entry(*file).0,
        ) || !stays_inside(opened_entry(*file).0),
{
    match file.enclosed_name() {
        Some(path) => Some(path.to_string_lossy().into_owned()),
        None => None,
    }
}

/// `std::io::Read::read_to_end` on an entry that has not been read from: its
/// decoded content, or the error that stopped the decoding.
#[verifier::external_body]
fn entry_content(file: &mut zip::read::ZipFile<'_>) -> (r: Result<Vec<u8>, std::io::Error>)
    ensures
        match r {
            Ok(bytes) => opened_entry(*old(file)).1 == Some(bytes@),
            Err(_) => opened_entry(*old(file)).1 is None,
        },
{
    let mut bytes = Vec::new();
    match std::io::Read::read_to_end(file, &mut bytes) {
        Ok(_) => Ok(bytes),
        Err(e) => Err(e),
    }
}

/// What is to be done with an entry.
#[derive(Clone, Copy, Debug, PartialEq, Eq, Structural)]
pub enum EntryKind {
    /// Its name is not admitted: it is passed over.
    Rejected,
    /// It stands for a directory.
    Directory,
    /// It stands for a file.
    File,
}

/// The kind of an entry named `name`, given whether the name is admitted.
pub open spec fn kind_of(name: Seq<char>, admitted: bool) -> EntryKind {
    if !admitted {
        EntryKind::Rejected
    } else if ends_with_slash(name) {
        EntryKind::Directory
    } else {
        EntryKind::File
    }
}

/// Decides what is to be done with an entry, given whether its name is
/// admitted.
pub fn classify(name: &str, admitted: bool) -> (kind: EntryKind)
    ensures
        kind == kind_of(name@, admitted),
{
    if !admitted {
        EntryKind::Rejected
    } else if has_trailing_slash(name) {
        EntryKind::Directory
    } else {
        EntryKind::File
    }
}

/// What was found at one place of an archive.
#[derive(Clone, Debug, PartialEq, Eq)]
pub enum EntryReading {
    /// Nothing that can be opened, or a file whose content cannot be decoded.
    Unreadable,
    /// An entry whose name is not admitted: it leads out of the destination.
    Rejected { name: String },
    /// A directory.
    Directory { name: String },
    /// A file with its content.
    File { name: String, data: Vec<u8> },
}

/// A reading as a mathematical value.
pub enum EntryReadingView {
    Unreadable,
    Rejected { name: Seq<char> },
    Directory { name: Seq<char> },
    File { name: Seq<char>, data: Seq<u8> },
}

impl View for EntryReading {
    type V = EntryReadingView;

    open spec fn view(&self) -> EntryReadingView {
        match self {
            EntryReading::Unreadable => EntryReadingView::Unreadable,
            EntryReading::Rejected { name } => EntryReadingView::Rejected { name: name@ },
            EntryReading::Directory { name } => EntryReadingView::Directory { name: name@ },
            EntryReading::File { name, data } => EntryReadingView::File {
                name: name@,
                data: data@,
            },
        }
    }
}

/// Whether a name may be written at all, given whether the archive reader
/// found it to stay inside the destination. The walk along its components
/// must stay inside, and it must not plainly lead out. For a name that every
/// platform reads alike that is all, and the reader's finding adds nothing;
/// for any other name the reader must have found it to stay inside as well.
pub open spec fn admitted(name: Seq<char>, contained: bool) -> bool {
    stays_inside(name) && !plainly_escapes(name) && (contained || reads_alike(name))
}

/// The reading of `entry`, given whether the archive reader found its name
/// to stay inside the destination.
pub open spec fn reading_of(entry: EntryModel, contained: bool) -> EntryReadingView {
    match entry {
        None => EntryReadingView::Unreadable,
        Some((name, content)) => match kind_of(name, admitted(name, contained)) {
            EntryKind::Rejected => EntryReadingView::Rejected { name },
            EntryKind::Directory => EntryReadingView::Directory { name },
            EntryKind::File => match content {
                None => EntryReadingView::Unreadable,
                Some(data) => EntryReadingView::File { name, data },
            },
        },
    }
}

/// The entry at `index`, which is nothing that can be opened where `index` is
/// at or past the end.
pub open spec fn entry_at(entries: Seq<EntryModel>, index: nat) -> EntryModel {
    if index < entries.len() {
        entries[index as int]
    } else {
        None
    }
}

/// A zip archive held in memory.
pub struct Archive {
    inner: zip::ZipArchive<std::io::Cursor<Vec<u8>>>,
}

impl Archive {
    /// What the archive holds, entry by entry.
    pub closed spec fn entries(&self) -> Seq<EntryModel> {
        archive_entries(self.inner)
    }

    /// Reads the directory of the archive that `data` holds. `None` where
    /// `data` is no archive that can be read.
    pub fn open(data: Vec<u8>) -> (r: Option<Archive>)
        ensures
            match r {
                Some(archive) => directory_of(data@) == Some(archive.entries()),
                None => directory_of(data@) is None,
            },
    {
        match parse_archive(data) {
            Ok(inner) => Some(Archive { inner }),
            Err(_) => None,
        }
    }

    /// The number of entries.
    pub fn len(&self) -> (n: usize)
        ensures
            n == self.entries().len(),
    {
        entry_count(&self.inner)
    }

    /// Reads the entry at `index`: its name, what is to be done with it, and
    /// for a file its content. The archive holds afterwards what it held
    /// before. A name is admitted where the walk along its components stays
    /// inside and the archive reader finds the same. Of a name that every
    /// platform reads alike the two agree, and the reading is one; of any
    /// other name the reader's finding depends on the platform, and the
    /// reading is right for what it found.
    pub fn read(&mut self, index: usize) -> (r: EntryReading)
        ensures
            final(self).entries() == old(self).entries(),
            r@ == reading_of(entry_at(old(self).entries(), index as nat), true) || r@
                == reading_of(entry_at(old(self).entries(), index as nat), false),
    {
        let no_password: Vec<u8> = Vec::new();
        match open_entry(&mut self.inner, index, no_password.as_slice()) {
            Ok(Ok(mut file)) => {
                let name = entry_name(&file);
                let contained = match entry_enclosed_name(&file) {
                    Some(_) => true,
                    None => false,
                };
                let inside = walk_stays_inside(name.as_str());
                assert((contained && inside) == admitted(name@, contained));
                match classify(name.as_str(), contained && inside) {
                    EntryKind::Rejected => EntryReading::Rejected { name },
                    EntryKind::Directory => EntryReading::Directory { name },
                    EntryKind::File => match entry_content(&mut file) {
                        Ok(data) => EntryReading::File { name, data },
                        Err(_) => EntryReading::Unreadable,
                    },
                }
            },
            _ => EntryReading::Unreadable,
        }
    }
}

} // verus!
