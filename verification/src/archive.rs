//! Reading a plugin's manifest out of a fetched archive.
//!
//! The archive is a ZIP file held in memory. It is opened and read by the
//! `zip` crate; what this module adds is the rule for which entry is the
//! manifest and what each way of not getting it means.

use crate::paths::{json_file_name, manifest_file_name};
use std::io::Cursor;
use std::io::Read;
use vstd::prelude::*;
use vstd::slice::slice_to_vec;
use zip::result::ZipError;
use zip::ZipArchive;

verus! {

/// `std::io::Cursor`, carried through as an opaque value.
#[verifier::external_type_specification]
#[verifier::external_body]
#[verifier::reject_recursive_types(T)]
pub struct ExCursor<T>(std::io::Cursor<T>);

/// `zip::ZipArchive`, carried through as an opaque value.
#[verifier::external_type_specification]
#[verifier::external_body]
#[verifier::reject_recursive_types(R)]
pub struct ExZipArchive<R>(zip::ZipArchive<R>);

/// An archive held in memory.
pub type MemoryArchive = ZipArchive<Cursor<Vec<u8>>>;

/// What an archive holds under one name, as a reader finds it.
pub enum Entry {
    /// The entry's content, which is UTF-8 text.
    Text(Seq<char>),
    /// The entry is listed but cannot be opened; the reason, as text.
    Unavailable(Seq<char>),
    /// The entry opens but its content cannot be read as text; the reason.
    Unreadable(Seq<char>),
}

/// The entries of an archive, by name: for each name in the archive's
/// directory, what `zip::ZipArchive::by_name` and reading the entry to its end
/// yield.
pub uninterp spec fn archive_entries(archive: MemoryArchive) -> Map<Seq<char>, Entry>;

/// The outcome of looking for a manifest in a fetched body.
#[derive(Debug, PartialEq, Eq)]
pub enum ManifestRead {
    /// The body is not an archive that can be opened; the reason.
    Corrupt(String),
    /// The archive has no entry of the manifest's name; the reason.
    Missing(String),
    /// The entry is there but cannot be opened; the reason.
    Unavailable(String),
    /// The entry opens but is not readable text; the reason.
    Unreadable(String),
    /// The manifest.
    Text(String),
}

/// The mathematical value of a [`ManifestRead`].
pub enum ManifestReadView {
    Corrupt(Seq<char>),
    Missing(Seq<char>),
    Unavailable(Seq<char>),
    Unreadable(Seq<char>),
    Text(Seq<char>),
}

impl View for ManifestRead {
    type V = ManifestReadView;

    open spec fn view(&self) -> ManifestReadView {
        match self {
            ManifestRead::Corrupt(cause) => ManifestReadView::Corrupt(cause@),
            ManifestRead::Missing(cause) => ManifestReadView::Missing(cause@),
            ManifestRead::Unavailable(cause) => ManifestReadView::Unavailable(cause@),
            ManifestRead::Unreadable(cause) => ManifestReadView::Unreadable(cause@),
            ManifestRead::Text(text) => ManifestReadView::Text(text@),
        }
    }
}

/// What the `zip` crate prints for a name that the archive does not list.
pub open spec fn not_found_text() -> Seq<char> {
    "specified file not found in archive"@
}

/// What looking up `name` among `entries` yields.
pub open spec fn lookup(entries: Map<Seq<char>, Entry>, name: Seq<char>) -> ManifestReadView {
    if entries.dom().contains(name) {
        match entries[name] {
            Entry::Text(text) => ManifestReadView::Text(text),
            Entry::Unavailable(cause) => ManifestReadView::Unavailable(cause),
            Entry::Unreadable(cause) => ManifestReadView::Unreadable(cause),
        }
    } else {
        ManifestReadView::Missing(not_found_text())
    }
}

/// What `zip::ZipArchive::new` makes of `bytes`: an archive with these
/// entries, or the text of the reason why the bytes do not open as one.
pub uninterp spec fn opened(bytes: Seq<u8>) -> Result<Map<Seq<char>, Entry>, Seq<char>>;

/// `zip::ZipArchive::new` on a cursor over `bytes`. Whether the bytes open,
/// and as what, depends on the bytes alone. A failure is handed back as the
/// text that its `Display` prints.
#[verifier::external_body]
fn open_archive(bytes: Vec<u8>) -> (r: Result<MemoryArchive, String>)
    ensures
        match r {
            Ok(archive) => opened(bytes@) == Ok::<Map<Seq<char>, Entry>, Seq<char>>(
                archive_entries(archive),
            ),
            Err(cause) => opened(bytes@) == Err::<Map<Seq<char>, Entry>, Seq<char>>(cause@),
        },
{
    ZipArchive::new(Cursor::new(bytes)).map_err(|e| format!("{e:#}"))
}

/// `zip::ZipArchive::by_name`, with the entry that it hands out read to the
/// end as text. The call fails with `FileNotFound` exactly for a name that
/// the archive's directory does not list. Every failure is handed back as the
/// text that its `Display` prints.
#[verifier::external_body]
fn read_entry(archive: &mut MemoryArchive, name: &str) -> (r: ManifestRead)
    ensures
        r@ == lookup(archive_entries(*old(archive)), name@),
{
    let mut entry = match archive.by_name(name) {
        Ok(entry) => entry,
        Err(e @ ZipError::FileNotFound) => return ManifestRead::Missing(format!("{e:#}")),
        Err(e) => return ManifestRead::Unavailable(format!("{e:#}")),
    };
    let mut text = String::new();
    match entry.read_to_string(&mut text) {
        Ok(_) => ManifestRead::Text(text),
        Err(e) => ManifestRead::Unreadable(format!("{e:#}")),
    }
}

/// Reads the manifest of the plugin `internal_name` out of an open archive:
/// the entry named `<internal_name>.json`, as text.
pub fn manifest_in(archive: &mut MemoryArchive, internal_name: &str) -> (r: ManifestRead)
    ensures
        r@ == lookup(archive_entries(*old(archive)), json_file_name(internal_name@)),
        !archive_entries(*old(archive)).dom().contains(json_file_name(internal_name@)) ==> r@
            == ManifestReadView::Missing(not_found_text()),
{
    let name = manifest_file_name(internal_name);
    read_entry(archive, name.as_str())
}

/// What looking for the manifest of `internal_name` in `body` yields.
pub open spec fn spec_read_manifest(body: Seq<u8>, internal_name: Seq<char>) -> ManifestReadView {
    match opened(body) {
        Ok(entries) => lookup(entries, json_file_name(internal_name)),
        Err(cause) => ManifestReadView::Corrupt(cause),
    }
}

/// Reads the manifest of the plugin `internal_name` out of a fetched body.
/// A body that does not open as an archive is reported as corrupt; an open
/// archive is read as [`manifest_in`] says.
pub fn read_manifest(body: &Vec<u8>, internal_name: &str) -> (r: ManifestRead)
    ensures
        r@ == spec_read_manifest(body@, internal_name@),
{
    match open_archive(slice_to_vec(body.as_slice())) {
        Ok(mut archive) => manifest_in(&mut archive, internal_name),
        Err(cause) => ManifestRead::Corrupt(cause),
    }
}

} // verus!
