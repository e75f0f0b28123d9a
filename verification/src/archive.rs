//! Building the deflate ZIP archives that a package ships, in memory.
//!
//! The `zip` crate does the container work behind trusted wrappers; the
//! entry loop and the error handling around it are verified. The
//! writer's contents are tracked by an uninterpreted model — the
//! sequence of entries added so far — and the finished bytes are named
//! as a function of that model: the writer runs over an in-memory
//! cursor with fixed default options, so its output depends on the
//! entries alone. Tests read the archives back through the same crate.

use std::io::Cursor;
use vstd::prelude::*;
use zip::write::FileOptions;
use zip::{CompressionMethod, ZipWriter};

use crate::error::Error;

verus! {

/// One entry of an archive to build: a POSIX-style relative path and,
/// for a file, its contents.
pub struct ArchiveEntry {
    /// The entry's path inside the archive.
    pub name: String,
    /// The file contents; empty for a directory.
    pub data: Vec<u8>,
    /// Whether this entry is a directory.
    pub is_dir: bool,
}

/// A ZIP archive being written to an in-memory buffer. Opaque: the
/// `zip` crate owns the container state; `zip_model` says what it
/// holds, and `finish` hands the finished bytes back.
#[verifier::external_body]
pub struct KinZipWriter {
    inner: ZipWriter<Cursor<Vec<u8>>>,
}

/// What the writer holds: the entries added so far, in order, each as
/// (path, contents, is-directory) — for the file entry still being
/// written, with the bytes written to it so far. The wrappers below
/// state how every call moves this model.
pub uninterp spec fn zip_model(w: KinZipWriter) -> Seq<(Seq<char>, Seq<u8>, bool)>;

/// The archive that `zip::ZipWriter::finish` produces for the given
/// entries. Deterministic: the writer runs in memory with fixed
/// default options (deflate, constant timestamps), so the bytes are a
/// function of the entries alone.
pub uninterp spec fn zip_bytes_of(entries: Seq<(Seq<char>, Seq<u8>, bool)>) -> Seq<u8>;

impl KinZipWriter {
    /// Relies on zip::ZipWriter::new: a writer over an empty in-memory
    /// buffer, holding no entries.
    #[verifier::external_body]
    pub fn new() -> (r: KinZipWriter)
        ensures
            zip_model(r) == Seq::<(Seq<char>, Seq<u8>, bool)>::empty(),
    {
        KinZipWriter { inner: ZipWriter::new(Cursor::new(Vec::new())) }
    }

    /// Relies on zip::ZipWriter::add_directory: on success, one
    /// explicit directory entry under the given path joins the writer.
    #[verifier::external_body]
    pub fn add_dir(&mut self, archive_path: &str) -> (r: Result<(), Error>)
        ensures
            r matches Err(e) ==> e == Error::ArchiveFailed,
            r is Ok ==> zip_model(*final(self)) == zip_model(*old(self)).push(
                (archive_path@, Seq::<u8>::empty(), true),
            ),
    {
        match self.inner.add_directory(archive_path, FileOptions::default()) {
            Ok(()) => Ok(()),
            Err(_) => Err(Error::ArchiveFailed),
        }
    }

    /// Relies on zip::ZipWriter::start_file: on success, a
    /// deflate-compressed file entry under the given path joins the
    /// writer, empty so far.
    #[verifier::external_body]
    fn start_file(&mut self, archive_path: &str) -> (r: Result<(), Error>)
        ensures
            r matches Err(e) ==> e == Error::ArchiveFailed,
            r is Ok ==> zip_model(*final(self)) == zip_model(*old(self)).push(
                (archive_path@, Seq::<u8>::empty(), false),
            ),
    {
        let options = FileOptions::default().compression_method(CompressionMethod::Deflated);
        match self.inner.start_file(archive_path, options) {
            Ok(()) => Ok(()),
            Err(_) => Err(Error::ArchiveFailed),
        }
    }

    /// Relies on std::io::Write::write_all on the zip writer: appends
    /// the bytes to the open file entry — the last entry added — and
    /// errors when no file entry is open.
    #[verifier::external_body]
    fn write_data(&mut self, data: &Vec<u8>) -> (r: Result<(), Error>)
        ensures
            r matches Err(e) ==> e == Error::ArchiveFailed,
            r is Ok ==> zip_model(*old(self)).len() > 0 && zip_model(*final(self)) == zip_model(
                *old(self),
            ).update(
                zip_model(*old(self)).len() - 1,
                (
                    zip_model(*old(self)).last().0,
                    zip_model(*old(self)).last().1 + data@,
                    zip_model(*old(self)).last().2,
                ),
            ),
    {
        match std::io::Write::write_all(&mut self.inner, data.as_slice()) {
            Ok(()) => Ok(()),
            Err(_) => Err(Error::ArchiveFailed),
        }
    }

    /// Add one file entry with its contents.
    pub fn add_file(&mut self, archive_path: &str, data: &Vec<u8>) -> (r: Result<(), Error>)
        ensures
            r matches Err(e) ==> e == Error::ArchiveFailed,
            r is Ok ==> zip_model(*final(self)) == zip_model(*old(self)).push(
                (archive_path@, data@, false),
            ),
    {
        match self.start_file(archive_path) {
            Ok(()) => (),
            Err(_) => {
                return Err(Error::ArchiveFailed);
            },
        }
        match self.write_data(data) {
            Ok(()) => {
                proof {
                    assert(Seq::<u8>::empty() + data@ =~= data@);
                    assert(zip_model(*self) =~= zip_model(*old(self)).push(
                        (archive_path@, data@, false),
                    ));
                }
                Ok(())
            },
            Err(_) => Err(Error::ArchiveFailed),
        }
    }

    /// Relies on zip::ZipWriter::finish: writes the central directory
    /// and hands back the archive bytes for the entries the writer
    /// holds.
    #[verifier::external_body]
    pub fn finish(&mut self) -> (r: Result<Vec<u8>, Error>)
        ensures
            r matches Err(e) ==> e == Error::ArchiveFailed,
            r matches Ok(b) ==> b@ == zip_bytes_of(zip_model(*old(self))),
    {
        match self.inner.finish() {
            Ok(cursor) => Ok(cursor.into_inner()),
            Err(_) => Err(Error::ArchiveFailed),
        }
    }
}

/// The model of a caller-supplied entry list: names and kinds as given;
/// a directory contributes no contents whatever its `data` field holds.
pub open spec fn entries_model(entries: Seq<ArchiveEntry>) -> Seq<(Seq<char>, Seq<u8>, bool)> {
    entries.map_values(
        |e: ArchiveEntry|
            (
                e.name@,
                if e.is_dir {
                    Seq::<u8>::empty()
                } else {
                    e.data@
                },
                e.is_dir,
            ),
    )
}

/// Build a whole archive from its entries, in order: directories as
/// explicit entries, files deflate-compressed with their contents. On
/// success the bytes are exactly the writer's output for those entries.
pub fn build_archive(entries: &Vec<ArchiveEntry>) -> (r: Result<Vec<u8>, Error>)
    ensures
        r matches Err(e) ==> e == Error::ArchiveFailed,
        r matches Ok(b) ==> b@ == zip_bytes_of(entries_model(entries@)),
{
    let mut writer = KinZipWriter::new();
    let mut i: usize = 0;
    while i < entries.len()
        invariant
            i <= entries@.len(),
            zip_model(writer) == entries_model(entries@.take(i as int)),
        decreases entries@.len() - i,
    {
        let entry = &entries[i];
        let added = if entry.is_dir {
            writer.add_dir(entry.name.as_str())
        } else {
            writer.add_file(entry.name.as_str(), &entry.data)
        };
        match added {
            Ok(()) => (),
            Err(_) => {
                return Err(Error::ArchiveFailed);
            },
        }
        proof {
            assert(zip_model(writer) =~= entries_model(entries@.take(i as int + 1)));
        }
        i = i + 1;
    }
    proof {
        assert(entries@.take(entries@.len() as int) =~= entries@);
    }
    writer.finish()
}

} // verus!
