//! File operations of the agent: the limit on what is read, the entries of a
//! listing and their order, and the messages of what went wrong.

use crate::protocol::{FileEntry, FileEntryView};
use crate::text::{decimal, decimal_u64};
use vstd::prelude::*;
use vstd::utf8::encode_utf8;

verus! {

/// Maximum size of a file that is read, in bytes (10 MiB).
pub const MAX_READ_SIZE: u64 = 10 * 1024 * 1024;

/// The message for a file that is too large to be read.
pub open spec fn too_large_message(path: Seq<char>, size: u64) -> Seq<char> {
    "file '"@ + path + "' is too large ("@ + decimal(size as nat) + " bytes, max "@ + decimal(
        MAX_READ_SIZE as nat,
    ) + " bytes)"@
}

/// Whether a file of `size` bytes may be read: one above 10 MiB is refused,
/// before any of it is read.
pub fn check_read_size(path: &str, size: u64) -> (r: Result<(), String>)
    ensures
        r is Ok <==> size <= MAX_READ_SIZE,
        r matches Err(m) ==> m@ == too_large_message(path@, size),
{
    if size > MAX_READ_SIZE {
        let found: String = decimal_u64(size);
        let limit: String = decimal_u64(MAX_READ_SIZE);
        Err(
            String::from_str("file '").concat(path).concat("' is too large (").concat(
                found.as_str(),
            ).concat(" bytes, max ").concat(limit.as_str()).concat(" bytes)"),
        )
    } else {
        Ok(())
    }
}

/// An operation on the filesystem that can fail.
#[derive(Debug, Clone, Copy, PartialEq, Eq, Structural)]
pub enum FsStep {
    /// Asking for the size of a file.
    Stat,
    /// Reading a file.
    Read,
    /// Creating the directories above a file.
    CreateDirectories,
    /// Writing a file.
    Write,
    /// Opening a directory.
    ReadDirectory,
    /// Reading one entry of a directory.
    ReadEntry,
    /// Asking for the metadata of an entry.
    Metadata,
}

impl FsStep {
    /// The message for a step that failed on `path` with `detail`. The two
    /// steps on an entry of a directory do not name a path.
    pub open spec fn failure_text(self, path: Seq<char>, detail: Seq<char>) -> Seq<char> {
        match self {
            FsStep::Stat => "failed to stat '"@ + path + "': "@ + detail,
            FsStep::Read => "failed to read '"@ + path + "': "@ + detail,
            FsStep::CreateDirectories => "failed to create directories for '"@ + path + "': "@
                + detail,
            FsStep::Write => "failed to write '"@ + path + "': "@ + detail,
            FsStep::ReadDirectory => "failed to read directory '"@ + path + "': "@ + detail,
            FsStep::ReadEntry => "failed to read entry: "@ + detail,
            FsStep::Metadata => "failed to get metadata: "@ + detail,
        }
    }

    /// The message for a step that failed on `path` with `detail`.
    pub fn failure(&self, path: &str, detail: &str) -> (m: String)
        ensures
            m@ == self.failure_text(path@, detail@),
    {
        match self {
            FsStep::Stat => String::from_str("failed to stat '").concat(path).concat(
                "': ",
            ).concat(detail),
            FsStep::Read => String::from_str("failed to read '").concat(path).concat(
                "': ",
            ).concat(detail),
            FsStep::CreateDirectories => String::from_str(
                "failed to create directories for '",
            ).concat(path).concat("': ").concat(detail),
            FsStep::Write => String::from_str("failed to write '").concat(path).concat(
                "': ",
            ).concat(detail),
            FsStep::ReadDirectory => String::from_str("failed to read directory '").concat(
                path,
            ).concat("': ").concat(detail),
            FsStep::ReadEntry => String::from_str("failed to read entry: ").concat(detail),
            FsStep::Metadata => String::from_str("failed to get metadata: ").concat(detail),
        }
    }
}

/// The entry of a listing for what the filesystem says of a name: only a
/// regular file reports its size, anything else reports 0.
pub fn make_entry(name: String, is_dir: bool, is_file: bool, len: u64) -> (e: FileEntry)
    ensures
        e@ == (FileEntryView {
            name: name@,
            is_dir,
            size: if is_file {
                len
            } else {
                0
            },
        }),
{
    FileEntry {
        name,
        is_dir,
        size: if is_file {
            len
        } else {
            0
        },
    }
}

/// Whether `a` comes before `b`, or is `b`, in the order of byte strings:
/// the first byte in which they differ decides, and a beginning of a string
/// comes before the string.
pub open spec fn bytes_le(a: Seq<u8>, b: Seq<u8>) -> bool
    decreases a.len(),
{
    if a.len() == 0 {
        true
    } else if b.len() == 0 {
        false
    } else if a[0] != b[0] {
        a[0] < b[0]
    } else {
        bytes_le(a.drop_first(), b.drop_first())
    }
}

/// The order of byte strings is a total order: every string is at its own
/// place, of two different strings one comes first, and what comes before
/// something that comes before a third comes before the third.
pub proof fn lemma_bytes_le_is_total_order(a: Seq<u8>, b: Seq<u8>, c: Seq<u8>)
    ensures
        bytes_le(a, a),
        bytes_le(a, b) || bytes_le(b, a),
        bytes_le(a, b) && bytes_le(b, a) ==> a == b,
        bytes_le(a, b) && bytes_le(b, c) ==> bytes_le(a, c),
    decreases a.len(),
{
    if a.len() > 0 {
        lemma_bytes_le_is_total_order(a.drop_first(), a.drop_first(), a.drop_first());
        if b.len() > 0 {
            if c.len() > 0 {
                lemma_bytes_le_is_total_order(a.drop_first(), b.drop_first(), c.drop_first());
            } else {
                lemma_bytes_le_is_total_order(a.drop_first(), b.drop_first(), b.drop_first());
            }
            if a[0] == b[0] && bytes_le(a, b) && bytes_le(b, a) {
                assert(a.drop_first() == b.drop_first());
                assert(a =~= seq![a[0]] + a.drop_first());
                assert(b =~= seq![b[0]] + b.drop_first());
            }
        }
    } else {
        if bytes_le(b, a) {
            assert(b.len() == 0);
            assert(a =~= b);
        }
    }
}

/// Whether the name `a` comes before the name `b`, or is `b`: names are
/// ordered as the byte strings of their UTF-8 forms.
pub open spec fn name_le(a: Seq<char>, b: Seq<char>) -> bool {
    bytes_le(encode_utf8(a), encode_utf8(b))
}

/// Whether entries are in ascending order of their names.
pub open spec fn sorted_by_name(entries: Seq<FileEntry>) -> bool {
    forall|i: int, j: int|
        0 <= i < j < entries.len() ==> name_le(
            (#[trigger] entries[i]).name@,
            (#[trigger] entries[j]).name@,
        )
}

/// `slice::sort_by`, with the order of `String` on the names: sorts the
/// entries by name. The entries are the same as before, each as often as
/// before; they stand in ascending order of their names.
#[verifier::external_body]
fn sort_by_name(entries: &mut Vec<FileEntry>)
    ensures
        final(entries)@.to_multiset() == old(entries)@.to_multiset(),
        sorted_by_name(final(entries)@),
{
    entries.sort_by(|a, b| a.name.cmp(&b.name));
}

/// Puts the entries of a listing in ascending order of their names.
pub fn sort_entries(entries: Vec<FileEntry>) -> (sorted: Vec<FileEntry>)
    ensures
        sorted@.to_multiset() == entries@.to_multiset(),
        sorted@.len() == entries@.len(),
        sorted_by_name(sorted@),
{
    let mut sorted: Vec<FileEntry> = entries;
    sort_by_name(&mut sorted);
    proof {
        sorted@.to_multiset_ensures();
        entries@.to_multiset_ensures();
    }
    sorted
}

} // verus!
