//! Reading and writing profile archives.
//!
//! The archive format belongs to the `zip` crate. What this module knows of
//! it is stated on the handful of calls below and believed without proof;
//! everything around those calls is verified.

use std::io::Cursor;
use std::io::Read;
use std::io::Write;
use vstd::prelude::*;
use vstd::utf8::encode_utf8;
use vstd::utf8::is_ascii_chars_encode_utf8;
use zip::result::ZipError;
use zip::write::SimpleFileOptions;
use zip::CompressionMethod;
use zip::ZipArchive;
use zip::ZipWriter;

verus! {

/// `std::io::Cursor`, which lets an archive be read from memory.
#[verifier::external_type_specification]
#[verifier::external_body]
#[verifier::reject_recursive_types(T)]
pub struct ExCursor<T>(std::io::Cursor<T>);

/// `zip::ZipArchive`, an archive opened for reading.
#[verifier::external_type_specification]
#[verifier::external_body]
#[verifier::reject_recursive_types(R)]
pub struct ExZipArchive<R>(zip::ZipArchive<R>);

/// `zip::result::ZipError`, the error of every archive operation.
#[verifier::external_type_specification]
#[verifier::external_body]
pub struct ExZipError(zip::result::ZipError);

/// A `zip::ZipWriter` that collects an archive in memory.
#[verifier::external_body]
pub struct Packer {
    writer: ZipWriter<Cursor<Vec<u8>>>,
}

/// One archive entry: its name and its bytes.
pub type EntryModel = (Seq<char>, Seq<u8>);

/// How the bytes of an entry are stored in an archive.
#[derive(Debug, Clone, Copy, PartialEq, Eq, Structural)]
pub enum Compression {
    /// As they are.
    Stored,
    /// Deflate-compressed.
    Deflated,
}

/// Whether an archive lists what a writer took: it is accepted, it has one
/// entry for each entry taken, in the same order, and every entry that can
/// be read carries the name it was taken under.
pub open spec fn lists(listing: Option<Seq<Option<EntryModel>>>, taken: Seq<EntryModel>) -> bool {
    match listing {
        Some(listed) => listed.len() == taken.len() && forall|i: int|
            0 <= i < taken.len() ==> match #[trigger] listed[i] {
                Some(entry) => entry.0 == taken[i].0,
                None => true,
            },
        None => false,
    }
}

/// What a writer has taken so far: the entries started, in order, each with
/// the bytes handed over for it.
pub uninterp spec fn packer_entries(packer: Packer) -> Seq<EntryModel>;

/// What `zip::ZipArchive::new` makes of the given bytes: `None` where it
/// refuses them, else what the archive holds.
pub uninterp spec fn zip_listing(bytes: Seq<u8>) -> Option<Seq<Option<EntryModel>>>;

/// What an opened archive holds: for each index the entry's name and
/// uncompressed bytes, or `None` where the entry cannot be read.
pub uninterp spec fn archive_entries(archive: ZipArchive<Cursor<Vec<u8>>>) -> Seq<
    Option<EntryModel>,
>;

/// Calls `zip::ZipArchive::new` on an in-memory reader. The outcome is a
/// function of the bytes alone: the same bytes are refused or accepted alike,
/// and an accepted archive holds what [`zip_listing`] says.
#[verifier::external_body]
fn open_archive(bytes: Vec<u8>) -> (opened: Result<ZipArchive<Cursor<Vec<u8>>>, ZipError>)
    ensures
        match opened {
            Ok(archive) => zip_listing(bytes@) == Some(archive_entries(archive)),
            Err(_) => zip_listing(bytes@) is None,
        },
{
    ZipArchive::new(Cursor::new(bytes))
}

/// Calls `zip::ZipArchive::len`: the number of entries in the archive.
#[verifier::external_body]
fn archive_len(archive: &ZipArchive<Cursor<Vec<u8>>>) -> (len: usize)
    ensures
        len == archive_entries(*archive).len(),
{
    archive.len()
}

/// Calls `zip::ZipArchive::by_index` and reads the entry out: its name and
/// all of its bytes. Reading leaves what the archive holds unchanged, and
/// fails exactly for the entries that cannot be read.
#[verifier::external_body]
fn read_entry(archive: &mut ZipArchive<Cursor<Vec<u8>>>, index: usize) -> (entry: Result<
    (String, Vec<u8>),
    ZipError,
>)
    requires
        index < archive_entries(*old(archive)).len(),
    ensures
        archive_entries(*final(archive)) == archive_entries(*old(archive)),
        match entry {
            Ok((name, data)) => archive_entries(*old(archive))[index as int] == Some(
                (name@, data@),
            ),
            Err(_) => archive_entries(*old(archive))[index as int] is None,
        },
{
    let mut file = archive.by_index(index)?;
    let name = file.name()?.into_owned();
    let mut data = Vec::new();
    file.read_to_end(&mut data)?;
    Ok((name, data))
}

/// Calls `zip::ZipWriter::new` on an empty in-memory buffer. A new writer
/// has taken nothing.
#[verifier::external_body]
fn new_packer() -> (packer: Packer)
    ensures
        packer_entries(packer) == Seq::<EntryModel>::empty(),
{
    Packer { writer: ZipWriter::new(Cursor::new(Vec::new())) }
}

/// Calls `zip::ZipWriter::start_file` with the given compression method and
/// the other options as they are by default. The writer refuses a name that
/// it has taken already; where it accepts, a new entry with this name and no
/// bytes yet stands last. Nothing is claimed of a writer that has refused.
#[verifier::external_body]
fn start_file(packer: &mut Packer, name: &str, method: Compression) -> (started: Result<
    (),
    ZipError,
>)
    ensures
        started is Ok ==> {
            &&& forall|i: int|
                0 <= i < packer_entries(*old(packer)).len() ==> (#[trigger] packer_entries(
                    *old(packer),
                )[i]).0 != name@
            &&& packer_entries(*final(packer)) == packer_entries(*old(packer)).push(
                (name@, Seq::<u8>::empty()),
            )
        },
{
    let method = match method {
        Compression::Stored => CompressionMethod::Stored,
        Compression::Deflated => CompressionMethod::DEFLATE,
    };
    packer.writer.start_file(name, SimpleFileOptions::default().compression_method(method))
}

/// Calls `write_all` on the `zip::ZipWriter`. Where the call succeeds, all
/// of the bytes have gone to the entry last started, behind those it had.
/// Nothing is claimed of a writer that has failed.
#[verifier::external_body]
fn write_data(packer: &mut Packer, data: &[u8]) -> (written: Result<(), ZipError>)
    ensures
        written is Ok && packer_entries(*old(packer)).len() > 0 ==> packer_entries(
            *final(packer),
        ) == packer_entries(*old(packer)).drop_last().push(
            (
                packer_entries(*old(packer)).last().0,
                packer_entries(*old(packer)).last().1 + data@,
            ),
        ),
{
    packer.writer.write_all(data).map_err(ZipError::from)
}

/// Calls `zip::ZipWriter::finish` and hands out the bytes collected. The
/// archive records when it was written, so nothing is claimed of the bytes
/// themselves. What holds of every archive that comes back: it is written
/// from the writer's table of entries, so `zip::ZipArchive::new` accepts it
/// and finds one entry for each entry taken, in the same order and under the
/// same name. Nothing is claimed of what an entry's bytes read back as.
#[verifier::external_body]
fn finish(packer: Packer) -> (finished: Result<Vec<u8>, ZipError>)
    ensures
        finished matches Ok(bytes) ==> lists(zip_listing(bytes@), packer_entries(packer)),
{
    packer.writer.finish().map(Cursor::into_inner)
}

/// Whether the byte parts a path: a slash or a backslash.
pub open spec fn is_separator(byte: u8) -> bool {
    byte == 0x2f || byte == 0x5c
}

/// Whether a part that is exactly `..` begins at position `at` of the name.
pub open spec fn parent_part_at(name: Seq<u8>, at: int) -> bool {
    &&& 0 <= at
    &&& at + 2 <= name.len()
    &&& name[at] == 0x2e
    &&& name[at + 1] == 0x2e
    &&& (at == 0 || is_separator(name[at - 1]))
    &&& (at + 2 == name.len() || is_separator(name[at + 2]))
}

/// Whether a part that is exactly `..` begins at or after position `from`.
pub open spec fn parent_part_from(name: Seq<u8>, from: int) -> bool
    decreases name.len() - from,
{
    if from < 0 || from + 2 > name.len() {
        false
    } else {
        parent_part_at(name, from) || parent_part_from(name, from + 1)
    }
}

/// Whether an entry name, given by its bytes, stays inside the directory it
/// is extracted into: it is not empty, does not begin with a separator, and
/// none of its parts is `..`.
pub open spec fn safe_name(name: Seq<u8>) -> bool {
    &&& name.len() > 0
    &&& !is_separator(name[0])
    &&& !parent_part_from(name, 0)
}

/// Whether every entry carries a name that stays inside.
pub open spec fn safe_names(entries: Seq<EntryModel>) -> bool {
    forall|i: int| 0 <= i < entries.len() ==> safe_name(encode_utf8((#[trigger] entries[i]).0))
}

/// What [`parent_part_from`] finds.
pub proof fn lemma_parent_part_from(name: Seq<u8>, from: int)
    requires
        0 <= from,
    ensures
        parent_part_from(name, from) <==> exists|at: int| from <= at && parent_part_at(name, at),
    decreases name.len() - from,
{
    if from + 2 <= name.len() {
        lemma_parent_part_from(name, from + 1);
        if parent_part_from(name, from) && !parent_part_at(name, from) {
            let at = choose|at: int| from + 1 <= at && parent_part_at(name, at);
            assert(from <= at && parent_part_at(name, at));
        }
        if exists|at: int| from <= at && parent_part_at(name, at) {
            let at = choose|at: int| from <= at && parent_part_at(name, at);
            if at != from {
                assert(from + 1 <= at && parent_part_at(name, at));
            }
        }
    }
}

fn separates(byte: u8) -> (is: bool)
    ensures
        is == is_separator(byte),
{
    byte == 0x2f || byte == 0x5c
}

/// Whether an entry name stays inside the directory it is extracted into.
pub fn is_safe_name(name: &str) -> (safe: bool)
    ensures
        safe == safe_name(encode_utf8(name@)),
{
    let bytes = name.as_bytes();
    let len = bytes.len();
    if len == 0 || separates(bytes[0]) {
        return false;
    }
    if len < 2 {
        return true;
    }
    let mut at: usize = 0;
    while at < len - 1
        invariant
            len == bytes@.len(),
            len >= 2,
            at <= len - 1,
            bytes@ == encode_utf8(name@),
            !is_separator(bytes@[0]),
            parent_part_from(bytes@, 0) == parent_part_from(bytes@, at as int),
        decreases len - 1 - at,
    {
        if bytes[at] == 0x2e && bytes[at + 1] == 0x2e && (at == 0 || separates(bytes[at - 1])) && (
        at + 2 == len || separates(bytes[at + 2])) {
            assert(parent_part_at(bytes@, at as int));
            return false;
        }
        at += 1;
    }
    true
}

/// The models of a list of entries, in order.
pub open spec fn entry_models(entries: Seq<(String, Vec<u8>)>) -> Seq<EntryModel> {
    entries.map_values(|entry: (String, Vec<u8>)| (entry.0@, entry.1@))
}

/// The entries of a listing, provided the archive was accepted and every
/// entry in it can be read.
pub open spec fn spec_unpack(listing: Option<Seq<Option<EntryModel>>>) -> Option<Seq<EntryModel>> {
    match listing {
        Some(entries) => if forall|i: int| 0 <= i < entries.len() ==> entries[i] is Some {
            Some(entries.map_values(|entry: Option<EntryModel>| entry->0))
        } else {
            None
        },
        None => None,
    }
}

/// Reads every entry of an archive held in memory, in archive order.
/// An archive that is refused, or that holds an entry that cannot be read,
/// gives `None`.
pub fn unpack(bytes: Vec<u8>) -> (unpacked: Option<Vec<(String, Vec<u8>)>>)
    ensures
        match unpacked {
            Some(entries) => spec_unpack(zip_listing(bytes@)) == Some(entry_models(entries@)),
            None => spec_unpack(zip_listing(bytes@)) is None,
        },
{
    let ghost given = bytes@;
    match open_archive(bytes) {
        Err(_) => None,
        Ok(archive) => {
            let mut archive = archive;
            let ghost held = archive_entries(archive);
            let count = archive_len(&archive);
            let mut entries: Vec<(String, Vec<u8>)> = Vec::new();
            let mut index: usize = 0;
            while index < count
                invariant
                    given == bytes@,
                    zip_listing(given) == Some(held),
                    archive_entries(archive) == held,
                    count == held.len(),
                    index <= count,
                    entries@.len() == index,
                    forall|i: int|
                        0 <= i < index ==> held[i] == Some(
                            ((#[trigger] entries@[i]).0@, entries@[i].1@),
                        ),
                decreases count - index,
            {
                match read_entry(&mut archive, index) {
                    Ok(entry) => {
                        entries.push(entry);
                    },
                    Err(_) => {
                        return None;
                    },
                }
                index += 1;
            }
            proof {
                assert forall|i: int| 0 <= i < held.len() implies held[i] is Some by {
                    assert(held[i] == Some((entries@[i].0@, entries@[i].1@)));
                }
            }
            Some(entries)
        },
    }
}

/// Whether no two of the entries carry the same name.
pub open spec fn distinct_names(entries: Seq<EntryModel>) -> bool {
    forall|i: int, j: int|
        0 <= i < j < entries.len() ==> (#[trigger] entries[i]).0 != (#[trigger] entries[j]).0
}

/// Packs the given entries, in order, into a deflate-compressed archive:
/// each entry is started under its name, to be deflated, and given its
/// bytes, and when the writer has taken exactly the entries given it is
/// asked for the archive. `None` says that the archive library failed at
/// some step. It does so whenever two entries carry the same name, so an
/// archive comes back only for entries with different names, and that
/// archive lists the entries given. Which bytes come back is the library's
/// matter: the archive records when it was written.
pub fn pack(entries: &Vec<(String, Vec<u8>)>) -> (packed: Option<Vec<u8>>)
    ensures
        packed matches Some(bytes) ==> distinct_names(entry_models(entries@)) && lists(
            zip_listing(bytes@),
            entry_models(entries@),
        ),
{
    let ghost given = entry_models(entries@);
    let mut packer = new_packer();
    let mut index: usize = 0;
    while index < entries.len()
        invariant
            index <= entries@.len(),
            given == entry_models(entries@),
            packer_entries(packer) == given.take(index as int),
            distinct_names(given.take(index as int)),
        decreases entries@.len() - index,
    {
        let ghost taken = packer_entries(packer);
        if start_file(&mut packer, entries[index].0.as_str(), Compression::Deflated).is_err() {
            return None;
        }
        if write_data(&mut packer, entries[index].1.as_slice()).is_err() {
            return None;
        }
        proof {
            let entry = given[index as int];
            assert(Seq::<u8>::empty() + entry.1 =~= entry.1);
            assert(taken.push((entry.0, Seq::<u8>::empty())).drop_last() =~= taken);
            assert(given.take(index + 1) =~= taken.push(entry));
            assert forall|i: int, j: int| 0 <= i < j < index + 1 implies (#[trigger] given.take(
                index + 1,
            )[i]).0 != (#[trigger] given.take(index + 1)[j]).0 by {
                if j == index {
                    assert(taken[i].0 != entry.0);
                } else {
                    assert(given.take(index as int)[i].0 != given.take(index as int)[j].0);
                }
            }
        }
        index += 1;
    }
    assert(packer_entries(packer) == given) by {
        assert(given.take(index as int) =~= given);
    }
    match finish(packer) {
        Ok(bytes) => Some(bytes),
        Err(_) => None,
    }
}

/// The names of the two settings files stay inside.
pub proof fn lemma_settings_names_safe()
    ensures
        safe_name(encode_utf8("game.cfg"@)),
        safe_name(encode_utf8("PersistedSettings.json"@)),
{
    reveal_strlit("game.cfg");
    reveal_strlit("PersistedSettings.json");
    is_ascii_chars_encode_utf8("game.cfg"@);
    is_ascii_chars_encode_utf8("PersistedSettings.json"@);
    let game = encode_utf8("game.cfg"@);
    let settings = encode_utf8("PersistedSettings.json"@);
    assert(!parent_part_from(game, 0)) by {
        reveal_with_fuel(parent_part_from, 10);
    }
    assert(!parent_part_from(settings, 11)) by {
        reveal_with_fuel(parent_part_from, 12);
    }
    assert(!parent_part_from(settings, 0)) by {
        reveal_with_fuel(parent_part_from, 12);
    }
}

} // verus!
