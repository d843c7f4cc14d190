//! Reading a zip container held in memory.
//!
//! The container format is left to the `zip` crate. Its reader is reached
//! through four private functions whose contracts are taken on trust; they
//! speak of [`zip_directory`], [`archive_headers`] and [`archive_streams`],
//! the names given here to what that reader finds. Everything else in this
//! module is verified against those contracts. The stream of a member is
//! read only where the member is a file: a directory marker is known by its
//! name alone.

use crate::error::ErrorKind;
use crate::error::ErrorModel;
use crate::error::PipelineError;
use crate::paths::ends_with;
use crate::paths::spec_ends_with;
use crate::paths::spec_has_parent_segment;
use crate::paths::spec_is_absolute;
use std::io::Cursor;
use std::io::Read;
use vstd::prelude::*;
use vstd::string::*;
use zip::ZipArchive;

verus! {

/// Declares `std::io::Cursor`, the in-memory reader that the container is
/// opened on. Nothing is known of what it holds.
#[verifier::external_type_specification]
#[verifier::external_body]
#[verifier::reject_recursive_types(T)]
pub struct ExCursor<T>(Cursor<T>);

/// Declares `zip::ZipArchive`, an opened container. What it holds is known
/// only by the names [`archive_headers`] and [`archive_streams`].
#[verifier::external_type_specification]
#[verifier::external_body]
#[verifier::reject_recursive_types(R)]
pub struct ExZipArchive<R>(ZipArchive<R>);

/// What the directory of a container tells of one member.
#[derive(Clone, Debug, PartialEq, Eq)]
pub struct MemberHeader {
    /// The name as stored; it may point anywhere.
    pub name: String,
    /// The stored name made relative and freed of `..` components.
    pub sanitized: String,
    /// The member's comment, possibly empty.
    pub comment: String,
    /// The uncompressed size that the container declares.
    pub size: u64,
}

/// A header as plain values.
pub struct HeaderModel {
    pub name: Seq<char>,
    pub sanitized: Seq<char>,
    pub comment: Seq<char>,
    pub size: u64,
}

impl View for MemberHeader {
    type V = HeaderModel;

    open spec fn view(&self) -> HeaderModel {
        HeaderModel {
            name: self.name@,
            sanitized: self.sanitized@,
            comment: self.comment@,
            size: self.size,
        }
    }
}

/// One member of a container.
#[derive(Clone, Debug, PartialEq, Eq)]
pub struct ArchiveEntry {
    /// The name as stored; it may point anywhere.
    pub name: String,
    /// The stored name made relative and freed of `..` components.
    pub sanitized: String,
    /// The member's comment, possibly empty.
    pub comment: String,
    /// The uncompressed size that the container declares.
    pub size: u64,
    /// The member's uncompressed bytes; none for a directory marker.
    pub data: Vec<u8>,
}

/// A member as plain values.
pub struct EntryModel {
    pub name: Seq<char>,
    pub sanitized: Seq<char>,
    pub comment: Seq<char>,
    pub size: u64,
    pub data: Seq<u8>,
}

impl EntryModel {
    /// The sanitized name is what its name says: relative, and free of `..`
    /// components.
    pub open spec fn wf(self) -> bool {
        spec_is_sanitized(self.sanitized)
    }
}

impl View for ArchiveEntry {
    type V = EntryModel;

    open spec fn view(&self) -> EntryModel {
        EntryModel {
            name: self.name@,
            sanitized: self.sanitized@,
            comment: self.comment@,
            size: self.size,
            data: self.data@,
        }
    }
}

/// Why the container, or one member of it, could not be read: the reader's
/// own words.
#[derive(Clone, Debug, PartialEq, Eq)]
pub struct ArchiveFault {
    pub message: String,
}

/// A fault as plain values.
pub struct FaultModel {
    pub message: Seq<char>,
}

impl View for ArchiveFault {
    type V = FaultModel;

    open spec fn view(&self) -> FaultModel {
        FaultModel { message: self.message@ }
    }
}

/// What reading each member of a container gives, in index order.
pub type Members = Seq<Result<EntryModel, FaultModel>>;

/// What the reader finds in a container: for each index the header of the
/// member there, and what reading that member's stream to its end gives.
pub struct DirectoryModel {
    pub headers: Seq<Result<HeaderModel, FaultModel>>,
    pub streams: Seq<Result<Seq<u8>, FaultModel>>,
}

/// The members that could be read, in index order, and the fault that ended
/// the reading, if one did.
#[derive(Debug, PartialEq, Eq)]
pub struct ArchiveListing {
    pub entries: Vec<ArchiveEntry>,
    pub failure: Option<ArchiveFault>,
}

/// A listing as plain values.
pub struct ListingModel {
    pub entries: Seq<EntryModel>,
    pub failure: Option<FaultModel>,
}

/// The views of the given members.
pub open spec fn spec_entries(entries: Seq<ArchiveEntry>) -> Seq<EntryModel> {
    Seq::new(entries.len(), |i: int| entries[i]@)
}

impl View for ArchiveListing {
    type V = ListingModel;

    open spec fn view(&self) -> ListingModel {
        ListingModel {
            entries: spec_entries(self.entries@),
            failure: match self.failure {
                Some(fault) => Some(fault@),
                None => None,
            },
        }
    }
}

/// What `zip::ZipArchive::new` makes of `bytes`: what the container holds,
/// or the fault with which it refuses them.
pub uninterp spec fn zip_directory(bytes: Seq<u8>) -> Result<DirectoryModel, FaultModel>;

/// The headers that an opened container holds: at each index what
/// `by_index_decrypt` gives there with an empty password.
pub uninterp spec fn archive_headers(archive: ZipArchive<Cursor<Vec<u8>>>) -> Seq<
    Result<HeaderModel, FaultModel>,
>;

/// The streams that an opened container holds: at each index what reading
/// the member there to its end gives.
pub uninterp spec fn archive_streams(archive: ZipArchive<Cursor<Vec<u8>>>) -> Seq<
    Result<Seq<u8>, FaultModel>,
>;

/// The name is relative and none of its components is `..`.
pub open spec fn spec_is_sanitized(name: Seq<char>) -> bool {
    !spec_is_absolute(name) && !spec_has_parent_segment(name)
}

/// The stored name `name` marks a directory.
pub open spec fn spec_is_directory(name: Seq<char>) -> bool {
    spec_ends_with(name, seq!['/'])
}

/// The view of one attempt to fetch a header.
pub open spec fn spec_header_outcome(fetched: Result<MemberHeader, ArchiveFault>) -> Result<
    HeaderModel,
    FaultModel,
> {
    match fetched {
        Ok(header) => Ok(header@),
        Err(fault) => Err(fault@),
    }
}

/// The view of one attempt to read a stream.
pub open spec fn spec_stream_outcome(read: Result<Vec<u8>, ArchiveFault>) -> Result<
    Seq<u8>,
    FaultModel,
> {
    match read {
        Ok(data) => Ok(data@),
        Err(fault) => Err(fault@),
    }
}

/// The member with the given header and bytes.
pub open spec fn spec_entry(header: HeaderModel, data: Seq<u8>) -> EntryModel {
    EntryModel {
        name: header.name,
        sanitized: header.sanitized,
        comment: header.comment,
        size: header.size,
        data,
    }
}

/// What reading one member gives: the fault of its header where that cannot
/// be fetched; for a directory marker the header alone, its stream left
/// unread; for a file the header with its bytes, or the fault of its stream.
pub open spec fn spec_member(
    header: Result<HeaderModel, FaultModel>,
    stream: Result<Seq<u8>, FaultModel>,
) -> Result<EntryModel, FaultModel> {
    match header {
        Err(fault) => Err(fault),
        Ok(found) => if spec_is_directory(found.name) {
            Ok(spec_entry(found, Seq::empty()))
        } else {
            match stream {
                Ok(data) => Ok(spec_entry(found, data)),
                Err(fault) => Err(fault),
            }
        },
    }
}

/// What reading each member of `directory` gives, in index order.
pub open spec fn spec_members(directory: DirectoryModel) -> Members {
    Seq::new(
        directory.headers.len(),
        |i: int| spec_member(directory.headers[i], directory.streams[i]),
    )
}

/// What reading a container gives: its members, or the fault with which it
/// is refused.
pub open spec fn spec_read(found: Result<DirectoryModel, FaultModel>) -> Result<
    Members,
    FaultModel,
> {
    match found {
        Ok(directory) => Ok(spec_members(directory)),
        Err(fault) => Err(fault),
    }
}

/// How many members at the front of `members` could be read.
pub open spec fn spec_readable(members: Members) -> nat
    decreases members.len(),
{
    if members.len() > 0 && members[0] is Ok {
        1 + spec_readable(members.drop_first())
    } else {
        0
    }
}

/// The listing of a container: nothing but the fault where the container is
/// refused; otherwise the members up to the first that cannot be read, and
/// that member's fault.
pub open spec fn spec_listing(read: Result<Members, FaultModel>) -> ListingModel {
    match read {
        Err(fault) => ListingModel { entries: Seq::empty(), failure: Some(fault) },
        Ok(members) => {
            let count = spec_readable(members);
            ListingModel {
                entries: Seq::new(count, |i: int| members[i]->Ok_0),
                failure: if count < members.len() {
                    Some(members[count as int]->Err_0)
                } else {
                    None
                },
            }
        },
    }
}

/// The failure that a fault of the reader stands for. The reader works on
/// bytes in memory, so whatever it refuses is a container that is corrupt.
pub open spec fn spec_error_of(fault: FaultModel) -> ErrorModel {
    ErrorModel { kind: ErrorKind::ArchiveCorrupt, cause: fault.message }
}

/// `spec_readable` is the index of the first member that cannot be read.
pub proof fn lemma_readable(members: Members, count: int)
    requires
        0 <= count <= members.len(),
        forall|i: int| 0 <= i < count ==> members[i] is Ok,
        count == members.len() || members[count] is Err,
    ensures
        spec_readable(members) == count,
    decreases count,
{
    if count > 0 {
        let rest = members.drop_first();
        assert forall|i: int| 0 <= i < count - 1 implies rest[i] is Ok by {
            assert(rest[i] == members[i + 1]);
        }
        lemma_readable(rest, count - 1);
    }
}

/// Opens the container with `zip::ZipArchive::new` over an in-memory
/// cursor. The contract claims that the outcome is the one named
/// [`zip_directory`]: on success the archive holds the headers and streams
/// named there, on refusal the fault is the one named there, which holds
/// the text of the crate's error.
#[verifier::external_body]
fn open_archive(bytes: Vec<u8>) -> (r: Result<ZipArchive<Cursor<Vec<u8>>>, ArchiveFault>)
    ensures
        zip_directory(bytes@) == match r {
            Ok(archive) => Ok::<DirectoryModel, FaultModel>(
                DirectoryModel {
                    headers: archive_headers(archive),
                    streams: archive_streams(archive),
                },
            ),
            Err(fault) => Err::<DirectoryModel, FaultModel>(fault@),
        },
{
    match ZipArchive::new(Cursor::new(bytes)) {
        Ok(archive) => Ok(archive),
        Err(error) => Err(ArchiveFault { message: error.to_string() }),
    }
}

/// Calls `zip::ZipArchive::len`. The contract claims that it counts the
/// members, of which [`archive_headers`] and [`archive_streams`] each name
/// one thing.
#[verifier::external_body]
fn member_count(archive: &ZipArchive<Cursor<Vec<u8>>>) -> (n: usize)
    ensures
        n == archive_headers(*archive).len(),
        n == archive_streams(*archive).len(),
{
    archive.len()
}

/// Fetches one member with `zip::ZipArchive::by_index_decrypt` and an empty
/// password, and copies out its name, sanitized name, comment and declared
/// size; the member's stream is not read. For a member that is not marked
/// as encrypted the call does what `by_index` does, but it hands back a
/// refusal where `by_index` unwraps it; for one that is marked, the empty
/// password is tried. The contract claims that the outcome is the one that
/// [`archive_headers`] names at `index`, that the call leaves what the
/// archive holds as it was, and, as the crate documents of `sanitized_name`,
/// that the sanitized name has no leading `/` and no `..` component. A
/// fault holds the text of the crate's error.
#[verifier::external_body]
#[allow(deprecated)]
fn member_header(archive: &mut ZipArchive<Cursor<Vec<u8>>>, index: usize) -> (r: Result<
    MemberHeader,
    ArchiveFault,
>)
    requires
        index < archive_headers(*old(archive)).len(),
    ensures
        archive_headers(*final(archive)) == archive_headers(*old(archive)),
        archive_streams(*final(archive)) == archive_streams(*old(archive)),
        archive_headers(*old(archive))[index as int] == spec_header_outcome(r),
        r matches Ok(header) ==> spec_is_sanitized(header.sanitized@),
{
    match archive.by_index_decrypt(index, &[]) {
        Ok(Ok(file)) => Ok(
            MemberHeader {
                name: file.name().to_owned(),
                sanitized: file.sanitized_name().display().to_string(),
                comment: file.comment().to_owned(),
                size: file.size(),
            },
        ),
        Ok(Err(error)) => Err(ArchiveFault { message: error.to_string() }),
        Err(error) => Err(ArchiveFault { message: error.to_string() }),
    }
}

/// Fetches one member as [`member_header`] does and reads its stream to the
/// end with `std::io::Read::read_to_end`. The contract claims that the
/// outcome is the one that [`archive_streams`] names at `index` and that
/// reading leaves what the archive holds as it was. A fault holds the text
/// of the crate's error, or of the error met while reading.
#[verifier::external_body]
fn member_bytes(archive: &mut ZipArchive<Cursor<Vec<u8>>>, index: usize) -> (r: Result<
    Vec<u8>,
    ArchiveFault,
>)
    requires
        index < archive_streams(*old(archive)).len(),
    ensures
        archive_headers(*final(archive)) == archive_headers(*old(archive)),
        archive_streams(*final(archive)) == archive_streams(*old(archive)),
        archive_streams(*old(archive))[index as int] == spec_stream_outcome(r),
{
    let mut data = Vec::new();
    let read = match archive.by_index_decrypt(index, &[]) {
        Ok(Ok(mut file)) => match file.read_to_end(&mut data) {
            Ok(_) => Ok(()),
            Err(error) => Err(error.to_string()),
        },
        Ok(Err(error)) => Err(error.to_string()),
        Err(error) => Err(error.to_string()),
    };
    match read {
        Ok(()) => Ok(data),
        Err(message) => Err(ArchiveFault { message }),
    }
}

/// Reads the member at `index`: its header, and its bytes where it is a
/// file.
fn read_member(archive: &mut ZipArchive<Cursor<Vec<u8>>>, index: usize) -> (r: Result<
    ArchiveEntry,
    ArchiveFault,
>)
    requires
        index < archive_headers(*old(archive)).len(),
        index < archive_streams(*old(archive)).len(),
    ensures
        archive_headers(*final(archive)) == archive_headers(*old(archive)),
        archive_streams(*final(archive)) == archive_streams(*old(archive)),
        spec_member(
            archive_headers(*old(archive))[index as int],
            archive_streams(*old(archive))[index as int],
        ) == (match r {
            Ok(entry) => Ok::<EntryModel, FaultModel>(entry@),
            Err(fault) => Err::<EntryModel, FaultModel>(fault@),
        }),
        r matches Ok(entry) ==> entry@.wf(),
{
    let header = match member_header(archive, index) {
        Ok(header) => header,
        Err(fault) => {
            return Err(fault);
        },
    };
    proof {
        reveal_strlit("/");
        assert("/"@ =~= seq!['/']);
    }
    let data = if ends_with(header.name.as_str(), "/") {
        Vec::new()
    } else {
        match member_bytes(archive, index) {
            Ok(data) => data,
            Err(fault) => {
                return Err(fault);
            },
        }
    };
    let MemberHeader { name, sanitized, comment, size } = header;
    Ok(ArchiveEntry { name, sanitized, comment, size, data })
}

/// Reads a container: its members in index order, up to the first one that
/// cannot be read.
pub fn read_archive(bytes: Vec<u8>) -> (r: ArchiveListing)
    ensures
        r@ == spec_listing(spec_read(zip_directory(bytes@))),
        forall|i: int| 0 <= i < r.entries.len() ==> (#[trigger] r.entries[i])@.wf(),
{
    let ghost found = zip_directory(bytes@);
    match open_archive(bytes) {
        Err(fault) => {
            let listing = ArchiveListing { entries: Vec::new(), failure: Some(fault) };
            assert(listing@.entries =~= Seq::empty());
            listing
        },
        Ok(archive) => {
            let mut archive = archive;
            let ghost directory = DirectoryModel {
                headers: archive_headers(archive),
                streams: archive_streams(archive),
            };
            let ghost members = spec_members(directory);
            let count: usize = member_count(&archive);
            let mut entries: Vec<ArchiveEntry> = Vec::new();
            let mut index: usize = 0;
            while index < count
                invariant
                    found == zip_directory(bytes@),
                    found == Ok::<DirectoryModel, FaultModel>(directory),
                    members == spec_members(directory),
                    archive_headers(archive) == directory.headers,
                    archive_streams(archive) == directory.streams,
                    count == directory.headers.len(),
                    count == directory.streams.len(),
                    index <= count,
                    entries.len() == index,
                    forall|i: int| 0 <= i < index ==> members[i] == Ok::<EntryModel, FaultModel>(
                        #[trigger] entries[i]@,
                    ),
                    forall|i: int| 0 <= i < index ==> (#[trigger] entries[i])@.wf(),
                decreases count - index,
            {
                match read_member(&mut archive, index) {
                    Ok(entry) => {
                        assert(members[index as int] == Ok::<EntryModel, FaultModel>(entry@));
                        entries.push(entry);
                        index = index + 1;
                    },
                    Err(fault) => {
                        proof {
                            assert(members[index as int] == Err::<EntryModel, FaultModel>(fault@));
                            assert forall|i: int| 0 <= i < index implies members[i] is Ok by {
                                assert(members[i] == Ok::<EntryModel, FaultModel>(entries[i]@));
                            }
                            lemma_readable(members, index as int);
                        }
                        let listing = ArchiveListing { entries, failure: Some(fault) };
                        assert(listing@.entries =~= spec_listing(spec_read(found)).entries);
                        return listing;
                    },
                }
            }
            proof {
                assert forall|i: int| 0 <= i < index implies members[i] is Ok by {
                    assert(members[i] == Ok::<EntryModel, FaultModel>(entries[i]@));
                }
                lemma_readable(members, index as int);
            }
            let listing = ArchiveListing { entries, failure: None };
            assert(listing@.entries =~= spec_listing(spec_read(found)).entries);
            listing
        },
    }
}

/// The failure that a fault of the reader stands for.
pub fn error_of(fault: ArchiveFault) -> (r: PipelineError)
    ensures
        r@ == spec_error_of(fault@),
{
    PipelineError { kind: ErrorKind::ArchiveCorrupt, cause: fault.message }
}

} // verus!
