//! The adapter over the compound-file reader.
//!
//! A message container is a compound file parsed from an in-memory byte
//! buffer.  Verified code sees it through two abstractions: the map from
//! path to stream contents, and the set of entry paths.  Reading never
//! changes either.

use vstd::prelude::*;

verus! {

#[verifier::external_type_specification]
#[verifier::external_body]
#[verifier::reject_recursive_types(F)]
pub struct ExCompoundFile<F>(cfb::CompoundFile<F>);

#[verifier::external_type_specification]
#[verifier::external_body]
#[verifier::reject_recursive_types(T)]
pub struct ExCursor<T>(std::io::Cursor<T>);

/// The compound file a message is read from, fully buffered in memory.
pub type MsgContainer = cfb::CompoundFile<std::io::Cursor<Vec<u8>>>;

/// The streams of a container that can be read in full, keyed by the path
/// strings this crate passes to the reader.
pub uninterp spec fn container_streams(c: MsgContainer) -> Map<Seq<char>, Seq<u8>>;

/// The paths of all entries of a container, storages and streams alike,
/// as the reader reports them.
pub uninterp spec fn container_entries(c: MsgContainer) -> Set<Seq<char>>;

/// Whether a byte buffer parses as a compound file.
pub uninterp spec fn buffer_is_container(b: Seq<u8>) -> bool;

/// The stream map of the container a byte buffer parses to.
pub uninterp spec fn buffer_streams(b: Seq<u8>) -> Map<Seq<char>, Seq<u8>>;

/// The entry-path set of the container a byte buffer parses to.
pub uninterp spec fn buffer_entries(b: Seq<u8>) -> Set<Seq<char>>;

/// Relies on cfb::CompoundFile::open: parses an in-memory buffer as a
/// compound file, or nothing when the buffer is not one.  Opening is a
/// function of the bytes alone, so the resulting container's streams and
/// entries are those of the buffer.
#[verifier::external_body]
pub fn open_container(buffer: Vec<u8>) -> (r: Option<MsgContainer>)
    ensures
        r is Some <==> buffer_is_container(buffer@),
        r matches Some(c) ==> container_streams(c) == buffer_streams(buffer@)
            && container_entries(c) == buffer_entries(buffer@),
{
    cfb::CompoundFile::open(std::io::Cursor::new(buffer)).ok()
}

/// Relies on cfb::CompoundFile::open_stream and Read::read_to_end: returns
/// the contents of the fully readable stream at `path`, and nothing when
/// the path does not name one; reading leaves the container's streams and
/// entries unchanged.
#[verifier::external_body]
pub(crate) fn stream_bytes(c: &mut MsgContainer, path: &str) -> (r: Option<Vec<u8>>)
    ensures
        container_streams(*final(c)) == container_streams(*old(c)),
        container_entries(*final(c)) == container_entries(*old(c)),
        r is Some <==> container_streams(*old(c)).dom().contains(path@),
        r matches Some(b) ==> b@ == container_streams(*old(c))[path@],
{
    let mut stream = match c.open_stream(path) {
        Ok(s) => s,
        Err(_) => return None,
    };
    let mut buffer = Vec::new();
    match std::io::Read::read_to_end(&mut stream, &mut buffer) {
        Ok(_) => Some(buffer),
        Err(_) => None,
    }
}

/// Relies on cfb::CompoundFile::exists: whether any entry, storage or
/// stream, lives at `path`.
#[verifier::external_body]
pub(crate) fn entry_exists(c: &MsgContainer, path: &str) -> (r: bool)
    ensures
        r == container_entries(*c).contains(path@),
{
    c.exists(path)
}

} // verus!
