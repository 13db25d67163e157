//! The decisions of loading a dictionary: where its bytes come from, how a
//! download proceeds, and what the bytes decode to. Reading files and the
//! network is left to the caller, which performs each step and reports back.
use vstd::prelude::*;
use crate::codec::{DecodeError, entries_model, parse_dictionary, parse_spec};
use crate::entry::Entry;

verus! {

/// Why a dictionary could not be loaded.
#[derive(Debug, Clone, PartialEq, Eq)]
pub enum LoadError {
    /// There is no dictionary file and none may be fetched.
    NotFound,
    /// The dictionary file could not be read.
    Io(String),
    /// Fetching the dictionary failed.
    Fetch(String),
    /// The bytes are not a valid dictionary.
    Decode(DecodeError),
}

/// Where the dictionary's bytes come from next.
#[derive(Debug, Clone, Copy, PartialEq, Eq, Structural)]
pub enum LoadStep {
    /// Read the file at the dictionary path.
    ReadLocal,
    /// Fetch the remote copy into the dictionary path, then read it.
    Fetch,
    /// Give up with [`LoadError::NotFound`].
    NotFound,
}

/// Chooses where the bytes come from. A file already in place is always
/// read, and then the network is never touched.
pub fn plan_load(file_exists: bool, fetch_enabled: bool) -> (r: LoadStep)
    ensures
        file_exists ==> r == LoadStep::ReadLocal,
        !file_exists && fetch_enabled ==> r == LoadStep::Fetch,
        !file_exists && !fetch_enabled ==> r == LoadStep::NotFound,
{
    if file_exists {
        LoadStep::ReadLocal
    } else if fetch_enabled {
        LoadStep::Fetch
    } else {
        LoadStep::NotFound
    }
}

/// What a download does with the chunk it has just read.
#[derive(Debug, Clone, Copy, PartialEq, Eq, Structural)]
pub enum FetchAction {
    /// The transfer is complete: put the file in place.
    Finish,
    /// Write the first `len` bytes of the buffer; `position` bytes are now
    /// transferred.
    Write { len: usize, position: u64 },
}

/// The position after `read_len` more bytes, held at `u64::MAX`.
pub open spec fn advanced(position: u64, read_len: usize) -> u64 {
    if position + read_len > u64::MAX {
        u64::MAX
    } else {
        (position + read_len) as u64
    }
}

/// Decides the next step of a download, after `position` bytes and a read
/// that gave `read_len` more; a read of nothing ends the transfer.
pub fn on_chunk(position: u64, read_len: usize) -> (r: FetchAction)
    ensures
        read_len == 0 ==> r == FetchAction::Finish,
        read_len > 0 ==> r == (FetchAction::Write {
            len: read_len,
            position: advanced(position, read_len),
        }),
{
    if read_len == 0 {
        FetchAction::Finish
    } else if read_len as u128 > (u64::MAX - position) as u128 {
        FetchAction::Write { len: read_len, position: u64::MAX }
    } else {
        FetchAction::Write { len: read_len, position: position + read_len as u64 }
    }
}

/// Decodes the bytes of a dictionary file; any fault is a load error.
pub fn load_from_bytes(bytes: &[u8]) -> (r: Result<Vec<Entry>, LoadError>)
    ensures
        match parse_spec(bytes@) {
            None => r matches Err(LoadError::Decode(DecodeError::Malformed { .. })),
            Some(Ok(ms)) => r matches Ok(es) && entries_model(es@) == ms,
            Some(Err(e)) => r == Err::<Vec<Entry>, LoadError>(LoadError::Decode(e)),
        },
{
    match parse_dictionary(bytes) {
        Ok(es) => Ok(es),
        Err(e) => Err(LoadError::Decode(e)),
    }
}

} // verus!
