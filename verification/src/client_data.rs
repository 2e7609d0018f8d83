//! [`ClientData`]: opaque per-torrent client state, persisted inside
//! resume data.

use vstd::prelude::*;

use crate::error::Error;

verus! {

/// Per-torrent client state attached when a torrent is added and carried
/// in resume data under the top-level `"rbt-data"` bencode key.
///
/// The crate never inspects the concrete type: it stores the value for
/// the torrent's lifetime, serializes it when resume data is written, and
/// hands the raw bytes back when resume data is read. Implementations must
/// uphold the round-trip law: `from_bencode(Some(&x.to_bencode()))`
/// reconstructs `x`.
///
/// `to_bencode` returning an empty vector means "write no key"; a missing
/// key on read yields `from_bencode(None)`, from which implementations
/// should produce their defaults — this is what makes resume data written
/// before the data type existed load cleanly. The two cannot collide:
/// valid bencode is never zero bytes.
///
/// `to_bencode` runs on the alert-processing path — keep it cheap.
pub trait ClientData {
    /// Serializes the value to exactly one well-formed bencode value: the
    /// bytes are spliced verbatim into the resume data as the `"rbt-data"`
    /// key's value. Empty means "no data": no key is written.
    fn to_bencode(&self) -> Vec<u8>;

    /// Reconstructs a value from the bytes previously produced by
    /// [`to_bencode`](ClientData::to_bencode), or from `None` when the
    /// resume data carries no `"rbt-data"` key (defaults). Errors are
    /// typically built with [`Error::client`].
    fn from_bencode(bytes: Option<&[u8]>) -> Result<Self, Error>
        where Self: Sized;
}

/// The null client data: carries nothing, writes no key, accepts anything.
impl ClientData for () {
    fn to_bencode(&self) -> (r: Vec<u8>)
        ensures
            r@.len() == 0,
    {
        Vec::new()
    }

    fn from_bencode(bytes: Option<&[u8]>) -> (r: Result<(), Error>)
        ensures
            r is Ok,
    {
        Ok(())
    }
}

} // verus!
