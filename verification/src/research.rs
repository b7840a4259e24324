//! The research registry: records of submitted work and their verification.

use vstd::prelude::*;
use vstd::utf8::encode_utf8;
use crate::identity::Identity;
use crate::status::ErrorCode;

verus! {

/// The longest title accepted, in bytes.
pub const MAX_TITLE_BYTES: usize = 128;

/// The length of a content address, in bytes.
pub const IPFS_HASH_BYTES: usize = 46;

/// One submitted piece of research.
#[derive(Clone, Debug, PartialEq, Eq)]
pub struct ResearchRecord {
    pub title: String,
    /// Content address of the data.
    pub ipfs_hash: String,
    /// Who submitted it.
    pub author: Identity,
    /// When it was submitted, in seconds of the ledger's clock.
    pub timestamp: i64,
    /// Set by `verify_research`.
    pub verified: bool,
}

/// A well-formed content address: 46 bytes of UTF-8 that begin with `Qm`.
pub open spec fn valid_ipfs_hash(hash: Seq<char>) -> bool {
    let bytes = encode_utf8(hash);
    bytes.len() == IPFS_HASH_BYTES && bytes[0] == 0x51 && bytes[1] == 0x6d
}

/// Why a submission of research is refused, if it is: the title is tested
/// first.
pub open spec fn research_refusal(title: Seq<char>, ipfs_hash: Seq<char>) -> Option<ErrorCode> {
    if encode_utf8(title).len() > MAX_TITLE_BYTES {
        Some(ErrorCode::TitleTooLong)
    } else if !valid_ipfs_hash(ipfs_hash) {
        Some(ErrorCode::InvalidIpfsHash)
    } else {
        None
    }
}

/// Registers a piece of research submitted by `submitter` at `timestamp`.
///
/// The title may have at most 128 bytes, and the content address must be
/// well formed. The new record is not verified.
pub fn submit_research(
    submitter: Identity,
    title: String,
    ipfs_hash: String,
    timestamp: i64,
) -> (res: Result<ResearchRecord, ErrorCode>)
    ensures
        match research_refusal(title@, ipfs_hash@) {
            Some(error) => res == Err::<ResearchRecord, ErrorCode>(error),
            None => res == Ok::<ResearchRecord, ErrorCode>(
                ResearchRecord { title, ipfs_hash, author: submitter, timestamp, verified: false },
            ),
        },
{
    if title.as_str().as_bytes().len() > MAX_TITLE_BYTES {
        return Err(ErrorCode::TitleTooLong);
    }
    let bytes = ipfs_hash.as_str().as_bytes();
    if bytes.len() != IPFS_HASH_BYTES || bytes[0] != 0x51u8 || bytes[1] != 0x6du8 {
        return Err(ErrorCode::InvalidIpfsHash);
    }
    Ok(ResearchRecord { title, ipfs_hash, author: submitter, timestamp, verified: false })
}

/// Marks a record as verified, on behalf of `admin`.
///
/// Only the identity `authority` may do so: for any other `admin` the call
/// fails with `Unauthorized` and the record stays as it was.
pub fn verify_research(record: &mut ResearchRecord, admin: &Identity, authority: &Identity) -> (res:
    Result<(), ErrorCode>)
    ensures
        res is Ok <==> *admin == *authority,
        res is Ok ==> *final(record) == (ResearchRecord { verified: true, ..*old(record) }),
        res is Err ==> res == Err::<(), ErrorCode>(ErrorCode::Unauthorized) && *final(record)
            == *old(record),
{
    if !admin.same(authority) {
        return Err(ErrorCode::Unauthorized);
    }
    record.verified = true;
    Ok(())
}

} // verus!
