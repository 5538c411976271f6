//! The file registry's record: one registered file and its counters.

use vstd::prelude::*;
use vstd::utf8::encode_utf8;
use crate::generate_verification_id::spec_verification_id;
use crate::pubkey::Pubkey;
use crate::pubkey::bytes32_eq;
use crate::state::constants::MAX_CONTENT_TYPE_LENGTH;
use crate::state::constants::MAX_DESCRIPTION_LENGTH;
use crate::state::constants::MAX_FILE_SIZE;
use crate::state::constants::MAX_IPFS_HASH_LENGTH;

verus! {

/// The length of a text in bytes, as it is stored: in UTF-8.
pub open spec fn spec_byte_len(text: Seq<char>) -> nat {
    encode_utf8(text).len()
}

/// The length of a text in bytes.
pub fn byte_len(text: &String) -> (len: usize)
    ensures
        len == spec_byte_len(text@),
{
    text.as_str().as_bytes().len()
}

/// One registered file.
#[derive(Clone, Debug, PartialEq, Eq)]
pub struct FileRecord {
    /// The identity that registered the file.
    pub owner: Pubkey,
    /// Digest of the file's content.
    pub file_hash: [u8; 32],
    /// Pointer into the content-addressed store.
    pub ipfs_hash: String,
    /// Metadata, encrypted by the caller; opaque here.
    pub encrypted_metadata: String,
    /// Size of the file in bytes.
    pub file_size: u64,
    /// MIME type of the content.
    pub content_type: String,
    /// Free text.
    pub description: String,
    /// When the file was registered.
    pub timestamp: i64,
    /// Whether anyone may verify the file without a grant.
    pub is_public_verification: bool,
    /// How often the file was accessed or verified.
    pub access_count: u64,
    /// How often the file was downloaded.
    pub download_count: u64,
    /// False once the file is deleted.
    pub is_active: bool,
    /// When the file was deleted, if it was.
    pub deleted_at: Option<i64>,
    /// Correlation id derived from the hash and the registration time.
    pub verification_id: u64,
}

impl FileRecord {
    /// Serialized size in bytes of a record without its four texts: tag,
    /// owner, hash, four length prefixes, size, time, the two counters, the
    /// two flags, the deletion time, the id and 32 reserved bytes.
    pub const BASE_LEN: usize = 8 + 32 + 32 + 4 + 4 + 8 + 4 + 4 + 8 + 1 + 8 + 8 + 1 + 9 + 8 + 32;

    /// The record is one that registration produces and the operations keep:
    /// the size and the three bounded texts are within their limits, a
    /// deletion time is present exactly when the record is inactive, and the
    /// id is the one derived from the hash and the registration time.
    pub open spec fn wf(&self) -> bool {
        &&& 0 < self.file_size <= MAX_FILE_SIZE
        &&& spec_byte_len(self.ipfs_hash@) <= MAX_IPFS_HASH_LENGTH
        &&& spec_byte_len(self.content_type@) <= MAX_CONTENT_TYPE_LENGTH
        &&& spec_byte_len(self.description@) <= MAX_DESCRIPTION_LENGTH
        &&& self.is_active <==> self.deleted_at is None
        &&& self.verification_id == spec_verification_id(self.file_hash@, self.timestamp)
    }

    /// The record with one more access counted.
    pub open spec fn with_access(self) -> FileRecord {
        FileRecord { access_count: (self.access_count + 1) as u64, ..self }
    }

    /// The record with one more download counted.
    pub open spec fn with_download(self) -> FileRecord {
        FileRecord { download_count: (self.download_count + 1) as u64, ..self }
    }

    /// The record after deletion at `timestamp`.
    pub open spec fn deleted(self, timestamp: i64) -> FileRecord {
        FileRecord { is_active: false, deleted_at: Some(timestamp), ..self }
    }

    /// Bytes to reserve for a record whose metadata takes `metadata_len`
    /// bytes: the fixed part, the full capacity of each bounded text, and the
    /// metadata.
    pub fn space_required(metadata_len: usize) -> (space: usize)
        requires
            FileRecord::BASE_LEN + MAX_IPFS_HASH_LENGTH + metadata_len + MAX_CONTENT_TYPE_LENGTH
                + MAX_DESCRIPTION_LENGTH <= usize::MAX,
        ensures
            space == FileRecord::BASE_LEN + MAX_IPFS_HASH_LENGTH + metadata_len
                + MAX_CONTENT_TYPE_LENGTH + MAX_DESCRIPTION_LENGTH,
            space == 871 + metadata_len,
    {
        FileRecord::BASE_LEN + MAX_IPFS_HASH_LENGTH + metadata_len + MAX_CONTENT_TYPE_LENGTH
            + MAX_DESCRIPTION_LENGTH
    }

    /// Whether the file has not been deleted.
    pub fn is_accessible(&self) -> (active: bool)
        ensures
            active == self.is_active,
    {
        self.is_active
    }

    /// Counts one access.
    pub fn increment_access(&mut self)
        requires
            old(self).access_count < u64::MAX,
        ensures
            *final(self) == old(self).with_access(),
            old(self).wf() ==> final(self).wf(),
    {
        self.access_count += 1;
    }

    /// Counts one download.
    pub fn increment_download(&mut self)
        requires
            old(self).download_count < u64::MAX,
        ensures
            *final(self) == old(self).with_download(),
            old(self).wf() ==> final(self).wf(),
    {
        self.download_count += 1;
    }

    /// Whether `provided_hash` is the recorded hash, byte for byte.
    pub fn verify_hash(&self, provided_hash: &[u8; 32]) -> (matches: bool)
        ensures
            matches == (self.file_hash@ == provided_hash@),
    {
        bytes32_eq(&self.file_hash, provided_hash)
    }

    /// Marks the record deleted at `timestamp`.
    pub fn mark_deleted(&mut self, timestamp: i64)
        ensures
            *final(self) == old(self).deleted(timestamp),
            old(self).wf() ==> final(self).wf(),
    {
        self.is_active = false;
        self.deleted_at = Some(timestamp);
    }
}

} // verus!
