//! Confirming a presented hash against a file's record.

use vstd::prelude::*;
use crate::clock::unix_timestamp;
use crate::errors::rejected_with;
use crate::errors::DenftError;
use crate::events::FileVerified;
use crate::pubkey::Pubkey;
use crate::state::file_record::FileRecord;

verus! {

/// What verifying works on.
#[derive(Clone, Debug, PartialEq, Eq)]
pub struct VerifyFile {
    /// The address of the file's record.
    pub file_id: Pubkey,
    /// The file.
    pub file_record: FileRecord,
    /// The identity that asks. Anyone may.
    pub authority: Pubkey,
}

/// Why verifying is rejected, if it is: the presented hash differs from the
/// recorded one in some byte, or else the file is deleted.
pub open spec fn verify_file_error(ctx: VerifyFile, file_hash: Seq<u8>) -> Option<DenftError> {
    if ctx.file_record.file_hash@ != file_hash {
        Some(DenftError::FileHashMismatch)
    } else if !ctx.file_record.is_active {
        Some(DenftError::FileNotActive)
    } else {
        None
    }
}

/// The access counter can take the verification: if it is not rejected, the
/// counter is below the largest value it can hold.
pub open spec fn verify_file_fits(ctx: VerifyFile, file_hash: Seq<u8>) -> bool {
    verify_file_error(ctx, file_hash) is None ==> ctx.file_record.access_count < u64::MAX
}

/// The records after the operation at time `now`, and what it returns.
pub open spec fn verify_file_outcome(ctx: VerifyFile, file_hash: [u8; 32], now: i64) -> (
    VerifyFile,
    Result<FileVerified, DenftError>,
) {
    match verify_file_error(ctx, file_hash@) {
        Some(e) => (ctx, Err(e)),
        None => (
            VerifyFile { file_record: ctx.file_record.with_access(), ..ctx },
            Ok(
                FileVerified {
                    file_id: ctx.file_id,
                    verifier: ctx.authority,
                    file_hash,
                    verified_at: now,
                    original_timestamp: ctx.file_record.timestamp,
                    verification_id: ctx.file_record.verification_id,
                },
            ),
        ),
    }
}

impl VerifyFile {
    /// Decides, without changing anything, whether verifying `file_hash` is
    /// rejected, and why.
    pub fn check(&self, file_hash: &[u8; 32]) -> (rejection: Option<DenftError>)
        ensures
            rejection == verify_file_error(*self, file_hash@),
    {
        if !self.file_record.verify_hash(file_hash) {
            Some(DenftError::FileHashMismatch)
        } else if !self.file_record.is_accessible() {
            Some(DenftError::FileNotActive)
        } else {
            None
        }
    }
}

/// Confirms at time `now` that `file_hash` is the hash the file was
/// registered with, and counts the access. The event carries the file's id
/// and registration time. A hash that differs from the recorded one, be it in
/// a single byte, is always rejected as `FileHashMismatch`. A rejected
/// verification changes nothing: no access is counted.
pub fn verify_file_at(ctx: &mut VerifyFile, file_hash: [u8; 32], now: i64) -> (result: Result<
    FileVerified,
    DenftError,
>)
    requires
        verify_file_fits(*old(ctx), file_hash@),
    ensures
        (*final(ctx), result) == verify_file_outcome(*old(ctx), file_hash, now),
        old(ctx).file_record.file_hash@ != file_hash@ ==> {
            &&& rejected_with(result, DenftError::FileHashMismatch)
            &&& final(ctx).file_record.access_count == old(ctx).file_record.access_count
        },
        result is Err ==> *final(ctx) == *old(ctx),
        result is Ok ==> final(ctx).file_record.access_count == old(ctx).file_record.access_count
            + 1,
        old(ctx).file_record.wf() ==> final(ctx).file_record.wf(),
{
    if let Some(e) = ctx.check(&file_hash) {
        return Err(e);
    }
    ctx.file_record.increment_access();
    Ok(
        FileVerified {
            file_id: ctx.file_id,
            verifier: ctx.authority,
            file_hash,
            verified_at: now,
            original_timestamp: ctx.file_record.timestamp,
            verification_id: ctx.file_record.verification_id,
        },
    )
}

/// Confirms a hash at the cluster's current time. A rejection does not
/// depend on the clock; otherwise the clock is read, and either it fails and
/// nothing changes, or the outcome is that of `verify_file_at` at the time
/// read.
pub fn verify_file(ctx: &mut VerifyFile, file_hash: [u8; 32]) -> (result: Result<
    FileVerified,
    DenftError,
>)
    requires
        verify_file_fits(*old(ctx), file_hash@),
    ensures
        verify_file_error(*old(ctx), file_hash@) matches Some(e) ==> rejected_with(result, e),
        old(ctx).file_record.file_hash@ != file_hash@ ==> rejected_with(
            result,
            DenftError::FileHashMismatch,
        ),
        ({
            ||| rejected_with(result, DenftError::ClockUnavailable) && *final(ctx) == *old(ctx)
            ||| exists|now: i64|
                (*final(ctx), result) == #[trigger] verify_file_outcome(*old(ctx), file_hash, now)
        }),
        result is Err ==> *final(ctx) == *old(ctx),
{
    if let Some(e) = ctx.check(&file_hash) {
        let rejected: Result<FileVerified, DenftError> = Err(e);
        assert((*ctx, rejected) == verify_file_outcome(*old(ctx), file_hash, 0));
        return rejected;
    }
    match unix_timestamp() {
        Ok(now) => verify_file_at(ctx, file_hash, now),
        Err(e) => Err(e),
    }
}

} // verus!
