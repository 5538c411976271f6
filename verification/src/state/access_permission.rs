//! The permission grant store's record: the rights one identity holds on one
//! file.

use vstd::prelude::*;
use crate::errors::rejected_with;
use crate::errors::DenftError;
use crate::pubkey::Pubkey;

verus! {

/// Flag of the right to read a file.
pub const PERMISSION_READ: u8 = 1;

/// Flag of the right to download a file.
pub const PERMISSION_DOWNLOAD: u8 = 2;

/// Flag of the right to share a file.
pub const PERMISSION_SHARE: u8 = 4;

/// What an accessor does with a file.
#[derive(Clone, Copy, Debug, PartialEq, Eq, Structural)]
pub enum AccessType {
    Read,
    Download,
    Share,
}

impl AccessType {
    /// The kind of access that a single permission flag stands for.
    pub open spec fn spec_from_flag(flag: u8) -> Option<AccessType> {
        if flag == PERMISSION_READ {
            Some(AccessType::Read)
        } else if flag == PERMISSION_DOWNLOAD {
            Some(AccessType::Download)
        } else if flag == PERMISSION_SHARE {
            Some(AccessType::Share)
        } else {
            None
        }
    }

    /// The kind of access that `flag` stands for; `None` unless `flag` is
    /// exactly one of the three permission flags.
    pub fn from_flag(flag: u8) -> (kind: Option<AccessType>)
        ensures
            kind == AccessType::spec_from_flag(flag),
    {
        match flag {
            1 => Some(AccessType::Read),
            2 => Some(AccessType::Download),
            4 => Some(AccessType::Share),
            _ => None,
        }
    }
}

/// The rights of one accessor on one file.
#[derive(Clone, Copy, Debug, PartialEq, Eq)]
pub struct AccessPermission {
    /// Address of the file record the grant is for.
    pub file_record: Pubkey,
    /// The identity that holds the rights.
    pub accessor: Pubkey,
    /// Union of permission flags.
    pub permissions: u8,
    /// When the grant was made.
    pub granted_at: i64,
    /// Last moment at which the grant is valid; `None` if it never expires.
    pub expires_at: Option<i64>,
    /// How many downloads the grant allows; `None` if unbounded.
    pub max_downloads: Option<u64>,
    /// How many downloads were made under the grant.
    pub used_downloads: u32,
    /// The identity that made the grant.
    pub granted_by: Pubkey,
    /// False once the grant is revoked.
    pub is_active: bool,
    /// When the grant was revoked, if it was.
    pub revoked_at: Option<i64>,
}

impl AccessPermission {
    /// Serialized size of a grant in bytes: tag, file, accessor, flags, grant
    /// time, the two optional bounds, the download counter, the grantor, the
    /// status, the revocation time and 16 reserved bytes.
    pub const LEN: usize = 8 + 32 + 32 + 1 + 8 + 9 + 9 + 4 + 32 + 1 + 9 + 16;

    /// A permission mask is valid if it is not empty and at most 7, the union
    /// of the three flags.
    pub open spec fn spec_is_valid_permission(permissions: u8) -> bool {
        0 < permissions <= 7
    }

    /// The grant is one that granting produces and the operations keep: the
    /// mask is valid, the downloads made do not exceed a bound that is set,
    /// and a revocation time is present exactly when the grant is inactive.
    pub open spec fn wf(&self) -> bool {
        &&& AccessPermission::spec_is_valid_permission(self.permissions)
        &&& self.max_downloads matches Some(max) ==> self.used_downloads <= max
        &&& self.is_active <==> self.revoked_at is None
    }

    /// The grant is active and, at time `now`, not expired. Expiry is judged
    /// when asked: nothing deactivates a grant whose time has passed.
    pub open spec fn spec_is_valid(&self, now: i64) -> bool {
        &&& self.is_active
        &&& self.expires_at matches Some(expiry) ==> now <= expiry
    }

    /// The mask holds at least one flag of `permission`.
    pub open spec fn spec_has_permission(&self, permission: u8) -> bool {
        (self.permissions & permission) != 0
    }

    /// A download bound is set and has been reached.
    pub open spec fn limit_reached(&self) -> bool {
        self.max_downloads matches Some(max) && self.used_downloads >= max
    }

    /// The grant allows downloading and its bound, if any, is not reached.
    pub open spec fn spec_can_download(&self) -> bool {
        &&& self.spec_has_permission(PERMISSION_DOWNLOAD)
        &&& !self.limit_reached()
    }

    /// The download counter can take the next download: unless the bound is
    /// reached, it is below the largest value it can hold.
    pub open spec fn download_fits(&self) -> bool {
        !self.limit_reached() ==> self.used_downloads < u32::MAX
    }

    /// The grant with one more download counted.
    pub open spec fn with_download_used(self) -> AccessPermission {
        AccessPermission { used_downloads: (self.used_downloads + 1) as u32, ..self }
    }

    /// The grant after revocation at `timestamp`.
    pub open spec fn revoked(self, timestamp: i64) -> AccessPermission {
        AccessPermission { is_active: false, revoked_at: Some(timestamp), ..self }
    }

    /// Whether the grant is active and not expired at time `now`.
    #[verifier::when_used_as_spec(spec_is_valid)]
    pub fn is_valid(&self, now: i64) -> (valid: bool)
        ensures
            valid == self.spec_is_valid(now),
    {
        self.is_active && match self.expires_at {
            Some(expiry) => now <= expiry,
            None => true,
        }
    }

    /// Whether the mask holds at least one flag of `permission`.
    #[verifier::when_used_as_spec(spec_has_permission)]
    pub fn has_permission(&self, permission: u8) -> (held: bool)
        ensures
            held == self.spec_has_permission(permission),
    {
        (self.permissions & permission) != 0
    }

    /// Whether the grant allows one more download.
    #[verifier::when_used_as_spec(spec_can_download)]
    pub fn can_download(&self) -> (allowed: bool)
        ensures
            allowed == self.spec_can_download(),
    {
        self.has_permission(PERMISSION_DOWNLOAD) && match self.max_downloads {
            Some(max) => (self.used_downloads as u64) < max,
            None => true,
        }
    }

    /// Counts one download, unless the bound is reached: then the grant is
    /// left as it is.
    pub fn consume_download(&mut self) -> (result: Result<(), DenftError>)
        requires
            old(self).download_fits(),
        ensures
            old(self).limit_reached() ==> {
                &&& rejected_with(result, DenftError::DownloadLimitExceeded)
                &&& *final(self) == *old(self)
            },
            !old(self).limit_reached() ==> {
                &&& result is Ok
                &&& *final(self) == old(self).with_download_used()
            },
            old(self).wf() ==> final(self).wf(),
    {
        if let Some(max) = self.max_downloads {
            if (self.used_downloads as u64) >= max {
                return Err(DenftError::DownloadLimitExceeded);
            }
        }
        self.used_downloads += 1;
        Ok(())
    }

    /// Ends the grant at `timestamp`.
    pub fn revoke(&mut self, timestamp: i64)
        ensures
            *final(self) == old(self).revoked(timestamp),
            old(self).wf() ==> final(self).wf(),
    {
        self.is_active = false;
        self.revoked_at = Some(timestamp);
    }

    /// Whether `permissions` is a valid mask.
    #[verifier::when_used_as_spec(spec_is_valid_permission)]
    pub fn is_valid_permission(permissions: u8) -> (valid: bool)
        ensures
            valid == AccessPermission::spec_is_valid_permission(permissions),
    {
        permissions > 0 && permissions <= 7
    }

    /// The valid masks are the non-empty unions of the three flags.
    pub proof fn lemma_valid_masks_are_flag_unions(permissions: u8)
        ensures
            AccessPermission::spec_is_valid_permission(permissions) <==> {
                &&& permissions != 0
                &&& permissions & !(PERMISSION_READ | PERMISSION_DOWNLOAD | PERMISSION_SHARE) == 0
            },
            PERMISSION_READ | PERMISSION_DOWNLOAD | PERMISSION_SHARE == 7,
    {
        assert((0 < permissions <= 7) <==> (permissions != 0 && permissions & !(1u8 | 2u8 | 4u8)
            == 0)) by (bit_vector);
        assert(1u8 | 2u8 | 4u8 == 7) by (bit_vector);
    }

    /// A grant with a valid mask holds at least one of the three rights, and
    /// the full mask holds all of them.
    pub proof fn lemma_valid_mask_grants_a_right(self)
        ensures
            AccessPermission::spec_is_valid_permission(self.permissions) ==> {
                ||| self.spec_has_permission(PERMISSION_READ)
                ||| self.spec_has_permission(PERMISSION_DOWNLOAD)
                ||| self.spec_has_permission(PERMISSION_SHARE)
            },
            self.permissions == 7 ==> {
                &&& self.spec_has_permission(PERMISSION_READ)
                &&& self.spec_has_permission(PERMISSION_DOWNLOAD)
                &&& self.spec_has_permission(PERMISSION_SHARE)
            },
    {
        let p = self.permissions;
        assert(0 < p <= 7 ==> (p & 1u8) != 0 || (p & 2u8) != 0 || (p & 4u8) != 0) by (bit_vector);
        assert(p == 7 ==> (p & 1u8) != 0 && (p & 2u8) != 0 && (p & 4u8) != 0) by (bit_vector);
    }

    /// While a grant is active, it is valid up to and including its
    /// expiration time and invalid after it; without one it is always valid.
    pub proof fn lemma_validity_follows_expiry(self, now: i64)
        requires
            self.is_active,
        ensures
            self.expires_at matches Some(expiry) ==> (self.spec_is_valid(now) <==> now <= expiry),
            self.expires_at is None ==> self.spec_is_valid(now),
    {
    }
}

} // verus!
