//! The quota ledger: per-identity file count and storage use against caps.

use vstd::prelude::*;
use crate::pubkey::Pubkey;

verus! {

/// The quota account of one identity.
#[derive(Clone, Copy, Debug, PartialEq, Eq)]
pub struct UserAccount {
    /// The identity the account belongs to.
    pub owner: Pubkey,
    /// Number of files currently registered.
    pub file_count: u32,
    /// Bytes currently registered.
    pub storage_used: u64,
    /// Ceiling for `storage_used`.
    pub storage_limit: u64,
    /// Ceiling for `file_count`.
    pub file_limit: u32,
    /// When the account was created.
    pub created_at: i64,
    /// Whether the account may register files.
    pub is_active: bool,
}

impl UserAccount {
    /// Serialized size of an account in bytes: tag, owner, the two counters,
    /// the two limits, the creation time, the status and 64 reserved bytes.
    pub const LEN: usize = 8 + 32 + 4 + 8 + 8 + 4 + 8 + 1 + 64;

    /// Both counters are within their ceilings.
    pub open spec fn within_limits(&self) -> bool {
        &&& self.file_count <= self.file_limit
        &&& self.storage_used <= self.storage_limit
    }

    /// There is headroom for one more file of `file_size` bytes.
    pub open spec fn spec_can_add_file(&self, file_size: u64) -> bool {
        &&& self.is_active
        &&& self.file_count < self.file_limit
        &&& self.storage_used + file_size <= self.storage_limit
    }

    /// The account after one file of `file_size` bytes was added.
    pub open spec fn with_file_added(self, file_size: u64) -> UserAccount {
        UserAccount {
            file_count: (self.file_count + 1) as u32,
            storage_used: (self.storage_used + file_size) as u64,
            ..self
        }
    }

    /// The account after one file of `file_size` bytes was removed; neither
    /// counter goes below zero.
    pub open spec fn with_file_removed(self, file_size: u64) -> UserAccount {
        UserAccount {
            file_count: if self.file_count >= 1 {
                (self.file_count - 1) as u32
            } else {
                0
            },
            storage_used: if self.storage_used >= file_size {
                (self.storage_used - file_size) as u64
            } else {
                0
            },
            ..self
        }
    }

    /// Whether the account is active and has headroom for one more file of
    /// `file_size` bytes. The sum is taken in the integers: it cannot wrap.
    #[verifier::when_used_as_spec(spec_can_add_file)]
    pub fn can_add_file(&self, file_size: u64) -> (fits: bool)
        ensures
            fits == self.spec_can_add_file(file_size),
    {
        self.is_active && self.file_count < self.file_limit
            && self.storage_used <= self.storage_limit
            && file_size <= self.storage_limit - self.storage_used
    }

    /// Counts one more file of `file_size` bytes. No ceiling is tested here:
    /// the caller has asked `can_add_file` before, and then the counters stay
    /// within their ceilings.
    pub fn add_file(&mut self, file_size: u64)
        requires
            old(self).file_count < u32::MAX,
            old(self).storage_used + file_size <= u64::MAX,
        ensures
            *final(self) == old(self).with_file_added(file_size),
            old(self).within_limits() && old(self).spec_can_add_file(file_size)
                ==> final(self).within_limits(),
    {
        self.file_count += 1;
        self.storage_used += file_size;
    }

    /// Takes one file of `file_size` bytes off the counters, stopping at zero.
    pub fn remove_file(&mut self, file_size: u64)
        ensures
            *final(self) == old(self).with_file_removed(file_size),
            old(self).within_limits() ==> final(self).within_limits(),
    {
        self.file_count = self.file_count.saturating_sub(1);
        self.storage_used = self.storage_used.saturating_sub(file_size);
    }
}

/// One event in the history of an account's counters.
pub enum QuotaStep {
    /// A file of this many bytes is offered; it is added if there is headroom.
    Add(u64),
    /// A file of this many bytes is removed.
    Remove(u64),
}

impl UserAccount {
    /// The account after one step. An `Add` without headroom changes nothing.
    pub open spec fn after_step(self, step: QuotaStep) -> UserAccount {
        match step {
            QuotaStep::Add(file_size) => if self.spec_can_add_file(file_size) {
                self.with_file_added(file_size)
            } else {
                self
            },
            QuotaStep::Remove(file_size) => self.with_file_removed(file_size),
        }
    }

    /// The account after a sequence of steps, first to last.
    pub open spec fn after_steps(self, steps: Seq<QuotaStep>) -> UserAccount
        decreases steps.len(),
    {
        if steps.len() == 0 {
            self
        } else {
            self.after_steps(steps.drop_last()).after_step(steps.last())
        }
    }

    /// An account that is within its ceilings stays within them through any
    /// sequence of guarded additions and removals, and neither counter drops
    /// below zero. The owner, the ceilings and the status never move.
    pub proof fn lemma_counters_stay_within_limits(self, steps: Seq<QuotaStep>)
        requires
            self.within_limits(),
        ensures
            self.after_steps(steps).within_limits(),
            self.after_steps(steps).file_count >= 0,
            self.after_steps(steps).storage_used >= 0,
            self.after_steps(steps).owner == self.owner,
            self.after_steps(steps).file_limit == self.file_limit,
            self.after_steps(steps).storage_limit == self.storage_limit,
            self.after_steps(steps).is_active == self.is_active,
            self.after_steps(steps).created_at == self.created_at,
        decreases steps.len(),
    {
        if steps.len() > 0 {
            self.lemma_counters_stay_within_limits(steps.drop_last());
        }
    }

    /// Removing more than is recorded leaves the counters at zero.
    pub proof fn lemma_remove_saturates(self, file_size: u64)
        ensures
            self.file_count == 0 ==> self.with_file_removed(file_size).file_count == 0,
            self.storage_used <= file_size
                ==> self.with_file_removed(file_size).storage_used == 0,
            self.with_file_removed(file_size).file_count <= self.file_count,
            self.with_file_removed(file_size).storage_used <= self.storage_used,
    {
    }
}

} // verus!
