use vstd::prelude::*;

use crate::custodian::{derives_spec, verify_custodian, Address};
use crate::error::SwapError;
use crate::pipeline::Action;

verus! {

/// The balances that one exchange touches, with the identity that owns the
/// pool and the program under which that owner is derived.
#[derive(Clone, Copy, Debug)]
pub struct Ledger {
    /// Compressed balance of the requester's source record.
    pub source_compressed: u64,
    /// Decompressed staging account of the source token.
    pub source_staging: u64,
    /// The protocol's pooled holding account.
    pub pool: u64,
    /// Decompressed staging account of the destination token.
    pub dest_staging: u64,
    /// Compressed balance of the requester's destination record.
    pub dest_compressed: u64,
    /// Owner of the pool: the derived custodian identity.
    pub pool_owner: Address,
    /// Program under which the custodian is derived.
    pub program_id: Address,
}

/// Decompression: moves `amount` from the source record into its staging
/// account.
pub open spec fn decompress_spec(l: Ledger, amount: u64) -> Result<Ledger, SwapError> {
    if amount > l.source_compressed {
        Err(SwapError::InsufficientFunds)
    } else if l.source_staging + amount > u64::MAX {
        Err(SwapError::InvalidCompressionState)
    } else {
        Ok(Ledger {
            source_compressed: (l.source_compressed - amount) as u64,
            source_staging: (l.source_staging + amount) as u64,
            ..l
        })
    }
}

/// Transfer-in, signed by the requester: moves `amount` from the source
/// staging account into the pool.
pub open spec fn transfer_in_spec(l: Ledger, amount: u64) -> Result<Ledger, SwapError> {
    if amount > l.source_staging || l.pool + amount > u64::MAX {
        Err(SwapError::TransferError)
    } else {
        Ok(Ledger {
            source_staging: (l.source_staging - amount) as u64,
            pool: (l.pool + amount) as u64,
            ..l
        })
    }
}

/// Transfer-out under the custodian: the presented `label` and `bump` must
/// derive the pool's owner, then `amount` moves from the pool into the
/// destination staging account.
pub open spec fn transfer_out_spec(l: Ledger, amount: u64, label: Seq<u8>, bump: u8) -> Result<Ledger, SwapError> {
    if !derives_spec(label, bump, l.program_id@, l.pool_owner@) {
        Err(SwapError::AuthorizationError)
    } else if amount > l.pool || l.dest_staging + amount > u64::MAX {
        Err(SwapError::TransferError)
    } else {
        Ok(Ledger {
            pool: (l.pool - amount) as u64,
            dest_staging: (l.dest_staging + amount) as u64,
            ..l
        })
    }
}

/// Compression: moves `amount` from the destination staging account into
/// the destination record.
pub open spec fn compress_spec(l: Ledger, amount: u64) -> Result<Ledger, SwapError> {
    if amount > l.dest_staging || l.dest_compressed + amount > u64::MAX {
        Err(SwapError::InvalidCompressionState)
    } else {
        Ok(Ledger {
            dest_staging: (l.dest_staging - amount) as u64,
            dest_compressed: (l.dest_compressed + amount) as u64,
            ..l
        })
    }
}

/// The effect of one requested action on the ledger; emitting the event
/// touches no balance.
pub open spec fn apply_spec(l: Ledger, action: Action, label: Seq<u8>, bump: u8) -> Result<Ledger, SwapError> {
    match action {
        Action::Decompress(amount) => decompress_spec(l, amount),
        Action::TransferIn(amount) => transfer_in_spec(l, amount),
        Action::TransferOut(amount) => transfer_out_spec(l, amount, label, bump),
        Action::Compress(amount) => compress_spec(l, amount),
        Action::Emit => Ok(l),
    }
}

impl Ledger {
    /// The ledger after carrying out `action`, the custodian presenting
    /// `label` and `bump`; on failure nothing changes.
    pub fn apply(&self, action: Action, label: &[u8], bump: u8) -> (r: Result<Ledger, SwapError>)
        ensures
            r == apply_spec(*self, action, label@, bump),
    {
        match action {
            Action::Decompress(amount) => self.decompress(amount),
            Action::TransferIn(amount) => self.transfer_in(amount),
            Action::TransferOut(amount) => self.transfer_out(amount, label, bump),
            Action::Compress(amount) => self.compress(amount),
            Action::Emit => Ok(*self),
        }
    }

    /// The ledger after decompressing `amount`; on failure nothing changes.
    pub fn decompress(&self, amount: u64) -> (r: Result<Ledger, SwapError>)
        ensures
            r == decompress_spec(*self, amount),
    {
        if amount > self.source_compressed {
            return Err(SwapError::InsufficientFunds);
        }
        match self.source_staging.checked_add(amount) {
            None => Err(SwapError::InvalidCompressionState),
            Some(staged) => Ok(Ledger {
                source_compressed: self.source_compressed - amount,
                source_staging: staged,
                ..*self
            }),
        }
    }

    /// The ledger after the requester's transfer of `amount` into the pool.
    pub fn transfer_in(&self, amount: u64) -> (r: Result<Ledger, SwapError>)
        ensures
            r == transfer_in_spec(*self, amount),
    {
        if amount > self.source_staging {
            return Err(SwapError::TransferError);
        }
        match self.pool.checked_add(amount) {
            None => Err(SwapError::TransferError),
            Some(pool) => Ok(Ledger {
                source_staging: self.source_staging - amount,
                pool,
                ..*self
            }),
        }
    }

    /// The ledger after the custodian's transfer of `amount` out of the
    /// pool, authorized by presenting `label` and `bump`.
    pub fn transfer_out(&self, amount: u64, label: &[u8], bump: u8) -> (r: Result<Ledger, SwapError>)
        ensures
            r == transfer_out_spec(*self, amount, label@, bump),
    {
        verify_custodian(label, bump, &self.program_id, &self.pool_owner)?;
        if amount > self.pool {
            return Err(SwapError::TransferError);
        }
        match self.dest_staging.checked_add(amount) {
            None => Err(SwapError::TransferError),
            Some(staged) => Ok(Ledger {
                pool: self.pool - amount,
                dest_staging: staged,
                ..*self
            }),
        }
    }

    /// The ledger after compressing `amount` into the destination record.
    pub fn compress(&self, amount: u64) -> (r: Result<Ledger, SwapError>)
        ensures
            r == compress_spec(*self, amount),
    {
        if amount > self.dest_staging {
            return Err(SwapError::InvalidCompressionState);
        }
        match self.dest_compressed.checked_add(amount) {
            None => Err(SwapError::InvalidCompressionState),
            Some(compressed) => Ok(Ledger {
                dest_staging: self.dest_staging - amount,
                dest_compressed: compressed,
                ..*self
            }),
        }
    }
}

} // verus!
