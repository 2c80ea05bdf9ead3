use vstd::prelude::*;
use crate::pubkey::Pubkey;
use crate::transaction::{SuperTransaction, SuperTransactionV};
use crate::transaction_buffer::{TransactionBuffer, TransactionBufferV};

verus! {

// ---------------------------------------------------------------------------
// The host's storage slots, modeled as plain values. A slot whose state is
// `None` is empty storage: closed, or never initialized. Every operation of
// the library either commits its whole effect on these values or leaves
// them untouched, mirroring the host's all-or-nothing unit.
// ---------------------------------------------------------------------------

/// A storage slot holding a staging buffer, with its backing deposit.
pub struct BufferAccount {
    pub lamports: u64,
    pub state: Option<TransactionBuffer>,
}

/// Mathematical image of a buffer slot.
pub struct BufferAccountV {
    pub lamports: u64,
    pub state: Option<TransactionBufferV>,
}

impl View for BufferAccount {
    type V = BufferAccountV;

    open spec fn view(&self) -> BufferAccountV {
        BufferAccountV {
            lamports: self.lamports,
            state: match self.state {
                Some(b) => Some(b@),
                None => None,
            },
        }
    }
}

/// A storage slot holding an execution record, with its own address and
/// backing deposit.
pub struct TransactionAccount {
    /// The slot's address; the seed every ephemeral signer is scoped to.
    pub key: Pubkey,
    pub lamports: u64,
    pub state: Option<SuperTransaction>,
}

/// Mathematical image of a record slot.
pub struct TransactionAccountV {
    pub key: Seq<u8>,
    pub lamports: u64,
    pub state: Option<SuperTransactionV>,
}

impl View for TransactionAccount {
    type V = TransactionAccountV;

    open spec fn view(&self) -> TransactionAccountV {
        TransactionAccountV {
            key: self.key@,
            lamports: self.lamports,
            state: match self.state {
                Some(t) => Some(t@),
                None => None,
            },
        }
    }
}

/// Closes a slot's deposit by transferring all lamports to the
/// destination; the caller empties the slot's state in the same step.
pub fn close(lamports: &mut u64, sol_destination_lamports: &mut u64)
    requires
        *old(lamports) + *old(sol_destination_lamports) <= u64::MAX,
    ensures
        *final(sol_destination_lamports) == *old(sol_destination_lamports) + *old(lamports),
        *final(lamports) == 0,
{
    *sol_destination_lamports = *sol_destination_lamports + *lamports;
    *lamports = 0;
}

} // verus!
