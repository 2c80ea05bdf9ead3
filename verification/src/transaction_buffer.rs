use vstd::prelude::*;
use crate::errors::SuperTxnError;
use crate::pda::{sha256, sha256_of};
use crate::pubkey::Pubkey;

verus! {

/// Hard ceiling on the content of a staging buffer, in bytes.
pub const MAX_BUFFER_SIZE: usize = 10128;

/// A staging buffer: a chunk-assembled byte accumulator with a declared
/// final size and a commitment hash over the final content.
#[derive(Debug)]
pub struct TransactionBuffer {
    /// The owner who alone may extend, promote or close the buffer.
    pub creator: Pubkey,
    /// Index that seeds the buffer's slot derivation.
    pub buffer_index: u8,
    /// Commitment: hash of the final assembled content.
    pub final_buffer_hash: [u8; 32],
    /// Declared size of the final assembled content.
    pub final_buffer_size: u16,
    /// The content accumulated so far.
    pub buffer: Vec<u8>,
}

/// Mathematical image of a staging buffer.
pub struct TransactionBufferV {
    pub creator: Seq<u8>,
    pub buffer_index: u8,
    pub final_buffer_hash: Seq<u8>,
    pub final_buffer_size: u16,
    pub buffer: Seq<u8>,
}

impl View for TransactionBuffer {
    type V = TransactionBufferV;

    open spec fn view(&self) -> TransactionBufferV {
        TransactionBufferV {
            creator: self.creator@,
            buffer_index: self.buffer_index,
            final_buffer_hash: self.final_buffer_hash@,
            final_buffer_size: self.final_buffer_size,
            buffer: self.buffer@,
        }
    }
}

/// The structural invariant of a staging buffer: the content never exceeds
/// the declared final size, which never exceeds the hard ceiling.
pub open spec fn buffer_inv(b: TransactionBufferV) -> bool {
    &&& b.buffer.len() <= b.final_buffer_size as int
    &&& b.final_buffer_size as int <= MAX_BUFFER_SIZE as int
}

impl TransactionBuffer {
    /// Storage size of a buffer slot with the given declared final size:
    /// fixed header (tag, owner, index, hash, declared size, length prefix)
    /// plus the content capacity.
    pub fn size(final_message_buffer_size: u16) -> (r: Result<usize, SuperTxnError>)
        ensures
            final_message_buffer_size as int <= MAX_BUFFER_SIZE as int ==> r == Ok::<usize, SuperTxnError>(
                (8 + 32 + 1 + 32 + 2 + 4 + final_message_buffer_size as usize) as usize,
            ),
            final_message_buffer_size as int > MAX_BUFFER_SIZE as int ==> r == Err::<usize, SuperTxnError>(
                SuperTxnError::FinalBufferSizeExceeded,
            ),
    {
        if (final_message_buffer_size as usize) > MAX_BUFFER_SIZE {
            return Err(SuperTxnError::FinalBufferSizeExceeded);
        }
        Ok(8 + 32 + 1 + 32 + 2 + 4 + final_message_buffer_size as usize)
    }

    /// Checks that the accumulated content has exactly the declared final size.
    pub fn validate_size(&self) -> (r: Result<(), SuperTxnError>)
        ensures
            r is Ok <==> self@.buffer.len() == self@.final_buffer_size as int,
            r is Err ==> r == Err::<(), SuperTxnError>(SuperTxnError::FinalBufferSizeMismatch),
    {
        if self.buffer.len() == self.final_buffer_size as usize {
            Ok(())
        } else {
            Err(SuperTxnError::FinalBufferSizeMismatch)
        }
    }

    /// Checks that the accumulated content hashes to the declared commitment.
    pub fn validate_hash(&self) -> (r: Result<(), SuperTxnError>)
        ensures
            r is Ok <==> sha256_of(self@.buffer) == self@.final_buffer_hash,
            r is Err ==> r == Err::<(), SuperTxnError>(SuperTxnError::FinalBufferHashMismatch),
    {
        let digest = sha256(&self.buffer);
        let mut i: usize = 0;
        while i < 32
            invariant
                i <= 32,
                digest@ == sha256_of(self@.buffer),
                digest@.len() == 32,
                self@.final_buffer_hash.len() == 32,
                forall|j: int| 0 <= j < i ==> digest@[j] == self@.final_buffer_hash[j],
            decreases 32 - i,
        {
            if digest[i] != self.final_buffer_hash[i] {
                assert(digest@ != self@.final_buffer_hash);
                return Err(SuperTxnError::FinalBufferHashMismatch);
            }
            i += 1;
        }
        proof {
            assert(digest@ =~= self@.final_buffer_hash);
        }
        Ok(())
    }

    /// Checks the structural invariant, reporting the first violated clause:
    /// sizes over the ceiling, then content over the declared size.
    pub fn check_invariant(&self) -> (r: Result<(), SuperTxnError>)
        ensures
            r is Ok <==> buffer_inv(self@),
            r is Err ==> (r == Err::<(), SuperTxnError>(SuperTxnError::FinalBufferSizeExceeded)
                <==> (self@.final_buffer_size as int > MAX_BUFFER_SIZE as int
                    || self@.buffer.len() > MAX_BUFFER_SIZE as int)),
            r is Err ==> (r == Err::<(), SuperTxnError>(SuperTxnError::FinalBufferSizeMismatch)
                <==> (self@.final_buffer_size as int <= MAX_BUFFER_SIZE as int
                    && self@.buffer.len() <= MAX_BUFFER_SIZE as int
                    && self@.buffer.len() > self@.final_buffer_size as int)),
    {
        if (self.final_buffer_size as usize) > MAX_BUFFER_SIZE {
            return Err(SuperTxnError::FinalBufferSizeExceeded);
        }
        if self.buffer.len() > MAX_BUFFER_SIZE {
            return Err(SuperTxnError::FinalBufferSizeExceeded);
        }
        if self.buffer.len() > self.final_buffer_size as usize {
            return Err(SuperTxnError::FinalBufferSizeMismatch);
        }
        Ok(())
    }
}

} // verus!
