use vstd::prelude::*;
use crate::errors::SuperTxnError;
use crate::pda::{eph_find, sha256_of};
use crate::message::{decoded_message, parse_transaction_message};
use crate::transaction::msg_valid;
use crate::transaction_buffer::{buffer_inv, TransactionBufferV, MAX_BUFFER_SIZE};
use crate::{
    spec_buffer_create, spec_buffer_extend, spec_execute_check, spec_promote_check,
    spec_sentinel, spec_transaction_create,
};
use crate::transaction::SuperTransactionV;

verus! {

/// Creation establishes the buffer invariant: whatever arguments creation
/// accepts, the buffer it yields has its content within the declared final
/// size, which is within the hard ceiling.
pub proof fn lemma_create_establishes_invariant(
    creator: Seq<u8>,
    buffer_index: u8,
    final_buffer_hash: Seq<u8>,
    final_buffer_size: u16,
    initial: Seq<u8>,
)
    ensures
        spec_buffer_create(
            creator,
            buffer_index,
            final_buffer_hash,
            final_buffer_size,
            initial,
        ) matches Ok(bv) ==> buffer_inv(bv),
{
}

/// Extension preserves the buffer invariant, and an extension that would
/// break it aborts with the buffer unchanged: on success the new content is
/// the old content followed by the chunk and the invariant still holds; on
/// failure the buffer is exactly as it was.
pub proof fn lemma_extend_preserves_invariant(b: TransactionBufferV, chunk: Seq<u8>)
    requires
        buffer_inv(b),
    ensures
        ({
            let (st, r) = spec_buffer_extend(Some(b), chunk);
            &&& (r is Ok ==> (st matches Some(nb) && (nb.buffer == b.buffer + chunk
                && buffer_inv(nb))))
            &&& (r is Err ==> st == Some(b))
        }),
{
}

/// An extension with a chunk larger than the remaining capacity aborts,
/// and the buffer content is unchanged afterward.
pub proof fn lemma_extend_over_capacity_aborts(b: TransactionBufferV, chunk: Seq<u8>)
    requires
        buffer_inv(b),
        b.buffer.len() + chunk.len() > b.final_buffer_size as int,
    ensures
        spec_buffer_extend(Some(b), chunk).1 is Err,
        spec_buffer_extend(Some(b), chunk).0 == Some(b),
{
}

/// Extending empty storage is a silent success that changes nothing, every
/// time.
pub proof fn lemma_extend_empty_is_noop(chunk: Seq<u8>)
    ensures
        spec_buffer_extend(None, chunk) == (None::<TransactionBufferV>, Ok::<
            (),
            SuperTxnError,
        >(())),
{
}

/// Promotion rejects a buffer whose content does not hash to its
/// commitment with exactly `FinalBufferHashMismatch`, and one whose content
/// length differs from its declared size with exactly
/// `FinalBufferSizeMismatch`.
pub proof fn lemma_promote_rejects(b: TransactionBufferV, caller: Seq<u8>)
    ensures
        sha256_of(b.buffer) != b.final_buffer_hash ==> spec_promote_check(
            b,
            caller,
            spec_sentinel(),
        ) == Err::<(), SuperTxnError>(SuperTxnError::FinalBufferHashMismatch),
        (sha256_of(b.buffer) == b.final_buffer_hash && b.buffer.len()
            != b.final_buffer_size as int) ==> spec_promote_check(b, caller, spec_sentinel())
            == Err::<(), SuperTxnError>(SuperTxnError::FinalBufferSizeMismatch),
{
}

/// Execution by any caller other than the record's owner fails with
/// exactly `Unauthorized`.
pub proof fn lemma_execute_unauthorized(
    t: SuperTransactionV,
    transaction_key: Seq<u8>,
    caller: Seq<u8>,
    program_id: Seq<u8>,
    ctx: Seq<Seq<u8>>,
)
    requires
        t.creator != caller,
    ensures
        spec_execute_check(t, transaction_key, caller, program_id, ctx) == Err::<
            (),
            SuperTxnError,
        >(SuperTxnError::Unauthorized),
{
}

/// Capability derivation is deterministic: the same record address, program
/// and index always yield the same identity and bump.
pub proof fn lemma_capability_determinism(
    key_a: Seq<u8>,
    program_a: Seq<u8>,
    index_a: u8,
    key_b: Seq<u8>,
    program_b: Seq<u8>,
    index_b: u8,
)
    requires
        key_a == key_b,
        program_a == program_b,
        index_a == index_b,
    ensures
        eph_find(key_a, program_a, index_a) == eph_find(key_b, program_b, index_b),
{
}

/// The staging round trip: create a buffer committed to content `c` with a
/// prefix of `c`, extend it with the remaining suffix, and promote. Every
/// step succeeds and the promoted record's message is exactly the message
/// `c` decodes to.
pub proof fn lemma_stage_and_promote_round_trip(
    creator: Seq<u8>,
    buffer_index: u8,
    c: Seq<u8>,
    prefix_len: int,
    transaction_key: Seq<u8>,
    program_id: Seq<u8>,
    ephemeral_signers: u8,
)
    requires
        0 <= prefix_len <= c.len(),
        c.len() <= MAX_BUFFER_SIZE as int,
        c.len() <= u16::MAX as int,
        parse_transaction_message(c) is Some,
        msg_valid(decoded_message(c)),
    ensures
        ({
            let declared = c.len() as u16;
            let created = spec_buffer_create(
                creator,
                buffer_index,
                sha256_of(c),
                declared,
                c.subrange(0, prefix_len),
            );
            &&& created matches Ok(b0)
            &&& ({
                let b0 = created->Ok_0;
                let (st1, r1) = spec_buffer_extend(Some(b0), c.subrange(prefix_len, c.len() as int));
                &&& r1 is Ok
                &&& st1 matches Some(b1)
                &&& ({
                    let b1 = st1->Some_0;
                    &&& b1.buffer == c
                    &&& spec_promote_check(b1, creator, spec_sentinel()) is Ok
                    &&& spec_transaction_create(
                        transaction_key,
                        program_id,
                        creator,
                        ephemeral_signers,
                        b1.buffer,
                    ) matches Ok(tv)
                    &&& spec_transaction_create(
                        transaction_key,
                        program_id,
                        creator,
                        ephemeral_signers,
                        b1.buffer,
                    )->Ok_0.message == decoded_message(c)
                })
            })
        }),
{
    assert(c.subrange(0, prefix_len) + c.subrange(prefix_len, c.len() as int) =~= c);
}

} // verus!
