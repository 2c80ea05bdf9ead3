use vstd::prelude::*;

pub mod errors;
pub mod executor;
pub mod laws;
pub mod message;
pub mod pda;
pub mod pubkey;
pub mod system;
pub mod transaction;
pub mod transaction_buffer;

verus! {

use crate::errors::SuperTxnError;
use crate::executor::{
    compile_invocations, spec_context_matches, spec_invocation, ExecutionPlan,
};
use crate::message::{decoded_message, msg_wf_bounds, parse_transaction_message,
    lemma_decoded_message_bounds, TransactionMessage,
};
use crate::pda::{
    derive_ephemeral_signer_bumps, derive_ephemeral_signers, eph_create_at, eph_find,
    eph_full_seeds, eph_key_of,
};
use crate::pubkey::Pubkey;
use crate::system::{close, BufferAccount, TransactionAccount};
use crate::transaction::{
    msg_valid, SuperTransaction, SuperTransactionMessage, SuperTransactionV,
};
use crate::transaction_buffer::{
    buffer_inv, TransactionBuffer, TransactionBufferV, MAX_BUFFER_SIZE,
};

// ---------------------------------------------------------------------------
// Staging-buffer operations. Each operation's whole effect is stated by a
// spec transition over the slot views; an operation that fails leaves every
// slot exactly as it was, mirroring the host's all-or-nothing unit.
// ---------------------------------------------------------------------------

pub struct TransactionBufferCreateArgs {
    /// Index of the buffer slot, seeding its address derivation.
    pub buffer_index: u8,
    /// Hash of the final assembled content.
    pub final_buffer_hash: [u8; 32],
    /// Declared size of the final assembled content.
    pub final_buffer_size: u16,
    /// Initial slice of the content.
    pub buffer: Vec<u8>,
}

/// What creating a buffer yields: the populated buffer, or the exact error.
pub open spec fn spec_buffer_create(
    creator: Seq<u8>,
    buffer_index: u8,
    final_buffer_hash: Seq<u8>,
    final_buffer_size: u16,
    initial: Seq<u8>,
) -> Result<TransactionBufferV, SuperTxnError> {
    if final_buffer_size as int > MAX_BUFFER_SIZE as int {
        Err(SuperTxnError::FinalBufferSizeExceeded)
    } else if initial.len() > MAX_BUFFER_SIZE as int {
        Err(SuperTxnError::FinalBufferSizeExceeded)
    } else if initial.len() > final_buffer_size as int {
        Err(SuperTxnError::FinalBufferSizeMismatch)
    } else {
        Ok(
            TransactionBufferV {
                creator,
                buffer_index,
                final_buffer_hash,
                final_buffer_size,
                buffer: initial,
            },
        )
    }
}

pub struct TransactionBufferCreate {
    /// The fresh buffer slot; the host guarantees it was empty.
    pub transaction_buffer: BufferAccount,
    /// The owner creating the buffer.
    pub creator: Pubkey,
    /// The payer funding the slot; a separate, non-owning party.
    pub rent_payer: Pubkey,
}

impl TransactionBufferCreate {
    /// Creates a new staging buffer: populates the slot and checks the
    /// structural invariant before committing.
    pub fn transaction_buffer_create(&mut self, args: TransactionBufferCreateArgs) -> (r: Result<
        (),
        SuperTxnError,
    >)
        requires
            old(self).transaction_buffer.state is None,
        ensures
            final(self).creator == old(self).creator,
            final(self).rent_payer == old(self).rent_payer,
            final(self).transaction_buffer.lamports == old(self).transaction_buffer.lamports,
            match spec_buffer_create(
                old(self).creator@,
                args.buffer_index,
                args.final_buffer_hash@,
                args.final_buffer_size,
                args.buffer@,
            ) {
                Ok(bv) => r is Ok && final(self).transaction_buffer@.state == Some(bv),
                Err(e) => r == Err::<(), SuperTxnError>(e)
                    && final(self).transaction_buffer.state is None,
            },
    {
        match TransactionBuffer::size(args.final_buffer_size) {
            Ok(_) => (),
            Err(e) => {
                return Err(e);
            },
        }
        let transaction_buffer = TransactionBuffer {
            creator: self.creator,
            buffer_index: args.buffer_index,
            final_buffer_hash: args.final_buffer_hash,
            final_buffer_size: args.final_buffer_size,
            buffer: args.buffer,
        };
        match transaction_buffer.check_invariant() {
            Ok(_) => (),
            Err(e) => {
                return Err(e);
            },
        }
        self.transaction_buffer.state = Some(transaction_buffer);
        Ok(())
    }
}

pub struct TransactionBufferExtendArgs {
    /// Chunk to append to the buffer content.
    pub buffer: Vec<u8>,
}

/// What extending a buffer yields: the slot state after the call and the
/// result. An empty slot is a silent success; an append that would break
/// the structural invariant aborts with the slot unchanged; otherwise the
/// chunk is appended, the soft owner/capacity pre-check notwithstanding.
pub open spec fn spec_buffer_extend(
    state: Option<TransactionBufferV>,
    chunk: Seq<u8>,
) -> (Option<TransactionBufferV>, Result<(), SuperTxnError>) {
    match state {
        None => (None, Ok(())),
        Some(b) => {
            let nb = TransactionBufferV { buffer: b.buffer + chunk, ..b };
            if b.final_buffer_size as int > MAX_BUFFER_SIZE as int {
                (Some(b), Err(SuperTxnError::FinalBufferSizeExceeded))
            } else if nb.buffer.len() > MAX_BUFFER_SIZE as int {
                (Some(b), Err(SuperTxnError::FinalBufferSizeExceeded))
            } else if nb.buffer.len() > b.final_buffer_size as int {
                (Some(b), Err(SuperTxnError::FinalBufferSizeMismatch))
            } else {
                (Some(nb), Ok(()))
            }
        },
    }
}

pub struct TransactionBufferExtend {
    /// The buffer slot to extend; possibly already closed.
    pub transaction_buffer: BufferAccount,
    /// The caller asking to append.
    pub creator: Pubkey,
}

impl TransactionBufferExtend {
    /// The owner/capacity pre-check. Its failure is tolerated by the
    /// extend operation: only the structural invariant is enforced.
    pub fn validate(&self, args: &TransactionBufferExtendArgs) -> (r: Result<(), SuperTxnError>)
        requires
            self.transaction_buffer@.state matches Some(b) && buffer_inv(b),
        ensures
            ({
                let b = self.transaction_buffer@.state->Some_0;
                &&& (r is Ok <==> (args.buffer@.len() <= b.final_buffer_size as int
                    - b.buffer.len() && b.creator == self.creator@))
                &&& (args.buffer@.len() > b.final_buffer_size as int - b.buffer.len() ==> r
                    == Err::<(), SuperTxnError>(SuperTxnError::FinalBufferSizeExceeded))
                &&& (args.buffer@.len() <= b.final_buffer_size as int - b.buffer.len()
                    && b.creator != self.creator@ ==> r == Err::<(), SuperTxnError>(
                    SuperTxnError::Unauthorized,
                ))
            }),
    {
        match &self.transaction_buffer.state {
            Some(transaction_buffer) => {
                let current_buffer_size = transaction_buffer.buffer.len();
                let remaining_space = transaction_buffer.final_buffer_size as usize
                    - current_buffer_size;
                if args.buffer.len() > remaining_space {
                    return Err(SuperTxnError::FinalBufferSizeExceeded);
                }
                if !(transaction_buffer.creator == self.creator) {
                    return Err(SuperTxnError::Unauthorized);
                }
                Ok(())
            },
            None => {
                proof {
                    assert(false);
                }
                Err(SuperTxnError::Unauthorized)
            },
        }
    }

    /// Appends a chunk to the buffer. An already-closed slot is a silent
    /// success; the pre-check result is noted and discarded; the structural
    /// invariant alone decides whether the append commits.
    pub fn transaction_buffer_extend(&mut self, args: TransactionBufferExtendArgs) -> (r: Result<
        (),
        SuperTxnError,
    >)
        requires
            old(self).transaction_buffer@.state matches Some(b) ==> buffer_inv(b),
        ensures
            final(self).creator == old(self).creator,
            final(self).transaction_buffer.lamports == old(self).transaction_buffer.lamports,
            (final(self).transaction_buffer@.state, r) == spec_buffer_extend(
                old(self).transaction_buffer@.state,
                args.buffer@,
            ),
    {
        if self.transaction_buffer.state.is_none() {
            return Ok(());
        }
        let _pre_check = self.validate(&args);

        let chunk = args.buffer;
        match &mut self.transaction_buffer.state {
            Some(transaction_buffer) => {
                let ghost pre_view = transaction_buffer@;
                if chunk.len() > MAX_BUFFER_SIZE {
                    return Err(SuperTxnError::FinalBufferSizeExceeded);
                }
                let new_len = transaction_buffer.buffer.len() + chunk.len();
                if new_len > MAX_BUFFER_SIZE {
                    return Err(SuperTxnError::FinalBufferSizeExceeded);
                }
                if new_len > transaction_buffer.final_buffer_size as usize {
                    return Err(SuperTxnError::FinalBufferSizeMismatch);
                }
                let mut k: usize = 0;
                let ghost pre_buf = transaction_buffer.buffer@;
                while k < chunk.len()
                    invariant
                        k <= chunk@.len(),
                        pre_buf.len() + chunk@.len() <= MAX_BUFFER_SIZE as int,
                        transaction_buffer.creator@ == pre_view.creator,
                        transaction_buffer.buffer_index == pre_view.buffer_index,
                        transaction_buffer.final_buffer_hash@ == pre_view.final_buffer_hash,
                        transaction_buffer.final_buffer_size == pre_view.final_buffer_size,
                        transaction_buffer.buffer@.len() == pre_buf.len() + k as int,
                        transaction_buffer.buffer@ == pre_buf + chunk@.subrange(0, k as int),
                    decreases chunk@.len() - k,
                {
                    proof {
                        assert(pre_buf + chunk@.subrange(0, k as int + 1) =~= (pre_buf
                            + chunk@.subrange(0, k as int)).push(chunk@[k as int]));
                    }
                    transaction_buffer.buffer.push(chunk[k]);
                    k += 1;
                }
                proof {
                    assert(chunk@.subrange(0, chunk@.len() as int) =~= chunk@);
                    assert(transaction_buffer.buffer@ == pre_buf + chunk@);
                    assert(transaction_buffer@ == TransactionBufferV {
                        buffer: pre_view.buffer + chunk@,
                        ..pre_view
                    });
                }
                Ok(())
            },
            None => {
                proof {
                    assert(false);
                }
                Ok(())
            },
        }
    }
}

/// What closing a buffer yields: only the owner may close.
pub open spec fn spec_buffer_close(b: TransactionBufferV, caller: Seq<u8>) -> Result<
    (),
    SuperTxnError,
> {
    if b.creator == caller {
        Ok(())
    } else {
        Err(SuperTxnError::Unauthorized)
    }
}

pub struct TransactionBufferClose {
    /// The buffer slot to close.
    pub transaction_buffer: BufferAccount,
    /// The owner, who receives the slot's deposit back.
    pub creator: Pubkey,
    /// The owner's own balance.
    pub creator_lamports: u64,
}

/// Closes a staging buffer at any time: only the owner may; the deposit is
/// refunded to the owner and the slot is emptied.
pub fn txn_buffer_close(ctx: &mut TransactionBufferClose) -> (r: Result<(), SuperTxnError>)
    requires
        old(ctx).transaction_buffer.state is Some,
        old(ctx).transaction_buffer.lamports + old(ctx).creator_lamports <= u64::MAX,
    ensures
        final(ctx).creator == old(ctx).creator,
        match spec_buffer_close(old(ctx).transaction_buffer@.state->Some_0, old(ctx).creator@) {
            Ok(_) => {
                &&& r is Ok
                &&& final(ctx).transaction_buffer.state is None
                &&& final(ctx).transaction_buffer.lamports == 0
                &&& final(ctx).creator_lamports == old(ctx).creator_lamports
                    + old(ctx).transaction_buffer.lamports
            },
            Err(e) => r == Err::<(), SuperTxnError>(e) && *final(ctx) == *old(ctx),
        },
{
    match &ctx.transaction_buffer.state {
        Some(transaction_buffer) => {
            if !(transaction_buffer.creator == ctx.creator) {
                return Err(SuperTxnError::Unauthorized);
            }
        },
        None => {
            proof {
                assert(false);
            }
        },
    }
    close(&mut ctx.transaction_buffer.lamports, &mut ctx.creator_lamports);
    ctx.transaction_buffer.state = None;
    Ok(())
}

/// Creates a staging buffer slot (see `TransactionBufferCreate`).
pub fn txn_buffer_create(
    ctx: &mut TransactionBufferCreate,
    args: TransactionBufferCreateArgs,
) -> (r: Result<(), SuperTxnError>)
    requires
        old(ctx).transaction_buffer.state is None,
    ensures
        final(ctx).creator == old(ctx).creator,
        final(ctx).transaction_buffer.lamports == old(ctx).transaction_buffer.lamports,
        match spec_buffer_create(
            old(ctx).creator@,
            args.buffer_index,
            args.final_buffer_hash@,
            args.final_buffer_size,
            args.buffer@,
        ) {
            Ok(bv) => r is Ok && final(ctx).transaction_buffer@.state == Some(bv),
            Err(e) => r == Err::<(), SuperTxnError>(e)
                && final(ctx).transaction_buffer.state is None,
        },
{
    ctx.transaction_buffer_create(args)
}

/// Appends a chunk to a staging buffer (see `TransactionBufferExtend`).
pub fn txn_buffer_extend(
    ctx: &mut TransactionBufferExtend,
    args: TransactionBufferExtendArgs,
) -> (r: Result<(), SuperTxnError>)
    requires
        old(ctx).transaction_buffer@.state matches Some(b) ==> buffer_inv(b),
    ensures
        final(ctx).creator == old(ctx).creator,
        final(ctx).transaction_buffer.lamports == old(ctx).transaction_buffer.lamports,
        (final(ctx).transaction_buffer@.state, r) == spec_buffer_extend(
            old(ctx).transaction_buffer@.state,
            args.buffer@,
        ),
{
    ctx.transaction_buffer_extend(args)
}

// ---------------------------------------------------------------------------
// Execution-record operations.
// ---------------------------------------------------------------------------

pub struct SuperTransactionCreateArgs {
    /// Index of this transaction, seeding its slot derivation.
    pub transaction_index: u8,
    /// Number of ephemeral signing identities the transaction needs.
    pub ephemeral_signers: u8,
    /// The flat encoding of the message to compile.
    pub transaction_message: Vec<u8>,
    pub memo: Option<String>,
}

/// Whether every ephemeral-signer derivation for a record succeeds.
pub open spec fn derivations_ok(transaction_key: Seq<u8>, program_id: Seq<u8>, count: u8) -> bool {
    forall|i: u8| i < count ==> eph_find(transaction_key, program_id, i) is Some
}

/// The bump that the search for ephemeral signer `i` yields.
pub open spec fn eph_bump_at(transaction_key: Seq<u8>, program_id: Seq<u8>, i: int) -> u8 {
    eph_find(transaction_key, program_id, i as u8)->Some_0.1
}

/// What creating a record from a raw message yields: the compiled record,
/// or the exact error.
pub open spec fn spec_transaction_create(
    transaction_key: Seq<u8>,
    program_id: Seq<u8>,
    creator: Seq<u8>,
    ephemeral_signers: u8,
    raw_message: Seq<u8>,
) -> Result<SuperTransactionV, SuperTxnError> {
    if parse_transaction_message(raw_message) is None || !msg_valid(decoded_message(raw_message)) {
        Err(SuperTxnError::InvalidTransactionMessage)
    } else {
        Ok(
            SuperTransactionV {
                creator,
                ephemeral_signer_bumps: Seq::new(
                    ephemeral_signers as nat,
                    |i: int| eph_bump_at(transaction_key, program_id, i),
                ),
                message: decoded_message(raw_message),
            },
        )
    }
}

pub struct SuperTransactionCreate {
    /// The fresh record slot; the host guarantees it was empty.
    pub transaction: TransactionAccount,
    /// The owner creating the record.
    pub creator: Pubkey,
    /// The payer funding the slot's storage deposit.
    pub rent_payer: Pubkey,
    /// The payer's balance.
    pub rent_payer_lamports: u64,
}

impl SuperTransactionCreate {
    /// Creates an execution record from an inline raw message: compiles and
    /// validates it, derives one capability bump per ephemeral signer, and
    /// populates the slot.
    pub fn super_transaction_create(
        &mut self,
        program_id: &Pubkey,
        args: SuperTransactionCreateArgs,
    ) -> (r: Result<(), SuperTxnError>)
        requires
            old(self).transaction.state is None,
            derivations_ok(old(self).transaction.key@, program_id@, args.ephemeral_signers),
        ensures
            final(self).creator == old(self).creator,
            final(self).rent_payer == old(self).rent_payer,
            final(self).rent_payer_lamports == old(self).rent_payer_lamports,
            final(self).transaction.key == old(self).transaction.key,
            final(self).transaction.lamports == old(self).transaction.lamports,
            match spec_transaction_create(
                old(self).transaction.key@,
                program_id@,
                old(self).creator@,
                args.ephemeral_signers,
                args.transaction_message@,
            ) {
                Ok(tv) => r is Ok && final(self).transaction@.state == Some(tv),
                Err(e) => r == Err::<(), SuperTxnError>(e)
                    && final(self).transaction.state is None,
            },
    {
        match self.super_transaction_create_checked(program_id, args) {
            Ok(true) => Ok(()),
            Err(e) => Err(e),
            Ok(false) => {
                proof {
                    assert(false);
                }
                Ok(())
            },
        }
    }

    /// The same creation, but declining instead of demanding that every
    /// capability derivation succeed: yields `Ok(false)`, with the slot
    /// untouched, when a derivation fails.
    pub fn super_transaction_create_checked(
        &mut self,
        program_id: &Pubkey,
        args: SuperTransactionCreateArgs,
    ) -> (r: Result<bool, SuperTxnError>)
        requires
            old(self).transaction.state is None,
        ensures
            final(self).creator == old(self).creator,
            final(self).rent_payer == old(self).rent_payer,
            final(self).rent_payer_lamports == old(self).rent_payer_lamports,
            final(self).transaction.key == old(self).transaction.key,
            final(self).transaction.lamports == old(self).transaction.lamports,
            (parse_transaction_message(args.transaction_message@) is None || !msg_valid(
                decoded_message(args.transaction_message@),
            )) ==> (r == Err::<bool, SuperTxnError>(SuperTxnError::InvalidTransactionMessage)
                && final(self).transaction.state is None),
            (parse_transaction_message(args.transaction_message@) is Some && msg_valid(
                decoded_message(args.transaction_message@),
            ) && !derivations_ok(old(self).transaction.key@, program_id@, args.ephemeral_signers))
                ==> (r == Ok::<bool, SuperTxnError>(false)
                && final(self).transaction.state is None),
            (parse_transaction_message(args.transaction_message@) is Some && msg_valid(
                decoded_message(args.transaction_message@),
            ) && derivations_ok(old(self).transaction.key@, program_id@, args.ephemeral_signers))
                ==> (r == Ok::<bool, SuperTxnError>(true) && final(self).transaction@.state
                == Some(
                spec_transaction_create(
                    old(self).transaction.key@,
                    program_id@,
                    old(self).creator@,
                    args.ephemeral_signers,
                    args.transaction_message@,
                )->Ok_0,
            )),
    {
        let transaction_message = match TransactionMessage::deserialize(&args.transaction_message) {
            Ok(m) => m,
            Err(e) => {
                return Err(e);
            },
        };
        let message = match SuperTransactionMessage::try_from(transaction_message) {
            Ok(m) => m,
            Err(e) => {
                return Err(e);
            },
        };
        let ephemeral_signer_bumps = match derive_ephemeral_signer_bumps(
            &self.transaction.key,
            program_id,
            args.ephemeral_signers,
        ) {
            Some(bumps) => bumps,
            None => {
                return Ok(false);
            },
        };
        let ghost tkey = self.transaction.key@;
        let ghost pid = program_id@;
        let ghost eph = args.ephemeral_signers;
        proof {
            assert forall|i: int| 0 <= i < eph as int implies ephemeral_signer_bumps@[i]
                == eph_bump_at(tkey, pid, i) by {
                assert(eph_find(tkey, pid, i as u8) == Some(
                    (eph_key_of(tkey, pid, i as u8), ephemeral_signer_bumps@[i]),
                ));
            }
            assert(ephemeral_signer_bumps@ =~= Seq::new(
                eph as nat,
                |i: int| eph_bump_at(tkey, pid, i),
            ));
        }
        let transaction = SuperTransaction {
            creator: self.creator,
            ephemeral_signer_bumps,
            message,
        };
        self.transaction.state = Some(transaction);
        Ok(true)
    }
}

/// The fixed six-byte sentinel that a promotion call must supply in place
/// of a raw message.
pub open spec fn spec_sentinel() -> Seq<u8> {
    seq![0u8, 0u8, 0u8, 0u8, 0u8, 0u8]
}

/// What the promotion pre-checks yield on a buffer: the sentinel, the
/// commitment hash, the declared size, and the ownership, in that order.
pub open spec fn spec_promote_check(
    b: TransactionBufferV,
    caller: Seq<u8>,
    raw_message_arg: Seq<u8>,
) -> Result<(), SuperTxnError> {
    if raw_message_arg != spec_sentinel() {
        Err(SuperTxnError::InvalidInstructionArgs)
    } else if crate::pda::sha256_of(b.buffer) != b.final_buffer_hash {
        Err(SuperTxnError::FinalBufferHashMismatch)
    } else if b.buffer.len() != b.final_buffer_size as int {
        Err(SuperTxnError::FinalBufferSizeMismatch)
    } else if b.creator != caller {
        Err(SuperTxnError::Unauthorized)
    } else {
        Ok(())
    }
}

/// The deposit top-up a promotion makes: up to the rent minimum for the
/// record's new size, never below one.
pub open spec fn spec_top_up(rent_minimum_balance: u64, current_lamports: u64) -> int {
    let rent_exempt = if rent_minimum_balance >= 1 {
        rent_minimum_balance as int
    } else {
        1
    };
    if rent_exempt > current_lamports as int {
        rent_exempt - current_lamports as int
    } else {
        0
    }
}

pub struct SuperTransactionCreateFromBuffer {
    /// The creation context for the record the buffer promotes into.
    pub super_transaction_create: SuperTransactionCreate,
    /// The staged buffer being promoted; possibly already closed.
    pub transaction_buffer: BufferAccount,
    /// The owner, re-passed under the same constraint as in the creation
    /// context.
    pub creator: Pubkey,
    /// The owner's balance, receiving the buffer's deposit back.
    pub creator_lamports: u64,
}

impl SuperTransactionCreateFromBuffer {
    /// The promotion pre-checks: sentinel raw message, commitment hash,
    /// declared size, ownership.
    pub fn validate(&self, args: &SuperTransactionCreateArgs) -> (r: Result<(), SuperTxnError>)
        requires
            self.transaction_buffer.state is Some,
        ensures
            r == spec_promote_check(
                self.transaction_buffer@.state->Some_0,
                self.creator@,
                args.transaction_message@,
            ),
    {
        let sentinel_ok = if args.transaction_message.len() != 6 {
            false
        } else {
            let mut k: usize = 0;
            let mut all_zero = true;
            while k < 6
                invariant
                    k <= 6,
                    args.transaction_message@.len() == 6,
                    all_zero == (forall|j: int| 0 <= j < k ==> args.transaction_message@[j] == 0u8),
                decreases 6 - k,
            {
                if args.transaction_message[k] != 0u8 {
                    all_zero = false;
                }
                k += 1;
            }
            all_zero
        };
        proof {
            if args.transaction_message@.len() == 6 && (forall|j: int|
                0 <= j < 6 ==> args.transaction_message@[j] == 0u8) {
                assert(args.transaction_message@ =~= spec_sentinel());
            }
            if args.transaction_message@ == spec_sentinel() {
                assert(args.transaction_message@.len() == 6);
                assert(forall|j: int| 0 <= j < 6 ==> args.transaction_message@[j] == 0u8);
            }
        }
        if !sentinel_ok {
            return Err(SuperTxnError::InvalidInstructionArgs);
        }
        match &self.transaction_buffer.state {
            Some(transaction_buffer) => {
                match transaction_buffer.validate_hash() {
                    Ok(_) => (),
                    Err(e) => {
                        return Err(e);
                    },
                }
                match transaction_buffer.validate_size() {
                    Ok(_) => (),
                    Err(e) => {
                        return Err(e);
                    },
                }
                if !(transaction_buffer.creator == self.creator) {
                    return Err(SuperTxnError::Unauthorized);
                }
                Ok(())
            },
            None => {
                proof {
                    assert(false);
                }
                Err(SuperTxnError::Unauthorized)
            },
        }
    }

    /// Promotes a completed staging buffer into an execution record: checks
    /// the commitment, tops the record's deposit up to the rent minimum the
    /// host reports for the record's new size, compiles the buffer content,
    /// and reclaims the buffer to the owner. An already-closed buffer is a
    /// silent success.
    pub fn super_transaction_create_from_buffer(
        &mut self,
        program_id: &Pubkey,
        rent_minimum_balance: u64,
        args: SuperTransactionCreateArgs,
    ) -> (r: Result<(), SuperTxnError>)
        requires
            old(self).super_transaction_create.transaction.state is None,
            old(self).creator == old(self).super_transaction_create.creator,
            derivations_ok(
                old(self).super_transaction_create.transaction.key@,
                program_id@,
                args.ephemeral_signers,
            ),
            old(self).creator_lamports + old(self).transaction_buffer.lamports <= u64::MAX,
            old(self).super_transaction_create.rent_payer_lamports >= spec_top_up(
                rent_minimum_balance,
                old(self).super_transaction_create.transaction.lamports,
            ),
        ensures
            final(self).creator == old(self).creator,
            final(self).super_transaction_create.creator == old(self).super_transaction_create.creator,
            final(self).super_transaction_create.rent_payer == old(self).super_transaction_create.rent_payer,
            final(self).super_transaction_create.transaction.key == old(self).super_transaction_create.transaction.key,
            old(self).transaction_buffer.state is None ==> (r is Ok && *final(self) == *old(self)),
            old(self).transaction_buffer@.state matches Some(b) ==> match spec_promote_check(
                b,
                old(self).creator@,
                args.transaction_message@,
            ) {
                Err(e) => r == Err::<(), SuperTxnError>(e) && *final(self) == *old(self),
                Ok(_) => match spec_transaction_create(
                    old(self).super_transaction_create.transaction.key@,
                    program_id@,
                    old(self).creator@,
                    args.ephemeral_signers,
                    b.buffer,
                ) {
                    Err(e) => r == Err::<(), SuperTxnError>(e) && *final(self) == *old(self),
                    Ok(tv) => {
                        &&& r is Ok
                        &&& final(self).super_transaction_create.transaction@.state == Some(tv)
                        &&& final(self).super_transaction_create.transaction.lamports as int
                            == old(self).super_transaction_create.transaction.lamports as int
                            + spec_top_up(
                            rent_minimum_balance,
                            old(self).super_transaction_create.transaction.lamports,
                        )
                        &&& final(self).super_transaction_create.rent_payer_lamports as int
                            == old(self).super_transaction_create.rent_payer_lamports as int
                            - spec_top_up(
                            rent_minimum_balance,
                            old(self).super_transaction_create.transaction.lamports,
                        )
                        &&& final(self).transaction_buffer.state is None
                        &&& final(self).transaction_buffer.lamports == 0
                        &&& final(self).creator_lamports == old(self).creator_lamports + old(self).transaction_buffer.lamports
                    },
                },
            },
    {
        if self.transaction_buffer.state.is_none() {
            return Ok(());
        }
        match self.validate(&args) {
            Ok(_) => (),
            Err(e) => {
                return Err(e);
            },
        }
        let buffer_content = match &self.transaction_buffer.state {
            Some(transaction_buffer) => crate::transaction::clone_bytes(&transaction_buffer.buffer),
            None => {
                proof {
                    assert(false);
                }
                Vec::new()
            },
        };
        let _new_len = match SuperTransaction::size(args.ephemeral_signers, &buffer_content) {
            Ok(n) => n,
            Err(e) => {
                return Err(e);
            },
        };
        let rent_exempt_lamports: u64 = if rent_minimum_balance >= 1 {
            rent_minimum_balance
        } else {
            1
        };
        let current = self.super_transaction_create.transaction.lamports;
        let top_up_lamports: u64 = if rent_exempt_lamports > current {
            rent_exempt_lamports - current
        } else {
            0
        };
        self.super_transaction_create.rent_payer_lamports =
            self.super_transaction_create.rent_payer_lamports - top_up_lamports;
        self.super_transaction_create.transaction.lamports = current + top_up_lamports;

        let create_args = SuperTransactionCreateArgs {
            ephemeral_signers: args.ephemeral_signers,
            transaction_message: buffer_content,
            transaction_index: args.transaction_index,
            memo: args.memo,
        };
        match self.super_transaction_create.super_transaction_create(program_id, create_args) {
            Ok(_) => (),
            Err(e) => {
                proof {
                    assert(false);
                }
                return Err(e);
            },
        }
        close(&mut self.transaction_buffer.lamports, &mut self.creator_lamports);
        self.transaction_buffer.state = None;
        Ok(())
    }

    /// The same promotion, but declining instead of demanding that every
    /// capability derivation succeed: yields `Ok(false)`, with every slot
    /// untouched, when a derivation fails.
    pub fn super_transaction_create_from_buffer_checked(
        &mut self,
        program_id: &Pubkey,
        rent_minimum_balance: u64,
        args: SuperTransactionCreateArgs,
    ) -> (r: Result<bool, SuperTxnError>)
        requires
            old(self).super_transaction_create.transaction.state is None,
            old(self).creator == old(self).super_transaction_create.creator,
            old(self).creator_lamports + old(self).transaction_buffer.lamports <= u64::MAX,
            old(self).super_transaction_create.rent_payer_lamports >= spec_top_up(
                rent_minimum_balance,
                old(self).super_transaction_create.transaction.lamports,
            ),
        ensures
            derivations_ok(
                old(self).super_transaction_create.transaction.key@,
                program_id@,
                args.ephemeral_signers,
            ) ==> (match r {
                Ok(b) => b,
                Err(_) => true,
            }),
            !derivations_ok(
                old(self).super_transaction_create.transaction.key@,
                program_id@,
                args.ephemeral_signers,
            ) && old(self).transaction_buffer.state is Some ==> (r != Ok::<bool, SuperTxnError>(
                true,
            )),
            r == Ok::<bool, SuperTxnError>(false) ==> *final(self) == *old(self),
            old(self).transaction_buffer.state is None ==> (r == Ok::<bool, SuperTxnError>(true)
                && *final(self) == *old(self)),
            (old(self).transaction_buffer.state is Some && derivations_ok(
                old(self).super_transaction_create.transaction.key@,
                program_id@,
                args.ephemeral_signers,
            )) ==> ({
                let b = old(self).transaction_buffer@.state->Some_0;
                match spec_promote_check(b, old(self).creator@, args.transaction_message@) {
                    Err(e) => r == Err::<bool, SuperTxnError>(e) && *final(self) == *old(self),
                    Ok(_) => match spec_transaction_create(
                        old(self).super_transaction_create.transaction.key@,
                        program_id@,
                        old(self).creator@,
                        args.ephemeral_signers,
                        b.buffer,
                    ) {
                        Err(e) => r == Err::<bool, SuperTxnError>(e) && *final(self) == *old(self),
                        Ok(tv) => r == Ok::<bool, SuperTxnError>(true) && final(self).super_transaction_create.transaction@.state == Some(tv),
                    },
                }
            }),
    {
        if self.transaction_buffer.state.is_none() {
            return Ok(true);
        }
        match derive_ephemeral_signer_bumps(
            &self.super_transaction_create.transaction.key,
            program_id,
            args.ephemeral_signers,
        ) {
            Some(_) => (),
            None => {
                return Ok(false);
            },
        }
        match self.super_transaction_create_from_buffer(program_id, rent_minimum_balance, args) {
            Ok(_) => Ok(true),
            Err(e) => Err(e),
        }
    }
}

// ---------------------------------------------------------------------------
// Execution: the single consuming run of a record.
// ---------------------------------------------------------------------------

/// What the execution checks yield: ownership, then the account context's
/// shape, then the re-derivation of every capability from its stored bump.
/// Every resolution failure is one error kind.
pub open spec fn spec_execute_check(
    t: SuperTransactionV,
    transaction_key: Seq<u8>,
    caller: Seq<u8>,
    program_id: Seq<u8>,
    ctx: Seq<Seq<u8>>,
) -> Result<(), SuperTxnError> {
    if t.creator != caller {
        Err(SuperTxnError::Unauthorized)
    } else if !spec_context_matches(t.message, ctx) {
        Err(SuperTxnError::AccountResolutionError)
    } else if exists|i: int|
        0 <= i < t.ephemeral_signer_bumps.len() && (#[trigger] eph_create_at(
            transaction_key,
            program_id,
            t.ephemeral_signer_bumps,
            i,
        )) is None {
        Err(SuperTxnError::AccountResolutionError)
    } else {
        Ok(())
    }
}

pub struct SuperTransactionExecute {
    /// The record slot to execute; possibly already closed.
    pub transaction: TransactionAccount,
    /// The caller asking to execute.
    pub creator: Pubkey,
    /// The caller's balance, receiving the record's deposit on success.
    pub creator_lamports: u64,
}

impl SuperTransactionExecute {
    /// Executes a record exactly once: authorizes the owner, takes the
    /// record (resetting the stored copy), resolves the account context,
    /// re-derives every capability, compiles the invocations, and reclaims
    /// the slot. The host runs the returned plan inside the same
    /// all-or-nothing unit. An already-closed slot is a silent success.
    pub fn super_transaction_execute(
        &mut self,
        program_id: &Pubkey,
        account_context: &Vec<Pubkey>,
    ) -> (r: Result<Option<ExecutionPlan>, SuperTxnError>)
        requires
            old(self).transaction@.state matches Some(t) ==> (msg_wf_bounds(t.message)
                && msg_valid(t.message) && t.ephemeral_signer_bumps.len() <= 255),
            old(self).transaction.lamports + old(self).creator_lamports <= u64::MAX,
        ensures
            final(self).creator == old(self).creator,
            final(self).transaction.key == old(self).transaction.key,
            old(self).transaction@.state is None ==> (r == Ok::<
                Option<ExecutionPlan>,
                SuperTxnError,
            >(None) && *final(self) == *old(self)),
            old(self).transaction@.state matches Some(t) ==> match spec_execute_check(
                t,
                old(self).transaction.key@,
                old(self).creator@,
                program_id@,
                account_context.deep_view(),
            ) {
                Err(e) => r == Err::<Option<ExecutionPlan>, SuperTxnError>(e) && *final(self)
                    == *old(self),
                Ok(_) => {
                    &&& r matches Ok(ro)
                    &&& r->Ok_0 matches Some(plan)
                    &&& ({
                        let plan = r->Ok_0->Some_0;
                        &&& plan.invocations.deep_view() == Seq::new(
                            t.message.instructions.len(),
                            |j: int| spec_invocation(
                                t.message,
                                account_context.deep_view(),
                                j,
                            ),
                        )
                        &&& plan.ephemeral_signer_keys@.len()
                            == t.ephemeral_signer_bumps.len()
                        &&& plan.ephemeral_signer_seeds@.len()
                            == t.ephemeral_signer_bumps.len()
                        &&& forall|i: int|
                            0 <= i < t.ephemeral_signer_bumps.len() ==> eph_create_at(
                                old(self).transaction.key@,
                                program_id@,
                                t.ephemeral_signer_bumps,
                                i,
                            ) == Some(#[trigger] plan.ephemeral_signer_keys@[i]@)
                        &&& forall|i: int|
                            0 <= i < t.ephemeral_signer_bumps.len()
                                ==> (#[trigger] plan.ephemeral_signer_seeds@[i]).deep_view()
                                == eph_full_seeds(
                                old(self).transaction.key@,
                                t.ephemeral_signer_bumps,
                                i,
                            )
                    })
                    &&& final(self).transaction.state is None
                    &&& final(self).transaction.lamports == 0
                    &&& final(self).creator_lamports == old(self).creator_lamports + old(self).transaction.lamports
                },
            },
    {
        if self.transaction.state.is_none() {
            return Ok(None);
        }
        match &self.transaction.state {
            Some(transaction) => {
                if !(transaction.creator == self.creator) {
                    return Err(SuperTxnError::Unauthorized);
                }
            },
            None => {
                proof {
                    assert(false);
                }
            },
        }
        // Take the record: the stored copy is reset to its empty value and
        // no later step may read it.
        let taken = match &mut self.transaction.state {
            Some(transaction) => transaction.take(),
            None => {
                proof {
                    assert(false);
                }
                return Ok(None);
            },
        };
        let invocations = match compile_invocations(&taken.message, account_context) {
            Ok(plan) => plan,
            Err(e) => {
                self.transaction.state = Some(taken);
                return Err(e);
            },
        };
        let derived = match derive_ephemeral_signers(
            &self.transaction.key,
            &taken.ephemeral_signer_bumps,
            program_id,
        ) {
            Some(d) => d,
            None => {
                self.transaction.state = Some(taken);
                return Err(SuperTxnError::AccountResolutionError);
            },
        };
        let (ephemeral_signer_keys, ephemeral_signer_seeds) = derived;
        self.transaction.state = None;
        close(&mut self.transaction.lamports, &mut self.creator_lamports);
        Ok(
            Some(
                ExecutionPlan { invocations, ephemeral_signer_keys, ephemeral_signer_seeds },
            ),
        )
    }
}

pub struct SuperTransactionAccountsClose {
    /// The record slot to close without executing.
    pub transaction: TransactionAccount,
    /// The owner, who receives the slot's deposit back.
    pub creator: Pubkey,
    /// The owner's balance.
    pub creator_lamports: u64,
}

/// Closes an execution record without executing it: only the owner may;
/// the deposit is refunded and the slot emptied.
pub fn super_transaction_accounts_close(ctx: &mut SuperTransactionAccountsClose) -> (r: Result<
    (),
    SuperTxnError,
>)
    requires
        old(ctx).transaction.state is Some,
        old(ctx).transaction.lamports + old(ctx).creator_lamports <= u64::MAX,
    ensures
        final(ctx).creator == old(ctx).creator,
        final(ctx).transaction.key == old(ctx).transaction.key,
        old(ctx).transaction@.state->Some_0.creator != old(ctx).creator@ ==> (r == Err::<
            (),
            SuperTxnError,
        >(SuperTxnError::Unauthorized) && *final(ctx) == *old(ctx)),
        old(ctx).transaction@.state->Some_0.creator == old(ctx).creator@ ==> {
            &&& r is Ok
            &&& final(ctx).transaction.state is None
            &&& final(ctx).transaction.lamports == 0
            &&& final(ctx).creator_lamports == old(ctx).creator_lamports + old(ctx).transaction.lamports
        },
{
    match &ctx.transaction.state {
        Some(transaction) => {
            if !(transaction.creator == ctx.creator) {
                return Err(SuperTxnError::Unauthorized);
            }
        },
        None => {
            proof {
                assert(false);
            }
        },
    }
    close(&mut ctx.transaction.lamports, &mut ctx.creator_lamports);
    ctx.transaction.state = None;
    Ok(())
}

/// Creates an execution record from an inline message (see
/// `SuperTransactionCreate`).
pub fn super_transaction_create(
    ctx: &mut SuperTransactionCreate,
    program_id: &Pubkey,
    args: SuperTransactionCreateArgs,
) -> (r: Result<(), SuperTxnError>)
    requires
        old(ctx).transaction.state is None,
        derivations_ok(old(ctx).transaction.key@, program_id@, args.ephemeral_signers),
    ensures
        final(ctx).creator == old(ctx).creator,
        final(ctx).transaction.key == old(ctx).transaction.key,
        final(ctx).transaction.lamports == old(ctx).transaction.lamports,
        match spec_transaction_create(
            old(ctx).transaction.key@,
            program_id@,
            old(ctx).creator@,
            args.ephemeral_signers,
            args.transaction_message@,
        ) {
            Ok(tv) => r is Ok && final(ctx).transaction@.state == Some(tv),
            Err(e) => r == Err::<(), SuperTxnError>(e) && final(ctx).transaction.state is None,
        },
{
    ctx.super_transaction_create(program_id, args)
}

/// Promotes a completed staging buffer into an execution record (see
/// `SuperTransactionCreateFromBuffer`).
pub fn super_transaction_create_from_buffer(
    ctx: &mut SuperTransactionCreateFromBuffer,
    program_id: &Pubkey,
    rent_minimum_balance: u64,
    args: SuperTransactionCreateArgs,
) -> (r: Result<(), SuperTxnError>)
    requires
        old(ctx).super_transaction_create.transaction.state is None,
        old(ctx).creator == old(ctx).super_transaction_create.creator,
        derivations_ok(
            old(ctx).super_transaction_create.transaction.key@,
            program_id@,
            args.ephemeral_signers,
        ),
        old(ctx).creator_lamports + old(ctx).transaction_buffer.lamports <= u64::MAX,
        old(ctx).super_transaction_create.rent_payer_lamports >= spec_top_up(
            rent_minimum_balance,
            old(ctx).super_transaction_create.transaction.lamports,
        ),
    ensures
        old(ctx).transaction_buffer.state is None ==> (r is Ok && *final(ctx) == *old(ctx)),
        old(ctx).transaction_buffer@.state matches Some(b) ==> match spec_promote_check(
            b,
            old(ctx).creator@,
            args.transaction_message@,
        ) {
            Err(e) => r == Err::<(), SuperTxnError>(e) && *final(ctx) == *old(ctx),
            Ok(_) => match spec_transaction_create(
                old(ctx).super_transaction_create.transaction.key@,
                program_id@,
                old(ctx).creator@,
                args.ephemeral_signers,
                b.buffer,
            ) {
                Err(e) => r == Err::<(), SuperTxnError>(e) && *final(ctx) == *old(ctx),
                Ok(tv) => r is Ok && final(ctx).super_transaction_create.transaction@.state
                    == Some(tv) && final(ctx).transaction_buffer.state is None,
            },
        },
{
    ctx.super_transaction_create_from_buffer(program_id, rent_minimum_balance, args)
}

/// Executes a record exactly once (see `SuperTransactionExecute`).
pub fn super_transaction_execute(
    ctx: &mut SuperTransactionExecute,
    program_id: &Pubkey,
    account_context: &Vec<Pubkey>,
) -> (r: Result<Option<ExecutionPlan>, SuperTxnError>)
    requires
        old(ctx).transaction@.state matches Some(t) ==> (msg_wf_bounds(t.message) && msg_valid(
            t.message,
        ) && t.ephemeral_signer_bumps.len() <= 255),
        old(ctx).transaction.lamports + old(ctx).creator_lamports <= u64::MAX,
    ensures
        old(ctx).transaction@.state is None ==> (r == Ok::<Option<ExecutionPlan>, SuperTxnError>(
            None,
        ) && *final(ctx) == *old(ctx)),
        old(ctx).transaction@.state matches Some(t) ==> match spec_execute_check(
            t,
            old(ctx).transaction.key@,
            old(ctx).creator@,
            program_id@,
            account_context.deep_view(),
        ) {
            Err(e) => r == Err::<Option<ExecutionPlan>, SuperTxnError>(e) && *final(ctx) == *old(ctx),
            Ok(_) => r is Ok && final(ctx).transaction.state is None && final(ctx).transaction.lamports == 0,
        },
{
    ctx.super_transaction_execute(program_id, account_context)
}

} // verus!
