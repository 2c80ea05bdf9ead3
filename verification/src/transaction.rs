use vstd::prelude::*;
use crate::errors::SuperTxnError;
use crate::message::{
    lemma_decoded_message_bounds, decoded_message, msg_wf_bounds, parse_transaction_message,
    CompiledInstruction, CompiledInstructionV, MessageAddressTableLookup,
    MessageAddressTableLookupV, TransactionMessage, TransactionMessageV,
};
use crate::pubkey::Pubkey;

verus! {

// ---------------------------------------------------------------------------
// The validated, durable form of a transaction message, and the executable
// record that owns it.
// ---------------------------------------------------------------------------

/// A compiled instruction in its durable, validated form.
pub struct SuperCompiledInstruction {
    pub program_id_index: u8,
    pub account_indexes: Vec<u8>,
    pub data: Vec<u8>,
}

impl View for SuperCompiledInstruction {
    type V = CompiledInstructionV;

    open spec fn view(&self) -> CompiledInstructionV {
        CompiledInstructionV {
            program_id_index: self.program_id_index,
            account_indexes: self.account_indexes@,
            data: self.data@,
        }
    }
}

impl DeepView for SuperCompiledInstruction {
    type V = CompiledInstructionV;

    open spec fn deep_view(&self) -> CompiledInstructionV {
        self.view()
    }
}

impl SuperCompiledInstruction {
    /// Carries a raw compiled instruction over unchanged.
    pub fn from(compiled_instruction: CompiledInstruction) -> (r: SuperCompiledInstruction)
        ensures
            r@ == compiled_instruction@,
    {
        SuperCompiledInstruction {
            program_id_index: compiled_instruction.program_id_index,
            account_indexes: compiled_instruction.account_indexes,
            data: compiled_instruction.data,
        }
    }
}

/// An address-table lookup in its durable, validated form.
pub struct SuperMessageAddressTableLookup {
    pub account_key: Pubkey,
    pub writable_indexes: Vec<u8>,
    pub readonly_indexes: Vec<u8>,
}

impl View for SuperMessageAddressTableLookup {
    type V = MessageAddressTableLookupV;

    open spec fn view(&self) -> MessageAddressTableLookupV {
        MessageAddressTableLookupV {
            account_key: self.account_key@,
            writable_indexes: self.writable_indexes@,
            readonly_indexes: self.readonly_indexes@,
        }
    }
}

impl DeepView for SuperMessageAddressTableLookup {
    type V = MessageAddressTableLookupV;

    open spec fn deep_view(&self) -> MessageAddressTableLookupV {
        self.view()
    }
}

impl SuperMessageAddressTableLookup {
    /// Carries a raw lookup over unchanged.
    pub fn from(m: MessageAddressTableLookup) -> (r: SuperMessageAddressTableLookup)
        ensures
            r@ == m@,
    {
        SuperMessageAddressTableLookup {
            account_key: m.account_key,
            writable_indexes: m.writable_indexes,
            readonly_indexes: m.readonly_indexes,
        }
    }
}

/// A structurally validated executable message: account-role partitioning
/// holds and every instruction index is in bounds.
pub struct SuperTransactionMessage {
    pub num_signers: u8,
    pub num_writable_signers: u8,
    pub num_writable_non_signers: u8,
    pub account_keys: Vec<Pubkey>,
    pub instructions: Vec<SuperCompiledInstruction>,
    pub address_table_lookups: Vec<SuperMessageAddressTableLookup>,
}

impl View for SuperTransactionMessage {
    type V = TransactionMessageV;

    open spec fn view(&self) -> TransactionMessageV {
        TransactionMessageV {
            num_signers: self.num_signers,
            num_writable_signers: self.num_writable_signers,
            num_writable_non_signers: self.num_writable_non_signers,
            account_keys: self.account_keys.deep_view(),
            instructions: self.instructions.deep_view(),
            address_table_lookups: self.address_table_lookups.deep_view(),
        }
    }
}

// ---------------------------------------------------------------------------
// Structural validity.
// ---------------------------------------------------------------------------

/// How many accounts the lookup tables load, all tables together.
pub open spec fn loaded_count(lks: Seq<MessageAddressTableLookupV>) -> int
    decreases lks.len(),
{
    if lks.len() <= 0 {
        0
    } else {
        loaded_count(lks.drop_last()) + lks.last().writable_indexes.len()
            + lks.last().readonly_indexes.len()
    }
}

/// The total account count a message's indexes run over: static keys plus
/// every account a lookup table loads.
pub open spec fn msg_total_account_count(m: TransactionMessageV) -> int {
    m.account_keys.len() + loaded_count(m.address_table_lookups)
}

/// Every index of one instruction is under the total account count.
pub open spec fn instruction_indexes_valid(ins: CompiledInstructionV, total: int) -> bool {
    &&& (ins.program_id_index as int) < total
    &&& forall|j: int|
        0 <= j < ins.account_indexes.len() ==> (#[trigger] ins.account_indexes[j] as int) < total
}

/// The structural invariant of an executable message: the account-role
/// counters partition the static keys and every instruction index is in
/// bounds.
pub open spec fn msg_valid(m: TransactionMessageV) -> bool {
    &&& m.num_signers as int <= m.account_keys.len()
    &&& m.num_writable_signers <= m.num_signers
    &&& m.num_writable_non_signers as int <= m.account_keys.len() - m.num_signers as int
    &&& forall|i: int|
        0 <= i < m.instructions.len() ==> instruction_indexes_valid(
            #[trigger] m.instructions[i],
            msg_total_account_count(m),
        )
}

/// Whether the static key at `i` was requested writable: it is a writable
/// signer, or a writable non-signer.
pub open spec fn spec_is_static_writable(m: TransactionMessageV, i: int) -> bool {
    if i < 0 || i >= m.account_keys.len() {
        false
    } else if i < m.num_writable_signers as int {
        true
    } else if i >= m.num_signers as int {
        (i - m.num_signers as int) < m.num_writable_non_signers as int
    } else {
        false
    }
}

impl SuperTransactionMessage {
    /// Validates a raw transaction message against the structural
    /// invariant, carrying its contents over unchanged on success.
    pub fn try_from(message: TransactionMessage) -> (r: Result<
        SuperTransactionMessage,
        SuperTxnError,
    >)
        ensures
            r is Ok <==> msg_valid(message@),
            r matches Ok(sm) ==> sm@ == message@,
            r is Err ==> r == Err::<SuperTransactionMessage, SuperTxnError>(
                SuperTxnError::InvalidTransactionMessage,
            ),
    {
        let ghost msg_v = message@;
        let TransactionMessage {
            num_signers,
            num_writable_signers,
            num_writable_non_signers,
            account_keys,
            instructions,
            address_table_lookups,
        } = message;

        let mut super_instructions: Vec<SuperCompiledInstruction> = Vec::new();
        let mut i: usize = 0;
        while i < instructions.len()
            invariant
                i <= instructions@.len(),
                super_instructions.deep_view().len() == i as int,
                forall|j: int|
                    0 <= j < i as int ==> super_instructions.deep_view()[j]
                        == instructions.deep_view()[j],
            decreases instructions@.len() - i,
        {
            let ins = SuperCompiledInstruction {
                program_id_index: instructions[i].program_id_index,
                account_indexes: clone_bytes(&instructions[i].account_indexes),
                data: clone_bytes(&instructions[i].data),
            };
            super_instructions.push(ins);
            i += 1;
        }
        proof {
            assert(super_instructions.deep_view() =~= instructions.deep_view());
        }

        let mut super_lookups: Vec<SuperMessageAddressTableLookup> = Vec::new();
        i = 0;
        while i < address_table_lookups.len()
            invariant
                i <= address_table_lookups@.len(),
                super_lookups.deep_view().len() == i as int,
                forall|j: int|
                    0 <= j < i as int ==> super_lookups.deep_view()[j]
                        == address_table_lookups.deep_view()[j],
            decreases address_table_lookups@.len() - i,
        {
            let lk = SuperMessageAddressTableLookup {
                account_key: address_table_lookups[i].account_key,
                writable_indexes: clone_bytes(&address_table_lookups[i].writable_indexes),
                readonly_indexes: clone_bytes(&address_table_lookups[i].readonly_indexes),
            };
            super_lookups.push(lk);
            i += 1;
        }
        proof {
            assert(super_lookups.deep_view() =~= address_table_lookups.deep_view());
        }

        let sm = SuperTransactionMessage {
            num_signers,
            num_writable_signers,
            num_writable_non_signers,
            account_keys,
            instructions: super_instructions,
            address_table_lookups: super_lookups,
        };
        proof {
            assert(sm@ =~~= msg_v);
        }

        if num_signers as usize > sm.account_keys.len() {
            return Err(SuperTxnError::InvalidTransactionMessage);
        }
        if num_writable_signers > num_signers {
            return Err(SuperTxnError::InvalidTransactionMessage);
        }
        if num_writable_non_signers as usize > sm.account_keys.len() - num_signers as usize {
            return Err(SuperTxnError::InvalidTransactionMessage);
        }

        // The instruction indexes are single bytes, so the comparison only
        // needs the total account count capped at 256.
        let total_capped = sm.total_account_count_capped();
        i = 0;
        while i < sm.instructions.len()
            invariant
                i <= sm.instructions@.len(),
                message@ == msg_v,
                sm@ == msg_v,
                total_capped as int == capped_total(msg_total_account_count(sm@)),
                sm.instructions.deep_view().len() == sm.instructions@.len(),
                forall|j: int|
                    0 <= j < i as int ==> instruction_indexes_valid(
                        #[trigger] sm.instructions.deep_view()[j],
                        msg_total_account_count(sm@),
                    ),
            decreases sm.instructions@.len() - i,
        {
            let ins = &sm.instructions[i];
            if ins.program_id_index as usize >= total_capped {
                proof {
                    assert((ins@.program_id_index as int) >= msg_total_account_count(sm@));
                    assert(sm@.instructions[i as int] == ins@);
                    assert(!instruction_indexes_valid(
                        sm@.instructions[i as int],
                        msg_total_account_count(sm@),
                    ));
                    assert(!msg_valid(sm@));
                    assert(!msg_valid(msg_v));
                    assert(!msg_valid(message@));
                }
                return Err(SuperTxnError::InvalidTransactionMessage);
            }
            let mut k: usize = 0;
            while k < ins.account_indexes.len()
                invariant
                    k <= ins.account_indexes@.len(),
                    message@ == msg_v,
                    sm@ == msg_v,
                    (i as int) < sm.instructions.deep_view().len(),
                    ins@ == sm.instructions.deep_view()[i as int],
                    total_capped as int == capped_total(msg_total_account_count(sm@)),
                    forall|j: int|
                        0 <= j < k as int ==> (#[trigger] ins.account_indexes@[j] as int)
                            < msg_total_account_count(sm@),
                decreases ins.account_indexes@.len() - k,
            {
                if ins.account_indexes[k] as usize >= total_capped {
                    proof {
                        assert((ins@.account_indexes[k as int] as int)
                            >= msg_total_account_count(sm@));
                        assert(sm@.instructions[i as int] == ins@);
                        assert(!instruction_indexes_valid(
                            sm@.instructions[i as int],
                            msg_total_account_count(sm@),
                        ));
                        assert(!msg_valid(sm@));
                        assert(!msg_valid(msg_v));
                        assert(!msg_valid(message@));
                    }
                    return Err(SuperTxnError::InvalidTransactionMessage);
                }
                k += 1;
            }
            proof {
                assert(instruction_indexes_valid(
                    sm.instructions.deep_view()[i as int],
                    msg_total_account_count(sm@),
                ));
            }
            i += 1;
        }
        Ok(sm)
    }

    /// The total account count, capped at 256; enough to bound any one-byte
    /// index.
    fn total_account_count_capped(&self) -> (r: usize)
        ensures
            r as int == capped_total(msg_total_account_count(self@)),
    {
        let mut total: usize = if self.account_keys.len() >= 256 {
            256
        } else {
            self.account_keys.len()
        };
        let ghost lks = self@.address_table_lookups;
        let mut i: usize = 0;
        proof {
            assert(lks.subrange(0, 0) =~= Seq::<MessageAddressTableLookupV>::empty());
        }
        while i < self.address_table_lookups.len()
            invariant
                i <= self.address_table_lookups@.len(),
                lks == self@.address_table_lookups,
                lks.len() == self.address_table_lookups@.len(),
                total as int == capped_total(
                    self@.account_keys.len() + loaded_count(lks.subrange(0, i as int)),
                ),
                total <= 256,
            decreases self.address_table_lookups@.len() - i,
        {
            let lk = &self.address_table_lookups[i];
            let ghost pre = lks.subrange(0, i as int);
            let w = lk.writable_indexes.len();
            let rd = lk.readonly_indexes.len();
            if w >= 256 || rd >= 256 || total + w + rd >= 256 {
                total = 256;
            } else {
                total = total + w + rd;
            }
            proof {
                assert(lks.subrange(0, i as int + 1).drop_last() =~= pre);
                assert(lks.subrange(0, i as int + 1).last() == lks[i as int]);
            }
            i += 1;
        }
        proof {
            assert(lks.subrange(0, lks.len() as int) =~= lks);
        }
        total
    }

    /// Returns the number of all the account keys (static and loaded) in
    /// the message.
    pub fn num_all_account_keys(&self) -> (r: usize)
        requires
            msg_total_account_count(self@) <= usize::MAX,
        ensures
            r as int == msg_total_account_count(self@),
    {
        let ghost lks = self@.address_table_lookups;
        let mut total: usize = self.account_keys.len();
        let mut i: usize = 0;
        proof {
            assert(lks.subrange(0, 0) =~= Seq::<MessageAddressTableLookupV>::empty());
            lemma_loaded_count_prefix_bound(lks, 0);
        }
        while i < self.address_table_lookups.len()
            invariant
                i <= self.address_table_lookups@.len(),
                lks == self@.address_table_lookups,
                lks.len() == self.address_table_lookups@.len(),
                msg_total_account_count(self@) <= usize::MAX,
                self@.account_keys.len() + loaded_count(lks) <= usize::MAX,
                total as int == self@.account_keys.len() + loaded_count(
                    lks.subrange(0, i as int),
                ),
            decreases self.address_table_lookups@.len() - i,
        {
            let lk = &self.address_table_lookups[i];
            let ghost pre = lks.subrange(0, i as int);
            proof {
                assert(lks.subrange(0, i as int + 1).drop_last() =~= pre);
                assert(lks.subrange(0, i as int + 1).last() == lks[i as int]);
                lemma_loaded_count_prefix_bound(lks, i as int + 1);
            }
            total = total + lk.writable_indexes.len();
            total = total + lk.readonly_indexes.len();
            i += 1;
        }
        proof {
            assert(lks.subrange(0, lks.len() as int) =~= lks);
        }
        total
    }

    /// Returns true if the account at the specified index is part of the
    /// static keys and was requested to be writable.
    pub fn is_static_writable_index(&self, key_index: usize) -> (r: bool)
        ensures
            r == spec_is_static_writable(self@, key_index as int),
    {
        let num_account_keys = self.account_keys.len();
        let num_signers = self.num_signers as usize;
        let num_writable_signers = self.num_writable_signers as usize;
        let num_writable_non_signers = self.num_writable_non_signers as usize;

        if key_index >= num_account_keys {
            return false;
        }
        if key_index < num_writable_signers {
            return true;
        }
        if key_index >= num_signers {
            let index_into_non_signers = key_index - num_signers;
            return index_into_non_signers < num_writable_non_signers;
        }
        false
    }

    /// Returns true if the account at the specified index was requested to
    /// be a signer.
    pub fn is_signer_index(&self, key_index: usize) -> (r: bool)
        ensures
            r == (key_index < self@.num_signers as int),
    {
        key_index < self.num_signers as usize
    }
}

/// A total count capped at 256.
pub open spec fn capped_total(n: int) -> int {
    if n >= 256 {
        256
    } else {
        n
    }
}

/// The loaded count of a prefix never exceeds the loaded count of the
/// whole list.
proof fn lemma_loaded_count_prefix_bound(lks: Seq<MessageAddressTableLookupV>, i: int)
    requires
        0 <= i <= lks.len(),
    ensures
        loaded_count(lks.subrange(0, i)) <= loaded_count(lks),
        loaded_count(lks.subrange(0, i)) >= 0,
    decreases lks.len() - i,
{
    if i == lks.len() {
        assert(lks.subrange(0, i) =~= lks);
        lemma_loaded_count_nonneg(lks);
    } else {
        lemma_loaded_count_prefix_bound(lks, i + 1);
        lemma_loaded_count_nonneg(lks.subrange(0, i));
        assert(lks.subrange(0, i + 1).drop_last() =~= lks.subrange(0, i));
        assert(lks.subrange(0, i + 1).last() == lks[i]);
    }
}

/// A loaded count is never negative.
proof fn lemma_loaded_count_nonneg(lks: Seq<MessageAddressTableLookupV>)
    ensures
        loaded_count(lks) >= 0,
    decreases lks.len(),
{
    if lks.len() > 0 {
        lemma_loaded_count_nonneg(lks.drop_last());
    }
}

// ---------------------------------------------------------------------------
// Storage sizes: fixed header plus the packed length of the durable message
// form (little-endian integers, four-byte length prefixes).
// ---------------------------------------------------------------------------

/// Packed length of one instruction: index byte, prefixed index list,
/// prefixed data.
pub open spec fn instr_packed_len(i: CompiledInstructionV) -> int {
    1 + (4 + i.account_indexes.len() as int) + (4 + i.data.len() as int)
}

/// Packed length of a list of instructions.
pub open spec fn instrs_packed_len(s: Seq<CompiledInstructionV>) -> int
    decreases s.len(),
{
    if s.len() <= 0 {
        0
    } else {
        instrs_packed_len(s.drop_last()) + instr_packed_len(s.last())
    }
}

/// Packed length of one lookup: address, two prefixed index lists.
pub open spec fn lookup_packed_len(l: MessageAddressTableLookupV) -> int {
    32 + (4 + l.writable_indexes.len() as int) + (4 + l.readonly_indexes.len() as int)
}

/// Packed length of a list of lookups.
pub open spec fn lookups_packed_len(s: Seq<MessageAddressTableLookupV>) -> int
    decreases s.len(),
{
    if s.len() <= 0 {
        0
    } else {
        lookups_packed_len(s.drop_last()) + lookup_packed_len(s.last())
    }
}

/// Packed length of a whole message: the three role counters and the three
/// prefixed lists.
pub open spec fn msg_packed_len(m: TransactionMessageV) -> int {
    3 + (4 + 32 * m.account_keys.len()) + (4 + instrs_packed_len(m.instructions)) + (4
        + lookups_packed_len(m.address_table_lookups))
}

/// Storage size of a transaction slot: tag, owner, prefixed bump list and
/// the packed message.
pub open spec fn spec_transaction_size(ephemeral_signers_length: u8, m: TransactionMessageV) -> int {
    8 + 32 + (4 + ephemeral_signers_length as int) + msg_packed_len(m)
}

proof fn lemma_instrs_packed_len_bound(s: Seq<CompiledInstructionV>)
    requires
        forall|i: int|
            0 <= i < s.len() ==> (#[trigger] s[i]).account_indexes.len() <= 255 && s[i].data.len()
                <= 65535,
    ensures
        0 <= instrs_packed_len(s) <= s.len() * 65799,
    decreases s.len(),
{
    if s.len() > 0 {
        lemma_instrs_packed_len_bound(s.drop_last());
    }
}

proof fn lemma_lookups_packed_len_bound(s: Seq<MessageAddressTableLookupV>)
    requires
        forall|i: int|
            0 <= i < s.len() ==> (#[trigger] s[i]).writable_indexes.len() <= 255
                && s[i].readonly_indexes.len() <= 255,
    ensures
        0 <= lookups_packed_len(s) <= s.len() * 550,
    decreases s.len(),
{
    if s.len() > 0 {
        lemma_lookups_packed_len_bound(s.drop_last());
    }
}

/// The packed length of a message within the shape bounds stays far under
/// any machine limit.
pub proof fn lemma_msg_packed_len_bound(m: TransactionMessageV)
    requires
        msg_wf_bounds(m),
    ensures
        15 <= msg_packed_len(m) < 17000000,
{
    lemma_instrs_packed_len_bound(m.instructions);
    lemma_lookups_packed_len_bound(m.address_table_lookups);
}

impl SuperTransactionMessage {
    /// The packed length of this message in its durable encoding.
    pub fn packed_len(&self) -> (r: usize)
        requires
            msg_wf_bounds(self@),
        ensures
            r as int == msg_packed_len(self@),
    {
        proof {
            lemma_msg_packed_len_bound(self@);
        }
        let mut total: usize = 15 + 32 * self.account_keys.len();
        let ghost ins = self@.instructions;
        let mut i: usize = 0;
        proof {
            assert(ins.subrange(0, 0) =~= Seq::<CompiledInstructionV>::empty());
            lemma_instrs_packed_len_bound(ins);
        }
        while i < self.instructions.len()
            invariant
                i <= self.instructions@.len(),
                msg_wf_bounds(self@),
                ins == self@.instructions,
                ins.len() == self.instructions@.len(),
                ins.len() <= 255,
                total as int == 15 + 32 * self@.account_keys.len() + instrs_packed_len(
                    ins.subrange(0, i as int),
                ),
                total as int <= 15 + 32 * 255 + (i as int) * 65799,
            decreases self.instructions@.len() - i,
        {
            let item = &self.instructions[i];
            let ghost pre = ins.subrange(0, i as int);
            proof {
                assert(ins.subrange(0, i as int + 1).drop_last() =~= pre);
                assert(ins.subrange(0, i as int + 1).last() == ins[i as int]);
            }
            total = total + 1 + 4 + item.account_indexes.len() + 4 + item.data.len();
            i += 1;
        }
        proof {
            assert(ins.subrange(0, ins.len() as int) =~= ins);
        }
        let ghost lks = self@.address_table_lookups;
        let mut k: usize = 0;
        proof {
            assert(lks.subrange(0, 0) =~= Seq::<MessageAddressTableLookupV>::empty());
        }
        let ghost base = total as int;
        while k < self.address_table_lookups.len()
            invariant
                k <= self.address_table_lookups@.len(),
                msg_wf_bounds(self@),
                lks == self@.address_table_lookups,
                lks.len() == self.address_table_lookups@.len(),
                lks.len() <= 255,
                base <= 15 + 32 * 255 + 255 * 65799,
                total as int == base + lookups_packed_len(lks.subrange(0, k as int)),
                total as int <= base + (k as int) * 550,
            decreases self.address_table_lookups@.len() - k,
        {
            let item = &self.address_table_lookups[k];
            let ghost pre = lks.subrange(0, k as int);
            proof {
                assert(lks.subrange(0, k as int + 1).drop_last() =~= pre);
                assert(lks.subrange(0, k as int + 1).last() == lks[k as int]);
            }
            total = total + 32 + 4 + item.writable_indexes.len() + 4 + item.readonly_indexes.len();
            k += 1;
        }
        proof {
            assert(lks.subrange(0, lks.len() as int) =~= lks);
        }
        total
    }
}

/// Mathematical image of an execution record.
pub struct SuperTransactionV {
    pub creator: Seq<u8>,
    pub ephemeral_signer_bumps: Seq<u8>,
    pub message: TransactionMessageV,
}

/// The empty message a consumed record is reset to.
pub open spec fn empty_message_v() -> TransactionMessageV {
    TransactionMessageV {
        num_signers: 0,
        num_writable_signers: 0,
        num_writable_non_signers: 0,
        account_keys: Seq::empty(),
        instructions: Seq::empty(),
        address_table_lookups: Seq::empty(),
    }
}

/// The empty record a consumed slot is reset to.
pub open spec fn empty_transaction_v() -> SuperTransactionV {
    SuperTransactionV {
        creator: Seq::new(32, |i: int| 0u8),
        ephemeral_signer_bumps: Seq::empty(),
        message: empty_message_v(),
    }
}

/// The durable, promoted executable unit: owner, derived-signer bumps, and
/// the validated message. Consumed exactly once by execution.
pub struct SuperTransaction {
    /// The owner who alone may execute or close the record.
    pub creator: Pubkey,
    /// Derivation bumps, one per ephemeral signer scoped to this record.
    pub ephemeral_signer_bumps: Vec<u8>,
    /// The validated message to execute.
    pub message: SuperTransactionMessage,
}

impl View for SuperTransaction {
    type V = SuperTransactionV;

    open spec fn view(&self) -> SuperTransactionV {
        SuperTransactionV {
            creator: self.creator@,
            ephemeral_signer_bumps: self.ephemeral_signer_bumps@,
            message: self.message@,
        }
    }
}

impl SuperTransaction {
    /// The all-empty record value.
    pub fn empty_value() -> (r: SuperTransaction)
        ensures
            r@ == empty_transaction_v(),
    {
        let r = SuperTransaction {
            creator: Pubkey { bytes: [0u8; 32] },
            ephemeral_signer_bumps: Vec::new(),
            message: SuperTransactionMessage {
                num_signers: 0,
                num_writable_signers: 0,
                num_writable_non_signers: 0,
                account_keys: Vec::new(),
                instructions: Vec::new(),
                address_table_lookups: Vec::new(),
            },
        };
        proof {
            assert(r@.creator =~= empty_transaction_v().creator);
            assert(r@.ephemeral_signer_bumps =~= empty_transaction_v().ephemeral_signer_bumps);
            assert(r@.message.account_keys =~= empty_message_v().account_keys);
            assert(r@.message.instructions =~= empty_message_v().instructions);
            assert(r@.message.address_table_lookups =~= empty_message_v().address_table_lookups);
        }
        r
    }

    /// Storage size of a record slot holding the compiled form of
    /// `transaction_message`, with one bump per ephemeral signer. Fails
    /// exactly where compilation of the raw message fails.
    pub fn size(ephemeral_signers_length: u8, transaction_message: &Vec<u8>) -> (r: Result<
        usize,
        SuperTxnError,
    >)
        ensures
            r is Ok <==> (parse_transaction_message(transaction_message@) is Some && msg_valid(
                decoded_message(transaction_message@),
            )),
            r matches Ok(n) ==> n as int == spec_transaction_size(
                ephemeral_signers_length,
                decoded_message(transaction_message@),
            ),
            r is Err ==> r == Err::<usize, SuperTxnError>(SuperTxnError::InvalidTransactionMessage),
    {
        let msg = match TransactionMessage::deserialize(transaction_message) {
            Ok(m) => m,
            Err(e) => {
                return Err(e);
            },
        };
        let sm = match SuperTransactionMessage::try_from(msg) {
            Ok(m) => m,
            Err(e) => {
                return Err(e);
            },
        };
        proof {
            lemma_decoded_message_bounds(transaction_message@);
            lemma_msg_packed_len_bound(sm@);
        }
        let message_size = sm.packed_len();
        Ok(8 + 32 + (4 + ephemeral_signers_length as usize) + message_size)
    }

    /// Reduces the record to its empty value and hands the previous
    /// contents to the caller: the take-then-reset consumption step.
    pub fn take(&mut self) -> (r: SuperTransaction)
        ensures
            r == *old(self),
            final(self)@ == empty_transaction_v(),
    {
        let mut taken = SuperTransaction::empty_value();
        core::mem::swap(self, &mut taken);
        taken
    }
}

/// Copies a byte vector.
pub fn clone_bytes(v: &Vec<u8>) -> (r: Vec<u8>)
    ensures
        r@ == v@,
{
    let mut out: Vec<u8> = Vec::new();
    let mut i: usize = 0;
    while i < v.len()
        invariant
            i <= v@.len(),
            out@.len() == i as int,
            forall|j: int| 0 <= j < i as int ==> out@[j] == v@[j],
        decreases v@.len() - i,
    {
        out.push(v[i]);
        i += 1;
    }
    proof {
        assert(out@ =~= v@);
    }
    out
}

} // verus!
