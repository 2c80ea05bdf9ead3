use super_txn::errors::SuperTxnError;
use super_txn::executor::ExecutionPlan;
use super_txn::pda::{derive_ephemeral_signer_bumps, derive_ephemeral_signers};
use super_txn::pubkey::Pubkey;
use super_txn::system::{BufferAccount, TransactionAccount};
use super_txn::transaction::{
    SuperCompiledInstruction, SuperMessageAddressTableLookup, SuperTransaction,
    SuperTransactionMessage,
};
use super_txn::transaction_buffer::{TransactionBuffer, MAX_BUFFER_SIZE};
use super_txn::message::{CompiledInstruction, MessageAddressTableLookup, TransactionMessage};
use super_txn::{
    txn_buffer_close, txn_buffer_create, txn_buffer_extend, SuperTransactionCreate,
    SuperTransactionCreateArgs, SuperTransactionCreateFromBuffer, SuperTransactionExecute,
    TransactionBufferClose, TransactionBufferCreate, TransactionBufferCreateArgs,
    TransactionBufferExtend, TransactionBufferExtendArgs,
};

fn pk(b: u8) -> Pubkey {
    Pubkey::new([b; 32])
}

fn sha(bytes: &[u8]) -> [u8; 32] {
    anchor_lang::solana_program::hash::hash(bytes).to_bytes()
}

/// Encodes a flat transaction message by hand, per the wire format.
fn enc_msg(
    ns: u8,
    nws: u8,
    nwns: u8,
    keys: &[Pubkey],
    ins: &[(u8, Vec<u8>, Vec<u8>)],
    lks: &[(Pubkey, Vec<u8>, Vec<u8>)],
) -> Vec<u8> {
    let mut v = Vec::new();
    v.push(ns);
    v.push(nws);
    v.push(nwns);
    v.push(keys.len() as u8);
    for k in keys {
        v.extend_from_slice(&k.bytes);
    }
    v.push(ins.len() as u8);
    for (pix, accs, data) in ins {
        v.push(*pix);
        v.push(accs.len() as u8);
        v.extend_from_slice(accs);
        v.extend_from_slice(&(data.len() as u16).to_le_bytes());
        v.extend_from_slice(data);
    }
    v.push(lks.len() as u8);
    for (key, w, r) in lks {
        v.extend_from_slice(&key.bytes);
        v.push(w.len() as u8);
        v.extend_from_slice(w);
        v.push(r.len() as u8);
        v.extend_from_slice(r);
    }
    v
}

fn buffer_create_ctx(creator: Pubkey) -> TransactionBufferCreate {
    TransactionBufferCreate {
        transaction_buffer: BufferAccount { lamports: 50, state: None },
        creator,
        rent_payer: pk(200),
    }
}

#[test]
fn buffer_size_formula() {
    assert_eq!(TransactionBuffer::size(0), Ok(8 + 32 + 1 + 32 + 2 + 4));
    assert_eq!(TransactionBuffer::size(100), Ok(8 + 32 + 1 + 32 + 2 + 4 + 100));
    assert_eq!(TransactionBuffer::size(10128), Ok(8 + 32 + 1 + 32 + 2 + 4 + 10128));
    assert_eq!(
        TransactionBuffer::size(10129),
        Err(SuperTxnError::FinalBufferSizeExceeded)
    );
}

#[test]
fn buffer_create_populates_fields() {
    let creator = pk(1);
    let mut ctx = buffer_create_ctx(creator);
    let hash = sha(&[1, 2, 3, 4]);
    let r = txn_buffer_create(
        &mut ctx,
        TransactionBufferCreateArgs {
            buffer_index: 3,
            final_buffer_hash: hash,
            final_buffer_size: 4,
            buffer: vec![1, 2],
        },
    );
    assert_eq!(r, Ok(()));
    let b = ctx.transaction_buffer.state.as_ref().unwrap();
    assert_eq!(b.creator, creator);
    assert_eq!(b.buffer_index, 3);
    assert_eq!(b.final_buffer_hash, hash);
    assert_eq!(b.final_buffer_size, 4);
    assert_eq!(b.buffer, vec![1, 2]);
    // The invariant holds immediately after creation.
    assert!(b.buffer.len() <= b.final_buffer_size as usize);
    assert!((b.final_buffer_size as usize) <= MAX_BUFFER_SIZE);
}

#[test]
fn buffer_create_rejects_oversized_initial_chunk() {
    let mut ctx = buffer_create_ctx(pk(1));
    let r = txn_buffer_create(
        &mut ctx,
        TransactionBufferCreateArgs {
            buffer_index: 0,
            final_buffer_hash: [0; 32],
            final_buffer_size: 2,
            buffer: vec![1, 2, 3],
        },
    );
    assert_eq!(r, Err(SuperTxnError::FinalBufferSizeMismatch));
    assert!(ctx.transaction_buffer.state.is_none());
}

#[test]
fn buffer_create_rejects_declared_size_over_ceiling() {
    let mut ctx = buffer_create_ctx(pk(1));
    let r = txn_buffer_create(
        &mut ctx,
        TransactionBufferCreateArgs {
            buffer_index: 0,
            final_buffer_hash: [0; 32],
            final_buffer_size: 10200,
            buffer: vec![],
        },
    );
    assert_eq!(r, Err(SuperTxnError::FinalBufferSizeExceeded));
    assert!(ctx.transaction_buffer.state.is_none());
}

fn staged_buffer(creator: Pubkey, declared: u16, content: &[u8], hash: [u8; 32]) -> BufferAccount {
    BufferAccount {
        lamports: 10,
        state: Some(TransactionBuffer {
            creator,
            buffer_index: 0,
            final_buffer_hash: hash,
            final_buffer_size: declared,
            buffer: content.to_vec(),
        }),
    }
}

#[test]
fn buffer_extend_appends_chunk() {
    let creator = pk(1);
    let mut ctx = TransactionBufferExtend {
        transaction_buffer: staged_buffer(creator, 6, &[1, 2], [0; 32]),
        creator,
    };
    let r = txn_buffer_extend(&mut ctx, TransactionBufferExtendArgs { buffer: vec![3, 4] });
    assert_eq!(r, Ok(()));
    assert_eq!(
        ctx.transaction_buffer.state.as_ref().unwrap().buffer,
        vec![1, 2, 3, 4]
    );
}

#[test]
fn buffer_extend_over_capacity_aborts_unchanged() {
    let creator = pk(1);
    let mut ctx = TransactionBufferExtend {
        transaction_buffer: staged_buffer(creator, 4, &[1, 2, 3], [0; 32]),
        creator,
    };
    let r = txn_buffer_extend(&mut ctx, TransactionBufferExtendArgs { buffer: vec![9, 9] });
    assert_eq!(r, Err(SuperTxnError::FinalBufferSizeMismatch));
    assert_eq!(
        ctx.transaction_buffer.state.as_ref().unwrap().buffer,
        vec![1, 2, 3]
    );
}

#[test]
fn buffer_extend_on_empty_storage_is_noop_every_time() {
    let mut ctx = TransactionBufferExtend {
        transaction_buffer: BufferAccount { lamports: 0, state: None },
        creator: pk(1),
    };
    for _ in 0..3 {
        let r = txn_buffer_extend(&mut ctx, TransactionBufferExtendArgs { buffer: vec![1] });
        assert_eq!(r, Ok(()));
        assert!(ctx.transaction_buffer.state.is_none());
    }
}

#[test]
fn buffer_extend_by_non_owner_within_capacity_succeeds() {
    // The owner/capacity pre-check is deliberately soft: a non-owner's
    // well-formed append within remaining capacity commits.
    let owner = pk(1);
    let stranger = pk(2);
    let mut ctx = TransactionBufferExtend {
        transaction_buffer: staged_buffer(owner, 4, &[1], [0; 32]),
        creator: stranger,
    };
    let r = txn_buffer_extend(&mut ctx, TransactionBufferExtendArgs { buffer: vec![2] });
    assert_eq!(r, Ok(()));
    assert_eq!(ctx.transaction_buffer.state.as_ref().unwrap().buffer, vec![1, 2]);
}

#[test]
fn buffer_close_refunds_owner() {
    let creator = pk(1);
    let mut ctx = TransactionBufferClose {
        transaction_buffer: staged_buffer(creator, 4, &[1], [0; 32]),
        creator,
        creator_lamports: 5,
    };
    assert_eq!(txn_buffer_close(&mut ctx), Ok(()));
    assert!(ctx.transaction_buffer.state.is_none());
    assert_eq!(ctx.transaction_buffer.lamports, 0);
    assert_eq!(ctx.creator_lamports, 15);
}

#[test]
fn buffer_close_by_non_owner_fails() {
    let mut ctx = TransactionBufferClose {
        transaction_buffer: staged_buffer(pk(1), 4, &[1], [0; 32]),
        creator: pk(2),
        creator_lamports: 5,
    };
    assert_eq!(txn_buffer_close(&mut ctx), Err(SuperTxnError::Unauthorized));
    assert!(ctx.transaction_buffer.state.is_some());
    assert_eq!(ctx.creator_lamports, 5);
}

#[test]
fn message_deserialize_reads_all_sections() {
    let keys = [pk(10), pk(11)];
    let raw = enc_msg(
        1,
        1,
        0,
        &keys,
        &[(1, vec![0], vec![7, 8, 9]), (1, vec![0, 1], vec![])],
        &[(pk(12), vec![0], vec![1])],
    );
    let m = TransactionMessage::deserialize(&raw).unwrap();
    assert_eq!(m.num_signers, 1);
    assert_eq!(m.num_writable_signers, 1);
    assert_eq!(m.num_writable_non_signers, 0);
    assert_eq!(m.account_keys.len(), 2);
    assert_eq!(m.account_keys[0], pk(10));
    assert_eq!(m.instructions.len(), 2);
    assert_eq!(m.instructions[0].program_id_index, 1);
    assert_eq!(m.instructions[0].account_indexes, vec![0]);
    assert_eq!(m.instructions[0].data, vec![7, 8, 9]);
    assert_eq!(m.address_table_lookups.len(), 1);
    assert_eq!(m.address_table_lookups[0].account_key, pk(12));
    assert_eq!(m.address_table_lookups[0].writable_indexes, vec![0]);
    assert_eq!(m.address_table_lookups[0].readonly_indexes, vec![1]);
}

#[test]
fn message_deserialize_tolerates_trailing_and_rejects_truncation() {
    let mut raw = enc_msg(0, 0, 0, &[], &[], &[]);
    assert_eq!(raw, vec![0, 0, 0, 0, 0, 0]);
    raw.push(99);
    assert!(TransactionMessage::deserialize(&raw).is_ok());
    let truncated = vec![0, 0, 0, 1];
    assert_eq!(
        TransactionMessage::deserialize(&truncated),
        Err(SuperTxnError::InvalidTransactionMessage)
    );
}

#[test]
fn message_validation_rejects_bad_shapes() {
    // More signers than account keys.
    let raw = enc_msg(3, 0, 0, &[pk(10)], &[], &[]);
    let m = TransactionMessage::deserialize(&raw).unwrap();
    assert_eq!(
        SuperTransactionMessage::try_from(m).err(),
        Some(SuperTxnError::InvalidTransactionMessage)
    );
    // Instruction index beyond the total account count.
    let raw = enc_msg(1, 1, 0, &[pk(10)], &[(0, vec![5], vec![])], &[]);
    let m = TransactionMessage::deserialize(&raw).unwrap();
    assert_eq!(
        SuperTransactionMessage::try_from(m).err(),
        Some(SuperTxnError::InvalidTransactionMessage)
    );
    // A lookup-loaded index keeps an instruction in bounds.
    let raw = enc_msg(1, 1, 0, &[pk(10)], &[(1, vec![0], vec![])], &[(pk(12), vec![0], vec![])]);
    let m = TransactionMessage::deserialize(&raw).unwrap();
    assert!(SuperTransactionMessage::try_from(m).is_ok());
}

#[test]
fn transaction_size_matches_formula() {
    // One key, one instruction (1 index, 2 data bytes), no lookups:
    // message = 3 + (4 + 32) + (4 + (1 + (4+1) + (4+2))) + 4 = 59.
    let raw = enc_msg(1, 1, 0, &[pk(10)], &[(0, vec![0], vec![5, 6])], &[]);
    let expected_message = 3 + (4 + 32) + (4 + (1 + (4 + 1) + (4 + 2))) + 4;
    assert_eq!(
        SuperTransaction::size(2, &raw),
        Ok(8 + 32 + (4 + 2) + expected_message)
    );
    assert_eq!(
        SuperTransaction::size(0, &vec![1, 2]),
        Err(SuperTxnError::InvalidTransactionMessage)
    );
}

#[test]
fn message_role_queries() {
    // Keys: [ws, rs, wns, rns]; 2 signers (1 writable), 1 writable non-signer.
    let raw = enc_msg(2, 1, 1, &[pk(10), pk(11), pk(12), pk(13)], &[], &[]);
    let m = TransactionMessage::deserialize(&raw).unwrap();
    let sm = SuperTransactionMessage::try_from(m).unwrap();
    assert_eq!(sm.num_all_account_keys(), 4);
    assert!(sm.is_static_writable_index(0));
    assert!(!sm.is_static_writable_index(1));
    assert!(sm.is_static_writable_index(2));
    assert!(!sm.is_static_writable_index(3));
    assert!(!sm.is_static_writable_index(4));
    assert!(sm.is_signer_index(0));
    assert!(sm.is_signer_index(1));
    assert!(!sm.is_signer_index(2));
}

#[test]
fn validate_hash_pins_sha256() {
    // The commitment of empty content is the well-known sha256 of "".
    let empty_digest: [u8; 32] = [
        0xe3, 0xb0, 0xc4, 0x42, 0x98, 0xfc, 0x1c, 0x14, 0x9a, 0xfb, 0xf4, 0xc8, 0x99, 0x6f,
        0xb9, 0x24, 0x27, 0xae, 0x41, 0xe4, 0x64, 0x9b, 0x93, 0x4c, 0xa4, 0x95, 0x99, 0x1b,
        0x78, 0x52, 0xb8, 0x55,
    ];
    let b = TransactionBuffer {
        creator: pk(1),
        buffer_index: 0,
        final_buffer_hash: empty_digest,
        final_buffer_size: 0,
        buffer: vec![],
    };
    assert_eq!(b.validate_hash(), Ok(()));
    let wrong = TransactionBuffer { final_buffer_hash: [0; 32], ..b };
    assert_eq!(wrong.validate_hash(), Err(SuperTxnError::FinalBufferHashMismatch));
}

#[test]
fn capability_derivation_is_deterministic() {
    let key = pk(42);
    let program = pk(7);
    let a = derive_ephemeral_signer_bumps(&key, &program, 3).unwrap();
    let b = derive_ephemeral_signer_bumps(&key, &program, 3).unwrap();
    assert_eq!(a, b);
    let (keys_a, seeds_a) = derive_ephemeral_signers(&key, &a, &program).unwrap();
    let (keys_b, seeds_b) = derive_ephemeral_signers(&key, &b, &program).unwrap();
    assert_eq!(keys_a, keys_b);
    assert_eq!(seeds_a, seeds_b);
    assert_eq!(keys_a.len(), 3);
}

#[test]
fn rederivation_from_stored_bumps_matches_search() {
    // The bump found at creation re-derives the very identity the search
    // returned, so execution can prove control over it.
    let key = pk(42);
    let program = pk(7);
    let bumps = derive_ephemeral_signer_bumps(&key, &program, 2).unwrap();
    let (keys, seeds) = derive_ephemeral_signers(&key, &bumps, &program).unwrap();
    let pid = anchor_lang::solana_program::pubkey::Pubkey::new_from_array(program.bytes);
    for i in 0..2usize {
        let expect = anchor_lang::solana_program::pubkey::Pubkey::find_program_address(
            &[b"super_txn", &key.bytes, b"ephemeral_signer", &[i as u8]],
            &pid,
        );
        assert_eq!(keys[i].bytes, expect.0.to_bytes());
        assert_eq!(bumps[i], expect.1);
        assert_eq!(seeds[i].last().unwrap(), &vec![expect.1]);
    }
}

fn create_ctx(creator: Pubkey, key: Pubkey) -> SuperTransactionCreate {
    SuperTransactionCreate {
        transaction: TransactionAccount { key, lamports: 100, state: None },
        creator,
        rent_payer: pk(201),
        rent_payer_lamports: 1_000,
    }
}

#[test]
fn record_create_compiles_and_derives() {
    let creator = pk(1);
    let program_id = pk(7);
    let mut ctx = create_ctx(creator, pk(9));
    let raw = enc_msg(1, 1, 0, &[pk(10), pk(11)], &[(1, vec![0], vec![1])], &[]);
    let r = super_txn::super_transaction_create(
        &mut ctx,
        &program_id,
        SuperTransactionCreateArgs {
            transaction_index: 0,
            ephemeral_signers: 2,
            transaction_message: raw,
            memo: None,
        },
    );
    assert_eq!(r, Ok(()));
    let t = ctx.transaction.state.as_ref().unwrap();
    assert_eq!(t.creator, creator);
    assert_eq!(t.ephemeral_signer_bumps.len(), 2);
    assert_eq!(t.message.account_keys.len(), 2);
    let expected_bumps =
        derive_ephemeral_signer_bumps(&pk(9), &program_id, 2).unwrap();
    assert_eq!(t.ephemeral_signer_bumps, expected_bumps);
}

#[test]
fn record_create_rejects_invalid_message() {
    let mut ctx = create_ctx(pk(1), pk(9));
    let raw = enc_msg(5, 0, 0, &[pk(10)], &[], &[]);
    let r = super_txn::super_transaction_create(
        &mut ctx,
        &pk(7),
        SuperTransactionCreateArgs {
            transaction_index: 0,
            ephemeral_signers: 0,
            transaction_message: raw,
            memo: None,
        },
    );
    assert_eq!(r, Err(SuperTxnError::InvalidTransactionMessage));
    assert!(ctx.transaction.state.is_none());
}

fn promote_ctx(creator: Pubkey, buffer: BufferAccount) -> SuperTransactionCreateFromBuffer {
    SuperTransactionCreateFromBuffer {
        super_transaction_create: create_ctx(creator, pk(9)),
        transaction_buffer: buffer,
        creator,
        creator_lamports: 5,
    }
}

fn sentinel_args(ephemeral_signers: u8) -> SuperTransactionCreateArgs {
    SuperTransactionCreateArgs {
        transaction_index: 0,
        ephemeral_signers,
        transaction_message: vec![0, 0, 0, 0, 0, 0],
        memo: None,
    }
}

#[test]
fn stage_extend_promote_round_trip() {
    let creator = pk(1);
    let program_id = pk(7);
    let content = enc_msg(
        1,
        1,
        0,
        &[pk(10), pk(11)],
        &[(1, vec![0], vec![9, 9]), (1, vec![0, 1], vec![3])],
        &[],
    );
    let digest = sha(&content);
    // Create with a prefix of the content, extend with the suffix.
    let mut create = buffer_create_ctx(creator);
    let r = txn_buffer_create(
        &mut create,
        TransactionBufferCreateArgs {
            buffer_index: 0,
            final_buffer_hash: digest,
            final_buffer_size: content.len() as u16,
            buffer: content[..3].to_vec(),
        },
    );
    assert_eq!(r, Ok(()));
    let mut extend = TransactionBufferExtend {
        transaction_buffer: create.transaction_buffer,
        creator,
    };
    let r = txn_buffer_extend(
        &mut extend,
        TransactionBufferExtendArgs { buffer: content[3..].to_vec() },
    );
    assert_eq!(r, Ok(()));
    // Promote.
    let mut ctx = promote_ctx(creator, extend.transaction_buffer);
    let r = ctx.super_transaction_create_from_buffer_checked(&program_id, 700, sentinel_args(1));
    assert_eq!(r, Ok(true));
    // The record's message decodes to the instructions encoded in the content.
    let t = ctx.super_transaction_create.transaction.state.as_ref().unwrap();
    assert_eq!(t.message.instructions.len(), 2);
    assert_eq!(t.message.instructions[0].data, vec![9, 9]);
    assert_eq!(t.message.instructions[1].account_indexes, vec![0, 1]);
    assert_eq!(t.message.account_keys[1], pk(11));
    // The buffer was reclaimed to the owner.
    assert!(ctx.transaction_buffer.state.is_none());
    assert_eq!(ctx.transaction_buffer.lamports, 0);
    assert_eq!(ctx.creator_lamports, 55);
    // The record's deposit was topped up to the rent minimum.
    assert_eq!(ctx.super_transaction_create.transaction.lamports, 700);
    assert_eq!(ctx.super_transaction_create.rent_payer_lamports, 400);
}

#[test]
fn promote_rejects_hash_mismatch() {
    let creator = pk(1);
    let content = enc_msg(0, 0, 0, &[], &[], &[]);
    let buffer = staged_buffer(creator, content.len() as u16, &content, [1; 32]);
    let mut ctx = promote_ctx(creator, buffer);
    let r = ctx.super_transaction_create_from_buffer_checked(&pk(7), 700, sentinel_args(0));
    assert_eq!(r, Err(SuperTxnError::FinalBufferHashMismatch));
    assert!(ctx.transaction_buffer.state.is_some());
    assert!(ctx.super_transaction_create.transaction.state.is_none());
}

#[test]
fn promote_rejects_size_mismatch() {
    let creator = pk(1);
    let content = enc_msg(0, 0, 0, &[], &[], &[]);
    let buffer = staged_buffer(creator, (content.len() + 2) as u16, &content, sha(&content));
    let mut ctx = promote_ctx(creator, buffer);
    let r = ctx.super_transaction_create_from_buffer_checked(&pk(7), 700, sentinel_args(0));
    assert_eq!(r, Err(SuperTxnError::FinalBufferSizeMismatch));
    assert!(ctx.transaction_buffer.state.is_some());
}

#[test]
fn promote_rejects_non_sentinel_and_non_owner() {
    let creator = pk(1);
    let content = enc_msg(0, 0, 0, &[], &[], &[]);
    let buffer = staged_buffer(creator, content.len() as u16, &content, sha(&content));
    let mut ctx = promote_ctx(creator, buffer);
    let mut args = sentinel_args(0);
    args.transaction_message = vec![0, 0, 0, 0, 0, 1];
    let r = ctx.super_transaction_create_from_buffer_checked(&pk(7), 700, args);
    assert_eq!(r, Err(SuperTxnError::InvalidInstructionArgs));

    let buffer = staged_buffer(pk(3), content.len() as u16, &content, sha(&content));
    let mut ctx = promote_ctx(pk(1), buffer);
    let r = ctx.super_transaction_create_from_buffer_checked(&pk(7), 700, sentinel_args(0));
    assert_eq!(r, Err(SuperTxnError::Unauthorized));
}

#[test]
fn promote_on_empty_storage_is_noop_every_time() {
    let mut ctx = promote_ctx(pk(1), BufferAccount { lamports: 0, state: None });
    for _ in 0..3 {
        let r =
            ctx.super_transaction_create_from_buffer_checked(&pk(7), 700, sentinel_args(0));
        assert_eq!(r, Ok(true));
        assert!(ctx.super_transaction_create.transaction.state.is_none());
        assert_eq!(ctx.creator_lamports, 5);
    }
}

fn created_record(creator: Pubkey, key: Pubkey, program_id: Pubkey, raw: Vec<u8>, eph: u8) -> TransactionAccount {
    let mut ctx = create_ctx(creator, key);
    let r = super_txn::super_transaction_create(
        &mut ctx,
        &program_id,
        SuperTransactionCreateArgs {
            transaction_index: 0,
            ephemeral_signers: eph,
            transaction_message: raw,
            memo: Some(String::from("staged")),
        },
    );
    assert_eq!(r, Ok(()));
    ctx.transaction
}

#[test]
fn execute_by_non_owner_fails_and_leaves_record() {
    let program_id = pk(7);
    let raw = enc_msg(1, 1, 0, &[pk(10), pk(11)], &[(1, vec![0], vec![1])], &[]);
    let transaction = created_record(pk(1), pk(9), program_id, raw, 0);
    let mut ctx = SuperTransactionExecute {
        transaction,
        creator: pk(2),
        creator_lamports: 0,
    };
    let context = vec![pk(10), pk(11)];
    let r = ctx.super_transaction_execute(&program_id, &context);
    assert_eq!(r, Err(SuperTxnError::Unauthorized));
    assert!(ctx.transaction.state.is_some());
    assert_eq!(ctx.transaction.lamports, 100);
}

#[test]
fn execute_on_empty_storage_is_noop_every_time() {
    let mut ctx = SuperTransactionExecute {
        transaction: TransactionAccount { key: pk(9), lamports: 0, state: None },
        creator: pk(1),
        creator_lamports: 3,
    };
    for _ in 0..3 {
        let r = ctx.super_transaction_execute(&pk(7), &vec![]);
        assert!(matches!(r, Ok(None)));
        assert_eq!(ctx.creator_lamports, 3);
    }
}

#[test]
fn execute_rejects_bad_account_context() {
    let program_id = pk(7);
    let raw = enc_msg(1, 1, 0, &[pk(10), pk(11)], &[(1, vec![0], vec![1])], &[]);
    // Too few accounts.
    let transaction = created_record(pk(1), pk(9), program_id, raw.clone(), 0);
    let mut ctx = SuperTransactionExecute { transaction, creator: pk(1), creator_lamports: 0 };
    let r = ctx.super_transaction_execute(&program_id, &vec![pk(10)]);
    assert_eq!(r, Err(SuperTxnError::AccountResolutionError));
    assert!(ctx.transaction.state.is_some());
    // A static key out of order.
    let transaction = created_record(pk(1), pk(9), program_id, raw, 0);
    let mut ctx = SuperTransactionExecute { transaction, creator: pk(1), creator_lamports: 0 };
    let r = ctx.super_transaction_execute(&program_id, &vec![pk(11), pk(10)]);
    assert_eq!(r, Err(SuperTxnError::AccountResolutionError));
    assert!(ctx.transaction.state.is_some());
}

#[test]
fn end_to_end_execute_runs_instructions_in_order() {
    let creator = pk(1);
    let program_id = pk(7);
    let signer = pk(10);
    let program_key = pk(11);
    let table = pk(12);
    let loaded = pk(13);
    // Two instructions; the second references the account the lookup table
    // loads at resolved index 2.
    let raw = enc_msg(
        1,
        1,
        0,
        &[signer, program_key],
        &[(1, vec![0], vec![1, 2]), (1, vec![2], vec![3])],
        &[(table, vec![0], vec![])],
    );
    let transaction = created_record(creator, pk(9), program_id, raw, 1);
    let mut ctx = SuperTransactionExecute { transaction, creator, creator_lamports: 7 };
    // Context: lookup tables, then static keys, then loaded accounts.
    let context = vec![table, signer, program_key, loaded];
    let plan: ExecutionPlan = ctx
        .super_transaction_execute(&program_id, &context)
        .unwrap()
        .unwrap();
    assert_eq!(plan.invocations.len(), 2);
    assert_eq!(plan.invocations[0].program, program_key);
    assert_eq!(plan.invocations[0].accounts.len(), 1);
    assert_eq!(plan.invocations[0].accounts[0].key, signer);
    assert!(plan.invocations[0].accounts[0].is_signer);
    assert!(plan.invocations[0].accounts[0].is_writable);
    assert_eq!(plan.invocations[0].data, vec![1, 2]);
    assert_eq!(plan.invocations[1].program, program_key);
    assert_eq!(plan.invocations[1].accounts[0].key, loaded);
    assert!(!plan.invocations[1].accounts[0].is_signer);
    assert!(plan.invocations[1].accounts[0].is_writable);
    assert_eq!(plan.invocations[1].data, vec![3]);
    // One ephemeral capability, re-derived from the stored bump.
    assert_eq!(plan.ephemeral_signer_keys.len(), 1);
    assert_eq!(plan.ephemeral_signer_seeds.len(), 1);
    // The record was consumed and its storage reclaimed: nothing remains.
    assert!(ctx.transaction.state.is_none());
    assert_eq!(ctx.transaction.lamports, 0);
    assert_eq!(ctx.creator_lamports, 107);
    // Running it again is a silent no-op.
    let again = ctx.super_transaction_execute(&program_id, &context);
    assert!(matches!(again, Ok(None)));
}

#[test]
fn take_resets_record_to_empty() {
    let program_id = pk(7);
    let raw = enc_msg(1, 1, 0, &[pk(10), pk(11)], &[(1, vec![0], vec![1])], &[]);
    let account = created_record(pk(1), pk(9), program_id, raw, 1);
    let mut record = account.state.unwrap();
    let taken = record.take();
    assert_eq!(taken.creator, pk(1));
    assert_eq!(taken.ephemeral_signer_bumps.len(), 1);
    assert_eq!(taken.message.account_keys.len(), 2);
    assert_eq!(record.creator, Pubkey::new([0; 32]));
    assert!(record.ephemeral_signer_bumps.is_empty());
    assert!(record.message.account_keys.is_empty());
    assert!(record.message.instructions.is_empty());
}

#[test]
fn extend_pre_check_reports_capacity_and_ownership() {
    let owner = pk(1);
    let ctx = TransactionBufferExtend {
        transaction_buffer: staged_buffer(owner, 4, &[1, 2], [0; 32]),
        creator: owner,
    };
    assert_eq!(ctx.validate(&TransactionBufferExtendArgs { buffer: vec![3, 4] }), Ok(()));
    assert_eq!(
        ctx.validate(&TransactionBufferExtendArgs { buffer: vec![3, 4, 5] }),
        Err(SuperTxnError::FinalBufferSizeExceeded)
    );
    let stranger_ctx = TransactionBufferExtend {
        transaction_buffer: staged_buffer(owner, 4, &[1, 2], [0; 32]),
        creator: pk(2),
    };
    assert_eq!(
        stranger_ctx.validate(&TransactionBufferExtendArgs { buffer: vec![3] }),
        Err(SuperTxnError::Unauthorized)
    );
}

#[test]
fn promote_pre_check_accepts_a_completed_buffer() {
    let creator = pk(1);
    let content = enc_msg(0, 0, 0, &[], &[], &[]);
    let buffer = staged_buffer(creator, content.len() as u16, &content, sha(&content));
    let ctx = promote_ctx(creator, buffer);
    assert_eq!(ctx.validate(&sentinel_args(0)), Ok(()));
    let mut bad = sentinel_args(0);
    bad.transaction_message = vec![0, 0, 0, 0, 0];
    assert_eq!(ctx.validate(&bad), Err(SuperTxnError::InvalidInstructionArgs));
}

#[test]
fn durable_conversions_keep_fields() {
    let ins = SuperCompiledInstruction::from(CompiledInstruction {
        program_id_index: 3,
        account_indexes: vec![1, 2],
        data: vec![9],
    });
    assert_eq!(ins.program_id_index, 3);
    assert_eq!(ins.account_indexes, vec![1, 2]);
    assert_eq!(ins.data, vec![9]);
    let lk = SuperMessageAddressTableLookup::from(MessageAddressTableLookup {
        account_key: pk(12),
        writable_indexes: vec![0],
        readonly_indexes: vec![1, 2],
    });
    assert_eq!(lk.account_key, pk(12));
    assert_eq!(lk.writable_indexes, vec![0]);
    assert_eq!(lk.readonly_indexes, vec![1, 2]);
}
