use vstd::prelude::*;
use crate::errors::SuperTxnError;
use crate::pubkey::Pubkey;

verus! {

// ---------------------------------------------------------------------------
// The flat transaction-message encoding.
//
// Little-endian integers, length-prefixed variable sequences:
//   num_signers: u8
//   num_writable_signers: u8
//   num_writable_non_signers: u8
//   account_keys: u8 count, then 32 bytes per key
//   instructions: u8 count, then per instruction
//       program_id_index: u8
//       account_indexes: u8 count, then one byte per index
//       data: u16 length, then the raw bytes
//   address_table_lookups: u8 count, then per lookup
//       account_key: 32 bytes
//       writable_indexes: u8 count, then one byte per index
//       readonly_indexes: u8 count, then one byte per index
// Trailing bytes after the message are tolerated and ignored.
// ---------------------------------------------------------------------------

/// An instruction encoded as indexes into the resolved account list plus
/// opaque payload bytes.
#[derive(Debug, PartialEq)]
pub struct CompiledInstruction {
    pub program_id_index: u8,
    pub account_indexes: Vec<u8>,
    pub data: Vec<u8>,
}

/// Mathematical image of a compiled instruction.
pub struct CompiledInstructionV {
    pub program_id_index: u8,
    pub account_indexes: Seq<u8>,
    pub data: Seq<u8>,
}

impl View for CompiledInstruction {
    type V = CompiledInstructionV;

    open spec fn view(&self) -> CompiledInstructionV {
        CompiledInstructionV {
            program_id_index: self.program_id_index,
            account_indexes: self.account_indexes@,
            data: self.data@,
        }
    }
}

impl DeepView for CompiledInstruction {
    type V = CompiledInstructionV;

    open spec fn deep_view(&self) -> CompiledInstructionV {
        self.view()
    }
}

/// A reference to an on-chain address table that loads extra accounts by
/// index rather than by inline address.
#[derive(Debug, PartialEq)]
pub struct MessageAddressTableLookup {
    pub account_key: Pubkey,
    pub writable_indexes: Vec<u8>,
    pub readonly_indexes: Vec<u8>,
}

/// Mathematical image of an address-table lookup.
pub struct MessageAddressTableLookupV {
    pub account_key: Seq<u8>,
    pub writable_indexes: Seq<u8>,
    pub readonly_indexes: Seq<u8>,
}

impl View for MessageAddressTableLookup {
    type V = MessageAddressTableLookupV;

    open spec fn view(&self) -> MessageAddressTableLookupV {
        MessageAddressTableLookupV {
            account_key: self.account_key@,
            writable_indexes: self.writable_indexes@,
            readonly_indexes: self.readonly_indexes@,
        }
    }
}

impl DeepView for MessageAddressTableLookup {
    type V = MessageAddressTableLookupV;

    open spec fn deep_view(&self) -> MessageAddressTableLookupV {
        self.view()
    }
}

/// The flat transaction message as supplied by a caller, before structural
/// validation.
#[derive(Debug, PartialEq)]
pub struct TransactionMessage {
    pub num_signers: u8,
    pub num_writable_signers: u8,
    pub num_writable_non_signers: u8,
    pub account_keys: Vec<Pubkey>,
    pub instructions: Vec<CompiledInstruction>,
    pub address_table_lookups: Vec<MessageAddressTableLookup>,
}

/// Mathematical image of a flat transaction message.
pub struct TransactionMessageV {
    pub num_signers: u8,
    pub num_writable_signers: u8,
    pub num_writable_non_signers: u8,
    pub account_keys: Seq<Seq<u8>>,
    pub instructions: Seq<CompiledInstructionV>,
    pub address_table_lookups: Seq<MessageAddressTableLookupV>,
}

impl View for TransactionMessage {
    type V = TransactionMessageV;

    open spec fn view(&self) -> TransactionMessageV {
        TransactionMessageV {
            num_signers: self.num_signers,
            num_writable_signers: self.num_writable_signers,
            num_writable_non_signers: self.num_writable_non_signers,
            account_keys: self.account_keys.deep_view(),
            instructions: self.instructions.deep_view(),
            address_table_lookups: self.address_table_lookups.deep_view(),
        }
    }
}

// ---------------------------------------------------------------------------
// The encoding, read mathematically: each reader yields the value and the
// offset just past it, or nothing when the bytes run out.
// ---------------------------------------------------------------------------

pub open spec fn parse_u8(b: Seq<u8>, off: int) -> Option<(u8, int)> {
    if 0 <= off && off < b.len() {
        Some((b[off], off + 1))
    } else {
        None
    }
}

pub open spec fn parse_u16le(b: Seq<u8>, off: int) -> Option<(u16, int)> {
    if 0 <= off && off + 2 <= b.len() {
        Some(((b[off] as int + (b[off + 1] as int) * 256) as u16, off + 2))
    } else {
        None
    }
}

pub open spec fn parse_bytes(b: Seq<u8>, off: int, n: int) -> Option<(Seq<u8>, int)> {
    if 0 <= off && 0 <= n && off + n <= b.len() {
        Some((b.subrange(off, off + n), off + n))
    } else {
        None
    }
}

pub open spec fn parse_keys(b: Seq<u8>, off: int, n: int) -> Option<(Seq<Seq<u8>>, int)>
    decreases n,
{
    if n <= 0 {
        Some((seq![], off))
    } else {
        match parse_bytes(b, off, 32) {
            Some((key, o1)) => match parse_keys(b, o1, n - 1) {
                Some((rest, end)) => Some((seq![key] + rest, end)),
                None => None,
            },
            None => None,
        }
    }
}

pub open spec fn parse_instruction(b: Seq<u8>, off: int) -> Option<(CompiledInstructionV, int)> {
    match parse_u8(b, off) {
        Some((pix, o1)) => match parse_u8(b, o1) {
            Some((nacc, o2)) => match parse_bytes(b, o2, nacc as int) {
                Some((accs, o3)) => match parse_u16le(b, o3) {
                    Some((dlen, o4)) => match parse_bytes(b, o4, dlen as int) {
                        Some((data, o5)) => Some(
                            (
                                CompiledInstructionV {
                                    program_id_index: pix,
                                    account_indexes: accs,
                                    data,
                                },
                                o5,
                            ),
                        ),
                        None => None,
                    },
                    None => None,
                },
                None => None,
            },
            None => None,
        },
        None => None,
    }
}

pub open spec fn parse_instructions(b: Seq<u8>, off: int, n: int) -> Option<
    (Seq<CompiledInstructionV>, int),
>
    decreases n,
{
    if n <= 0 {
        Some((seq![], off))
    } else {
        match parse_instruction(b, off) {
            Some((ins, o1)) => match parse_instructions(b, o1, n - 1) {
                Some((rest, end)) => Some((seq![ins] + rest, end)),
                None => None,
            },
            None => None,
        }
    }
}

pub open spec fn parse_lookup(b: Seq<u8>, off: int) -> Option<(MessageAddressTableLookupV, int)> {
    match parse_bytes(b, off, 32) {
        Some((key, o1)) => match parse_u8(b, o1) {
            Some((nw, o2)) => match parse_bytes(b, o2, nw as int) {
                Some((wr, o3)) => match parse_u8(b, o3) {
                    Some((nr, o4)) => match parse_bytes(b, o4, nr as int) {
                        Some((rd, o5)) => Some(
                            (
                                MessageAddressTableLookupV {
                                    account_key: key,
                                    writable_indexes: wr,
                                    readonly_indexes: rd,
                                },
                                o5,
                            ),
                        ),
                        None => None,
                    },
                    None => None,
                },
                None => None,
            },
            None => None,
        },
        None => None,
    }
}

pub open spec fn parse_lookups(b: Seq<u8>, off: int, n: int) -> Option<
    (Seq<MessageAddressTableLookupV>, int),
>
    decreases n,
{
    if n <= 0 {
        Some((seq![], off))
    } else {
        match parse_lookup(b, off) {
            Some((lk, o1)) => match parse_lookups(b, o1, n - 1) {
                Some((rest, end)) => Some((seq![lk] + rest, end)),
                None => None,
            },
            None => None,
        }
    }
}

/// What the flat encoding holds: the message read from the front of `b`,
/// together with the offset just past it.
pub open spec fn parse_transaction_message(b: Seq<u8>) -> Option<(TransactionMessageV, int)> {
    match parse_u8(b, 0) {
        Some((ns, o1)) => match parse_u8(b, o1) {
            Some((nws, o2)) => match parse_u8(b, o2) {
                Some((nwns, o3)) => match parse_u8(b, o3) {
                    Some((nkeys, o4)) => match parse_keys(b, o4, nkeys as int) {
                        Some((keys, o5)) => match parse_u8(b, o5) {
                            Some((nins, o6)) => match parse_instructions(b, o6, nins as int) {
                                Some((ins, o7)) => match parse_u8(b, o7) {
                                    Some((nlk, o8)) => match parse_lookups(b, o8, nlk as int) {
                                        Some((lks, o9)) => Some(
                                            (
                                                TransactionMessageV {
                                                    num_signers: ns,
                                                    num_writable_signers: nws,
                                                    num_writable_non_signers: nwns,
                                                    account_keys: keys,
                                                    instructions: ins,
                                                    address_table_lookups: lks,
                                                },
                                                o9,
                                            ),
                                        ),
                                        None => None,
                                    },
                                    None => None,
                                },
                                None => None,
                            },
                            None => None,
                        },
                        None => None,
                    },
                    None => None,
                },
                None => None,
            },
            None => None,
        },
        None => None,
    }
}

/// The message a well-formed encoding decodes to.
pub open spec fn decoded_message(b: Seq<u8>) -> TransactionMessageV {
    parse_transaction_message(b)->Some_0.0
}

/// Shape bounds every decoded message satisfies: list lengths fit their
/// one-byte (or two-byte) prefixes and every address is 32 bytes.
pub open spec fn msg_wf_bounds(m: TransactionMessageV) -> bool {
    &&& m.account_keys.len() <= 255
    &&& forall|i: int| 0 <= i < m.account_keys.len() ==> #[trigger] m.account_keys[i].len() == 32
    &&& m.instructions.len() <= 255
    &&& forall|i: int|
        0 <= i < m.instructions.len() ==> (#[trigger] m.instructions[i]).account_indexes.len()
            <= 255 && m.instructions[i].data.len() <= 65535
    &&& m.address_table_lookups.len() <= 255
    &&& forall|i: int|
        0 <= i < m.address_table_lookups.len() ==> (#[trigger] m.address_table_lookups[i]).account_key.len()
            == 32 && m.address_table_lookups[i].writable_indexes.len() <= 255
            && m.address_table_lookups[i].readonly_indexes.len() <= 255
}

proof fn lemma_parse_keys_shape(b: Seq<u8>, off: int, n: int)
    requires
        parse_keys(b, off, n) is Some,
    ensures
        parse_keys(b, off, n)->Some_0.0.len() == (if n >= 0 { n } else { 0 }),
        forall|i: int|
            0 <= i < parse_keys(b, off, n)->Some_0.0.len() ==> #[trigger] parse_keys(
                b,
                off,
                n,
            )->Some_0.0[i].len() == 32,
    decreases n,
{
    if n > 0 {
        let o1 = parse_bytes(b, off, 32)->Some_0.1;
        lemma_parse_keys_shape(b, o1, n - 1);
    }
}

proof fn lemma_parse_instructions_shape(b: Seq<u8>, off: int, n: int)
    requires
        parse_instructions(b, off, n) is Some,
    ensures
        parse_instructions(b, off, n)->Some_0.0.len() == (if n >= 0 { n } else { 0 }),
        forall|i: int|
            0 <= i < parse_instructions(b, off, n)->Some_0.0.len() ==> (
            #[trigger] parse_instructions(b, off, n)->Some_0.0[i]).account_indexes.len() <= 255
                && parse_instructions(b, off, n)->Some_0.0[i].data.len() <= 65535,
    decreases n,
{
    if n > 0 {
        let o1 = parse_instruction(b, off)->Some_0.1;
        lemma_parse_instructions_shape(b, o1, n - 1);
    }
}

proof fn lemma_parse_lookups_shape(b: Seq<u8>, off: int, n: int)
    requires
        parse_lookups(b, off, n) is Some,
    ensures
        parse_lookups(b, off, n)->Some_0.0.len() == (if n >= 0 { n } else { 0 }),
        forall|i: int|
            0 <= i < parse_lookups(b, off, n)->Some_0.0.len() ==> (#[trigger] parse_lookups(
                b,
                off,
                n,
            )->Some_0.0[i]).account_key.len() == 32 && parse_lookups(
                b,
                off,
                n,
            )->Some_0.0[i].writable_indexes.len() <= 255 && parse_lookups(
                b,
                off,
                n,
            )->Some_0.0[i].readonly_indexes.len() <= 255,
    decreases n,
{
    if n > 0 {
        let o1 = parse_lookup(b, off)->Some_0.1;
        lemma_parse_lookups_shape(b, o1, n - 1);
    }
}

/// Every message read from a well-formed encoding satisfies the shape
/// bounds.
pub proof fn lemma_decoded_message_bounds(b: Seq<u8>)
    requires
        parse_transaction_message(b) is Some,
    ensures
        msg_wf_bounds(decoded_message(b)),
{
    let o1 = parse_u8(b, 0)->Some_0.1;
    let o2 = parse_u8(b, o1)->Some_0.1;
    let o3 = parse_u8(b, o2)->Some_0.1;
    let (nkeys, o4) = parse_u8(b, o3)->Some_0;
    let o5 = parse_keys(b, o4, nkeys as int)->Some_0.1;
    let (nins, o6) = parse_u8(b, o5)->Some_0;
    let o7 = parse_instructions(b, o6, nins as int)->Some_0.1;
    let (nlk, o8) = parse_u8(b, o7)->Some_0;
    lemma_parse_keys_shape(b, o4, nkeys as int);
    lemma_parse_instructions_shape(b, o6, nins as int);
    lemma_parse_lookups_shape(b, o8, nlk as int);
}

// ---------------------------------------------------------------------------
// The executable readers, each proved against its mathematical counterpart.
// ---------------------------------------------------------------------------

fn read_u8(bytes: &Vec<u8>, off: usize) -> (r: Option<(u8, usize)>)
    ensures
        r is Some <==> parse_u8(bytes@, off as int) is Some,
        r matches Some(p) ==> parse_u8(bytes@, off as int) == Some((p.0, p.1 as int)),
{
    if off < bytes.len() {
        Some((bytes[off], off + 1))
    } else {
        None
    }
}

fn read_u16le(bytes: &Vec<u8>, off: usize) -> (r: Option<(u16, usize)>)
    ensures
        r is Some <==> parse_u16le(bytes@, off as int) is Some,
        r matches Some(p) ==> parse_u16le(bytes@, off as int) == Some((p.0, p.1 as int)),
{
    if off < bytes.len() && bytes.len() - off >= 2 {
        let lo = bytes[off];
        let hi = bytes[off + 1];
        let v: u16 = (lo as u16) + (hi as u16) * 256;
        Some((v, off + 2))
    } else {
        None
    }
}

fn read_bytes(bytes: &Vec<u8>, off: usize, n: usize) -> (r: Option<(Vec<u8>, usize)>)
    ensures
        r is Some <==> parse_bytes(bytes@, off as int, n as int) is Some,
        r matches Some(p) ==> parse_bytes(bytes@, off as int, n as int) == Some(
            (p.0@, p.1 as int),
        ),
{
    if n <= bytes.len() && off <= bytes.len() - n {
        let mut out: Vec<u8> = Vec::new();
        let mut k: usize = 0;
        while k < n
            invariant
                k <= n,
                off + n <= bytes@.len(),
                bytes@.len() <= usize::MAX,
                out@.len() == k,
                forall|j: int| 0 <= j < k ==> out@[j] == bytes@[off + j],
            decreases n - k,
        {
            out.push(bytes[off + k]);
            k += 1;
        }
        proof {
            assert(out@ =~= bytes@.subrange(off as int, off as int + n as int));
        }
        Some((out, off + n))
    } else {
        None
    }
}

fn read_key(bytes: &Vec<u8>, off: usize) -> (r: Option<(Pubkey, usize)>)
    ensures
        r is Some <==> parse_bytes(bytes@, off as int, 32) is Some,
        r matches Some(p) ==> parse_bytes(bytes@, off as int, 32) == Some((p.0@, p.1 as int)),
{
    if 32 <= bytes.len() && off <= bytes.len() - 32 {
        let mut arr: [u8; 32] = [0u8; 32];
        let mut k: usize = 0;
        while k < 32
            invariant
                k <= 32,
                off + 32 <= bytes@.len(),
                bytes@.len() <= usize::MAX,
                arr@.len() == 32,
                forall|j: int| 0 <= j < k ==> arr@[j] == bytes@[off + j],
            decreases 32 - k,
        {
            arr.set(k, bytes[off + k]);
            k += 1;
        }
        proof {
            assert(arr@ =~= bytes@.subrange(off as int, off as int + 32));
        }
        Some((Pubkey { bytes: arr }, off + 32))
    } else {
        None
    }
}

fn read_keys(bytes: &Vec<u8>, off: usize, n: u8) -> (r: Option<(Vec<Pubkey>, usize)>)
    ensures
        r is Some <==> parse_keys(bytes@, off as int, n as int) is Some,
        r matches Some(p) ==> parse_keys(bytes@, off as int, n as int) == Some(
            (p.0.deep_view(), p.1 as int),
        ),
{
    let mut keys: Vec<Pubkey> = Vec::new();
    let mut cur: usize = off;
    let mut i: usize = 0;
    proof {
        assert(keys.deep_view() =~= Seq::<Seq<u8>>::empty());
        if parse_keys(bytes@, off as int, n as int) is Some {
            let p = parse_keys(bytes@, off as int, n as int)->Some_0;
            assert(Seq::<Seq<u8>>::empty() + p.0 =~= p.0);
        }
    }
    while i < n as usize
        invariant
            i <= n as int,
            keys.deep_view().len() == i as int,
            match parse_keys(bytes@, cur as int, n as int - i) {
                Some((rest, end)) => parse_keys(bytes@, off as int, n as int) == Some(
                    (keys.deep_view() + rest, end),
                ),
                None => parse_keys(bytes@, off as int, n as int) is None,
            },
        decreases n as int - i,
    {
        let ghost pre_keys = keys.deep_view();
        let ghost pre_cur = cur as int;
        let ghost n_rem = n as int - i as int;
        match read_key(bytes, cur) {
            Some((key, ncur)) => {
                keys.push(key);
                cur = ncur;
                proof {
                    assert(keys.deep_view() =~= pre_keys.push(key@));
                    if parse_keys(bytes@, cur as int, n_rem - 1) is Some {
                        let p = parse_keys(bytes@, cur as int, n_rem - 1)->Some_0;
                        assert(parse_keys(bytes@, pre_cur, n_rem) == Some(
                            (seq![key@] + p.0, p.1),
                        ));
                        assert(pre_keys.push(key@) + p.0 =~= pre_keys + (seq![key@] + p.0));
                    } else {
                        assert(parse_keys(bytes@, pre_cur, n_rem) is None);
                    }
                }
            },
            None => {
                proof {
                    assert(parse_keys(bytes@, pre_cur, n_rem) is None);
                }
                return None;
            },
        }
        i += 1;
    }
    proof {
        assert(parse_keys(bytes@, cur as int, 0) == Some((Seq::<Seq<u8>>::empty(), cur as int)));
        assert(keys.deep_view() + Seq::<Seq<u8>>::empty() =~= keys.deep_view());
    }
    Some((keys, cur))
}

fn read_instruction(bytes: &Vec<u8>, off: usize) -> (r: Option<(CompiledInstruction, usize)>)
    ensures
        r is Some <==> parse_instruction(bytes@, off as int) is Some,
        r matches Some(p) ==> parse_instruction(bytes@, off as int) == Some((p.0@, p.1 as int)),
{
    let (pix, p1) = match read_u8(bytes, off) {
        Some(p) => p,
        None => {
            return None;
        },
    };
    let (nacc, p2) = match read_u8(bytes, p1) {
        Some(p) => p,
        None => {
            return None;
        },
    };
    let (accs, p3) = match read_bytes(bytes, p2, nacc as usize) {
        Some(p) => p,
        None => {
            return None;
        },
    };
    let (dlen, p4) = match read_u16le(bytes, p3) {
        Some(p) => p,
        None => {
            return None;
        },
    };
    let (data, p5) = match read_bytes(bytes, p4, dlen as usize) {
        Some(p) => p,
        None => {
            return None;
        },
    };
    Some((CompiledInstruction { program_id_index: pix, account_indexes: accs, data }, p5))
}

fn read_instructions(bytes: &Vec<u8>, off: usize, n: u8) -> (r: Option<
    (Vec<CompiledInstruction>, usize),
>)
    ensures
        r is Some <==> parse_instructions(bytes@, off as int, n as int) is Some,
        r matches Some(p) ==> parse_instructions(bytes@, off as int, n as int) == Some(
            (p.0.deep_view(), p.1 as int),
        ),
{
    let mut ins_list: Vec<CompiledInstruction> = Vec::new();
    let mut cur: usize = off;
    let mut i: usize = 0;
    proof {
        assert(ins_list.deep_view() =~= Seq::<CompiledInstructionV>::empty());
        if parse_instructions(bytes@, off as int, n as int) is Some {
            let p = parse_instructions(bytes@, off as int, n as int)->Some_0;
            assert(Seq::<CompiledInstructionV>::empty() + p.0 =~= p.0);
        }
    }
    while i < n as usize
        invariant
            i <= n as int,
            ins_list.deep_view().len() == i as int,
            match parse_instructions(bytes@, cur as int, n as int - i) {
                Some((rest, end)) => parse_instructions(bytes@, off as int, n as int) == Some(
                    (ins_list.deep_view() + rest, end),
                ),
                None => parse_instructions(bytes@, off as int, n as int) is None,
            },
        decreases n as int - i,
    {
        let ghost pre_ins = ins_list.deep_view();
        let ghost pre_cur = cur as int;
        let ghost n_rem = n as int - i as int;
        match read_instruction(bytes, cur) {
            Some((ins, ncur)) => {
                proof {
                    assert(parse_instruction(bytes@, pre_cur) == Some((ins@, ncur as int)));
                }
                ins_list.push(ins);
                cur = ncur;
                proof {
                    assert(ins_list.deep_view() =~= pre_ins.push(ins_list@[i as int]@));
                    if parse_instructions(bytes@, cur as int, n_rem - 1) is Some {
                        let p = parse_instructions(bytes@, cur as int, n_rem - 1)->Some_0;
                        assert(parse_instructions(bytes@, pre_cur, n_rem) == Some(
                            (seq![ins_list@[i as int]@] + p.0, p.1),
                        ));
                        assert(pre_ins.push(ins_list@[i as int]@) + p.0 =~= pre_ins + (seq![
                            ins_list@[i as int]@,
                        ] + p.0));
                    } else {
                        assert(parse_instructions(bytes@, pre_cur, n_rem) is None);
                    }
                }
            },
            None => {
                proof {
                    assert(parse_instructions(bytes@, pre_cur, n_rem) is None);
                }
                return None;
            },
        }
        i += 1;
    }
    proof {
        assert(parse_instructions(bytes@, cur as int, 0) == Some(
            (Seq::<CompiledInstructionV>::empty(), cur as int),
        ));
        assert(ins_list.deep_view() + Seq::<CompiledInstructionV>::empty() =~= ins_list.deep_view());
    }
    Some((ins_list, cur))
}

fn read_lookup(bytes: &Vec<u8>, off: usize) -> (r: Option<(MessageAddressTableLookup, usize)>)
    ensures
        r is Some <==> parse_lookup(bytes@, off as int) is Some,
        r matches Some(p) ==> parse_lookup(bytes@, off as int) == Some((p.0@, p.1 as int)),
{
    let (key, q1) = match read_key(bytes, off) {
        Some(p) => p,
        None => {
            return None;
        },
    };
    let (nw, q2) = match read_u8(bytes, q1) {
        Some(p) => p,
        None => {
            return None;
        },
    };
    let (wr, q3) = match read_bytes(bytes, q2, nw as usize) {
        Some(p) => p,
        None => {
            return None;
        },
    };
    let (nr, q4) = match read_u8(bytes, q3) {
        Some(p) => p,
        None => {
            return None;
        },
    };
    let (rd, q5) = match read_bytes(bytes, q4, nr as usize) {
        Some(p) => p,
        None => {
            return None;
        },
    };
    Some(
        (
            MessageAddressTableLookup {
                account_key: key,
                writable_indexes: wr,
                readonly_indexes: rd,
            },
            q5,
        ),
    )
}

fn read_lookups(bytes: &Vec<u8>, off: usize, n: u8) -> (r: Option<
    (Vec<MessageAddressTableLookup>, usize),
>)
    ensures
        r is Some <==> parse_lookups(bytes@, off as int, n as int) is Some,
        r matches Some(p) ==> parse_lookups(bytes@, off as int, n as int) == Some(
            (p.0.deep_view(), p.1 as int),
        ),
{
    let mut lks: Vec<MessageAddressTableLookup> = Vec::new();
    let mut cur: usize = off;
    let mut i: usize = 0;
    proof {
        assert(lks.deep_view() =~= Seq::<MessageAddressTableLookupV>::empty());
        if parse_lookups(bytes@, off as int, n as int) is Some {
            let p = parse_lookups(bytes@, off as int, n as int)->Some_0;
            assert(Seq::<MessageAddressTableLookupV>::empty() + p.0 =~= p.0);
        }
    }
    while i < n as usize
        invariant
            i <= n as int,
            lks.deep_view().len() == i as int,
            match parse_lookups(bytes@, cur as int, n as int - i) {
                Some((rest, end)) => parse_lookups(bytes@, off as int, n as int) == Some(
                    (lks.deep_view() + rest, end),
                ),
                None => parse_lookups(bytes@, off as int, n as int) is None,
            },
        decreases n as int - i,
    {
        let ghost pre_lks = lks.deep_view();
        let ghost pre_cur = cur as int;
        let ghost n_rem = n as int - i as int;
        match read_lookup(bytes, cur) {
            Some((lk, ncur)) => {
                proof {
                    assert(parse_lookup(bytes@, pre_cur) == Some((lk@, ncur as int)));
                }
                lks.push(lk);
                cur = ncur;
                proof {
                    assert(lks.deep_view() =~= pre_lks.push(lks@[i as int]@));
                    if parse_lookups(bytes@, cur as int, n_rem - 1) is Some {
                        let p = parse_lookups(bytes@, cur as int, n_rem - 1)->Some_0;
                        assert(parse_lookups(bytes@, pre_cur, n_rem) == Some(
                            (seq![lks@[i as int]@] + p.0, p.1),
                        ));
                        assert(pre_lks.push(lks@[i as int]@) + p.0 =~= pre_lks + (seq![
                            lks@[i as int]@,
                        ] + p.0));
                    } else {
                        assert(parse_lookups(bytes@, pre_cur, n_rem) is None);
                    }
                }
            },
            None => {
                proof {
                    assert(parse_lookups(bytes@, pre_cur, n_rem) is None);
                }
                return None;
            },
        }
        i += 1;
    }
    proof {
        assert(parse_lookups(bytes@, cur as int, 0) == Some(
            (Seq::<MessageAddressTableLookupV>::empty(), cur as int),
        ));
        assert(lks.deep_view() + Seq::<MessageAddressTableLookupV>::empty() =~= lks.deep_view());
    }
    Some((lks, cur))
}

impl TransactionMessage {
    /// Reads a flat transaction message from the front of `bytes`.
    /// Succeeds exactly when the encoding is well formed; trailing bytes are
    /// tolerated.
    pub fn deserialize(bytes: &Vec<u8>) -> (r: Result<TransactionMessage, SuperTxnError>)
        ensures
            r is Ok <==> parse_transaction_message(bytes@) is Some,
            r matches Ok(m) ==> m@ == decoded_message(bytes@),
            r is Err ==> r == Err::<TransactionMessage, SuperTxnError>(
                SuperTxnError::InvalidTransactionMessage,
            ),
    {
        let (num_signers, o1) = match read_u8(bytes, 0) {
            Some(p) => p,
            None => {
                return Err(SuperTxnError::InvalidTransactionMessage);
            },
        };
        let (num_writable_signers, o2) = match read_u8(bytes, o1) {
            Some(p) => p,
            None => {
                return Err(SuperTxnError::InvalidTransactionMessage);
            },
        };
        let (num_writable_non_signers, o3) = match read_u8(bytes, o2) {
            Some(p) => p,
            None => {
                return Err(SuperTxnError::InvalidTransactionMessage);
            },
        };
        let (nkeys, o4) = match read_u8(bytes, o3) {
            Some(p) => p,
            None => {
                return Err(SuperTxnError::InvalidTransactionMessage);
            },
        };
        let (account_keys, o5) = match read_keys(bytes, o4, nkeys) {
            Some(p) => p,
            None => {
                return Err(SuperTxnError::InvalidTransactionMessage);
            },
        };
        let (nins, o6) = match read_u8(bytes, o5) {
            Some(p) => p,
            None => {
                return Err(SuperTxnError::InvalidTransactionMessage);
            },
        };
        let (instructions, o7) = match read_instructions(bytes, o6, nins) {
            Some(p) => p,
            None => {
                return Err(SuperTxnError::InvalidTransactionMessage);
            },
        };
        let (nlk, o8) = match read_u8(bytes, o7) {
            Some(p) => p,
            None => {
                return Err(SuperTxnError::InvalidTransactionMessage);
            },
        };
        let (address_table_lookups, o9) = match read_lookups(bytes, o8, nlk) {
            Some(p) => p,
            None => {
                return Err(SuperTxnError::InvalidTransactionMessage);
            },
        };
        let m = TransactionMessage {
            num_signers,
            num_writable_signers,
            num_writable_non_signers,
            account_keys,
            instructions,
            address_table_lookups,
        };
        proof {
            assert(parse_transaction_message(bytes@) == Some((m@, o9 as int)));
        }
        Ok(m)
    }
}

} // verus!
