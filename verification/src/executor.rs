use vstd::prelude::*;
use crate::errors::SuperTxnError;
use crate::message::MessageAddressTableLookupV;
use crate::pubkey::Pubkey;
use crate::transaction::{
    loaded_count, msg_total_account_count, msg_valid, SuperTransactionMessage,
};
use crate::message::{msg_wf_bounds, TransactionMessageV};

verus! {

// ---------------------------------------------------------------------------
// Account resolution and the execution plan.
//
// The caller-supplied account context must hold, in order: one account per
// address table (in the order the message references them), then one
// account per static key, then the accounts the tables load (writable
// indexes then readonly indexes per table). The executor validates that
// shape and compiles each instruction into an invocation over the resolved
// list.
// ---------------------------------------------------------------------------

/// One account handed to an invoked program.
#[derive(Debug, PartialEq)]
pub struct InvocationAccount {
    pub key: Pubkey,
    pub is_signer: bool,
    pub is_writable: bool,
}

/// Mathematical image of an invocation account.
pub struct InvocationAccountV {
    pub key: Seq<u8>,
    pub is_signer: bool,
    pub is_writable: bool,
}

impl View for InvocationAccount {
    type V = InvocationAccountV;

    open spec fn view(&self) -> InvocationAccountV {
        InvocationAccountV { key: self.key@, is_signer: self.is_signer, is_writable: self.is_writable }
    }
}

impl DeepView for InvocationAccount {
    type V = InvocationAccountV;

    open spec fn deep_view(&self) -> InvocationAccountV {
        self.view()
    }
}

/// One compiled instruction resolved into a concrete program id, account
/// list and payload, ready for the host to invoke.
#[derive(Debug, PartialEq)]
pub struct Invocation {
    pub program: Pubkey,
    pub accounts: Vec<InvocationAccount>,
    pub data: Vec<u8>,
}

/// Mathematical image of an invocation.
pub struct InvocationV {
    pub program: Seq<u8>,
    pub accounts: Seq<InvocationAccountV>,
    pub data: Seq<u8>,
}

impl View for Invocation {
    type V = InvocationV;

    open spec fn view(&self) -> InvocationV {
        InvocationV {
            program: self.program@,
            accounts: self.accounts.deep_view(),
            data: self.data@,
        }
    }
}

impl DeepView for Invocation {
    type V = InvocationV;

    open spec fn deep_view(&self) -> InvocationV {
        self.view()
    }
}

/// Whether the account a table loads at flat position `p` (counting from
/// table `t` on) is in a writable section.
pub open spec fn spec_is_loaded_writable_from(
    lks: Seq<MessageAddressTableLookupV>,
    t: int,
    p: int,
) -> bool
    decreases lks.len() - t,
{
    if t < 0 || t >= lks.len() || p < 0 {
        false
    } else {
        let w = lks[t].writable_indexes.len() as int;
        let r = lks[t].readonly_indexes.len() as int;
        if p < w {
            true
        } else if p < w + r {
            false
        } else {
            spec_is_loaded_writable_from(lks, t + 1, p - w - r)
        }
    }
}

/// Whether the loaded account at flat position `p` is writable.
pub open spec fn spec_is_loaded_writable(lks: Seq<MessageAddressTableLookupV>, p: int) -> bool {
    spec_is_loaded_writable_from(lks, 0, p)
}

/// Whether the resolved account at index `i` is writable: a writable
/// static key, or a loaded account in a writable section.
pub open spec fn spec_is_writable_index(m: TransactionMessageV, i: int) -> bool {
    if i < m.account_keys.len() {
        crate::transaction::spec_is_static_writable(m, i)
    } else {
        spec_is_loaded_writable(m.address_table_lookups, i - m.account_keys.len())
    }
}

/// The key the account context resolves index `i` to: the context entry
/// just past the table accounts.
pub open spec fn spec_resolved_key(m: TransactionMessageV, ctx: Seq<Seq<u8>>, i: int) -> Seq<u8> {
    ctx[m.address_table_lookups.len() + i]
}

/// The invocation that instruction `j` compiles to under an account
/// context.
pub open spec fn spec_invocation(m: TransactionMessageV, ctx: Seq<Seq<u8>>, j: int) -> InvocationV {
    let ins = m.instructions[j];
    InvocationV {
        program: spec_resolved_key(m, ctx, ins.program_id_index as int),
        accounts: Seq::new(
            ins.account_indexes.len(),
            |k: int|
                InvocationAccountV {
                    key: spec_resolved_key(m, ctx, ins.account_indexes[k] as int),
                    is_signer: (ins.account_indexes[k] as int) < m.num_signers as int,
                    is_writable: spec_is_writable_index(m, ins.account_indexes[k] as int),
                },
        ),
        data: ins.data,
    }
}

/// Whether the account context has the shape the message demands: the
/// exact expected length, the table accounts matching the table addresses,
/// and the static accounts matching the static keys. Loaded accounts are
/// trusted positionally, as the ordering contract states.
pub open spec fn spec_context_matches(m: TransactionMessageV, ctx: Seq<Seq<u8>>) -> bool {
    &&& ctx.len() == m.address_table_lookups.len() + msg_total_account_count(m)
    &&& forall|i: int|
        0 <= i < m.address_table_lookups.len() ==> (#[trigger] ctx[i])
            == m.address_table_lookups[i].account_key
    &&& forall|i: int|
        0 <= i < m.account_keys.len() ==> #[trigger] m.account_keys[i] == ctx[
            m.address_table_lookups.len() + i
        ]
}

/// The loaded count of a list within the shape bounds is small.
pub proof fn lemma_loaded_count_wf_bound(lks: Seq<MessageAddressTableLookupV>)
    requires
        lks.len() <= 255,
        forall|i: int|
            0 <= i < lks.len() ==> (#[trigger] lks[i]).writable_indexes.len() <= 255
                && lks[i].readonly_indexes.len() <= 255,
    ensures
        0 <= loaded_count(lks) <= lks.len() * 510,
    decreases lks.len(),
{
    if lks.len() > 0 {
        lemma_loaded_count_wf_bound(lks.drop_last());
    }
}

/// Whether the loaded account at flat position `p` is writable.
pub fn is_loaded_writable(
    lks: &Vec<crate::transaction::SuperMessageAddressTableLookup>,
    p: usize,
) -> (r: bool)
    ensures
        r == spec_is_loaded_writable(lks.deep_view(), p as int),
{
    let ghost lv = lks.deep_view();
    let mut t: usize = 0;
    let mut pos: usize = p;
    while t < lks.len()
        invariant
            t <= lks@.len(),
            lv == lks.deep_view(),
            lv.len() == lks@.len(),
            spec_is_loaded_writable(lv, p as int) == spec_is_loaded_writable_from(
                lv,
                t as int,
                pos as int,
            ),
        decreases lks@.len() - t,
    {
        let w = lks[t].writable_indexes.len();
        let rd = lks[t].readonly_indexes.len();
        if pos < w {
            return true;
        }
        let rem = pos - w;
        if rem < rd {
            return false;
        }
        pos = rem - rd;
        t += 1;
    }
    false
}

/// Validates the caller-supplied account context against the message and
/// compiles every instruction into its invocation, in declared order.
pub fn compile_invocations(
    message: &SuperTransactionMessage,
    account_context: &Vec<Pubkey>,
) -> (r: Result<Vec<Invocation>, SuperTxnError>)
    requires
        msg_wf_bounds(message@),
        msg_valid(message@),
    ensures
        r is Ok <==> spec_context_matches(message@, account_context.deep_view()),
        r matches Ok(plan) ==> plan.deep_view() == Seq::new(
            message@.instructions.len(),
            |j: int| spec_invocation(message@, account_context.deep_view(), j),
        ),
        r is Err ==> r == Err::<Vec<Invocation>, SuperTxnError>(
            SuperTxnError::AccountResolutionError,
        ),
{
    let ghost mv = message@;
    let ghost ctxv = account_context.deep_view();

    let num_lookups = message.address_table_lookups.len();
    let num_static = message.account_keys.len();
    proof {
        lemma_loaded_count_wf_bound(mv.address_table_lookups);
    }
    proof {
        assert(loaded_count(mv.address_table_lookups) >= 0);
    }
    let total = message.num_all_account_keys();
    if account_context.len() != num_lookups + total {
        return Err(SuperTxnError::AccountResolutionError);
    }

    let mut i: usize = 0;
    while i < num_lookups
        invariant
            i <= num_lookups as int,
            num_lookups as int == mv.address_table_lookups.len(),
            mv == message@,
            ctxv == account_context.deep_view(),
            ctxv.len() == account_context@.len(),
            forall|j: int|
                0 <= j < i as int ==> (#[trigger] ctxv[j])
                    == mv.address_table_lookups[j].account_key,
            ctxv.len() == mv.address_table_lookups.len() + msg_total_account_count(mv),
            loaded_count(mv.address_table_lookups) >= 0,
            account_context@.len() <= usize::MAX,
        decreases num_lookups as int - i,
    {
        if !(account_context[i] == message.address_table_lookups[i].account_key) {
            proof {
                assert(ctxv[i as int] != mv.address_table_lookups[i as int].account_key);
                assert(!spec_context_matches(mv, ctxv));
            }
            return Err(SuperTxnError::AccountResolutionError);
        }
        i += 1;
    }

    i = 0;
    while i < num_static
        invariant
            i <= num_static as int,
            num_static as int == mv.account_keys.len(),
            num_lookups as int == mv.address_table_lookups.len(),
            mv == message@,
            ctxv == account_context.deep_view(),
            ctxv.len() == account_context@.len(),
            forall|j: int|
                0 <= j < i as int ==> #[trigger] mv.account_keys[j] == ctxv[
                    mv.address_table_lookups.len() + j
                ],
            ctxv.len() == mv.address_table_lookups.len() + msg_total_account_count(mv),
            loaded_count(mv.address_table_lookups) >= 0,
            account_context@.len() <= usize::MAX,
        decreases num_static as int - i,
    {
        if !(account_context[num_lookups + i] == message.account_keys[i]) {
            proof {
                assert(mv.account_keys[i as int] != ctxv[mv.address_table_lookups.len() + i]);
                assert(!spec_context_matches(mv, ctxv));
            }
            return Err(SuperTxnError::AccountResolutionError);
        }
        i += 1;
    }

    let mut plan: Vec<Invocation> = Vec::new();
    let mut j: usize = 0;
    while j < message.instructions.len()
        invariant
            j <= message.instructions@.len(),
            mv == message@,
            ctxv == account_context.deep_view(),
            ctxv.len() == account_context@.len(),
            msg_wf_bounds(mv),
            msg_valid(mv),
            spec_context_matches(mv, ctxv),
            num_lookups as int == mv.address_table_lookups.len(),
            num_static as int == mv.account_keys.len(),
            loaded_count(mv.address_table_lookups) >= 0,
            account_context@.len() <= usize::MAX,
            plan.deep_view().len() == j as int,
            forall|q: int|
                0 <= q < j as int ==> plan.deep_view()[q] == spec_invocation(mv, ctxv, q),
        decreases message.instructions@.len() - j,
    {
        let ins = &message.instructions[j];
        proof {
            assert(mv.instructions[j as int] == ins@);
            assert(instruction_ok(mv, j as int));
        }
        let program = account_context[num_lookups + ins.program_id_index as usize];
        let mut accounts: Vec<InvocationAccount> = Vec::new();
        let mut k: usize = 0;
        while k < ins.account_indexes.len()
            invariant
                k <= ins.account_indexes@.len(),
                mv == message@,
                ctxv == account_context.deep_view(),
                ctxv.len() == account_context@.len(),
                msg_wf_bounds(mv),
                msg_valid(mv),
                spec_context_matches(mv, ctxv),
                num_lookups as int == mv.address_table_lookups.len(),
                num_static as int == mv.account_keys.len(),
                loaded_count(mv.address_table_lookups) >= 0,
                account_context@.len() <= usize::MAX,
                (j as int) < mv.instructions.len(),
                ins@ == mv.instructions[j as int],
                accounts.deep_view().len() == k as int,
                forall|q: int|
                    0 <= q < k as int ==> accounts.deep_view()[q] == spec_invocation(
                        mv,
                        ctxv,
                        j as int,
                    ).accounts[q],
            decreases ins.account_indexes@.len() - k,
        {
            let idx = ins.account_indexes[k] as usize;
            proof {
                assert(mv.instructions[j as int].account_indexes[k as int] == ins@.account_indexes[
                    k as int
                ]);
                assert((ins@.account_indexes[k as int] as int) < msg_total_account_count(mv));
            }
            let key = account_context[num_lookups + idx];
            let is_signer = message.is_signer_index(idx);
            let is_writable = if idx < num_static {
                message.is_static_writable_index(idx)
            } else {
                is_loaded_writable(&message.address_table_lookups, idx - num_static)
            };
            let acct = InvocationAccount { key, is_signer, is_writable };
            let ghost pre_accounts = accounts.deep_view();
            proof {
                assert(acct@ == spec_invocation(mv, ctxv, j as int).accounts[k as int]);
            }
            accounts.push(acct);
            proof {
                assert forall|q: int| 0 <= q < k as int + 1 implies accounts.deep_view()[q]
                    == spec_invocation(mv, ctxv, j as int).accounts[q] by {
                    if q < k as int {
                        assert(accounts.deep_view()[q] == pre_accounts[q]);
                    } else {
                        assert(accounts.deep_view()[q] == acct@);
                    }
                }
            }
            k += 1;
        }
        let data = crate::transaction::clone_bytes(&ins.data);
        let inv = Invocation { program, accounts, data };
        proof {
            assert(inv@.accounts =~= spec_invocation(mv, ctxv, j as int).accounts);
            assert(inv@ == spec_invocation(mv, ctxv, j as int));
        }
        plan.push(inv);
        j += 1;
    }
    proof {
        assert(plan.deep_view() =~= Seq::new(
            mv.instructions.len(),
            |q: int| spec_invocation(mv, ctxv, q),
        ));
    }
    Ok(plan)
}

/// Everything the host needs to run one consumed record: the compiled
/// invocations in declared order, and the ephemeral identities with the
/// seed tuples that prove control over them.
#[derive(Debug, PartialEq)]
pub struct ExecutionPlan {
    pub invocations: Vec<Invocation>,
    pub ephemeral_signer_keys: Vec<Pubkey>,
    pub ephemeral_signer_seeds: Vec<Vec<Vec<u8>>>,
}

/// The bound `msg_valid` gives to one instruction.
pub open spec fn instruction_ok(m: TransactionMessageV, j: int) -> bool {
    crate::transaction::instruction_indexes_valid(m.instructions[j], msg_total_account_count(m))
}

} // verus!
