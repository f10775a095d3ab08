//! The instruction builder: from the caller's account references and an
//! opaque payload to the instruction that is forwarded.

use crate::address::Address;
use vstd::prelude::*;

verus! {

/// A ledger account as the calling program sees it.
#[derive(Clone, Copy, Debug, PartialEq, Eq)]
pub struct AccountRef {
    pub key: Address,
    pub is_signer: bool,
    pub is_writable: bool,
}

/// The instruction-level projection of an `AccountRef`: the same address and
/// the same two access flags, with no tie to a live account.
#[derive(Clone, Copy, Debug, PartialEq, Eq)]
pub struct AccountDescriptor {
    pub pubkey: Address,
    pub is_signer: bool,
    pub is_writable: bool,
}

/// A call unit: the program to call, the accounts it may touch, in the order
/// in which it indexes them, and the payload it decodes.
#[derive(Clone, Debug, PartialEq, Eq)]
pub struct Instruction {
    pub program_id: Address,
    pub accounts: Vec<AccountDescriptor>,
    pub data: Vec<u8>,
}

/// The mathematical value of an `Instruction`.
pub struct InstructionView {
    pub program_id: Address,
    pub accounts: Seq<AccountDescriptor>,
    pub data: Seq<u8>,
}

impl View for Instruction {
    type V = InstructionView;

    open spec fn view(&self) -> InstructionView {
        InstructionView { program_id: self.program_id, accounts: self.accounts@, data: self.data@ }
    }
}

/// The descriptor of one account: address and flags carried over unchanged.
pub open spec fn describe(account: AccountRef) -> AccountDescriptor {
    AccountDescriptor {
        pubkey: account.key,
        is_signer: account.is_signer,
        is_writable: account.is_writable,
    }
}

/// The descriptors of a sequence of accounts, one for each, in the same order.
pub open spec fn describe_all(accounts: Seq<AccountRef>) -> Seq<AccountDescriptor> {
    Seq::new(accounts.len(), |i: int| describe(accounts[i]))
}

/// The instruction that forwards `data` to `program_id` with `accounts`.
pub open spec fn instruction_spec(
    program_id: Address,
    accounts: Seq<AccountRef>,
    data: Seq<u8>,
) -> InstructionView {
    InstructionView { program_id, accounts: describe_all(accounts), data }
}

impl AccountDescriptor {
    /// A descriptor of a writable account.
    pub fn new(pubkey: Address, is_signer: bool) -> (d: AccountDescriptor)
        ensures
            d == (AccountDescriptor { pubkey, is_signer, is_writable: true }),
    {
        AccountDescriptor { pubkey, is_signer, is_writable: true }
    }

    /// A descriptor of a read-only account.
    pub fn new_readonly(pubkey: Address, is_signer: bool) -> (d: AccountDescriptor)
        ensures
            d == (AccountDescriptor { pubkey, is_signer, is_writable: false }),
    {
        AccountDescriptor { pubkey, is_signer, is_writable: false }
    }

    /// The descriptor of an account: it grants exactly what the account grants.
    pub fn of(account: &AccountRef) -> (d: AccountDescriptor)
        ensures
            d == describe(*account),
            d.pubkey == account.key,
            d.is_signer == account.is_signer,
            d.is_writable == account.is_writable,
    {
        if account.is_writable {
            AccountDescriptor::new(account.key, account.is_signer)
        } else {
            AccountDescriptor::new_readonly(account.key, account.is_signer)
        }
    }
}

/// Describes every account of `accounts`, keeping their order.
pub fn account_descriptors(accounts: &Vec<AccountRef>) -> (out: Vec<AccountDescriptor>)
    ensures
        out@ == describe_all(accounts@),
        out@.len() == accounts@.len(),
        forall|i: int|
            0 <= i < accounts@.len() ==> {
                &&& (#[trigger] out@[i]).pubkey == accounts@[i].key
                &&& out@[i].is_signer == accounts@[i].is_signer
                &&& out@[i].is_writable == accounts@[i].is_writable
            },
{
    let mut out: Vec<AccountDescriptor> = Vec::new();
    let mut i: usize = 0;
    while i < accounts.len()
        invariant
            i <= accounts@.len(),
            out@.len() == i,
            forall|j: int| 0 <= j < i ==> out@[j] == describe(accounts@[j]),
        decreases accounts@.len() - i,
    {
        out.push(AccountDescriptor::of(&accounts[i]));
        i = i + 1;
    }
    assert(out@ =~= describe_all(accounts@));
    out
}

/// Assembles the instruction that forwards `data` to `program_id`: one
/// descriptor for each account, in order, and the payload as it came.
pub fn build_instruction(
    program_id: Address,
    accounts: &Vec<AccountRef>,
    data: Vec<u8>,
) -> (ix: Instruction)
    ensures
        ix@ == instruction_spec(program_id, accounts@, data@),
        ix.program_id == program_id,
        ix.accounts@ == describe_all(accounts@),
        ix.data@ == data@,
{
    let descriptors = account_descriptors(accounts);
    Instruction { program_id, accounts: descriptors, data }
}

/// Every descriptor mirrors its account: the descriptors are as many as the
/// accounts, stand in the same order, and each holds the address, the signer
/// flag and the writable flag of the account at its place, so that no
/// descriptor grants what its account does not.
pub proof fn lemma_descriptors_mirror_accounts(accounts: Seq<AccountRef>)
    ensures
        describe_all(accounts).len() == accounts.len(),
        forall|i: int|
            0 <= i < accounts.len() ==> {
                &&& (#[trigger] describe_all(accounts)[i]).pubkey == accounts[i].key
                &&& describe_all(accounts)[i].is_signer == accounts[i].is_signer
                &&& describe_all(accounts)[i].is_writable == accounts[i].is_writable
            },
        forall|i: int|
            0 <= i < accounts.len() ==> {
                &&& (#[trigger] describe_all(accounts)[i]).is_signer ==> accounts[i].is_signer
                &&& describe_all(accounts)[i].is_writable ==> accounts[i].is_writable
            },
{
}

/// The payload is forwarded as it came: the instruction's data is the given
/// byte sequence, of any length, the empty one included.
pub proof fn lemma_payload_forwarded(program_id: Address, accounts: Seq<AccountRef>, data: Seq<u8>)
    ensures
        instruction_spec(program_id, accounts, data).data == data,
        instruction_spec(program_id, accounts, data).data.len() == data.len(),
        instruction_spec(program_id, accounts, data).program_id == program_id,
{
}

/// Building is deterministic: two instructions built from the same program,
/// accounts and payload are the same in every part.
pub proof fn lemma_construction_deterministic(
    first: Instruction,
    second: Instruction,
    program_id: Address,
    accounts: Seq<AccountRef>,
    data: Seq<u8>,
)
    requires
        first@ == instruction_spec(program_id, accounts, data),
        second@ == instruction_spec(program_id, accounts, data),
    ensures
        first@ == second@,
        first.program_id == second.program_id,
        first.accounts@ == second.accounts@,
        first.data@ == second.data@,
{
}

} // verus!
