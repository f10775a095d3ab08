//! The invocation relay: it admits only the routing program as target,
//! has the instruction built, and hands the sub-call's outcome on.

use crate::address::{
    base58_address, decode_base58, jupiter_id_bytes, Address, Jupiter, JUPITER_PROGRAM_TEXT,
};
use crate::instruction::{
    build_instruction, describe_all, instruction_spec, AccountRef, Instruction, InstructionView,
};
use crate::payload::{encode_swap_payload, swap_payload};
use vstd::prelude::*;

verus! {

/// The ways in which this program rejects a call.
#[derive(Clone, Copy, Debug, PartialEq, Eq)]
pub enum ErrorCode {
    /// Kept for a check of the sub-call's return data; the relay never gives it.
    InvalidReturnData,
    /// The program handle that came with the call is not the routing program.
    InvalidTargetProgram,
    /// An account is not owned as its role asks.
    IncorrectOwner,
    /// Accounts or payload cannot be put in the form the ledger asks for.
    SerializationFailed,
}

/// Why a relayed call failed.
#[derive(Clone, Copy, Debug, PartialEq, Eq)]
pub enum RelayError {
    /// The relay rejected the call before any sub-call.
    Rejected(ErrorCode),
    /// The sub-call was made and reported failure, with this status.
    SubInvocationFailed(u64),
}

/// The accounts of a relayed swap, each already checked for its role.
#[derive(Clone, Copy, Debug)]
pub struct SwapTokenToToken {
    pub user_account: AccountRef,
    pub jupiter_program: AccountRef,
    pub token_program: AccountRef,
    pub system_program: AccountRef,
}

/// The accounts of a direct swap, each already checked for its role.
#[derive(Clone, Copy, Debug)]
pub struct ExecuteSwap {
    pub user: AccountRef,
    pub system_program: AccountRef,
}

/// A relayed call as a whole: the sub-calls it makes, in order, and how it ends.
pub struct RelayRun {
    pub calls: Seq<InstructionView>,
    pub result: Result<(), RelayError>,
}

/// Whether `program` is the routing program.
pub open spec fn is_target(program: Address) -> bool {
    program@ == jupiter_id_bytes()
}

/// How the relay ends once the sub-call has reported `outcome`.
pub open spec fn propagate_spec(outcome: Result<(), u64>) -> Result<(), RelayError> {
    match outcome {
        Ok(_) => Ok(()),
        Err(status) => Err(RelayError::SubInvocationFailed(status)),
    }
}

/// The relayed call for a program handle, accounts and payload, where the
/// sub-call, if one is made, reports `outcome`.
pub open spec fn relay_run(
    program: Address,
    accounts: Seq<AccountRef>,
    data: Seq<u8>,
    outcome: Result<(), u64>,
) -> RelayRun {
    if is_target(program) {
        RelayRun {
            calls: seq![instruction_spec(program, accounts, data)],
            result: propagate_spec(outcome),
        }
    } else {
        RelayRun {
            calls: Seq::empty(),
            result: Err(RelayError::Rejected(ErrorCode::InvalidTargetProgram)),
        }
    }
}

/// The first half of a relayed call: checks that `jupiter_program` is the
/// routing program and, if so, builds the instruction to invoke. On an error
/// there is nothing to invoke: the call ends before any sub-call.
pub fn swap_on_jupiter(
    remaining_accounts: &Vec<AccountRef>,
    jupiter_program: &AccountRef,
    data: Vec<u8>,
) -> (r: Result<Instruction, ErrorCode>)
    ensures
        r is Ok <==> is_target(jupiter_program.key),
        r is Err ==> r == Err::<Instruction, ErrorCode>(ErrorCode::InvalidTargetProgram),
        r is Ok ==> r.unwrap()@ == instruction_spec(
            jupiter_program.key,
            remaining_accounts@,
            data@,
        ),
        r is Ok ==> r.unwrap().program_id@ == jupiter_id_bytes(),
{
    if !Jupiter::is_id(&jupiter_program.key) {
        return Err(ErrorCode::InvalidTargetProgram);
    }
    Ok(build_instruction(jupiter_program.key, remaining_accounts, data))
}

/// The second half of a relayed call: success if the sub-call succeeded, and
/// its failure, with its status, if it failed.
pub fn propagate(outcome: Result<(), u64>) -> (r: Result<(), RelayError>)
    ensures
        r == propagate_spec(outcome),
        r is Ok <==> outcome is Ok,
{
    match outcome {
        Ok(_) => Ok(()),
        Err(status) => Err(RelayError::SubInvocationFailed(status)),
    }
}

/// Relays a swap: checks the target program, builds the instruction, makes
/// the sub-call through `invoke` once, and hands its outcome on. With another
/// program as target `invoke` is not called: nothing is asked of it then, so
/// it may be a function that cannot be called at all.
pub fn swap_token_to_token<F: FnOnce(Instruction) -> Result<(), u64>>(
    ctx: &SwapTokenToToken,
    remaining_accounts: &Vec<AccountRef>,
    data: Vec<u8>,
    invoke: F,
) -> (r: Result<(), RelayError>)
    requires
        is_target(ctx.jupiter_program.key) ==> forall|ix: Instruction|
            ix@ == instruction_spec(ctx.jupiter_program.key, remaining_accounts@, data@)
                ==> call_requires(invoke, (ix,)),
    ensures
        !is_target(ctx.jupiter_program.key) ==> r == Err::<(), RelayError>(
            RelayError::Rejected(ErrorCode::InvalidTargetProgram),
        ),
        is_target(ctx.jupiter_program.key) ==> exists|ix: Instruction, outcome: Result<(), u64>|
            {
                &&& ix@ == instruction_spec(ctx.jupiter_program.key, remaining_accounts@, data@)
                &&& call_ensures(invoke, (ix,), outcome)
                &&& r == propagate_spec(outcome)
            },
        exists|outcome: Result<(), u64>|
            r == relay_run(ctx.jupiter_program.key, remaining_accounts@, data@, outcome).result,
{
    let ghost payload = data@;
    match swap_on_jupiter(remaining_accounts, &ctx.jupiter_program, data) {
        Err(code) => {
            let r = Err(RelayError::Rejected(code));
            assert(r == relay_run(
                ctx.jupiter_program.key,
                remaining_accounts@,
                payload,
                Ok::<(), u64>(()),
            ).result);
            r
        },
        Ok(ix) => {
            let ghost sent = ix;
            let outcome = invoke(ix);
            let r = propagate(outcome);
            assert(call_ensures(invoke, (sent,), outcome));
            assert(r == relay_run(
                ctx.jupiter_program.key,
                remaining_accounts@,
                payload,
                outcome,
            ).result);
            r
        },
    }
}

/// The instruction of a direct swap, given what decoding the routing
/// program's address text gave. Only the routing program's own address is
/// accepted as target: anything else, or no address, is rejected.
pub fn direct_swap_instruction(
    decoded: Option<Address>,
    accounts: &Vec<AccountRef>,
    input_amount: u64,
    minimum_output_amount: u64,
    platform_fee_bps: u8,
) -> (r: Result<Instruction, ErrorCode>)
    ensures
        r is Ok <==> (decoded is Some && is_target(decoded.unwrap())),
        r is Err ==> r == Err::<Instruction, ErrorCode>(ErrorCode::InvalidTargetProgram),
        r is Ok ==> r.unwrap()@ == instruction_spec(
            decoded.unwrap(),
            accounts@,
            swap_payload(input_amount, minimum_output_amount, platform_fee_bps),
        ),
{
    match decoded {
        Some(program_id) => {
            if Jupiter::is_id(&program_id) {
                let data = encode_swap_payload(input_amount, minimum_output_amount, platform_fee_bps);
                Ok(build_instruction(program_id, accounts, data))
            } else {
                Err(ErrorCode::InvalidTargetProgram)
            }
        },
        None => Err(ErrorCode::InvalidTargetProgram),
    }
}

/// Whether the routing program's address text decodes to its address.
pub open spec fn target_text_decodes() -> bool {
    base58_address(JUPITER_PROGRAM_TEXT@) == Some(jupiter_id_bytes())
}

/// A direct swap aimed at what decoding the routing program's address text
/// gave: encodes the amounts and the fee as payload, describes the accounts,
/// makes the sub-call through `invoke` once, and hands its outcome on. Where
/// `decoded` is not the routing program's address the call is rejected and
/// `invoke` is not called: nothing is asked of it then.
pub fn execute_swap_decoded<F: FnOnce(Instruction) -> Result<(), u64>>(
    decoded: Option<Address>,
    remaining_accounts: &Vec<AccountRef>,
    input_amount: u64,
    minimum_output_amount: u64,
    platform_fee_bps: u8,
    invoke: F,
) -> (r: Result<(), RelayError>)
    requires
        (decoded is Some && is_target(decoded.unwrap())) ==> forall|ix: Instruction|
            ix@ == instruction_spec(
                decoded.unwrap(),
                remaining_accounts@,
                swap_payload(input_amount, minimum_output_amount, platform_fee_bps),
            ) ==> call_requires(invoke, (ix,)),
    ensures
        !(decoded is Some && is_target(decoded.unwrap())) ==> r == Err::<(), RelayError>(
            RelayError::Rejected(ErrorCode::InvalidTargetProgram),
        ),
        (decoded is Some && is_target(decoded.unwrap())) ==> exists|
            ix: Instruction,
            outcome: Result<(), u64>,
        |
            {
                &&& ix@ == instruction_spec(
                    decoded.unwrap(),
                    remaining_accounts@,
                    swap_payload(input_amount, minimum_output_amount, platform_fee_bps),
                )
                &&& call_ensures(invoke, (ix,), outcome)
                &&& r == propagate_spec(outcome)
            },
{
    match direct_swap_instruction(
        decoded,
        remaining_accounts,
        input_amount,
        minimum_output_amount,
        platform_fee_bps,
    ) {
        Err(code) => Err(RelayError::Rejected(code)),
        Ok(ix) => {
            let ghost sent = ix;
            let outcome = invoke(ix);
            assert(call_ensures(invoke, (sent,), outcome));
            propagate(outcome)
        },
    }
}

/// A direct swap: decodes the routing program's address text and goes on as
/// `execute_swap_decoded` does with what that gave. The sub-call is made
/// exactly where the text decodes to the routing program's address.
pub fn execute_swap<F: FnOnce(Instruction) -> Result<(), u64>>(
    ctx: &ExecuteSwap,
    remaining_accounts: &Vec<AccountRef>,
    input_amount: u64,
    minimum_output_amount: u64,
    platform_fee_bps: u8,
    invoke: F,
) -> (r: Result<(), RelayError>)
    requires
        forall|ix: Instruction|
            {
                &&& ix.program_id@ == jupiter_id_bytes()
                &&& ix.accounts@ == describe_all(remaining_accounts@)
                &&& ix.data@ == swap_payload(input_amount, minimum_output_amount, platform_fee_bps)
            } ==> call_requires(invoke, (ix,)),
    ensures
        !target_text_decodes() ==> r == Err::<(), RelayError>(
            RelayError::Rejected(ErrorCode::InvalidTargetProgram),
        ),
        target_text_decodes() ==> exists|ix: Instruction, outcome: Result<(), u64>|
            {
                &&& ix.program_id@ == jupiter_id_bytes()
                &&& ix.accounts@ == describe_all(remaining_accounts@)
                &&& ix.data@ == swap_payload(input_amount, minimum_output_amount, platform_fee_bps)
                &&& call_ensures(invoke, (ix,), outcome)
                &&& r == propagate_spec(outcome)
            },
{
    let decoded = decode_base58(JUPITER_PROGRAM_TEXT);
    execute_swap_decoded(
        decoded,
        remaining_accounts,
        input_amount,
        minimum_output_amount,
        platform_fee_bps,
        invoke,
    )
}

/// A call aimed at any program but the routing program is rejected as
/// `InvalidTargetProgram` and makes no sub-call, whatever a sub-call would
/// have reported.
pub proof fn lemma_wrong_target_rejected(
    program: Address,
    accounts: Seq<AccountRef>,
    data: Seq<u8>,
    outcome: Result<(), u64>,
)
    requires
        !is_target(program),
    ensures
        relay_run(program, accounts, data, outcome).result == Err::<(), RelayError>(
            RelayError::Rejected(ErrorCode::InvalidTargetProgram),
        ),
        relay_run(program, accounts, data, outcome).calls.len() == 0,
{
}

/// A call aimed at the routing program whose sub-call fails ends in
/// `SubInvocationFailed` with the sub-call's status: the failure is neither
/// swallowed nor tried again.
pub proof fn lemma_sub_call_failure_propagates(
    program: Address,
    accounts: Seq<AccountRef>,
    data: Seq<u8>,
    status: u64,
)
    requires
        is_target(program),
    ensures
        relay_run(program, accounts, data, Err(status)).result == Err::<(), RelayError>(
            RelayError::SubInvocationFailed(status),
        ),
        relay_run(program, accounts, data, Err(status)).calls.len() == 1,
{
}

/// A call aimed at the routing program makes exactly one sub-call, with one
/// descriptor for each account in order and with the payload as it came, and
/// succeeds exactly when the sub-call succeeds.
pub proof fn lemma_right_target_invoked_once(
    program: Address,
    accounts: Seq<AccountRef>,
    data: Seq<u8>,
    outcome: Result<(), u64>,
)
    requires
        is_target(program),
    ensures
        relay_run(program, accounts, data, outcome).calls.len() == 1,
        relay_run(program, accounts, data, outcome).calls[0].program_id == program,
        relay_run(program, accounts, data, outcome).calls[0].accounts == describe_all(accounts),
        relay_run(program, accounts, data, outcome).calls[0].data == data,
        relay_run(program, accounts, data, outcome).result is Ok <==> outcome is Ok,
{
}

} // verus!
