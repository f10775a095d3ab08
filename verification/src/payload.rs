//! Payloads: the bytes that the routing program decodes.

use vstd::bytes::{spec_u64_to_le_bytes_open, spec_u64_to_le_bytes_to_open, u64_to_le_bytes};
use vstd::prelude::*;

verus! {

/// The arguments of a routed swap, as the routing program names them.
#[derive(Clone, Debug, PartialEq, Eq)]
pub struct Route {
    pub swap_leg: Vec<u8>,
    pub in_amount: u64,
    pub quoted_out_amount: u64,
    pub slippage_bps: u16,
    pub platform_fee_bps: u16,
}

/// The payload of a direct swap: the input amount and the minimum output
/// amount, each as eight little-endian bytes, then the fee as one byte.
pub open spec fn swap_payload(
    input_amount: u64,
    minimum_output_amount: u64,
    platform_fee_bps: u8,
) -> Seq<u8> {
    spec_u64_to_le_bytes_open(input_amount) + spec_u64_to_le_bytes_open(minimum_output_amount)
        + seq![platform_fee_bps]
}

/// Encodes the payload of a direct swap.
pub fn encode_swap_payload(
    input_amount: u64,
    minimum_output_amount: u64,
    platform_fee_bps: u8,
) -> (data: Vec<u8>)
    ensures
        data@ == swap_payload(input_amount, minimum_output_amount, platform_fee_bps),
        data@.len() == 17,
        data@[16] == platform_fee_bps,
{
    let mut data: Vec<u8> = u64_to_le_bytes(input_amount);
    let mut minimum: Vec<u8> = u64_to_le_bytes(minimum_output_amount);
    data.append(&mut minimum);
    data.push(platform_fee_bps);
    proof {
        spec_u64_to_le_bytes_to_open(input_amount);
        spec_u64_to_le_bytes_to_open(minimum_output_amount);
        assert(data@ =~= swap_payload(input_amount, minimum_output_amount, platform_fee_bps));
    }
    data
}

} // verus!
