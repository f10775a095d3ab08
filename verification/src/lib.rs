//! A relay that forwards a token-swap call to the routing program: it builds
//! the instruction from the caller's accounts and payload, admits only the
//! routing program as target, and hands the sub-call's outcome on.

pub mod address;
pub mod instruction;
pub mod payload;
pub mod relay;

pub use address::{Address, Jupiter};
pub use instruction::{AccountDescriptor, AccountRef, Instruction};
pub use payload::Route;
pub use relay::{
    execute_swap, swap_token_to_token, ErrorCode, ExecuteSwap, RelayError, SwapTokenToToken,
};
