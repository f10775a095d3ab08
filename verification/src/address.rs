//! Ledger addresses and the identity of the routing program.

use std::str::FromStr;
use vstd::prelude::*;

verus! {

/// Textual (base58) form of the routing program's address.
pub const JUPITER_PROGRAM_TEXT: &'static str = "JUP6LkbZbjS1jKKwapdHNy74zcZ3tLUZoi5QNyVTaV4";

/// A fixed-size identifier of a ledger account or program.
#[derive(Clone, Copy, Debug, PartialEq, Eq, Hash)]
pub struct Address {
    pub bytes: [u8; 32],
}

impl View for Address {
    type V = Seq<u8>;

    open spec fn view(&self) -> Seq<u8> {
        self.bytes@
    }
}

/// The bytes of the routing program's address, in order.
pub open spec fn jupiter_id_bytes() -> Seq<u8> {
    seq![
        4u8, 121u8, 213u8, 91u8, 242u8, 49u8, 192u8, 110u8,
        238u8, 116u8, 197u8, 110u8, 206u8, 104u8, 21u8, 7u8,
        253u8, 177u8, 178u8, 222u8, 163u8, 244u8, 142u8, 81u8,
        2u8, 177u8, 205u8, 162u8, 86u8, 188u8, 19u8, 143u8,
    ]
}

/// What decoding a base58 text as an address gives: the 32 bytes, or nothing
/// where the text is no address.
pub uninterp spec fn base58_address(text: Seq<char>) -> Option<Seq<u8>>;

/// Calls `Pubkey::from_str` of anchor_lang's prelude and hands out the bytes
/// of the key it returns. The result is a function of the text alone; the
/// contract gives it the name `base58_address` and says nothing more of it.
#[verifier::external_body]
pub(crate) fn decode_base58(text: &str) -> (r: Option<Address>)
    ensures
        match r {
            Some(a) => base58_address(text@) == Some(a@),
            None => base58_address(text@) is None,
        },
{
    match anchor_lang::prelude::Pubkey::from_str(text) {
        Ok(key) => Some(Address { bytes: key.to_bytes() }),
        Err(_) => None,
    }
}

impl Address {
    /// An address made of the given bytes.
    pub fn new(bytes: [u8; 32]) -> (a: Address)
        ensures
            a.bytes == bytes,
            a@ == bytes@,
    {
        Address { bytes }
    }

    /// The bytes of the address.
    pub fn to_bytes(&self) -> (b: [u8; 32])
        ensures
            b == self.bytes,
            b@ == self@,
    {
        self.bytes
    }

    /// Whether two addresses hold the same bytes.
    pub fn same_as(&self, other: &Address) -> (r: bool)
        ensures
            r == (self@ == other@),
            r == (*self == *other),
    {
        let mut i: usize = 0;
        while i < 32
            invariant
                i <= 32,
                forall|j: int| 0 <= j < i ==> self.bytes[j] == other.bytes[j],
            decreases 32 - i,
        {
            if self.bytes[i] != other.bytes[i] {
                return false;
            }
            i = i + 1;
        }
        assert(self.bytes =~= other.bytes);
        true
    }
}

/// The routing program: the one program that calls are forwarded to.
#[derive(Clone, Copy, Debug)]
pub struct Jupiter;

impl Jupiter {
    /// The fixed address of the routing program.
    pub fn id() -> (a: Address)
        ensures
            a@ == jupiter_id_bytes(),
    {
        let a = Address {
            bytes: [
                4u8, 121u8, 213u8, 91u8, 242u8, 49u8, 192u8, 110u8,
                238u8, 116u8, 197u8, 110u8, 206u8, 104u8, 21u8, 7u8,
                253u8, 177u8, 178u8, 222u8, 163u8, 244u8, 142u8, 81u8,
                2u8, 177u8, 205u8, 162u8, 86u8, 188u8, 19u8, 143u8,
            ],
        };
        assert(a@ =~= jupiter_id_bytes());
        a
    }

    /// Whether an address is the routing program's.
    pub fn is_id(address: &Address) -> (r: bool)
        ensures
            r == (address@ == jupiter_id_bytes()),
    {
        let id = Self::id();
        address.same_as(&id)
    }

    /// Whether a base58 text decodes to the routing program's address.
    pub fn is_id_text(text: &str) -> (r: bool)
        ensures
            r == (base58_address(text@) == Some(jupiter_id_bytes())),
    {
        match decode_base58(text) {
            Some(address) => Self::is_id(&address),
            None => false,
        }
    }
}

} // verus!
