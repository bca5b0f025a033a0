//! Fixed-width account addresses and their base-58 text form.
use vstd::prelude::*;

use crate::codec::{decode_b58, decoded_b58, encode_b58, encoded_b58, is_b58_text};

verus! {

/// Address text is valid when it is base-58 and decodes to exactly 32 bytes.
pub open spec fn is_valid_address_text(s: Seq<char>) -> bool {
    is_b58_text(s) && decoded_b58(s).len() == 32
}

/// A 32-byte account identifier, immutable once parsed.
pub struct Address {
    bytes: Vec<u8>,
}

impl View for Address {
    type V = Seq<u8>;

    closed spec fn view(&self) -> Seq<u8> {
        self.bytes@
    }
}

impl Address {
    #[verifier::type_invariant]
    spec fn wf(self) -> bool {
        self.bytes@.len() == 32
    }

    /// Wrap 32 raw bytes as an address.
    pub(crate) fn from_vec(bytes: Vec<u8>) -> (r: Address)
        requires
            bytes@.len() == 32,
        ensures
            r@ == bytes@,
    {
        Address { bytes }
    }

    /// The raw bytes, for handing to outside calls.
    pub(crate) fn raw(&self) -> (r: &Vec<u8>)
        ensures
            r@ == self@,
    {
        &self.bytes
    }

    /// Parse base-58 text; `None` exactly on text that is not base-58 or does
    /// not decode to 32 bytes.
    pub fn parse(s: &str) -> (r: Option<Address>)
        ensures
            r is Some <==> is_valid_address_text(s@),
            r matches Some(a) ==> a@ == decoded_b58(s@),
    {
        match decode_b58(s) {
            None => None,
            Some(bytes) => {
                if bytes.len() == 32 {
                    Some(Address::from_vec(bytes))
                } else {
                    None
                }
            },
        }
    }

    /// Re-encode the address as base-58 text.
    pub fn to_base58(&self) -> (r: String)
        ensures
            r@ == encoded_b58(self@),
    {
        encode_b58(self.bytes.as_slice())
    }

    /// A copy of the 32 raw bytes.
    pub fn to_bytes(&self) -> (r: Vec<u8>)
        ensures
            r@ == self@,
            r@.len() == 32,
    {
        proof {
            use_type_invariant(self);
        }
        vstd::slice::slice_to_vec(self.bytes.as_slice())
    }
}

} // verus!
