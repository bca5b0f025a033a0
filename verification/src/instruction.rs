//! Token-program instructions, built by delegating to `spl_token`'s
//! instruction constructors; the exact account order, flags and payload
//! layout are stated here and proved against the wrappers' contracts.
use vstd::prelude::*;

use crate::address::Address;
use crate::codec::decoded_b58;
use spl_token::solana_program::pubkey::Pubkey;
use vstd::bytes::spec_u64_to_le_bytes;

verus! {

/// One account reference of an instruction, with its two flags.
pub struct AccountRef {
    pub address: Address,
    pub is_signer: bool,
    pub is_writable: bool,
}

/// An instruction: the program's address, an ordered list of account
/// references, and the opaque payload bytes.
pub struct Instruction {
    pub program: Address,
    pub accounts: Vec<AccountRef>,
    pub data: Vec<u8>,
}

/// The token program's address.
pub open spec fn token_program_bytes() -> Seq<u8> {
    decoded_b58("TokenkegQfeZyiNwAJbNbGKPFXCWuBvf9Ss623VQ5DA"@)
}

/// The rent sysvar's address, the second account of initialize-mint.
pub open spec fn rent_sysvar_bytes() -> Seq<u8> {
    decoded_b58("SysvarRent111111111111111111111111111111111"@)
}

/// Payload of initialize-mint: tag 0, the decimals, the mint authority's 32
/// bytes, and one 0 byte for the absent freeze authority.
pub open spec fn initialize_mint_data(mint_authority: Seq<u8>, decimals: u8) -> Seq<u8> {
    seq![0u8, decimals] + mint_authority + seq![0u8]
}

/// Payload of mint-to: tag 7, then the amount in little-endian order.
pub open spec fn mint_to_data(amount: u64) -> Seq<u8> {
    seq![7u8] + spec_u64_to_le_bytes(amount)
}

/// Relies on `spl_token::instruction::initialize_mint`: handed the token
/// program's own id it returns `Ok`, with the mint account writable, the
/// rent sysvar read-only, neither a signer, and the packed initialize-mint
/// payload with no freeze authority.
#[verifier::external_body]
pub(crate) fn spl_initialize_mint(mint: &Address, mint_authority: &Address, decimals: u8) -> (r:
    Instruction)
    ensures
        r.program@ == token_program_bytes(),
        r.accounts@.len() == 2,
        r.accounts@[0].address@ == mint@,
        !r.accounts@[0].is_signer && r.accounts@[0].is_writable,
        r.accounts@[1].address@ == rent_sysvar_bytes(),
        !r.accounts@[1].is_signer && !r.accounts@[1].is_writable,
        r.data@ == initialize_mint_data(mint_authority@, decimals),
{
    let m = Pubkey::new_from_array(mint.raw().as_slice().try_into().unwrap());
    let a = Pubkey::new_from_array(mint_authority.raw().as_slice().try_into().unwrap());
    let inst = spl_token::instruction::initialize_mint(&spl_token::id(), &m, &a, None, decimals)
        .expect("the token program id is accepted");
    let accounts = inst.accounts.iter().map(|x| AccountRef {
        address: Address::from_vec(x.pubkey.to_bytes().to_vec()),
        is_signer: x.is_signer,
        is_writable: x.is_writable,
    }).collect();
    Instruction {
        program: Address::from_vec(inst.program_id.to_bytes().to_vec()),
        accounts,
        data: inst.data,
    }
}

/// Relies on `spl_token::instruction::mint_to`: handed the token program's
/// own id and no multisignature signers it returns `Ok`, with the mint and
/// destination accounts writable, the authority read-only and the sole
/// signer, and the packed mint-to payload.
#[verifier::external_body]
pub(crate) fn spl_mint_to(
    mint: &Address,
    destination: &Address,
    authority: &Address,
    amount: u64,
) -> (r: Instruction)
    ensures
        r.program@ == token_program_bytes(),
        r.accounts@.len() == 3,
        r.accounts@[0].address@ == mint@,
        !r.accounts@[0].is_signer && r.accounts@[0].is_writable,
        r.accounts@[1].address@ == destination@,
        !r.accounts@[1].is_signer && r.accounts@[1].is_writable,
        r.accounts@[2].address@ == authority@,
        r.accounts@[2].is_signer && !r.accounts@[2].is_writable,
        r.data@ == mint_to_data(amount),
{
    let m = Pubkey::new_from_array(mint.raw().as_slice().try_into().unwrap());
    let d = Pubkey::new_from_array(destination.raw().as_slice().try_into().unwrap());
    let o = Pubkey::new_from_array(authority.raw().as_slice().try_into().unwrap());
    let inst = spl_token::instruction::mint_to(&spl_token::id(), &m, &d, &o, &[], amount)
        .expect("the token program id is accepted");
    let accounts = inst.accounts.iter().map(|x| AccountRef {
        address: Address::from_vec(x.pubkey.to_bytes().to_vec()),
        is_signer: x.is_signer,
        is_writable: x.is_writable,
    }).collect();
    Instruction {
        program: Address::from_vec(inst.program_id.to_bytes().to_vec()),
        accounts,
        data: inst.data,
    }
}

} // verus!
