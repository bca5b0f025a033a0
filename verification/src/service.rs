//! The service's operations: validate request fields, build the requested
//! token instruction, and shape the response values, with one typed error
//! per malformed address field.
use vstd::prelude::*;

use crate::address::{is_valid_address_text, Address};
use crate::codec::{decoded_b58, encode_b64, encoded_b58, encoded_b64};
use crate::instruction::{
    initialize_mint_data, mint_to_data, rent_sysvar_bytes, spl_initialize_mint, spl_mint_to,
    token_program_bytes, Instruction,
};

verus! {

/// The service's error: one variant per request field that can hold invalid
/// base-58 text. The first malformed field wins; errors are not aggregated.
#[derive(Clone, Copy, Debug, PartialEq, Eq, Structural)]
pub enum ApiError {
    InvalidMintAuthority,
    InvalidMint,
    InvalidDestination,
    InvalidAuthority,
}

impl ApiError {
    /// The caller-facing message, exactly as the response envelope carries it.
    pub open spec fn message_view(self) -> Seq<char> {
        match self {
            ApiError::InvalidMintAuthority => "Invalid base58 string for mintAuthority."@,
            ApiError::InvalidMint => "Invalid base58 string for mint."@,
            ApiError::InvalidDestination => "Invalid base58 string for destination."@,
            ApiError::InvalidAuthority => "Invalid base58 string for authority."@,
        }
    }

    /// Render the error message.
    pub fn message(&self) -> (r: String)
        ensures
            r@ == self.message_view(),
    {
        match self {
            ApiError::InvalidMintAuthority => "Invalid base58 string for mintAuthority.".to_string(),
            ApiError::InvalidMint => "Invalid base58 string for mint.".to_string(),
            ApiError::InvalidDestination => "Invalid base58 string for destination.".to_string(),
            ApiError::InvalidAuthority => "Invalid base58 string for authority.".to_string(),
        }
    }
}

/// One account reference, formatted for the response: address as base-58
/// text, flags as given.
#[derive(Debug)]
pub struct AccountInfo {
    pub pubkey: String,
    pub is_signer: bool,
    pub is_writable: bool,
}

/// A built instruction, formatted for the response: program and account
/// addresses as base-58 text, the payload bytes as base-64 text.
#[derive(Debug)]
pub struct InstructionResponse {
    pub program_id: String,
    pub accounts: Vec<AccountInfo>,
    pub instruction_data: String,
}

/// Format an instruction for the response: every address in base-58, the
/// payload in base-64, account order and flags kept.
fn render_instruction(inst: &Instruction) -> (r: InstructionResponse)
    ensures
        r.program_id@ == encoded_b58(inst.program@),
        r.accounts@.len() == inst.accounts@.len(),
        forall|j: int|
            0 <= j < inst.accounts@.len() ==> {
                &&& (#[trigger] r.accounts@[j]).pubkey@ == encoded_b58(inst.accounts@[j].address@)
                &&& r.accounts@[j].is_signer == inst.accounts@[j].is_signer
                &&& r.accounts@[j].is_writable == inst.accounts@[j].is_writable
            },
        r.instruction_data@ == encoded_b64(inst.data@),
        r.instruction_data@.len() == 4 * ((inst.data@.len() + 2) / 3),
{
    let mut accounts: Vec<AccountInfo> = Vec::new();
    let mut j: usize = 0;
    while j < inst.accounts.len()
        invariant
            j <= inst.accounts@.len(),
            accounts@.len() == j,
            forall|k: int|
                0 <= k < j ==> {
                    &&& (#[trigger] accounts@[k]).pubkey@ == encoded_b58(
                        inst.accounts@[k].address@,
                    )
                    &&& accounts@[k].is_signer == inst.accounts@[k].is_signer
                    &&& accounts@[k].is_writable == inst.accounts@[k].is_writable
                },
        decreases inst.accounts@.len() - j,
    {
        let a = &inst.accounts[j];
        accounts.push(
            AccountInfo {
                pubkey: a.address.to_base58(),
                is_signer: a.is_signer,
                is_writable: a.is_writable,
            },
        );
        j += 1;
    }
    InstructionResponse {
        program_id: inst.program.to_base58(),
        accounts,
        instruction_data: encode_b64(inst.data.as_slice()),
    }
}

/// Build the initialize-mint response: both addresses must be valid base-58
/// of 32 bytes; the first malformed field names the error. On success the
/// response holds the token program's address, the mint account (writable)
/// and the rent sysvar (read-only), and the non-empty packed payload in
/// base-64; no freeze authority is set and the decimals pass through as
/// given.
pub fn create_token(mint_authority: &str, mint: &str, decimals: u8) -> (r: Result<
    InstructionResponse,
    ApiError,
>)
    ensures
        r is Ok <==> is_valid_address_text(mint_authority@) && is_valid_address_text(mint@),
        r matches Err(e) ==> e == (if !is_valid_address_text(mint_authority@) {
            ApiError::InvalidMintAuthority
        } else {
            ApiError::InvalidMint
        }),
        r matches Ok(resp) ==> {
            &&& resp.program_id@ == encoded_b58(token_program_bytes())
            &&& resp.accounts@.len() == 2
            &&& resp.accounts@[0].pubkey@ == encoded_b58(decoded_b58(mint@))
            &&& !resp.accounts@[0].is_signer && resp.accounts@[0].is_writable
            &&& resp.accounts@[1].pubkey@ == encoded_b58(rent_sysvar_bytes())
            &&& !resp.accounts@[1].is_signer && !resp.accounts@[1].is_writable
            &&& resp.instruction_data@ == encoded_b64(
                initialize_mint_data(decoded_b58(mint_authority@), decimals),
            )
            &&& resp.instruction_data@.len() == 48
        },
{
    let authority_addr = match Address::parse(mint_authority) {
        Some(a) => a,
        None => { return Err(ApiError::InvalidMintAuthority) },
    };
    let mint_addr = match Address::parse(mint) {
        Some(a) => a,
        None => { return Err(ApiError::InvalidMint) },
    };
    let inst = spl_initialize_mint(&mint_addr, &authority_addr, decimals);
    Ok(render_instruction(&inst))
}

/// Build the mint-to response: the three addresses must be valid base-58 of
/// 32 bytes; the first malformed field names the error. Any amount is
/// accepted, zero included. On success the response holds the token
/// program's address, the mint and destination accounts (writable) and the
/// authority (read-only, the sole signer), and the non-empty packed payload
/// in base-64.
pub fn mint_token(mint: &str, destination: &str, authority: &str, amount: u64) -> (r: Result<
    InstructionResponse,
    ApiError,
>)
    ensures
        r is Ok <==> is_valid_address_text(mint@) && is_valid_address_text(destination@)
            && is_valid_address_text(authority@),
        r matches Err(e) ==> e == (if !is_valid_address_text(mint@) {
            ApiError::InvalidMint
        } else if !is_valid_address_text(destination@) {
            ApiError::InvalidDestination
        } else {
            ApiError::InvalidAuthority
        }),
        r matches Ok(resp) ==> {
            &&& resp.program_id@ == encoded_b58(token_program_bytes())
            &&& resp.accounts@.len() == 3
            &&& resp.accounts@[0].pubkey@ == encoded_b58(decoded_b58(mint@))
            &&& !resp.accounts@[0].is_signer && resp.accounts@[0].is_writable
            &&& resp.accounts@[1].pubkey@ == encoded_b58(decoded_b58(destination@))
            &&& !resp.accounts@[1].is_signer && resp.accounts@[1].is_writable
            &&& resp.accounts@[2].pubkey@ == encoded_b58(decoded_b58(authority@))
            &&& resp.accounts@[2].is_signer && !resp.accounts@[2].is_writable
            &&& resp.instruction_data@ == encoded_b64(mint_to_data(amount))
            &&& resp.instruction_data@.len() == 12
        },
{
    let mint_addr = match Address::parse(mint) {
        Some(a) => a,
        None => { return Err(ApiError::InvalidMint) },
    };
    let destination_addr = match Address::parse(destination) {
        Some(a) => a,
        None => { return Err(ApiError::InvalidDestination) },
    };
    let authority_addr = match Address::parse(authority) {
        Some(a) => a,
        None => { return Err(ApiError::InvalidAuthority) },
    };
    let inst = spl_mint_to(&mint_addr, &destination_addr, &authority_addr, amount);
    proof {
        vstd::bytes::lemma_auto_spec_u64_to_from_le_bytes();
    }
    Ok(render_instruction(&inst))
}

/// Body of the liveness probe: always the fixed text `OK`, whatever the
/// request held.
pub fn health() -> (r: String)
    ensures
        r@ == "OK"@,
{
    "OK".to_string()
}

} // verus!
