use base64::Engine;
use instruction_builder::{create_token, derive_address, generate_keypair, health, mint_token, Address};
use solana_sdk::signer::Signer;
use spl_token::solana_program::pubkey::Pubkey;

const SYSTEM_PROGRAM: &str = "11111111111111111111111111111111";
const NATIVE_MINT: &str = "So11111111111111111111111111111111111111112";
const TOKEN_PROGRAM: &str = "TokenkegQfeZyiNwAJbNbGKPFXCWuBvf9Ss623VQ5DA";
const RENT_SYSVAR: &str = "SysvarRent111111111111111111111111111111111";

fn b64_decode(s: &str) -> Vec<u8> {
    base64::engine::general_purpose::STANDARD
        .decode(s)
        .expect("instruction_data must be valid base-64")
}

#[test]
fn round_trip_token_program_address() {
    let a = Address::parse(TOKEN_PROGRAM).expect("valid base-58 address");
    assert_eq!(a.to_base58(), TOKEN_PROGRAM);
}

#[test]
fn round_trip_system_program_address() {
    let a = Address::parse(SYSTEM_PROGRAM).expect("valid base-58 address");
    assert_eq!(a.to_base58(), SYSTEM_PROGRAM);
    assert_eq!(a.to_bytes(), vec![0u8; 32]);
}

#[test]
fn round_trip_native_mint_address() {
    let a = Address::parse(NATIVE_MINT).expect("valid base-58 address");
    assert_eq!(a.to_base58(), NATIVE_MINT);
    assert_eq!(a.to_bytes(), bs58::decode(NATIVE_MINT).into_vec().unwrap());
}

#[test]
fn parse_rejects_wrong_length() {
    assert!(Address::parse("").is_none());
    assert!(Address::parse("abc").is_none());
    let forty_five_ones: String = "1".repeat(45);
    assert!(Address::parse(&forty_five_ones).is_none());
}

#[test]
fn parse_rejects_invalid_characters() {
    assert!(Address::parse("not-base58!").is_none());
    assert!(Address::parse("0OIl+/=====================").is_none());
}

#[test]
fn keypair_rederives_pubkey() {
    let kp = generate_keypair();
    let seed = bs58::decode(&kp.secret).into_vec().expect("secret is base-58");
    assert_eq!(seed.len(), 32);
    let derived = derive_address(seed.as_slice()).expect("32-byte seed");
    assert_eq!(derived.to_base58(), kp.pubkey);
}

#[test]
fn keypair_pubkey_matches_sdk_derivation() {
    let kp = generate_keypair();
    let seed = bs58::decode(&kp.secret).into_vec().expect("secret is base-58");
    let sdk_kp = solana_sdk::signer::keypair::keypair_from_seed(&seed).expect("32-byte seed");
    assert_eq!(sdk_kp.pubkey().to_string(), kp.pubkey);
}

#[test]
fn derive_address_rejects_wrong_seed_length() {
    assert!(derive_address(&[0u8; 31]).is_none());
    assert!(derive_address(&[0u8; 33]).is_none());
    assert!(derive_address(&[]).is_none());
}

#[test]
fn consecutive_keypairs_differ() {
    let a = generate_keypair();
    let b = generate_keypair();
    assert_ne!(a.secret, b.secret);
    assert_ne!(a.pubkey, b.pubkey);
}

#[test]
fn health_is_ok() {
    assert_eq!(health(), "OK");
}

#[test]
fn create_token_rejects_non_base58_mint() {
    let r = create_token(SYSTEM_PROGRAM, "not-base58!", 6);
    let e = r.expect_err("a non-base-58 mint must be rejected");
    assert_eq!(e.message(), "Invalid base58 string for mint.");
}

#[test]
fn create_token_rejects_non_base58_mint_authority_first() {
    let r = create_token("not-base58!", "also not base58!", 6);
    let e = r.expect_err("a non-base-58 mint authority must be rejected");
    assert_eq!(e.message(), "Invalid base58 string for mintAuthority.");
}

#[test]
fn create_token_response_shape() {
    let r = create_token(SYSTEM_PROGRAM, NATIVE_MINT, 9).expect("valid addresses");
    assert_eq!(r.program_id, TOKEN_PROGRAM);
    assert_eq!(r.accounts.len(), 2);
    assert_eq!(r.accounts[0].pubkey, NATIVE_MINT);
    assert!(!r.accounts[0].is_signer);
    assert!(r.accounts[0].is_writable);
    assert_eq!(r.accounts[1].pubkey, RENT_SYSVAR);
    assert!(!r.accounts[1].is_signer);
    assert!(!r.accounts[1].is_writable);

    let data = b64_decode(&r.instruction_data);
    assert!(!data.is_empty());
    assert_eq!(data.len(), 35);
    assert_eq!(data[0], 0);
    assert_eq!(data[1], 9);
    assert_eq!(&data[2..34], bs58::decode(SYSTEM_PROGRAM).into_vec().unwrap().as_slice());
    assert_eq!(data[34], 0);
}

#[test]
fn create_token_matches_spl_token() {
    let r = create_token(SYSTEM_PROGRAM, NATIVE_MINT, 3).expect("valid addresses");
    let auth_bytes: [u8; 32] = bs58::decode(SYSTEM_PROGRAM).into_vec().unwrap().try_into().unwrap();
    let mint_bytes: [u8; 32] = bs58::decode(NATIVE_MINT).into_vec().unwrap().try_into().unwrap();
    let expected = spl_token::instruction::initialize_mint(
        &spl_token::id(),
        &Pubkey::new_from_array(mint_bytes),
        &Pubkey::new_from_array(auth_bytes),
        None,
        3,
    )
    .unwrap();
    assert_eq!(b64_decode(&r.instruction_data), expected.data);
    assert_eq!(r.program_id, expected.program_id.to_string());
    for (got, want) in r.accounts.iter().zip(expected.accounts.iter()) {
        assert_eq!(got.pubkey, want.pubkey.to_string());
        assert_eq!(got.is_signer, want.is_signer);
        assert_eq!(got.is_writable, want.is_writable);
    }
}

#[test]
fn create_token_accepts_any_decimals() {
    let r = create_token(SYSTEM_PROGRAM, NATIVE_MINT, 255).expect("decimals pass through as given");
    let data = b64_decode(&r.instruction_data);
    assert_eq!(data[1], 255);
}

#[test]
fn mint_token_accepts_zero_amount() {
    let r = mint_token(NATIVE_MINT, SYSTEM_PROGRAM, TOKEN_PROGRAM, 0).expect("amount 0 is accepted");
    let data = b64_decode(&r.instruction_data);
    assert_eq!(data, vec![7, 0, 0, 0, 0, 0, 0, 0, 0]);
}

#[test]
fn mint_token_response_shape() {
    let r = mint_token(NATIVE_MINT, SYSTEM_PROGRAM, RENT_SYSVAR, 1_000_000).expect("valid addresses");
    assert_eq!(r.program_id, TOKEN_PROGRAM);
    assert_eq!(r.accounts.len(), 3);
    assert_eq!(r.accounts[0].pubkey, NATIVE_MINT);
    assert!(!r.accounts[0].is_signer);
    assert!(r.accounts[0].is_writable);
    assert_eq!(r.accounts[1].pubkey, SYSTEM_PROGRAM);
    assert!(!r.accounts[1].is_signer);
    assert!(r.accounts[1].is_writable);
    assert_eq!(r.accounts[2].pubkey, RENT_SYSVAR);
    assert!(r.accounts[2].is_signer);
    assert!(!r.accounts[2].is_writable);

    let mut expected = vec![7u8];
    expected.extend_from_slice(&1_000_000u64.to_le_bytes());
    assert_eq!(b64_decode(&r.instruction_data), expected);
}

#[test]
fn mint_token_largest_amount() {
    let r = mint_token(NATIVE_MINT, SYSTEM_PROGRAM, RENT_SYSVAR, u64::MAX).expect("valid addresses");
    let mut expected = vec![7u8];
    expected.extend_from_slice(&u64::MAX.to_le_bytes());
    assert_eq!(b64_decode(&r.instruction_data), expected);
}

#[test]
fn mint_token_rejects_non_base58_mint() {
    let e = mint_token("not-base58!", SYSTEM_PROGRAM, RENT_SYSVAR, 1).expect_err("invalid mint");
    assert_eq!(e.message(), "Invalid base58 string for mint.");
}

#[test]
fn mint_token_rejects_non_base58_destination() {
    let e = mint_token(NATIVE_MINT, "not-base58!", RENT_SYSVAR, 1).expect_err("invalid destination");
    assert_eq!(e.message(), "Invalid base58 string for destination.");
}

#[test]
fn mint_token_rejects_non_base58_authority() {
    let e = mint_token(NATIVE_MINT, SYSTEM_PROGRAM, "not-base58!", 1).expect_err("invalid authority");
    assert_eq!(e.message(), "Invalid base58 string for authority.");
}
