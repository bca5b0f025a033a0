//! Verified core of a small token-instruction service: base-58 address
//! validation, keypair generation, and construction of the two token-program
//! instructions (initialize-mint and mint-to) as response-ready values.
pub mod address;
pub mod codec;
pub mod instruction;
pub mod keypair;
pub mod service;

pub use address::Address;
pub use keypair::{derive_address, generate_keypair, KeypairResponse};
pub use service::{create_token, health, mint_token, AccountInfo, ApiError, InstructionResponse};
