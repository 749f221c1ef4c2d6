//! Binary protocol layer of an automated market maker: instruction payloads,
//! persistent account-state layouts and the calls that carry them.

pub mod amm_instruction;
pub mod amm_stats;
pub mod codec;
pub mod curve;
pub mod error;
pub mod farm_instruction;
pub mod instruction;
pub mod pubkey;
