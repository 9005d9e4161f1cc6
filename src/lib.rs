//! Escrow-based peer-to-peer token swap orders: the order record and its
//! byte layout, the instruction wire format, the derived addresses, and the
//! handlers that validate each instruction and decide its effects.
//!
//! The handlers do not move tokens themselves. Each returns the transfers
//! and record writes that an accepted instruction calls for, and is proved
//! equal to a spec function that lists its checks in the order they run.
//! `lifecycle` states and proves what follows for orders over their life.

pub mod address;
pub mod args;
pub mod client;
pub mod error;
pub mod instruction;
pub mod lifecycle;
pub mod processor;
pub mod pubkey;
pub mod runtime;
pub mod state;
pub mod token;

pub use address::{get_order_address, get_order_wallet_address, get_order_wallet_authority};
pub use client::{new_ed25519_signature_instruction, Ed25519SignatureOffsets};
pub use error::SwapError;
pub use instruction::P2PSwapInstructions;
pub use pubkey::Pubkey;
pub use state::SwapSPLOrder;
