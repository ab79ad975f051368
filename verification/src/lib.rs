//! Verified helpers for testing Anchor programs against an in-process ledger.

pub mod account;
pub mod assertions;
pub mod builder;
pub mod context;
pub mod encode;
pub mod events;
pub mod instruction;
pub mod instruction_builder;
pub mod logs;
pub mod program;
pub mod programs;
pub mod pubkey;
pub mod test_helpers;
pub mod text;
pub mod transaction;

pub use account::{Account, AccountError};
pub use builder::{AnchorLiteSVM, Deployment};
pub use context::AnchorContext;
pub use encode::{AnchorSerialize, EncodeError, EncodedArgs};
pub use events::EventError;
pub use instruction::{
    build_anchor_instruction, calculate_anchor_discriminator, AccountMeta, Instruction,
};
pub use instruction_builder::{tuple_args, InstructionBuilder, TupleArgs};
pub use program::{Program, RequestBuilder};
pub use pubkey::Pubkey;
pub use transaction::{
    FailedTransactionMetadata, TransactionError, TransactionMetadata, TransactionRequest,
    TransactionResult,
};
