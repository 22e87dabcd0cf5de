//! A per-authority message record: one bounded text message per identity,
//! writable only by the identity that first claimed the record.

pub mod address;
pub mod clock;
pub mod identity;
pub mod instruction;
pub mod laws;
pub mod layout;
pub mod record;

pub use address::find_hello_address;
pub use address::is_hello_address;
pub use address::matches_address;
pub use address::HELLO_SEED;
pub use address::PROGRAM_ID;
pub use identity::Identity;
pub use instruction::settle_write;
pub use instruction::hello_write;
pub use instruction::HelloWrite;
pub use instruction::WriteError;
pub use layout::ACCOUNT_TAG;
pub use record::HelloError;
pub use record::HelloEvent;
pub use record::HelloState;
pub use record::MAX_MESSAGE_BYTES;
