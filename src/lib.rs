//! A per-user loan ledger whose transitions hand back the cross-chain
//! notices that describe them.
pub mod identity;
pub mod lemmas;
pub mod notification;
pub mod vault;

pub use identity::Identity;
pub use notification::{Finality, Notification, OutboundMessage, NOTICE_NONCE};
pub use vault::{borrow, liquidate, repay, Borrow, ErrorCode, Liquidate, Repay, UserVault};
