//! An owned secret string ("the strongbox") that only holders of a viewing
//! key may read, with the key handling proved correct against its contracts.

pub mod contract;
pub mod crypto;
pub mod error;
pub mod lemmas;
pub mod msg;
pub mod state;
pub mod viewing_key;
