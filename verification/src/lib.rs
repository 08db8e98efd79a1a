//! TXRP: wallet records for the XRP Ledger, their password encryption,
//! their database rows, the ledger requests and replies they use, and the
//! terminal menu that drives them.

pub mod encoding;
pub mod text;
pub mod crypto;
pub mod keys;
pub mod wallet;
pub mod storage;
pub mod ledger;
pub mod payment;
pub mod menu;
