//! Verified core of a peer-to-pool options protocol.
//!
//! Market makers post collateral into liquidity vaults and publish quotes;
//! users request positions against those quotes; the maker confirms within a
//! fixed window, which locks collateral from both sides into two escrows; at
//! expiry anyone settles the position against an oracle price.
//!
//! Every operation is a function from the records it touches, plus plain
//! inputs such as the current time, to the updated records and the token
//! movements to perform. The caller looks the records up under their keys,
//! performs the token movements, and stores the records back. An operation
//! that returns an error leaves every record as it was.

pub mod constants;
pub mod errors;
pub mod instructions;
pub mod oracle;
pub mod state;
pub mod strategy;
