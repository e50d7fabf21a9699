//! Two cooperating ledgers for a tokenized bond: a registry that issues,
//! transfers and redeems bonds, and a fungible token ledger that collects the
//! fee attached to each registry operation.

pub mod fee;
pub mod token;
pub mod bond;
pub mod host;
