pub mod address;
pub mod identity;
pub mod instructions;
pub mod laws;
pub mod ledger;
pub mod state;
