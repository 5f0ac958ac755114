//! Account state of a confidential token: encrypted balances, the auditor's
//! key, and the counters that reconcile credits to the pending balance with
//! their later application into the available balance.

pub mod account;
pub mod auditor;
pub mod encryption;
pub mod history;
pub mod layout;
pub mod pod;
pub mod pubkey;

pub use account::ConfidentialAccount;
pub use auditor::Auditor;
