//! The decisions and bookkeeping of a mystery-box staking vault: who may
//! administer it, what a purchased box contains, how staked amounts, blended
//! interest rates and accrued rewards evolve, and what each instruction pays
//! out.  Token transfers, minting and account plumbing are left to the host.

pub mod pubkey;
pub mod error;
pub mod state;
pub mod reward;
pub mod mystery_box;
pub mod metadata;
pub mod vault;
pub mod staking;
pub mod laws;
