//! The operations on a vault and on its depositors' ledgers.

pub mod deposit;
pub mod increment_deposit;
pub mod initialize_vault;
pub mod update_vault;
pub mod verify_merkle_proof;
