pub mod execute_jupiter_swap;
pub mod initialize;
pub mod pause;
pub mod process_bridge_and_swap;
pub mod recover_funds;
pub mod refund;
pub mod unpause;
pub mod update_config;
