pub mod contract;
pub mod laws;
pub mod msg;
pub mod state;
