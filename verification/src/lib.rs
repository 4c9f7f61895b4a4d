pub mod constants;
pub mod contract;
pub mod decimal;
pub mod error;
pub mod laws;
pub mod ledger;
pub mod model;
pub mod msg;
pub mod response;
pub mod state;
pub mod table;
pub mod types;
pub mod wire;
