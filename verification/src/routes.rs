pub mod history;
pub mod miner;
pub mod payout;
pub mod pool;
pub mod redis;
pub mod solver;
pub mod table_res;
pub mod types;
