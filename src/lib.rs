pub mod error;
pub mod ip_extractor;
pub mod ip_hash;
pub mod load_balancing;
pub mod net;
pub mod round_robin;
pub mod worker;
