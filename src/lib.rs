//! Client-side data path of a partitioned, leader-based streaming platform:
//! a metadata cache kept in step with the controller's watch stream, and a
//! pool of connections to partition leaders that routes through that cache.

pub mod status;
pub mod signal;
pub mod text;
pub mod store;
pub mod sync;
pub mod pool;
