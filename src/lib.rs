//! Verified core of the seeder control agent: decoding of target assignments,
//! event routing, connection parameters and the heartbeat schedule.

pub mod decimal;
pub mod json;
pub mod liveness;
pub mod record;
pub mod router;
pub mod session;
