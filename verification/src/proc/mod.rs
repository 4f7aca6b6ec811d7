//! Job lifecycle: value types, the coordinator's decision logic and process spawning.

pub mod clock;
pub mod coord;
pub mod spawn;
pub mod types;
