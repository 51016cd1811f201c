pub mod thresholds;
pub mod workers;
pub mod memory;
