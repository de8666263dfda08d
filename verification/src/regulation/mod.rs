pub mod dutycycle;
pub mod engine;
pub mod standard;
pub mod tracker;
