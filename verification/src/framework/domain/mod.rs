pub mod api;
pub mod decider;
pub mod saga;
pub mod projection;
