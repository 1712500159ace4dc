pub mod errors;
pub mod event_repository;
pub mod view_state_repository;
