pub mod application;
pub mod domain;
pub mod infrastructure;
