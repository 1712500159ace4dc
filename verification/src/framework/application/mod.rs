pub mod event_sourced_aggregate;
pub mod materialized_view;
