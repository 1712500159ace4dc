pub mod order_restaurant_event_repository;
pub mod order_view_state_repository;
pub mod restaurant_view_state_repository;
