pub mod order_materialized_view;
pub mod order_restaurant_aggregate;
pub mod restaurant_materialized_view;
