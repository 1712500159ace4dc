use crate::domain::order_view::OrderView;
use crate::framework::application::materialized_view::MaterializedView;
use crate::infrastructure::order_view_state_repository::OrderViewStateRepository;
use vstd::prelude::*;

verus! {

/// The materialized view of orders.
pub type OrderMeterializedView = MaterializedView<OrderViewStateRepository, OrderView>;

} // verus!
