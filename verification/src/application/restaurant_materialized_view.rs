use crate::domain::restaurant_view::RestaurantView;
use crate::framework::application::materialized_view::MaterializedView;
use crate::infrastructure::restaurant_view_state_repository::RestaurantViewStateRepository;
use vstd::prelude::*;

verus! {

/// The materialized view of restaurants.
pub type RestaurantMeterializedView = MaterializedView<
    RestaurantViewStateRepository,
    RestaurantView,
>;

} // verus!
