use crate::framework::domain::api::Identifier;
use crate::model::{clone_vec, Faithful, Model};
use uuid::Uuid;
use vstd::prelude::*;

verus! {

// Value objects. Each wraps one value, so that a restaurant's identifier
// cannot be handed over where an order's is expected.

/// The identifier of a restaurant, and of its stream.
#[derive(Clone, Copy, Debug, PartialEq, Eq)]
pub struct RestaurantId(pub Uuid);

impl Model for RestaurantId {
    type M = RestaurantId;

    open spec fn model(&self) -> RestaurantId {
        *self
    }
}

impl Faithful for RestaurantId {
    proof fn copy_has_model(source: Self, copy: Self) {
    }
}

/// The name of a restaurant.
#[derive(Debug, PartialEq, Eq)]
pub struct RestaurantName(pub String);

impl Model for RestaurantName {
    type M = Seq<char>;

    open spec fn model(&self) -> Seq<char> {
        self.0@
    }
}

impl Clone for RestaurantName {
    fn clone(&self) -> (copy: Self)
        ensures
            copy.model() == self.model(),
    {
        RestaurantName(self.0.clone())
    }
}

impl Faithful for RestaurantName {
    proof fn copy_has_model(source: Self, copy: Self) {
    }
}

/// The identifier of an order, and of its stream.
#[derive(Clone, Copy, Debug, PartialEq, Eq)]
pub struct OrderId(pub Uuid);

impl Model for OrderId {
    type M = OrderId;

    open spec fn model(&self) -> OrderId {
        *self
    }
}

impl Faithful for OrderId {
    proof fn copy_has_model(source: Self, copy: Self) {
    }
}

/// Why something was turned down, in words.
#[derive(Debug, PartialEq, Eq)]
pub struct Reason(pub String);

impl Model for Reason {
    type M = Seq<char>;

    open spec fn model(&self) -> Seq<char> {
        self.0@
    }
}

impl Clone for Reason {
    fn clone(&self) -> (copy: Self)
        ensures
            copy.model() == self.model(),
    {
        Reason(self.0.clone())
    }
}

impl Faithful for Reason {
    proof fn copy_has_model(source: Self, copy: Self) {
    }
}

/// A price.
#[derive(Clone, Copy, Debug, PartialEq, Eq)]
pub struct Money(pub u64);

impl Model for Money {
    type M = Money;

    open spec fn model(&self) -> Money {
        *self
    }
}

impl Faithful for Money {
    proof fn copy_has_model(source: Self, copy: Self) {
    }
}

/// The identifier of a menu.
#[derive(Clone, Copy, Debug, PartialEq, Eq)]
pub struct MenuId(pub Uuid);

impl Model for MenuId {
    type M = MenuId;

    open spec fn model(&self) -> MenuId {
        *self
    }
}

impl Faithful for MenuId {
    proof fn copy_has_model(source: Self, copy: Self) {
    }
}

/// The identifier of an item on a menu.
#[derive(Clone, Copy, Debug, PartialEq, Eq)]
pub struct MenuItemId(pub Uuid);

impl Model for MenuItemId {
    type M = MenuItemId;

    open spec fn model(&self) -> MenuItemId {
        *self
    }
}

impl Faithful for MenuItemId {
    proof fn copy_has_model(source: Self, copy: Self) {
    }
}

/// The name of an item on a menu.
#[derive(Debug, PartialEq, Eq)]
pub struct MenuItemName(pub String);

impl Model for MenuItemName {
    type M = Seq<char>;

    open spec fn model(&self) -> Seq<char> {
        self.0@
    }
}

impl Clone for MenuItemName {
    fn clone(&self) -> (copy: Self)
        ensures
            copy.model() == self.model(),
    {
        MenuItemName(self.0.clone())
    }
}

impl Faithful for MenuItemName {
    proof fn copy_has_model(source: Self, copy: Self) {
    }
}

/// The identifier of a line of an order.
#[derive(Clone, Copy, Debug, PartialEq, Eq)]
pub struct OrderLineItemId(pub Uuid);

impl Model for OrderLineItemId {
    type M = OrderLineItemId;

    open spec fn model(&self) -> OrderLineItemId {
        *self
    }
}

impl Faithful for OrderLineItemId {
    proof fn copy_has_model(source: Self, copy: Self) {
    }
}

/// How many of an item a line of an order asks for.
#[derive(Clone, Copy, Debug, PartialEq, Eq)]
pub struct OrderLineItemQuantity(pub u32);

impl Model for OrderLineItemQuantity {
    type M = OrderLineItemQuantity;

    open spec fn model(&self) -> OrderLineItemQuantity {
        *self
    }
}

impl Faithful for OrderLineItemQuantity {
    proof fn copy_has_model(source: Self, copy: Self) {
    }
}

/// An item on a menu.
#[derive(Debug, PartialEq, Eq)]
pub struct MenuItem {
    pub id: MenuItemId,
    pub name: MenuItemName,
    pub price: Money,
}

/// What a menu item stands for.
pub struct MenuItemModel {
    pub id: MenuItemId,
    pub name: Seq<char>,
    pub price: Money,
}

impl Model for MenuItem {
    type M = MenuItemModel;

    open spec fn model(&self) -> MenuItemModel {
        MenuItemModel {
            id: self.id,
            name: self.name.model(),
            price: self.price,
        }
    }
}

impl Clone for MenuItem {
    fn clone(&self) -> (copy: Self)
        ensures
            copy.model() == self.model(),
    {
        MenuItem {
            id: self.id,
            name: self.name.clone(),
            price: self.price,
        }
    }
}

impl Faithful for MenuItem {
    proof fn copy_has_model(source: Self, copy: Self) {
    }
}

/// The cuisine of a menu.
#[derive(Clone, Copy, Debug, PartialEq, Eq)]
pub enum RestaurantMenuCuisine {
    Italian,
    Indian,
    Chinese,
    Japanese,
    American,
    Mexican,
    French,
    Thai,
    Vietnamese,
    Greek,
    Korean,
    Spanish,
    Lebanese,
    Turkish,
    Ethiopian,
    Moroccan,
    Egyptian,
    Brazilian,
    Polish,
    German,
    British,
    Irish,
    Other,
}

impl Model for RestaurantMenuCuisine {
    type M = RestaurantMenuCuisine;

    open spec fn model(&self) -> RestaurantMenuCuisine {
        *self
    }
}

impl Faithful for RestaurantMenuCuisine {
    proof fn copy_has_model(source: Self, copy: Self) {
    }
}

/// The menu of a restaurant.
#[derive(Debug, PartialEq, Eq)]
pub struct RestaurantMenu {
    pub menu_id: MenuId,
    pub items: Vec<MenuItem>,
    pub cuisine: RestaurantMenuCuisine,
}

/// What a menu stands for.
pub struct RestaurantMenuModel {
    pub menu_id: MenuId,
    pub items: Seq<MenuItemModel>,
    pub cuisine: RestaurantMenuCuisine,
}

impl Model for RestaurantMenu {
    type M = RestaurantMenuModel;

    open spec fn model(&self) -> RestaurantMenuModel {
        RestaurantMenuModel {
            menu_id: self.menu_id,
            items: self.items.model(),
            cuisine: self.cuisine,
        }
    }
}

impl Clone for RestaurantMenu {
    fn clone(&self) -> (copy: Self)
        ensures
            copy.model() == self.model(),
    {
        RestaurantMenu {
            menu_id: self.menu_id,
            items: clone_vec(&self.items),
            cuisine: self.cuisine,
        }
    }
}

impl Faithful for RestaurantMenu {
    proof fn copy_has_model(source: Self, copy: Self) {
    }
}

/// One line of an order.
#[derive(Debug, PartialEq, Eq)]
pub struct OrderLineItem {
    pub id: OrderLineItemId,
    pub quantity: OrderLineItemQuantity,
    pub menu_item_id: MenuItemId,
    pub name: MenuItemName,
}

/// What a line of an order stands for.
pub struct OrderLineItemModel {
    pub id: OrderLineItemId,
    pub quantity: OrderLineItemQuantity,
    pub menu_item_id: MenuItemId,
    pub name: Seq<char>,
}

impl Model for OrderLineItem {
    type M = OrderLineItemModel;

    open spec fn model(&self) -> OrderLineItemModel {
        OrderLineItemModel {
            id: self.id,
            quantity: self.quantity,
            menu_item_id: self.menu_item_id,
            name: self.name.model(),
        }
    }
}

impl Clone for OrderLineItem {
    fn clone(&self) -> (copy: Self)
        ensures
            copy.model() == self.model(),
    {
        OrderLineItem {
            id: self.id,
            quantity: self.quantity,
            menu_item_id: self.menu_item_id,
            name: self.name.clone(),
        }
    }
}

impl Faithful for OrderLineItem {
    proof fn copy_has_model(source: Self, copy: Self) {
    }
}

/// How far an order has come.
#[derive(Clone, Copy, Debug, PartialEq, Eq)]
pub enum OrderStatus {
    Created,
    Prepared,
    Cancelled,
    Rejected,
}

impl Model for OrderStatus {
    type M = OrderStatus;

    open spec fn model(&self) -> OrderStatus {
        *self
    }
}

impl Faithful for OrderStatus {
    proof fn copy_has_model(source: Self, copy: Self) {
    }
}

// Commands of a restaurant.

/// Every command that can be sent to a restaurant.
#[derive(Debug, PartialEq, Eq)]
pub enum RestaurantCommand {
    CreateRestaurant(CreateRestaurant),
    ChangeMenu(ChangeRestaurantMenu),
    PlaceOrder(PlaceOrder),
}

/// What a restaurant command stands for.
pub enum RestaurantCommandModel {
    CreateRestaurant(CreateRestaurantModel),
    ChangeMenu(ChangeRestaurantMenuModel),
    PlaceOrder(PlaceOrderModel),
}

impl Model for RestaurantCommand {
    type M = RestaurantCommandModel;

    open spec fn model(&self) -> RestaurantCommandModel {
        match self {
            RestaurantCommand::CreateRestaurant(x) => RestaurantCommandModel::CreateRestaurant(x.model()),
            RestaurantCommand::ChangeMenu(x) => RestaurantCommandModel::ChangeMenu(x.model()),
            RestaurantCommand::PlaceOrder(x) => RestaurantCommandModel::PlaceOrder(x.model()),
        }
    }
}

impl Clone for RestaurantCommand {
    fn clone(&self) -> (copy: Self)
        ensures
            copy.model() == self.model(),
    {
        match self {
            RestaurantCommand::CreateRestaurant(x) => RestaurantCommand::CreateRestaurant(x.clone()),
            RestaurantCommand::ChangeMenu(x) => RestaurantCommand::ChangeMenu(x.clone()),
            RestaurantCommand::PlaceOrder(x) => RestaurantCommand::PlaceOrder(x.clone()),
        }
    }
}

impl Faithful for RestaurantCommand {
    proof fn copy_has_model(source: Self, copy: Self) {
    }
}

/// The intent to create a restaurant.
#[derive(Debug, PartialEq, Eq)]
pub struct CreateRestaurant {
    pub identifier: RestaurantId,
    pub name: RestaurantName,
    pub menu: RestaurantMenu,
}

/// What the intent to create a restaurant stands for.
pub struct CreateRestaurantModel {
    pub identifier: RestaurantId,
    pub name: Seq<char>,
    pub menu: RestaurantMenuModel,
}

impl Model for CreateRestaurant {
    type M = CreateRestaurantModel;

    open spec fn model(&self) -> CreateRestaurantModel {
        CreateRestaurantModel {
            identifier: self.identifier,
            name: self.name.model(),
            menu: self.menu.model(),
        }
    }
}

impl Clone for CreateRestaurant {
    fn clone(&self) -> (copy: Self)
        ensures
            copy.model() == self.model(),
    {
        CreateRestaurant {
            identifier: self.identifier,
            name: self.name.clone(),
            menu: self.menu.clone(),
        }
    }
}

impl Faithful for CreateRestaurant {
    proof fn copy_has_model(source: Self, copy: Self) {
    }
}

/// The intent to change the menu of a restaurant.
#[derive(Debug, PartialEq, Eq)]
pub struct ChangeRestaurantMenu {
    pub identifier: RestaurantId,
    pub menu: RestaurantMenu,
}

/// What the intent to change a menu stands for.
pub struct ChangeRestaurantMenuModel {
    pub identifier: RestaurantId,
    pub menu: RestaurantMenuModel,
}

impl Model for ChangeRestaurantMenu {
    type M = ChangeRestaurantMenuModel;

    open spec fn model(&self) -> ChangeRestaurantMenuModel {
        ChangeRestaurantMenuModel {
            identifier: self.identifier,
            menu: self.menu.model(),
        }
    }
}

impl Clone for ChangeRestaurantMenu {
    fn clone(&self) -> (copy: Self)
        ensures
            copy.model() == self.model(),
    {
        ChangeRestaurantMenu {
            identifier: self.identifier,
            menu: self.menu.clone(),
        }
    }
}

impl Faithful for ChangeRestaurantMenu {
    proof fn copy_has_model(source: Self, copy: Self) {
    }
}

/// The intent to place an order at a restaurant.
#[derive(Debug, PartialEq, Eq)]
pub struct PlaceOrder {
    pub identifier: RestaurantId,
    pub order_identifier: OrderId,
    pub line_items: Vec<OrderLineItem>,
}

/// What the intent to place an order stands for.
pub struct PlaceOrderModel {
    pub identifier: RestaurantId,
    pub order_identifier: OrderId,
    pub line_items: Seq<OrderLineItemModel>,
}

impl Model for PlaceOrder {
    type M = PlaceOrderModel;

    open spec fn model(&self) -> PlaceOrderModel {
        PlaceOrderModel {
            identifier: self.identifier,
            order_identifier: self.order_identifier,
            line_items: self.line_items.model(),
        }
    }
}

impl Clone for PlaceOrder {
    fn clone(&self) -> (copy: Self)
        ensures
            copy.model() == self.model(),
    {
        PlaceOrder {
            identifier: self.identifier,
            order_identifier: self.order_identifier,
            line_items: clone_vec(&self.line_items),
        }
    }
}

impl Faithful for PlaceOrder {
    proof fn copy_has_model(source: Self, copy: Self) {
    }
}

// Commands of an order.

/// Every command that can be sent to an order.
#[derive(Debug, PartialEq, Eq)]
pub enum OrderCommand {
    Create(CreateOrder),
    MarkAsPrepared(MarkOrderAsPrepared),
}

/// What an order command stands for.
pub enum OrderCommandModel {
    Create(CreateOrderModel),
    MarkAsPrepared(MarkOrderAsPrepared),
}

impl Model for OrderCommand {
    type M = OrderCommandModel;

    open spec fn model(&self) -> OrderCommandModel {
        match self {
            OrderCommand::Create(x) => OrderCommandModel::Create(x.model()),
            OrderCommand::MarkAsPrepared(x) => OrderCommandModel::MarkAsPrepared(*x),
        }
    }
}

impl Clone for OrderCommand {
    fn clone(&self) -> (copy: Self)
        ensures
            copy.model() == self.model(),
    {
        match self {
            OrderCommand::Create(x) => OrderCommand::Create(x.clone()),
            OrderCommand::MarkAsPrepared(x) => OrderCommand::MarkAsPrepared(*x),
        }
    }
}

impl Faithful for OrderCommand {
    proof fn copy_has_model(source: Self, copy: Self) {
    }
}

/// The intent to create an order.
#[derive(Debug, PartialEq, Eq)]
pub struct CreateOrder {
    pub identifier: OrderId,
    pub restaurant_identifier: RestaurantId,
    pub line_items: Vec<OrderLineItem>,
}

/// What the intent to create an order stands for.
pub struct CreateOrderModel {
    pub identifier: OrderId,
    pub restaurant_identifier: RestaurantId,
    pub line_items: Seq<OrderLineItemModel>,
}

impl Model for CreateOrder {
    type M = CreateOrderModel;

    open spec fn model(&self) -> CreateOrderModel {
        CreateOrderModel {
            identifier: self.identifier,
            restaurant_identifier: self.restaurant_identifier,
            line_items: self.line_items.model(),
        }
    }
}

impl Clone for CreateOrder {
    fn clone(&self) -> (copy: Self)
        ensures
            copy.model() == self.model(),
    {
        CreateOrder {
            identifier: self.identifier,
            restaurant_identifier: self.restaurant_identifier,
            line_items: clone_vec(&self.line_items),
        }
    }
}

impl Faithful for CreateOrder {
    proof fn copy_has_model(source: Self, copy: Self) {
    }
}

/// The intent to mark an order as prepared.
#[derive(Clone, Copy, Debug, PartialEq, Eq)]
pub struct MarkOrderAsPrepared {
    pub identifier: OrderId,
}

impl Model for MarkOrderAsPrepared {
    type M = MarkOrderAsPrepared;

    open spec fn model(&self) -> MarkOrderAsPrepared {
        *self
    }
}

impl Faithful for MarkOrderAsPrepared {
    proof fn copy_has_model(source: Self, copy: Self) {
    }
}

// Events of a restaurant.

/// Every fact that can be recorded of a restaurant.
#[derive(Debug, PartialEq, Eq)]
pub enum RestaurantEvent {
    Created(RestaurantCreated),
    MenuChanged(RestaurantMenuChanged),
    OrderPlaced(OrderPlaced),
}

/// What a restaurant event stands for.
pub enum RestaurantEventModel {
    Created(RestaurantCreatedModel),
    MenuChanged(RestaurantMenuChangedModel),
    OrderPlaced(OrderPlacedModel),
}

impl Model for RestaurantEvent {
    type M = RestaurantEventModel;

    open spec fn model(&self) -> RestaurantEventModel {
        match self {
            RestaurantEvent::Created(x) => RestaurantEventModel::Created(x.model()),
            RestaurantEvent::MenuChanged(x) => RestaurantEventModel::MenuChanged(x.model()),
            RestaurantEvent::OrderPlaced(x) => RestaurantEventModel::OrderPlaced(x.model()),
        }
    }
}

impl Clone for RestaurantEvent {
    fn clone(&self) -> (copy: Self)
        ensures
            copy.model() == self.model(),
    {
        match self {
            RestaurantEvent::Created(x) => RestaurantEvent::Created(x.clone()),
            RestaurantEvent::MenuChanged(x) => RestaurantEvent::MenuChanged(x.clone()),
            RestaurantEvent::OrderPlaced(x) => RestaurantEvent::OrderPlaced(x.clone()),
        }
    }
}

impl Faithful for RestaurantEvent {
    proof fn copy_has_model(source: Self, copy: Self) {
    }
}

/// The fact that a restaurant was created.
#[derive(Debug, PartialEq, Eq)]
pub struct RestaurantCreated {
    pub identifier: RestaurantId,
    pub name: RestaurantName,
    pub menu: RestaurantMenu,
    pub is_final: bool,
}

/// What the creation of a restaurant stands for.
pub struct RestaurantCreatedModel {
    pub identifier: RestaurantId,
    pub name: Seq<char>,
    pub menu: RestaurantMenuModel,
    pub is_final: bool,
}

impl Model for RestaurantCreated {
    type M = RestaurantCreatedModel;

    open spec fn model(&self) -> RestaurantCreatedModel {
        RestaurantCreatedModel {
            identifier: self.identifier,
            name: self.name.model(),
            menu: self.menu.model(),
            is_final: self.is_final,
        }
    }
}

impl Clone for RestaurantCreated {
    fn clone(&self) -> (copy: Self)
        ensures
            copy.model() == self.model(),
    {
        RestaurantCreated {
            identifier: self.identifier,
            name: self.name.clone(),
            menu: self.menu.clone(),
            is_final: self.is_final,
        }
    }
}

impl Faithful for RestaurantCreated {
    proof fn copy_has_model(source: Self, copy: Self) {
    }
}

/// The fact that the menu of a restaurant was changed.
#[derive(Debug, PartialEq, Eq)]
pub struct RestaurantMenuChanged {
    pub identifier: RestaurantId,
    pub menu: RestaurantMenu,
    pub is_final: bool,
}

/// What a change of menu stands for.
pub struct RestaurantMenuChangedModel {
    pub identifier: RestaurantId,
    pub menu: RestaurantMenuModel,
    pub is_final: bool,
}

impl Model for RestaurantMenuChanged {
    type M = RestaurantMenuChangedModel;

    open spec fn model(&self) -> RestaurantMenuChangedModel {
        RestaurantMenuChangedModel {
            identifier: self.identifier,
            menu: self.menu.model(),
            is_final: self.is_final,
        }
    }
}

impl Clone for RestaurantMenuChanged {
    fn clone(&self) -> (copy: Self)
        ensures
            copy.model() == self.model(),
    {
        RestaurantMenuChanged {
            identifier: self.identifier,
            menu: self.menu.clone(),
            is_final: self.is_final,
        }
    }
}

impl Faithful for RestaurantMenuChanged {
    proof fn copy_has_model(source: Self, copy: Self) {
    }
}

/// The fact that an order was placed at a restaurant.
#[derive(Debug, PartialEq, Eq)]
pub struct OrderPlaced {
    pub identifier: RestaurantId,
    pub order_identifier: OrderId,
    pub line_items: Vec<OrderLineItem>,
    pub is_final: bool,
}

/// What the placing of an order stands for.
pub struct OrderPlacedModel {
    pub identifier: RestaurantId,
    pub order_identifier: OrderId,
    pub line_items: Seq<OrderLineItemModel>,
    pub is_final: bool,
}

impl Model for OrderPlaced {
    type M = OrderPlacedModel;

    open spec fn model(&self) -> OrderPlacedModel {
        OrderPlacedModel {
            identifier: self.identifier,
            order_identifier: self.order_identifier,
            line_items: self.line_items.model(),
            is_final: self.is_final,
        }
    }
}

impl Clone for OrderPlaced {
    fn clone(&self) -> (copy: Self)
        ensures
            copy.model() == self.model(),
    {
        OrderPlaced {
            identifier: self.identifier,
            order_identifier: self.order_identifier,
            line_items: clone_vec(&self.line_items),
            is_final: self.is_final,
        }
    }
}

impl Faithful for OrderPlaced {
    proof fn copy_has_model(source: Self, copy: Self) {
    }
}

// Events of an order.

/// Every fact that can be recorded of an order.
#[derive(Debug, PartialEq, Eq)]
pub enum OrderEvent {
    Created(OrderCreated),
    Prepared(OrderPrepared),
}

/// What an order event stands for.
pub enum OrderEventModel {
    Created(OrderCreatedModel),
    Prepared(OrderPrepared),
}

impl Model for OrderEvent {
    type M = OrderEventModel;

    open spec fn model(&self) -> OrderEventModel {
        match self {
            OrderEvent::Created(x) => OrderEventModel::Created(x.model()),
            OrderEvent::Prepared(x) => OrderEventModel::Prepared(*x),
        }
    }
}

impl Clone for OrderEvent {
    fn clone(&self) -> (copy: Self)
        ensures
            copy.model() == self.model(),
    {
        match self {
            OrderEvent::Created(x) => OrderEvent::Created(x.clone()),
            OrderEvent::Prepared(x) => OrderEvent::Prepared(*x),
        }
    }
}

impl Faithful for OrderEvent {
    proof fn copy_has_model(source: Self, copy: Self) {
    }
}

/// The fact that an order was created.
#[derive(Debug, PartialEq, Eq)]
pub struct OrderCreated {
    pub identifier: OrderId,
    pub restaurant_identifier: RestaurantId,
    pub status: OrderStatus,
    pub line_items: Vec<OrderLineItem>,
    pub is_final: bool,
}

/// What the creation of an order stands for.
pub struct OrderCreatedModel {
    pub identifier: OrderId,
    pub restaurant_identifier: RestaurantId,
    pub status: OrderStatus,
    pub line_items: Seq<OrderLineItemModel>,
    pub is_final: bool,
}

impl Model for OrderCreated {
    type M = OrderCreatedModel;

    open spec fn model(&self) -> OrderCreatedModel {
        OrderCreatedModel {
            identifier: self.identifier,
            restaurant_identifier: self.restaurant_identifier,
            status: self.status,
            line_items: self.line_items.model(),
            is_final: self.is_final,
        }
    }
}

impl Clone for OrderCreated {
    fn clone(&self) -> (copy: Self)
        ensures
            copy.model() == self.model(),
    {
        OrderCreated {
            identifier: self.identifier,
            restaurant_identifier: self.restaurant_identifier,
            status: self.status,
            line_items: clone_vec(&self.line_items),
            is_final: self.is_final,
        }
    }
}

impl Faithful for OrderCreated {
    proof fn copy_has_model(source: Self, copy: Self) {
    }
}

/// The fact that an order was prepared.
#[derive(Clone, Copy, Debug, PartialEq, Eq)]
pub struct OrderPrepared {
    pub identifier: OrderId,
    pub status: OrderStatus,
    pub is_final: bool,
}

impl Model for OrderPrepared {
    type M = OrderPrepared;

    open spec fn model(&self) -> OrderPrepared {
        *self
    }
}

impl Faithful for OrderPrepared {
    proof fn copy_has_model(source: Self, copy: Self) {
    }
}

impl RestaurantEventModel {
    /// The restaurant that the event belongs to.
    pub open spec fn identifier(self) -> RestaurantId {
        match self {
            RestaurantEventModel::Created(e) => e.identifier,
            RestaurantEventModel::MenuChanged(e) => e.identifier,
            RestaurantEventModel::OrderPlaced(e) => e.identifier,
        }
    }
}

impl Identifier for RestaurantEvent {
    open spec fn identifier_of(message: RestaurantEventModel) -> Uuid {
        message.identifier().0
    }

    fn identifier(&self) -> (id: Uuid) {
        match self {
            RestaurantEvent::Created(e) => e.identifier.0,
            RestaurantEvent::MenuChanged(e) => e.identifier.0,
            RestaurantEvent::OrderPlaced(e) => e.identifier.0,
        }
    }
}

impl OrderEventModel {
    /// The order that the event belongs to.
    pub open spec fn identifier(self) -> OrderId {
        match self {
            OrderEventModel::Created(e) => e.identifier,
            OrderEventModel::Prepared(e) => e.identifier,
        }
    }
}

impl Identifier for OrderEvent {
    open spec fn identifier_of(message: OrderEventModel) -> Uuid {
        message.identifier().0
    }

    fn identifier(&self) -> (id: Uuid) {
        match self {
            OrderEvent::Created(e) => e.identifier.0,
            OrderEvent::Prepared(e) => e.identifier.0,
        }
    }
}

} // verus!
