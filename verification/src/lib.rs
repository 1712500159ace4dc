//! Event sourcing with orchestration. A decider turns a command into events
//! and folds events into state; a saga reacts to events with further
//! commands; an aggregate handles a command with all the commands that
//! follow from it and records every event that came of it at once, in order;
//! a materialized view projects events into states to be read. Restaurants
//! and orders show how it is used.
//!
//! Contracts speak of models: what a command, an event or a log stands for,
//! whatever memory holds it.

pub mod application;
pub mod domain;
pub mod framework;
pub mod infrastructure;
pub mod model;
