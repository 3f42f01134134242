//! Cinema seat booking: seat layout, seat-map states, booking and hold stores,
//! authentication decisions and the HTTP error mapping, all with verified contracts.

pub mod text;
pub mod seat_layout;
pub mod db;
pub mod store_port;
pub mod uuids;
pub mod store;
pub mod store_memory;
pub mod store_adapter_memory;
pub mod auth;
pub mod middlewares;
pub mod seat_states;
pub mod error;
pub mod trailbase;
pub mod templates;
pub mod controllers;
pub mod views;
pub mod store_adapter_redis;
