use vstd::prelude::*;

pub mod models;
pub mod text;
pub mod ids;
pub mod services;
pub mod readings;
pub mod paging;
pub mod config;
pub mod error;
pub mod websocket;
pub mod mq;
pub mod handlers;
pub mod db;
pub mod store;
pub mod rows;

verus! {
} // verus!
