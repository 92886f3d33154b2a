pub mod futures;
pub mod market;
pub mod trade;
pub mod funding;
pub mod account;
pub mod websocket;
pub mod paper;
