pub mod config;
pub mod generator;
pub mod lci;
pub mod mqtt;
pub mod notification;
pub mod state;
pub mod units;
pub mod web;
