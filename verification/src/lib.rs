//! Routing and health-state core of a small HTTP diagnostic service.

pub mod config;
pub mod handlers;
pub mod health;
pub mod ingest;
pub mod method;
pub mod page;
pub mod response;
pub mod route;
pub mod service;
pub mod text;
