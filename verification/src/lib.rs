//! Routing core of a multi-tenant reverse proxy: clients register a backend
//! target under a short token, and requests addressed to
//! `<token>.<base-domain>` are forwarded to that target.

pub mod create;
pub mod host;
pub mod models;
pub mod proxy;
pub mod registry;
pub mod reply;
pub mod resolver;
pub mod service;
pub mod text;
pub mod trusted;
