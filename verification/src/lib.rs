//! A layered CRUD core for three resources — users, products, orders —
//! structured as ports and adapters: plain domain records, one capability
//! contract per resource, a verified in-memory store implementing each
//! contract, a thin service layer, and the pure translation of native
//! storage faults into the shared error taxonomy.

pub mod config;
pub mod domain;
pub mod errmap;
pub mod laws;
pub mod model;
pub mod ports;
pub mod services;
pub mod orders_repo;
pub mod products_repo;
pub mod users_repo;
pub mod web_error;
