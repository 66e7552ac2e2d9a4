//! Ticket workflow engine for reporting and resolving defects in course media.
//!
//! Students report problems with study material; tutors and authors triage them through a
//! small status state machine. The library holds the data model, the role hierarchy, the
//! transition rules, an in-memory store that plays the part of the persistence layer, and the
//! services that couple state changes to outbound notifications.

pub mod accounts;
pub mod config;
pub mod email;
pub mod entities;
pub mod error;
pub mod fairings;
pub mod forms;
pub mod hashing;
pub mod language;
pub mod laws;
pub mod models;
pub mod names;
pub mod pages;
pub mod roles;
pub mod services;
pub mod store;
pub mod text;
