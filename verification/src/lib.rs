//! Zeptodo: a minimalist single-user to-do application.
//!
//! This crate holds the verified core: task and API-key domain rules,
//! request validation, credential reconciliation, rate-limit keys, CSRF
//! comparison and the Markdown rendering pipeline.
pub mod api;
pub mod auth;
pub mod config;
pub mod crypto;
pub mod domain;
pub mod text;
pub mod web;
