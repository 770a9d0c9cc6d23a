//! Core domain logic of a network discovery and inventory service.

pub mod api;
pub mod auth;
pub mod cli;
pub mod crud;
pub mod daemon;
pub mod daemon_discovery;
pub mod discovery;
pub mod entity;
pub mod group;
pub mod ids;
pub mod network;
pub mod oidc;
pub mod service_definitions;
pub mod subnet;
pub mod subnet_type;
pub mod text;
pub mod user;
pub mod web;
pub mod laws;
