//! Authorization and session logic for a guild-configuration service: permission
//! resolution over platform roles and permission groups, a cache-aside configuration
//! path with expiring entries, and the issue and validation of session claims.

pub mod access;
pub mod api;
pub mod auth;
pub mod cache;
pub mod discord;
pub mod error;
pub mod jwt;
pub mod model;
pub mod permissions;
