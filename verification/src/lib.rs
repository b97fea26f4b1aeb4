//! Authentication and authorization core: registration and sign-in with password or
//! with an external provider, session reconciliation, token signing and refresh,
//! and role-based access control.
//!
//! The library decides and performs no network or database I/O. Each use case is a
//! state machine (see [`flow`]): it names what is to be read, written or sent, its
//! caller does that and reports what came of it, and the use case goes on from
//! there. Policy rules and access checks go through a `casbin::Enforcer`, passwords
//! through Argon2, tokens through `jsonwebtoken`.

pub mod claims;
pub mod config;
pub mod constants;
pub mod cookies;
pub mod dto;
pub mod entities;
pub mod error;
pub mod flow;
pub mod google_jwt;
pub mod hierarchy;
pub mod jwt_maker;
pub mod middleware;
pub mod pagination;
pub mod password;
pub mod policy;
pub mod policy_model;
pub mod rbac;
pub mod response;
pub mod server;
pub mod services;
mod system;
pub mod text;
pub mod usecases;
