//! Verified core of a token-based authentication service.
//!
//! The library covers the three components with real invariants: the
//! credential hasher (salted one-way digests and their verification), the
//! token issuer/verifier (signed, time-bound identity assertions), and the
//! access guard (admitting or rejecting an operation from its presented
//! credential). Transport, persistence and process bootstrap live outside
//! the library and hand it plain values.

pub mod config;
pub mod controllers;
pub mod health;
pub mod jwt;
pub mod middleware;
pub mod user_service;
