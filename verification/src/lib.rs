//! A sandboxed code execution service: user-submitted source code runs inside
//! short-lived, resource-constrained containers, and the captured output is
//! returned to the caller.
//!
//! The heart of the crate is the container lifecycle controller in
//! [`lifecycle`]: an event-driven machine that turns one execution request
//! into one container, races the container against a wall-clock timeout,
//! collects and truncates its output, and guarantees that the container is
//! removed whatever the outcome. The surrounding pure components — language
//! profile resolution, output truncation, log folding — are verified here as
//! well; the HTTP boundary and the daemon client live outside the library and
//! only perform the steps this library decides on.

pub mod config;
pub mod lifecycle;
pub mod logs;
pub mod mapper;
pub mod models;
pub mod numerals;
pub mod profile;
pub mod text;
pub mod truncate;
