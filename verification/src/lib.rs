//! Core of a tracing backend's user-facing surface: how named `Tracer`
//! instances are obtained from a `TracerProvider`, and how a provider-wide
//! flush of every span pipeline is orchestrated and reported.

pub mod config;
pub mod noop;
pub mod provider;
pub mod sdk;
