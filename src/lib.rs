//! A verified core for assembling differentially private pipelines.
//!
//! Domains, metrics and measures describe what data looks like and how
//! distances between data are counted. Transformations and measurements pair a
//! function with a relation that certifies how far outputs may move when inputs
//! move. The composition operators build new, provably sound relations out of
//! the relations of their parts.

pub mod error;
pub mod arith;
pub mod domains;
pub mod framework;
pub mod metrics;
pub mod relation;
pub mod measures;
pub mod sum;
pub mod any_metric;
pub mod tooling;
