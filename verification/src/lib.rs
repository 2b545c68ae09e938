//! Decision logic of two broker workers: one answers a profile with a list of
//! generated service records, the other republishes an aggregated record twice.
//!
//! The library holds every rule of the workers (the poll, decode, transform,
//! encode and publish cycle, the record templates, the configuration default)
//! as verified functions on plain values. Talking to the broker and turning
//! bytes into values is left to the program that drives it.

pub mod clock;
pub mod codec;
pub mod config;
pub mod ident;
pub mod laws;
pub mod notice;
pub mod payload;
pub mod text;
pub mod transform;
pub mod worker;
