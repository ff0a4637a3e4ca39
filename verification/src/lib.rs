//! Assembly of streamed block fragments ("flashblocks") into execution payloads.
//!
//! A block builder streams one block as a sequence of fragments: the first
//! carries the fields fixed for the whole block, every one carries the fields
//! that grow or are refined as transactions are added. This crate folds such a
//! stream into one execution payload, tracks which build job is current, and
//! decides when a payload request can be answered from the fragments received.
//!
//! Everything here is plain data and pure decisions; locks, sockets and the
//! engine connection belong to the caller.

pub mod builder;
pub mod debug_api;
pub mod envelope;
pub mod error;
pub mod laws;
pub mod primitives;
pub mod service;

