//! Decisions of the preflight stage of a Taiko prover.

pub mod anchor;
pub mod batch;
pub mod beacon;
pub mod blob;
pub mod block;
pub mod error;
pub mod event;
pub mod execute;
pub mod input;
pub mod outside;
pub mod slot;
pub mod text;
pub mod types;
