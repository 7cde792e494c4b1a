//! Verifiable state commitments over three record domains.

pub mod digest;
pub mod text;
pub mod decimal;
pub mod rows;
pub mod leaf;
pub mod commitment;
pub mod error;
pub mod state;
pub mod overall;
pub mod envelope;
pub mod anchor;
pub mod params;
pub mod laws;
