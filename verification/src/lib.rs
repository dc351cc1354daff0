//! Checked inputs and results for the Icebug graph engine.
//!
//! The engine is reached through a C++ bridge that lives outside this crate:
//! the bridge performs each engine call and hands the engine's reply to this
//! crate, which decides what it means. Read-only graphs are built from Arrow
//! arrays in compressed sparse row form; [`GraphR`] checks them before the
//! engine sees them.

pub mod arrow;
pub mod csr;
pub mod engine;
pub mod error;

pub use arrow::{FloatColumn, U64Column};
pub use csr::GraphR;
pub use engine::{
    Betweenness, ConnectedComponents, DegreeCentrality, Edge, Graph, Leiden, Louvain, PageRank,
    PartitionResult,
};
pub use error::{invalid_input, lift, EngineException, Error, Result};
