//! A thin, verified calling convention around the KaHIP graph partitioner.
//!
//! The library checks a graph given in compressed sparse row form, holds the
//! caller's buffers, and lays out the argument list of one call into the
//! partitioning engine.
pub mod graph;
pub mod mode;

pub use graph::{Graph, GraphError, GraphView, Idx, PartitionCall};
pub use mode::Mode;
