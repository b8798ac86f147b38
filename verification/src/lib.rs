//! A verified model of a live media pipeline's construction and lifecycle.
//!
//! The library decides everything the pipeline controller has to decide:
//! which processing nodes to create, which properties to set on them, how
//! to wire them into a graph, when the graph may start playing, and how to
//! react to control-bus events.  The decisions are plain data (node kind
//! names, property values, links), so an unverified shell can hand them to
//! the actual media engine one by one.

pub mod address;
pub mod chains;
pub mod config;
pub mod encoding;
pub mod graph;
pub mod lifecycle;
pub mod pipeline;
