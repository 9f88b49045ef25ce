//! Builds a textual graph description from a graph of work items.
//!
//! A [`model::Graph`] holds nodes, each with a completion percentage, and
//! dependency relations between them. The library maps each percentage onto a
//! ten-step colour scale, renders one declaration statement per node and one
//! edge statement per (source, target) pair, and wraps the statement blocks in
//! a complete `digraph` document. Reading the graph from disk and rendering
//! the document into an image are left to the surrounding program.

pub mod chars;
pub mod colour;
pub mod document;
pub mod model;
pub mod statements;
