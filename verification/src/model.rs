//! The graph data model: work-item nodes, dependency relations, and the
//! error raised when the data breaks its own invariant.

use vstd::prelude::*;

verus! {

/// One work item of the graph.
pub struct Node {
    /// Unique identifier, inserted verbatim as the node identifier of the
    /// output statement.
    pub short_code: String,
    /// Primary display label.
    pub text: String,
    /// Secondary display label, rendered beneath `text`.
    pub description: String,
    /// Percent completion; meaningful values lie in `[0, 100]`.
    pub doneness: i32,
}

/// One dependency relation: `node` depends on every entry of `depends_on`.
///
/// Neither side is required to name a declared [`Node`]; undeclared endpoints
/// are tolerated and left to the renderer.
pub struct Dependency {
    /// Short code of the dependent node.
    pub node: String,
    /// Short codes this node depends on; may be empty, which yields no edges.
    pub depends_on: Vec<String>,
}

/// The root entity: every node and every dependency relation, in the order
/// they were declared. That order is kept in the output.
pub struct Graph {
    pub nodes: Vec<Node>,
    pub dependencies: Vec<Dependency>,
}

/// A defect in the graph data. The pipeline cannot proceed past it.
#[derive(Clone, Copy, Debug, PartialEq, Eq, Structural)]
pub enum GraphError {
    /// A completion percentage outside `[0, 100]` reached the colour mapping.
    DonenessOutOfRange,
}

/// A node's completion percentage lies in the meaningful range `[0, 100]`.
pub open spec fn doneness_in_range(n: Node) -> bool {
    0 <= n.doneness <= 100
}

} // verus!
