//! Kernel graph optimization stubs.
//!
//! The fused numerical kernels themselves are floating-point code outside
//! the library; what lives here is the graph pass interface.

use vstd::prelude::*;

verus! {

/// Simple dynamic graph node used for optimization stubs.
#[derive(Clone, Copy)]
pub struct GraphNode {
    pub name: &'static str,
}

/// Runs a pass-through optimization returning the provided graph
/// unmodified.
pub fn optimize_graph(nodes: &[GraphNode]) -> (out: Vec<GraphNode>)
    ensures
        out@ == nodes@,
{
    let mut out: Vec<GraphNode> = Vec::new();
    let n: usize = nodes.len();
    let mut i: usize = 0;
    while i < n
        invariant
            n == nodes@.len(),
            i <= n,
            out@ == nodes@.take(i as int),
        decreases n - i,
    {
        out.push(nodes[i]);
        proof {
            assert(out@ =~= nodes@.take(i + 1));
        }
        i = i + 1;
    }
    proof {
        assert(nodes@.take(n as int) =~= nodes@);
    }
    out
}

} // verus!
