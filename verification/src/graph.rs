//! Registration of the pass in the render graph.
//!
//! The pass needs one fixed, linear position in the frame: strictly after
//! the main colour pass — so it reads fully shaded colour plus the depth
//! and normals captured during the same frame's geometry — and strictly
//! before tone mapping.  The graph is therefore modelled as an ordered list
//! of named nodes, and the plugin inserts the edge-detection node between
//! those two neighbours.

use vstd::prelude::*;

verus! {

/// Names of the render-graph nodes this pass cares about; any other node of
/// the host's graph is carried through as `Other`.
#[derive(Clone, Copy, Debug, Hash, PartialEq, Eq, Structural)]
pub enum GraphNodeLabel {
    EndMainPass,
    EdgeDetection,
    Tonemapping,
    Other(u64),
}

/// The label under which the edge-detection node is registered.
#[derive(Clone, Copy, Debug, Hash, PartialEq, Eq, Structural)]
pub struct EdgeDetetctionNodeLabel;

impl EdgeDetetctionNodeLabel {
    /// The graph node this label names.
    pub fn label(&self) -> (l: GraphNodeLabel)
        ensures
            l == GraphNodeLabel::EdgeDetection,
    {
        GraphNodeLabel::EdgeDetection
    }
}

/// The render graph, reduced to what this pass relies on: its nodes in
/// execution order, each label registered at most once.
pub struct RenderGraph {
    pub nodes: Vec<GraphNodeLabel>,
}

impl RenderGraph {
    /// No label is registered twice.
    pub open spec fn distinct(self) -> bool {
        forall|i: int, j: int|
            0 <= i < j < self.nodes@.len() ==> self.nodes@[i] != self.nodes@[j]
    }
}

/// In a duplicate-free sequence, `index_of` finds the one index holding the
/// needle.
proof fn lemma_index_of_unique(s: Seq<GraphNodeLabel>, needle: GraphNodeLabel, k: int)
    requires
        0 <= k < s.len(),
        s[k] == needle,
        forall|i: int, j: int| 0 <= i < j < s.len() ==> s[i] != s[j],
    ensures
        s.index_of(needle) == k,
{
    assert(0 <= k < s.len() && s[k] == needle);
    let i = s.index_of(needle);
    assert(0 <= i < s.len() && s[i] == needle) by {
        assert(exists|j: int| 0 <= j < s.len() && s[j] == needle);
    }
    if i < k {
        assert(s[i] != s[k]);
    } else if k < i {
        assert(s[k] != s[i]);
    }
}

/// The edge-detection plugin: wires the pass into the host application.
/// Here that is its one non-trivial decision — where the node stands in the
/// render graph.
#[derive(Clone, Copy, Debug, Default)]
pub struct EdgeDetectionPlugin;

impl EdgeDetectionPlugin {
    /// Registers the edge-detection node in the render graph with its two
    /// ordering edges: it runs after the end of the main pass and before
    /// tone mapping.  Concretely, the node is inserted immediately after
    /// `EndMainPass`; every other node keeps its relative order.
    pub fn build(&self, graph: &mut RenderGraph)
        requires
            old(graph).distinct(),
            old(graph).nodes@.contains(GraphNodeLabel::EndMainPass),
            old(graph).nodes@.contains(GraphNodeLabel::Tonemapping),
            !old(graph).nodes@.contains(GraphNodeLabel::EdgeDetection),
            old(graph).nodes@.index_of(GraphNodeLabel::EndMainPass) < old(
                graph,
            ).nodes@.index_of(GraphNodeLabel::Tonemapping),
        ensures
            final(graph).distinct(),
            final(graph).nodes@ == old(graph).nodes@.insert(
                old(graph).nodes@.index_of(GraphNodeLabel::EndMainPass) + 1,
                GraphNodeLabel::EdgeDetection,
            ),
            final(graph).nodes@.contains(GraphNodeLabel::EdgeDetection),
            final(graph).nodes@.index_of(GraphNodeLabel::EndMainPass) < final(graph)
                .nodes@.index_of(GraphNodeLabel::EdgeDetection),
            final(graph).nodes@.index_of(GraphNodeLabel::EdgeDetection) < final(graph)
                .nodes@.index_of(GraphNodeLabel::Tonemapping),
    {
        let ghost old_nodes = graph.nodes@;
        let n: usize = graph.nodes.len();
        let mut i: usize = 0;
        while i < n && graph.nodes[i] != GraphNodeLabel::EndMainPass
            invariant
                n == graph.nodes@.len(),
                graph.nodes@ == old_nodes,
                i <= n,
                forall|j: int| 0 <= j < i ==> graph.nodes@[j] != GraphNodeLabel::EndMainPass,
            decreases n - i,
        {
            i = i + 1;
        }
        proof {
            if i == n {
                let w = choose|w: int|
                    0 <= w < old_nodes.len() && old_nodes[w] == GraphNodeLabel::EndMainPass;
                assert(old_nodes[w] != GraphNodeLabel::EndMainPass);
            }
            lemma_index_of_unique(old_nodes, GraphNodeLabel::EndMainPass, i as int);
        }
        graph.nodes.insert(i + 1, GraphNodeLabel::EdgeDetection);
        proof {
            let pos = i + 1;
            old_nodes.insert_ensures(pos as int, GraphNodeLabel::EdgeDetection);
            let new_nodes = graph.nodes@;
            // Distinctness: the inserted label was absent, everything else
            // merely shifted.
            assert forall|a: int, b: int|
                0 <= a < b < new_nodes.len() implies new_nodes[a] != new_nodes[b] by {
                if a < pos && b < pos {
                    assert(new_nodes[a] == old_nodes[a] && new_nodes[b] == old_nodes[b]);
                } else if a < pos && b == pos {
                    assert(old_nodes[a] != GraphNodeLabel::EdgeDetection);
                } else if a < pos && b > pos {
                    assert(new_nodes[a] == old_nodes[a] && new_nodes[b] == old_nodes[b - 1]);
                } else if a == pos {
                    assert(old_nodes[b - 1] != GraphNodeLabel::EdgeDetection);
                    assert(new_nodes[b] == old_nodes[b - 1]);
                } else {
                    assert(new_nodes[a] == old_nodes[a - 1] && new_nodes[b] == old_nodes[b - 1]);
                }
            }
            // The three labels sit where the ordering edges demand.
            lemma_index_of_unique(new_nodes, GraphNodeLabel::EndMainPass, i as int);
            lemma_index_of_unique(new_nodes, GraphNodeLabel::EdgeDetection, pos as int);
            let t = old_nodes.index_of(GraphNodeLabel::Tonemapping);
            assert(0 <= t < old_nodes.len() && old_nodes[t] == GraphNodeLabel::Tonemapping) by {
                assert(exists|j: int|
                    0 <= j < old_nodes.len() && old_nodes[j] == GraphNodeLabel::Tonemapping);
            }
            assert(new_nodes[t + 1] == old_nodes[t]);
            lemma_index_of_unique(new_nodes, GraphNodeLabel::Tonemapping, t + 1);
        }
    }
}

} // verus!
