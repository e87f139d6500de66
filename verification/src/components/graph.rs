//! The trusted boundary around the graph structure that stores the circuit.
//!
//! The store is a directed `petgraph` graph whose node weights are the
//! circuit's components and whose edges carry no payload. Verus sees the
//! graph only through the two names below — the sequence of stored
//! components and the sequence of stored edges — and through small wrapper
//! functions whose contracts state, over those names, what the called
//! `petgraph` methods do.

use vstd::prelude::*;

use super::{ComponentData, ComponentKind};

verus! {

#[verifier::external_type_specification]
#[verifier::external_body]
#[verifier::reject_recursive_types(N)]
#[verifier::reject_recursive_types(E)]
#[verifier::reject_recursive_types(Ty)]
#[verifier::reject_recursive_types(Ix)]
pub struct ExGraph<N, E, Ty, Ix>(petgraph::graph::Graph<N, E, Ty, Ix>);

#[verifier::external_type_specification]
#[verifier::external_body]
pub struct ExDirected(petgraph::Directed);

/// The components stored in the graph, in insertion order: for each node,
/// its kind and its name.
pub uninterp spec fn graph_nodes(
    g: petgraph::graph::Graph<ComponentData, (), petgraph::Directed, u32>,
) -> Seq<(ComponentKind, Seq<char>)>;

/// The directed edges stored in the graph, in insertion order, as
/// (source node index, target node index) pairs.
pub uninterp spec fn graph_edges(
    g: petgraph::graph::Graph<ComponentData, (), petgraph::Directed, u32>,
) -> Seq<(int, int)>;

/// The number of edges in `edges` that end at node `v`, counting raw
/// multiplicity: parallel edges count once each, and a self-loop at `v`
/// counts here as well as in `out_degree`.
pub open spec fn in_degree(edges: Seq<(int, int)>, v: int) -> nat
    decreases edges.len(),
{
    if edges.len() == 0 {
        0
    } else {
        in_degree(edges.drop_last(), v) + if edges.last().1 == v {
            1nat
        } else {
            0nat
        }
    }
}

/// The number of edges in `edges` that start at node `v`, counting raw
/// multiplicity.
pub open spec fn out_degree(edges: Seq<(int, int)>, v: int) -> nat
    decreases edges.len(),
{
    if edges.len() == 0 {
        0
    } else {
        out_degree(edges.drop_last(), v) + if edges.last().0 == v {
            1nat
        } else {
            0nat
        }
    }
}

/// Relies on `Graph::new`: the new graph has no nodes and no edges.
#[verifier::external_body]
pub(crate) fn graph_new() -> (g: petgraph::graph::Graph<ComponentData, (), petgraph::Directed, u32>)
    ensures
        graph_nodes(g) == Seq::<(ComponentKind, Seq<char>)>::empty(),
        graph_edges(g) == Seq::<(int, int)>::empty(),
{
    petgraph::graph::Graph::new()
}

/// Relies on `Graph::add_node`: the node is appended to the node list and
/// its index, the previous node count, is returned. `add_node` panics only
/// when the node count has reached the index type's maximum, which the
/// precondition rules out.
#[verifier::external_body]
pub(crate) fn graph_add_node(
    g: &mut petgraph::graph::Graph<ComponentData, (), petgraph::Directed, u32>,
    data: ComponentData,
) -> (i: usize)
    requires
        graph_nodes(*old(g)).len() < u32::MAX as nat,
    ensures
        i as int == graph_nodes(*old(g)).len(),
        graph_nodes(*final(g)) == graph_nodes(*old(g)).push((data.kind, data.name@)),
        graph_edges(*final(g)) == graph_edges(*old(g)),
{
    g.add_node(data).index()
}

/// Relies on `Graph::add_edge`: the directed edge `from -> to` is appended
/// to the edge list; nodes are untouched. `add_edge` panics only when an
/// endpoint is out of range or the edge count has reached the index type's
/// maximum, which the preconditions rule out.
#[verifier::external_body]
pub(crate) fn graph_add_edge(
    g: &mut petgraph::graph::Graph<ComponentData, (), petgraph::Directed, u32>,
    from: usize,
    to: usize,
)
    requires
        (from as int) < graph_nodes(*old(g)).len(),
        (to as int) < graph_nodes(*old(g)).len(),
        graph_edges(*old(g)).len() < u32::MAX as nat,
    ensures
        graph_nodes(*final(g)) == graph_nodes(*old(g)),
        graph_edges(*final(g)) == graph_edges(*old(g)).push((from as int, to as int)),
{
    g.add_edge(
        petgraph::graph::NodeIndex::new(from),
        petgraph::graph::NodeIndex::new(to),
        (),
    );
}

/// Relies on `Graph::node_count`: it returns the length of the node list.
#[verifier::external_body]
pub(crate) fn graph_node_count(
    g: &petgraph::graph::Graph<ComponentData, (), petgraph::Directed, u32>,
) -> (n: usize)
    ensures
        n as int == graph_nodes(*g).len(),
{
    g.node_count()
}

/// Relies on `Graph::node_weight`: for an index within the node list it
/// returns `Some` of the weight stored at that index.
#[verifier::external_body]
pub(crate) fn graph_node_data(
    g: &petgraph::graph::Graph<ComponentData, (), petgraph::Directed, u32>,
    i: usize,
) -> (d: &ComponentData)
    requires
        (i as int) < graph_nodes(*g).len(),
    ensures
        (d.kind, d.name@) == graph_nodes(*g)[i as int],
{
    g.node_weight(petgraph::graph::NodeIndex::new(i)).unwrap()
}

/// Relies on `Graph::edges_directed` with `Incoming` on a directed graph:
/// it yields exactly the edges whose target is the given node, one item per
/// stored edge, so counting them gives the node's in-degree.
#[verifier::external_body]
pub(crate) fn graph_count_incoming(
    g: &petgraph::graph::Graph<ComponentData, (), petgraph::Directed, u32>,
    i: usize,
) -> (n: usize)
    requires
        (i as int) < graph_nodes(*g).len(),
    ensures
        n as int == in_degree(graph_edges(*g), i as int),
{
    g.edges_directed(petgraph::graph::NodeIndex::new(i), petgraph::Incoming).count()
}

/// Relies on `Graph::edges_directed` with `Outgoing` on a directed graph:
/// it yields exactly the edges whose source is the given node, one item per
/// stored edge, so counting them gives the node's out-degree.
#[verifier::external_body]
pub(crate) fn graph_count_outgoing(
    g: &petgraph::graph::Graph<ComponentData, (), petgraph::Directed, u32>,
    i: usize,
) -> (n: usize)
    requires
        (i as int) < graph_nodes(*g).len(),
    ensures
        n as int == out_degree(graph_edges(*g), i as int),
{
    g.edges_directed(petgraph::graph::NodeIndex::new(i), petgraph::Outgoing).count()
}

} // verus!
