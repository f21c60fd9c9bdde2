//! Counting onion-message support over the nodes of the network graph.

use ldk_node::graph::NetworkGraph;
use ldk_node::lightning::routing::gossip::NodeId;
use ldk_node::lightning::routing::gossip::NodeInfo;
use ldk_node::lightning::types::features::NodeFeatures;
use vstd::prelude::*;

verus! {

/// The node's handle on its network graph. Opaque here: what it holds changes
/// while gossip arrives, so nothing is stated of its contents.
#[verifier::external_type_specification]
#[verifier::external_body]
pub struct ExNetworkGraph(NetworkGraph);

/// The identifier of a node in the graph.
#[verifier::external_type_specification]
#[verifier::external_body]
pub struct ExNodeId(NodeId);

/// What the graph knows of one node.
#[verifier::external_type_specification]
#[verifier::external_body]
pub struct ExNodeInfo(NodeInfo);

/// Whether little-endian feature flags have one of the two onion-message bits
/// set: bit 38 (required) or bit 39 (optional), both in byte 4.
pub open spec fn onion_message_bits(flags: Seq<u8>) -> bool {
    flags.len() > 4 && (flags[4] & 0xC0u8) != 0
}

/// Calls `NetworkGraph::list_nodes`: the identifiers of the nodes that the
/// graph holds at the moment of the call. Nothing is claimed of the result.
#[verifier::external_body]
fn list_nodes(graph: &NetworkGraph) -> Vec<NodeId> {
    graph.list_nodes()
}

/// Calls `NetworkGraph::node`: the graph's entry for `id`, if it has one at
/// the moment of the call. Nothing is claimed of the result.
#[verifier::external_body]
fn node(graph: &NetworkGraph, id: &NodeId) -> Option<NodeInfo> {
    graph.node(id)
}

/// Reads the `announcement_info` field of a `NodeInfo` and, where the node has
/// announced itself, calls `NodeAnnouncementInfo::features` and copies the
/// little-endian flag bytes out. Nothing is claimed of the result.
#[verifier::external_body]
fn announced_features(info: &NodeInfo) -> Option<Vec<u8>> {
    match &info.announcement_info {
        Some(announcement) => Some(announcement.features().le_flags().to_vec()),
        None => None,
    }
}

/// Calls `NodeFeatures::supports_onion_messages` on the features with the
/// given little-endian flag bytes. That method answers whether the flags
/// reach byte 4 and that byte has the required or the optional onion-message
/// bit set, which is what the contract states.
#[verifier::external_body]
fn features_support_onion_messages(flags: &Vec<u8>) -> (supported: bool)
    ensures
        supported == onion_message_bits(flags@),
{
    NodeFeatures::from_le_bytes(flags.clone()).supports_onion_messages()
}

/// What the monitor reads of one node of the graph.
#[derive(Clone, Debug, PartialEq, Eq)]
pub struct NodeRecord {
    /// The little-endian feature flags of the node's announcement; `None`
    /// while the graph holds no announcement of the node.
    pub features: Option<Vec<u8>>,
}

impl NodeRecord {
    /// The node has announced itself.
    pub open spec fn announced(self) -> bool {
        self.features is Some
    }

    /// The node has announced itself, with onion-message support among its
    /// features.
    pub open spec fn supports(self) -> bool {
        self.features matches Some(flags) && onion_message_bits(flags@)
    }

    /// Whether the node has announced itself.
    pub fn is_announced(&self) -> (announced: bool)
        ensures
            announced == self.announced(),
    {
        self.features.is_some()
    }

    /// Whether the node's announcement advertises onion-message support.
    /// A node without an announcement advertises nothing.
    pub fn supports_onion_messages(&self) -> (supported: bool)
        ensures
            supported == self.supports(),
    {
        match &self.features {
            Some(flags) => features_support_onion_messages(flags),
            None => false,
        }
    }
}

/// The records of the announced nodes, in order.
pub open spec fn announced_nodes(nodes: Seq<NodeRecord>) -> Seq<NodeRecord> {
    nodes.filter(|r: NodeRecord| r.announced())
}

/// The records of the nodes that advertise onion-message support, in order.
pub open spec fn supporting_nodes(nodes: Seq<NodeRecord>) -> Seq<NodeRecord> {
    nodes.filter(|r: NodeRecord| r.supports())
}

/// Appending one record extends each of the two selections by that record
/// exactly when it belongs to the selection.
pub proof fn lemma_counts_push(nodes: Seq<NodeRecord>, r: NodeRecord)
    ensures
        announced_nodes(nodes.push(r)) == if r.announced() {
            announced_nodes(nodes).push(r)
        } else {
            announced_nodes(nodes)
        },
        supporting_nodes(nodes.push(r)) == if r.supports() {
            supporting_nodes(nodes).push(r)
        } else {
            supporting_nodes(nodes)
        },
{
    reveal(Seq::filter);
    assert(nodes.push(r).drop_last() == nodes);
}

/// In every snapshot the nodes that advertise onion-message support are no
/// more than the announced nodes.
pub proof fn lemma_support_within_total(nodes: Seq<NodeRecord>)
    ensures
        supporting_nodes(nodes).len() <= announced_nodes(nodes).len(),
        announced_nodes(nodes).len() <= nodes.len(),
    decreases nodes.len(),
{
    reveal(Seq::filter);
    if nodes.len() > 0 {
        lemma_support_within_total(nodes.drop_last());
        lemma_counts_push(nodes.drop_last(), nodes.last());
        assert(nodes.drop_last().push(nodes.last()) == nodes);
    }
}

/// A node that advertises onion-message support is counted in both tallies:
/// adding it to a snapshot raises the supporting and the announced count by
/// one each.
pub proof fn lemma_supporting_node_counts_in_both(nodes: Seq<NodeRecord>, r: NodeRecord)
    requires
        r.supports(),
    ensures
        r.announced(),
        supporting_nodes(nodes.push(r)).len() == supporting_nodes(nodes).len() + 1,
        announced_nodes(nodes.push(r)).len() == announced_nodes(nodes).len() + 1,
{
    lemma_counts_push(nodes, r);
}

/// Counts, over a snapshot of the graph, the nodes that advertise
/// onion-message support and the announced nodes, in that order.
pub fn count_onion_message_support(nodes: &Vec<NodeRecord>) -> (counts: (usize, usize))
    ensures
        counts.0 == supporting_nodes(nodes@).len(),
        counts.1 == announced_nodes(nodes@).len(),
        counts.0 <= counts.1,
{
    let mut support: usize = 0;
    let mut total: usize = 0;
    let mut i: usize = 0;
    proof {
        reveal(Seq::filter);
        assert(nodes@.take(0) == Seq::<NodeRecord>::empty());
    }
    while i < nodes.len()
        invariant
            i <= nodes.len(),
            support == supporting_nodes(nodes@.take(i as int)).len(),
            total == announced_nodes(nodes@.take(i as int)).len(),
            support <= total <= i,
        decreases nodes.len() - i,
    {
        proof {
            lemma_counts_push(nodes@.take(i as int), nodes@[i as int]);
            assert(nodes@.take(i as int).push(nodes@[i as int]) == nodes@.take(i + 1));
        }
        if nodes[i].is_announced() {
            total = total + 1;
            if nodes[i].supports_onion_messages() {
                support = support + 1;
            }
        }
        i = i + 1;
    }
    proof {
        assert(nodes@.take(i as int) == nodes@);
    }
    (support, total)
}

/// Looks each of the given nodes up in the graph and records what it has
/// announced: one record for each identifier, in the order given. A node that
/// the graph no longer holds when it is looked up is recorded like one
/// without an announcement.
fn records_of(graph: &NetworkGraph, ids: &Vec<NodeId>) -> (records: Vec<NodeRecord>)
    ensures
        records@.len() == ids@.len(),
{
    let mut records: Vec<NodeRecord> = Vec::new();
    let mut i: usize = 0;
    while i < ids.len()
        invariant
            i <= ids.len(),
            records@.len() == i,
        decreases ids.len() - i,
    {
        let features = match node(graph, &ids[i]) {
            Some(info) => announced_features(&info),
            None => None,
        };
        records.push(NodeRecord { features });
        i = i + 1;
    }
    records
}

/// Reads the graph once into records: lists its nodes and records each of
/// them.
fn graph_snapshot(graph: &NetworkGraph) -> (records: Vec<NodeRecord>) {
    let ids = list_nodes(graph);
    records_of(graph, &ids)
}

/// Takes one snapshot of the graph and counts, in that order, the nodes that
/// advertise onion-message support and the announced nodes.
///
/// The graph changes while gossip arrives, so the counts are those of the
/// moment; whatever the graph held, the first never exceeds the second.
pub fn network_onion_message_support(network_graph: &NetworkGraph) -> (counts: (usize, usize))
    ensures
        counts.0 <= counts.1,
{
    let snapshot = graph_snapshot(network_graph);
    count_onion_message_support(&snapshot)
}

} // verus!
