//! The pipeline's graph and the per-node status snapshot.

use vstd::prelude::*;

verus! {

/// How far a node has come.
pub enum ExecutionState {
    Waiting,
    Running,
    Success,
    /// Failed, with the detail the pipeline gave (possibly empty).
    Error(String),
}

/// The mathematical value of an [`ExecutionState`].
pub enum StateView {
    Waiting,
    Running,
    Success,
    Error(Seq<char>),
}

impl View for ExecutionState {
    type V = StateView;

    open spec fn view(&self) -> StateView {
        match self {
            ExecutionState::Waiting => StateView::Waiting,
            ExecutionState::Running => StateView::Running,
            ExecutionState::Success => StateView::Success,
            ExecutionState::Error(detail) => StateView::Error(detail@),
        }
    }
}

/// A state that no longer changes: success or error.
pub open spec fn terminal(s: StateView) -> bool {
    s is Success || s is Error
}

impl ExecutionState {
    /// Whether the state is final (`Success` or `Error`).
    pub fn is_terminal(&self) -> (r: bool)
        ensures
            r == terminal(self@),
    {
        match self {
            ExecutionState::Success | ExecutionState::Error(_) => true,
            _ => false,
        }
    }
}

/// One node's status: its state and one optional counter per port. An
/// absent counter has not been observed yet, which is not the same as zero.
pub struct NodeStatus {
    pub state: ExecutionState,
    pub input_read: Vec<Option<u64>>,
    pub output_written: Vec<Option<u64>>,
}

pub struct NodeStatusView {
    pub state: StateView,
    pub input_read: Seq<Option<u64>>,
    pub output_written: Seq<Option<u64>>,
}

impl View for NodeStatus {
    type V = NodeStatusView;

    open spec fn view(&self) -> NodeStatusView {
        NodeStatusView {
            state: self.state@,
            input_read: self.input_read@,
            output_written: self.output_written@,
        }
    }
}

/// Whether some counter of the sequence is present.
pub open spec fn any_present(counters: Seq<Option<u64>>) -> bool {
    exists|i: int| 0 <= i < counters.len() && counters[i] is Some
}

/// The sum of the present counters of the sequence.
pub open spec fn sum_present(counters: Seq<Option<u64>>) -> int
    decreases counters.len(),
{
    if counters.len() == 0 {
        0
    } else {
        sum_present(counters.drop_last()) + match counters.last() {
            Some(n) => n as int,
            None => 0,
        }
    }
}

/// A node's total records: the sum of its present counters on both sides,
/// absent when no counter at all is present.
pub open spec fn total_records(st: NodeStatusView) -> Option<int> {
    if any_present(st.input_read) || any_present(st.output_written) {
        Some(sum_present(st.input_read) + sum_present(st.output_written))
    } else {
        None
    }
}

/// The counter of a port, absent when the port is not listed.
pub open spec fn port_counter(counters: Seq<Option<u64>>, port: u32) -> Option<u64> {
    if (port as int) < counters.len() {
        counters[port as int]
    } else {
        None
    }
}

/// Whether some counter of the list is present.
pub fn has_present(counters: &Vec<Option<u64>>) -> (r: bool)
    ensures
        r == any_present(counters@),
{
    let mut i: usize = 0;
    while i < counters.len()
        invariant
            i <= counters@.len(),
            forall|j: int| 0 <= j < i ==> counters@[j] is None,
        decreases counters@.len() - i,
    {
        if counters[i].is_some() {
            return true;
        }
        i = i + 1;
    }
    false
}

/// The counter of a port, `None` when it is absent or the port is not listed.
pub fn counter_at(counters: &Vec<Option<u64>>, port: u32) -> (r: Option<u64>)
    ensures
        r == port_counter(counters@, port),
{
    if (port as usize) < counters.len() {
        counters[port as usize]
    } else {
        None
    }
}

impl NodeStatus {
    /// Whether the node has a total record count, that is some counter on
    /// either side is present.
    pub fn has_total_records(&self) -> (r: bool)
        ensures
            r == (total_records(self@) is Some),
    {
        has_present(&self.input_read) || has_present(&self.output_written)
    }
}

/// A directed edge from an output port of one node to an input port of
/// another.
pub struct Edge {
    pub tail: String,
    pub tail_port: u32,
    pub head: String,
    pub head_port: u32,
}

pub struct EdgeView {
    pub tail: Seq<char>,
    pub tail_port: u32,
    pub head: Seq<char>,
    pub head_port: u32,
}

impl View for Edge {
    type V = EdgeView;

    open spec fn view(&self) -> EdgeView {
        EdgeView { tail: self.tail@, tail_port: self.tail_port, head: self.head@, head_port: self.head_port }
    }
}

/// The pipeline's static graph: node names in order, and edges in order.
pub struct GraphTopology {
    pub nodes: Vec<String>,
    pub edges: Vec<Edge>,
}

pub struct TopologyView {
    pub nodes: Seq<Seq<char>>,
    pub edges: Seq<EdgeView>,
}

impl View for GraphTopology {
    type V = TopologyView;

    open spec fn view(&self) -> TopologyView {
        TopologyView {
            nodes: self.nodes@.map_values(|n: String| n@),
            edges: self.edges@.map_values(|e: Edge| e@),
        }
    }
}

/// Every edge of the topology joins two of its nodes.
pub open spec fn topology_closed(t: TopologyView) -> bool {
    forall|i: int| 0 <= i < t.edges.len() ==> edge_closed(t, #[trigger] t.edges[i])
}

pub open spec fn edge_closed(t: TopologyView, e: EdgeView) -> bool {
    t.nodes.contains(e.tail) && t.nodes.contains(e.head)
}

/// Whether `name` is one of `names`.
pub fn contains_name(names: &Vec<String>, name: &String) -> (r: bool)
    ensures
        r == names@.map_values(|n: String| n@).contains(name@),
{
    let ghost views = names@.map_values(|n: String| n@);
    let mut i: usize = 0;
    while i < names.len()
        invariant
            i <= names@.len(),
            views == names@.map_values(|n: String| n@),
            forall|j: int| 0 <= j < i ==> views[j] != name@,
        decreases names@.len() - i,
    {
        if names[i] == *name {
            assert(views[i as int] == name@);
            return true;
        }
        i = i + 1;
    }
    false
}

impl GraphTopology {
    /// Whether every edge joins two nodes of the topology.
    pub fn is_closed(&self) -> (r: bool)
        ensures
            r == topology_closed(self@),
    {
        let mut k: usize = 0;
        while k < self.edges.len()
            invariant
                k <= self.edges@.len(),
                forall|j: int| 0 <= j < k ==> edge_closed(self@, #[trigger] self@.edges[j]),
            decreases self.edges@.len() - k,
        {
            let e = &self.edges[k];
            assert(self@.edges[k as int] == e@);
            if !contains_name(&self.nodes, &e.tail) || !contains_name(&self.nodes, &e.head) {
                assert(!edge_closed(self@, self@.edges[k as int]));
                return false;
            }
            assert(edge_closed(self@, self@.edges[k as int]));
            k = k + 1;
        }
        true
    }
}

/// One node's entry in a snapshot.
pub struct NodeEntry {
    pub name: String,
    pub status: NodeStatus,
}

/// The status of every node, read in one round trip. Where a name occurs
/// more than once the later entry stands.
pub struct StatusSnapshot {
    pub entries: Vec<NodeEntry>,
}

impl View for StatusSnapshot {
    type V = Seq<(Seq<char>, NodeStatusView)>;

    open spec fn view(&self) -> Seq<(Seq<char>, NodeStatusView)> {
        self.entries@.map_values(|e: NodeEntry| (e.name@, e.status@))
    }
}

/// The status that a snapshot gives a name: that of its last entry of that
/// name.
pub open spec fn status_of(s: Seq<(Seq<char>, NodeStatusView)>, name: Seq<char>) -> Option<
    NodeStatusView,
>
    decreases s.len(),
{
    if s.len() == 0 {
        None
    } else if s.last().0 == name {
        Some(s.last().1)
    } else {
        status_of(s.drop_last(), name)
    }
}

/// The snapshot has a status for every node of the topology.
pub open spec fn covers(t: TopologyView, s: Seq<(Seq<char>, NodeStatusView)>) -> bool {
    forall|i: int| 0 <= i < t.nodes.len() ==> (#[trigger] status_of(s, t.nodes[i])) is Some
}

/// Every node of the snapshot is in a terminal state.
pub open spec fn all_terminal(s: Seq<(Seq<char>, NodeStatusView)>) -> bool {
    forall|i: int| 0 <= i < s.len() ==> terminal(#[trigger] s[i].1.state)
}

impl StatusSnapshot {
    /// The index of the entry that stands for `name`: the last one of that
    /// name.
    pub fn find(&self, name: &String) -> (r: Option<usize>)
        ensures
            match r {
                Some(i) => i < self@.len() && self@[i as int].0 == name@ && status_of(self@, name@)
                    == Some(self@[i as int].1),
                None => status_of(self@, name@) is None,
            },
    {
        let mut k: usize = self.entries.len();
        assert(self@.subrange(0, k as int) =~= self@);
        while k > 0
            invariant
                k <= self.entries@.len(),
                status_of(self@, name@) == status_of(self@.subrange(0, k as int), name@),
            decreases k,
        {
            let ghost prefix = self@.subrange(0, k as int);
            assert(prefix.drop_last() =~= self@.subrange(0, k - 1));
            if self.entries[k - 1].name == *name {
                return Some(k - 1);
            }
            k = k - 1;
        }
        None
    }

    /// Whether the snapshot holds a status for every node of the topology.
    pub fn covers(&self, topology: &GraphTopology) -> (r: bool)
        ensures
            r == covers(topology@, self@),
    {
        let mut i: usize = 0;
        while i < topology.nodes.len()
            invariant
                i <= topology.nodes@.len(),
                forall|j: int|
                    0 <= j < i ==> (#[trigger] status_of(self@, topology@.nodes[j])) is Some,
            decreases topology.nodes@.len() - i,
        {
            if self.find(&topology.nodes[i]).is_none() {
                assert(topology@.nodes[i as int] == topology.nodes@[i as int]@);
                assert(status_of(self@, topology@.nodes[i as int]) is None);
                return false;
            }
            i = i + 1;
        }
        true
    }
}

/// Whether the pipeline has finished: every node of the snapshot is in a
/// terminal state (`Success` or `Error`); a single `Waiting` or `Running`
/// node means it has not.
pub fn is_finished(snapshot: &StatusSnapshot) -> (r: bool)
    ensures
        r == all_terminal(snapshot@),
        r <==> forall|i: int|
            0 <= i < snapshot@.len() ==> terminal(#[trigger] snapshot@[i].1.state),
        !r <==> exists|i: int|
            0 <= i < snapshot@.len() && (snapshot@[i].1.state is Waiting || snapshot@[i].1.state is Running),
{
    let mut i: usize = 0;
    while i < snapshot.entries.len()
        invariant
            i <= snapshot@.len(),
            forall|j: int| 0 <= j < i ==> terminal(#[trigger] snapshot@[j].1.state),
        decreases snapshot@.len() - i,
    {
        if !snapshot.entries[i].status.state.is_terminal() {
            assert(!terminal(snapshot@[i as int].1.state));
            return false;
        }
        i = i + 1;
    }
    true
}

} // verus!
