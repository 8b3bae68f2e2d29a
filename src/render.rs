//! The graph description of one snapshot: node colors for execution state,
//! edge labels and colors for backlog.

use vstd::prelude::*;
use vstd::string::StringExecFns;
use crate::model::{
    covers, port_counter, status_of, total_records, Edge, EdgeView, ExecutionState, GraphTopology,
    NodeStatus, NodeStatusView, StateView, StatusSnapshot, TopologyView, counter_at,
};
use crate::text::{
    decimal, decimal_text, is_quotable, push_quoted, push_signed_decimal, quotable, quoted,
    signed_decimal,
};

verus! {

/// Backlog from which an edge is drawn amber.
pub const BACKLOG_AMBER: i128 = 10;

/// Backlog from which an edge is drawn red.
pub const BACKLOG_RED: i128 = 42;

/// The colors that encode state and backlog.
#[derive(PartialEq, Eq, Structural, Clone, Copy, Debug)]
pub enum Color {
    Grey,
    Green,
    Amber,
    Red,
}

/// The color pair of text and strokes: dark on a light background, or
/// light on a dark one.
#[derive(PartialEq, Eq, Structural, Clone, Copy, Debug)]
pub enum ColorScheme {
    Light,
    Dark,
}

/// Why a snapshot could not be described.
#[derive(PartialEq, Eq, Structural, Clone, Copy, Debug)]
pub enum RenderError {
    /// A node or edge names a node whose name holds a double quote.
    UnquotableName,
    /// A node of the topology has no status in the snapshot.
    MissingStatus,
}

pub open spec fn color_hex(c: Color) -> Seq<char> {
    match c {
        Color::Grey => "#59636e"@,
        Color::Green => "#1a7f37"@,
        Color::Amber => "#dbab0a"@,
        Color::Red => "#d1242f"@,
    }
}

impl Color {
    /// The color's hexadecimal RGB code.
    pub fn hex(&self) -> (r: &'static str)
        ensures
            r@ == color_hex(*self),
    {
        match self {
            Color::Grey => "#59636e",
            Color::Green => "#1a7f37",
            Color::Amber => "#dbab0a",
            Color::Red => "#d1242f",
        }
    }
}

/// A node's color: grey while waiting, or running with no counter seen yet;
/// amber while running with some counter seen; green on success; red on
/// error whatever the counters.
pub open spec fn color_of_node(st: NodeStatusView) -> Color {
    match st.state {
        StateView::Waiting => Color::Grey,
        StateView::Running => if total_records(st) is Some {
            Color::Amber
        } else {
            Color::Grey
        },
        StateView::Success => Color::Green,
        StateView::Error(_) => Color::Red,
    }
}

/// An edge's color for the backlog `d` between its two counters.
pub open spec fn color_of_backlog(d: int) -> Color {
    if d < BACKLOG_AMBER {
        Color::Green
    } else if d < BACKLOG_RED {
        Color::Amber
    } else {
        Color::Red
    }
}

/// A node's color.
pub fn node_color(status: &NodeStatus) -> (r: Color)
    ensures
        r == color_of_node(status@),
{
    match status.state {
        ExecutionState::Waiting => Color::Grey,
        ExecutionState::Running => if status.has_total_records() {
            Color::Amber
        } else {
            Color::Grey
        },
        ExecutionState::Success => Color::Green,
        ExecutionState::Error(_) => Color::Red,
    }
}

/// An edge's color for the backlog `d`, tail counter minus head counter.
pub fn backlog_color(d: i128) -> (r: Color)
    ensures
        r == color_of_backlog(d as int),
{
    if d < BACKLOG_AMBER {
        Color::Green
    } else if d < BACKLOG_RED {
        Color::Amber
    } else {
        Color::Red
    }
}

/// The counter at an edge's tail: what its tail node wrote on the port.
pub open spec fn tail_counter(s: Seq<(Seq<char>, NodeStatusView)>, e: EdgeView) -> Option<u64> {
    match status_of(s, e.tail) {
        Some(st) => port_counter(st.output_written, e.tail_port),
        None => None,
    }
}

/// The counter at an edge's head: what its head node read on the port.
pub open spec fn head_counter(s: Seq<(Seq<char>, NodeStatusView)>, e: EdgeView) -> Option<u64> {
    match status_of(s, e.head) {
        Some(st) => port_counter(st.input_read, e.head_port),
        None => None,
    }
}

/// One attribute of a declaration; the first opens a line, the others
/// follow a comma.
pub open spec fn attr_text(first: bool, key: Seq<char>, val: Seq<char>) -> Seq<char> {
    (if first {
        "\n"@
    } else {
        ", "@
    }) + key + " = \""@ + val + "\"\n"@
}

/// The head label: the head counter, followed by the backlog in
/// parentheses when the tail counter is known too.
pub open spec fn head_label(tail: Option<u64>, head: u64) -> Seq<char> {
    match tail {
        Some(t) => decimal(head as nat) + " ("@ + signed_decimal(t - head) + ")"@,
        None => decimal(head as nat),
    }
}

/// An edge's attributes: the tail label, the head label, and the backlog
/// color, each where its counters are known.
pub open spec fn edge_attrs(tail: Option<u64>, head: Option<u64>) -> Seq<char> {
    match (tail, head) {
        (None, None) => Seq::empty(),
        (Some(t), None) => attr_text(true, "taillabel"@, decimal(t as nat)),
        (None, Some(h)) => attr_text(true, "headlabel"@, head_label(tail, h)),
        (Some(t), Some(h)) => attr_text(true, "taillabel"@, decimal(t as nat)) + attr_text(
            false,
            "headlabel"@,
            head_label(tail, h),
        ) + attr_text(false, "color"@, color_hex(color_of_backlog(t - h))),
    }
}

pub open spec fn node_text(name: Seq<char>, st: Option<NodeStatusView>) -> Seq<char> {
    let color = match st {
        Some(st) => color_of_node(st),
        None => Color::Grey,
    };
    quoted(name) + " ["@ + attr_text(true, "color"@, color_hex(color)) + "]\n"@
}

pub open spec fn edge_text(e: EdgeView, s: Seq<(Seq<char>, NodeStatusView)>) -> Seq<char> {
    quoted(e.tail) + " -> "@ + quoted(e.head) + " ["@ + edge_attrs(tail_counter(s, e), head_counter(s, e))
        + "]\n"@
}

pub open spec fn nodes_text(nodes: Seq<Seq<char>>, s: Seq<(Seq<char>, NodeStatusView)>) -> Seq<char>
    decreases nodes.len(),
{
    if nodes.len() == 0 {
        Seq::empty()
    } else {
        nodes_text(nodes.drop_last(), s) + node_text(nodes.last(), status_of(s, nodes.last()))
    }
}

pub open spec fn edges_text(edges: Seq<EdgeView>, s: Seq<(Seq<char>, NodeStatusView)>) -> Seq<char>
    decreases edges.len(),
{
    if edges.len() == 0 {
        Seq::empty()
    } else {
        edges_text(edges.drop_last(), s) + edge_text(edges.last(), s)
    }
}

pub open spec fn header_text(scheme: ColorScheme) -> Seq<char> {
    "digraph G {\n"@ + "    graph [bgcolor=\"transparent\"];\n"@ + match scheme {
        ColorScheme::Light => "    node [fontcolor=\"black\", color=\"black\"];\n"@
            + "    edge [fontcolor=\"black\", color=\"black\"];\n"@,
        ColorScheme::Dark => "    node [fontcolor=\"white\", color=\"white\"];\n"@
            + "    edge [fontcolor=\"white\", color=\"white\"];\n"@,
    }
}

/// The graph description of a snapshot: the header, each node in topology
/// order, each edge in topology order, and the closing brace.
pub open spec fn dot_text(
    t: TopologyView,
    s: Seq<(Seq<char>, NodeStatusView)>,
    scheme: ColorScheme,
) -> Seq<char> {
    header_text(scheme) + nodes_text(t.nodes, s) + edges_text(t.edges, s) + "}\n"@
}

/// Every name that the description would quote can be quoted verbatim.
pub open spec fn all_quotable(t: TopologyView) -> bool {
    &&& forall|i: int| 0 <= i < t.nodes.len() ==> quotable(#[trigger] t.nodes[i])
    &&& forall|i: int| 0 <= i < t.edges.len() ==> edge_quotable(#[trigger] t.edges[i])
}

pub open spec fn edge_quotable(e: EdgeView) -> bool {
    quotable(e.tail) && quotable(e.head)
}

/// The counters at an edge's tail and head, each `None` when its node has no
/// status, its port is not listed or its counter is absent.
pub fn edge_counters(snapshot: &StatusSnapshot, edge: &Edge) -> (r: (Option<u64>, Option<u64>))
    ensures
        r.0 == tail_counter(snapshot@, edge@),
        r.1 == head_counter(snapshot@, edge@),
{
    let tail = match snapshot.find(&edge.tail) {
        Some(i) => counter_at(&snapshot.entries[i].status.output_written, edge.tail_port),
        None => None,
    };
    let head = match snapshot.find(&edge.head) {
        Some(i) => counter_at(&snapshot.entries[i].status.input_read, edge.head_port),
        None => None,
    };
    (tail, head)
}

fn push_attr(out: &mut String, first: bool, key: &str, val: &str)
    ensures
        final(out)@ == old(out)@ + attr_text(first, key@, val@),
{
    if first {
        out.append("\n");
    } else {
        out.append(", ");
    }
    out.append(key);
    out.append(" = \"");
    out.append(val);
    out.append("\"\n");
    assert(final(out)@ =~= old(out)@ + attr_text(first, key@, val@));
}

fn push_header(out: &mut String, scheme: ColorScheme)
    ensures
        final(out)@ == old(out)@ + header_text(scheme),
{
    out.append("digraph G {\n");
    out.append("    graph [bgcolor=\"transparent\"];\n");
    match scheme {
        ColorScheme::Light => {
            out.append("    node [fontcolor=\"black\", color=\"black\"];\n");
            out.append("    edge [fontcolor=\"black\", color=\"black\"];\n");
        },
        ColorScheme::Dark => {
            out.append("    node [fontcolor=\"white\", color=\"white\"];\n");
            out.append("    edge [fontcolor=\"white\", color=\"white\"];\n");
        },
    }
    assert(final(out)@ =~= old(out)@ + header_text(scheme));
}

fn push_node(out: &mut String, name: &String, snapshot: &StatusSnapshot)
    ensures
        final(out)@ == old(out)@ + node_text(name@, status_of(snapshot@, name@)),
{
    let color = match snapshot.find(name) {
        Some(i) => node_color(&snapshot.entries[i].status),
        None => Color::Grey,
    };
    push_quoted(out, name.as_str());
    out.append(" [");
    push_attr(out, true, "color", color.hex());
    out.append("]\n");
    assert(final(out)@ =~= old(out)@ + node_text(name@, status_of(snapshot@, name@)));
}

fn push_edge(out: &mut String, edge: &Edge, snapshot: &StatusSnapshot)
    ensures
        final(out)@ == old(out)@ + edge_text(edge@, snapshot@),
{
    let (tail, head) = edge_counters(snapshot, edge);
    push_quoted(out, edge.tail.as_str());
    out.append(" -> ");
    push_quoted(out, edge.head.as_str());
    out.append(" [");
    let ghost before = out@;
    match tail {
        Some(t) => {
            let label = decimal_text(t);
            push_attr(out, true, "taillabel", label.as_str());
        },
        None => {},
    }
    match head {
        Some(h) => {
            let mut label = decimal_text(h);
            match tail {
                Some(t) => {
                    label.append(" (");
                    push_signed_decimal(&mut label, t as i128 - h as i128);
                    label.append(")");
                },
                None => {},
            }
            assert(label@ =~= head_label(tail, h));
            push_attr(out, tail.is_none(), "headlabel", label.as_str());
        },
        None => {},
    }
    match (tail, head) {
        (Some(t), Some(h)) => {
            push_attr(out, false, "color", backlog_color(t as i128 - h as i128).hex());
        },
        _ => {},
    }
    assert(out@ =~= before + edge_attrs(tail, head));
    out.append("]\n");
    assert(final(out)@ =~= old(out)@ + edge_text(edge@, snapshot@));
}

/// Whether every node name and every edge endpoint can be quoted verbatim.
pub fn names_quotable(topology: &GraphTopology) -> (r: bool)
    ensures
        r == all_quotable(topology@),
{
    let mut i: usize = 0;
    while i < topology.nodes.len()
        invariant
            i <= topology.nodes@.len(),
            forall|j: int| 0 <= j < i ==> quotable(#[trigger] topology@.nodes[j]),
        decreases topology.nodes@.len() - i,
    {
        if !is_quotable(topology.nodes[i].as_str()) {
            assert(!quotable(topology@.nodes[i as int]));
            return false;
        }
        i = i + 1;
    }
    let mut k: usize = 0;
    while k < topology.edges.len()
        invariant
            k <= topology.edges@.len(),
            forall|j: int| 0 <= j < topology@.nodes.len() ==> quotable(#[trigger] topology@.nodes[j]),
            forall|j: int| 0 <= j < k ==> edge_quotable(#[trigger] topology@.edges[j]),
        decreases topology.edges@.len() - k,
    {
        let e = &topology.edges[k];
        let tail_ok = is_quotable(e.tail.as_str());
        let head_ok = is_quotable(e.head.as_str());
        assert(topology@.edges[k as int] == e@);
        assert(e@.tail == e.tail@ && e@.head == e.head@);
        if !tail_ok || !head_ok {
            assert(!edge_quotable(topology@.edges[k as int]));
            return false;
        }
        assert(edge_quotable(topology@.edges[k as int]));
        k = k + 1;
    }
    true
}

/// Describes a snapshot as a directed graph: a header in the scheme's
/// colors, one declaration per node with its state color, one per edge
/// with its counters and backlog color. Refused when a name holds a double
/// quote, or when a node of the topology has no status.
pub fn render(topology: &GraphTopology, snapshot: &StatusSnapshot, scheme: ColorScheme) -> (r: Result<
    String,
    RenderError,
>)
    ensures
        match r {
            Ok(text) => all_quotable(topology@) && covers(topology@, snapshot@) && text@ == dot_text(
                topology@,
                snapshot@,
                scheme,
            ),
            Err(RenderError::UnquotableName) => !all_quotable(topology@),
            Err(RenderError::MissingStatus) => all_quotable(topology@) && !covers(
                topology@,
                snapshot@,
            ),
        },
{
    if !names_quotable(topology) {
        return Err(RenderError::UnquotableName);
    }
    if !snapshot.covers(topology) {
        return Err(RenderError::MissingStatus);
    }
    let mut out = String::new();
    push_header(&mut out, scheme);
    let ghost head = out@;
    let ghost nodes = topology@.nodes;
    let ghost edges = topology@.edges;
    let mut i: usize = 0;
    assert(nodes.subrange(0, 0) =~= Seq::<Seq<char>>::empty());
    while i < topology.nodes.len()
        invariant
            i <= topology.nodes@.len(),
            nodes == topology@.nodes,
            out@ == head + nodes_text(nodes.subrange(0, i as int), snapshot@),
        decreases topology.nodes@.len() - i,
    {
        push_node(&mut out, &topology.nodes[i], snapshot);
        assert(nodes.subrange(0, i + 1).drop_last() =~= nodes.subrange(0, i as int));
        assert(nodes[i as int] == topology.nodes@[i as int]@);
        i = i + 1;
    }
    assert(nodes.subrange(0, i as int) =~= nodes);
    let ghost mid = out@;
    let mut k: usize = 0;
    assert(edges.subrange(0, 0) =~= Seq::<EdgeView>::empty());
    while k < topology.edges.len()
        invariant
            k <= topology.edges@.len(),
            edges == topology@.edges,
            out@ == mid + edges_text(edges.subrange(0, k as int), snapshot@),
        decreases topology.edges@.len() - k,
    {
        push_edge(&mut out, &topology.edges[k], snapshot);
        assert(edges.subrange(0, k + 1).drop_last() =~= edges.subrange(0, k as int));
        assert(edges[k as int] == topology.edges@[k as int]@);
        k = k + 1;
    }
    assert(edges.subrange(0, k as int) =~= edges);
    out.append("}\n");
    assert(out@ =~= dot_text(topology@, snapshot@, scheme));
    Ok(out)
}

} // verus!
