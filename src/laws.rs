//! Properties that relate several functions of the library, or hold of
//! every input.

use vstd::prelude::*;
use crate::model::{
    all_terminal, covers, total_records, GraphTopology, NodeStatusView, StateView, StatusSnapshot,
};
use crate::render::{
    all_quotable, attr_text, color_hex, color_of_backlog, color_of_node, dot_text, edge_attrs,
    head_label, Color, ColorScheme,
};
use crate::scheduler::{ended, next, run, ActionView, Event, Outcome, Phase, SchedulerView};
use crate::text::decimal;

verus! {

/// The description depends on the values of its inputs alone: two
/// topologies and two snapshots that hold the same values give the same
/// text, character for character.
pub proof fn render_is_deterministic(
    t1: &GraphTopology,
    t2: &GraphTopology,
    s1: &StatusSnapshot,
    s2: &StatusSnapshot,
    scheme: ColorScheme,
)
    requires
        t1@ == t2@,
        s1@ == s2@,
    ensures
        dot_text(t1@, s1@, scheme) == dot_text(t2@, s2@, scheme),
{
}

/// An edge gets a color only when both its counters are known: with either
/// one missing its attributes are the labels of the known counter, and
/// nothing else; with both, the last attribute is the backlog color.
pub proof fn edge_color_needs_both_counters(tail: Option<u64>, head: Option<u64>)
    ensures
        tail is None ==> edge_attrs(tail, head) == match head {
            Some(h) => attr_text(true, "headlabel"@, decimal(h as nat)),
            None => Seq::empty(),
        },
        head is None ==> edge_attrs(tail, head) == match tail {
            Some(t) => attr_text(true, "taillabel"@, decimal(t as nat)),
            None => Seq::empty(),
        },
        tail is Some && head is Some ==> edge_attrs(tail, head) == attr_text(
            true,
            "taillabel"@,
            decimal(tail->0 as nat),
        ) + attr_text(false, "headlabel"@, head_label(tail, head->0)) + attr_text(
            false,
            "color"@,
            color_hex(color_of_backlog(tail->0 - head->0)),
        ),
{
}

/// A node with no counter at all has no total record count, and is grey
/// whether it waits or runs.
pub proof fn no_counters_waiting_and_running_alike(st: NodeStatusView)
    requires
        forall|i: int| 0 <= i < st.input_read.len() ==> st.input_read[i] is None,
        forall|i: int| 0 <= i < st.output_written.len() ==> st.output_written[i] is None,
    ensures
        total_records(st) is None,
        color_of_node(NodeStatusView { state: StateView::Waiting, ..st }) == Color::Grey,
        color_of_node(NodeStatusView { state: StateView::Running, ..st }) == Color::Grey,
{
}

/// A cycle whose snapshot is finished ends the session once its image is
/// shown: the transport is released and no wait follows.
pub proof fn finished_cycle_ends_without_delay(s: SchedulerView, snapshot: StatusSnapshot)
    requires
        s.phase == Phase::Fetching,
        covers(s.topology, snapshot@),
        all_quotable(s.topology),
        all_terminal(snapshot@),
    ensures
        ({
            let (s1, a1) = next(s, Event::SnapshotFetched(snapshot));
            let (s2, a2) = next(s1, Event::ImageRendered);
            &&& a1 == ActionView::RenderImage(dot_text(s.topology, snapshot@, s.scheme))
            &&& a2 == ActionView::Close
            &&& s2.phase == Phase::Disconnected(Outcome::Finished)
        }),
{
}

/// A session that is over stays over: every later event leaves it as it
/// is and asks for nothing but to stop.
pub proof fn disconnected_is_final(s: SchedulerView, events: Seq<Event>)
    requires
        s.phase is Disconnected,
    ensures
        run(s, events).len() == events.len(),
        forall|i: int| 0 <= i < events.len() ==> run(s, events)[i] == ActionView::Stop,
    decreases events.len(),
{
    if events.len() > 0 {
        disconnected_is_final(s, events.skip(1));
    }
}

/// Cancelling while the scheduler waits between two cycles releases the
/// transport at once, and no fetch follows, whatever comes after.
pub proof fn cancel_during_delay_releases(s: SchedulerView, later: Seq<Event>)
    requires
        s.phase == Phase::Sleeping,
    ensures
        next(s, Event::Cancelled) == (ended(s, Outcome::Cancelled), ActionView::Close),
        forall|i: int|
            0 <= i < later.len() ==> run(ended(s, Outcome::Cancelled), later)[i]
                == ActionView::Stop,
{
    disconnected_is_final(ended(s, Outcome::Cancelled), later);
}

} // verus!
