use pipeline_monitor::model::{
    is_finished, Edge, ExecutionState, GraphTopology, NodeEntry, NodeStatus, StatusSnapshot,
};
use pipeline_monitor::render::{
    backlog_color, edge_counters, node_color, render, Color, ColorScheme, RenderError,
};

fn status(state: ExecutionState, input_read: Vec<Option<u64>>, output_written: Vec<Option<u64>>) -> NodeStatus {
    NodeStatus { state, input_read, output_written }
}

fn entry(name: &str, status: NodeStatus) -> NodeEntry {
    NodeEntry { name: name.to_string(), status }
}

fn a_to_b() -> GraphTopology {
    GraphTopology {
        nodes: vec!["A".to_string(), "B".to_string()],
        edges: vec![Edge { tail: "A".to_string(), tail_port: 0, head: "B".to_string(), head_port: 0 }],
    }
}

fn progress_snapshot() -> StatusSnapshot {
    StatusSnapshot {
        entries: vec![
            entry("A", status(ExecutionState::Success, vec![], vec![Some(100)])),
            entry("B", status(ExecutionState::Running, vec![Some(80)], vec![])),
        ],
    }
}

#[test]
fn backlog_thresholds() {
    assert_eq!(backlog_color(9), Color::Green);
    assert_eq!(backlog_color(10), Color::Amber);
    assert_eq!(backlog_color(41), Color::Amber);
    assert_eq!(backlog_color(42), Color::Red);
    assert_eq!(backlog_color(-3), Color::Green);
    assert_eq!(backlog_color(1000), Color::Red);
}

#[test]
fn color_codes() {
    assert_eq!(Color::Grey.hex(), "#59636e");
    assert_eq!(Color::Green.hex(), "#1a7f37");
    assert_eq!(Color::Amber.hex(), "#dbab0a");
    assert_eq!(Color::Red.hex(), "#d1242f");
}

#[test]
fn running_node_grey_until_a_counter_is_seen() {
    let idle = status(ExecutionState::Running, vec![None], vec![None]);
    assert_eq!(node_color(&idle), Color::Grey);
    let busy = status(ExecutionState::Running, vec![None], vec![Some(1)]);
    assert_eq!(node_color(&busy), Color::Amber);
    assert!(!idle.has_total_records());
    assert!(busy.has_total_records());
}

#[test]
fn waiting_and_running_alike_without_counters() {
    let waiting = status(ExecutionState::Waiting, vec![None, None], vec![None]);
    let running = status(ExecutionState::Running, vec![None, None], vec![None]);
    assert_eq!(node_color(&waiting), Color::Grey);
    assert_eq!(node_color(&running), Color::Grey);
    let waiting_counted = status(ExecutionState::Waiting, vec![Some(3)], vec![]);
    assert_eq!(node_color(&waiting_counted), Color::Grey);
}

#[test]
fn terminal_node_colors() {
    assert_eq!(node_color(&status(ExecutionState::Success, vec![], vec![])), Color::Green);
    let failed = status(ExecutionState::Error("boom".to_string()), vec![Some(4)], vec![Some(2)]);
    assert_eq!(node_color(&failed), Color::Red);
}

#[test]
fn finished_only_when_every_node_is_terminal() {
    let done = StatusSnapshot {
        entries: vec![
            entry("A", status(ExecutionState::Success, vec![], vec![])),
            entry("B", status(ExecutionState::Error(String::new()), vec![], vec![])),
        ],
    };
    assert!(is_finished(&done));
    assert!(is_finished(&StatusSnapshot { entries: vec![] }));
    let waiting = StatusSnapshot {
        entries: vec![
            entry("A", status(ExecutionState::Success, vec![], vec![])),
            entry("B", status(ExecutionState::Waiting, vec![], vec![])),
        ],
    };
    assert!(!is_finished(&waiting));
    assert!(!is_finished(&progress_snapshot()));
}

#[test]
fn edge_with_backlog_in_progress() {
    let text = render(&a_to_b(), &progress_snapshot(), ColorScheme::Light).unwrap();
    assert!(!is_finished(&progress_snapshot()));
    assert!(text.contains("taillabel = \"100\""));
    assert!(text.contains("headlabel = \"80 (20)\""));
    assert!(text.contains("\"A\" -> \"B\" [\ntaillabel = \"100\"\n, headlabel = \"80 (20)\"\n, color = \"#dbab0a\"\n]\n"));
}

#[test]
fn full_description_text() {
    let text = render(&a_to_b(), &progress_snapshot(), ColorScheme::Light).unwrap();
    let expected = "digraph G {\n    graph [bgcolor=\"transparent\"];\n    node [fontcolor=\"black\", color=\"black\"];\n    edge [fontcolor=\"black\", color=\"black\"];\n\"A\" [\ncolor = \"#1a7f37\"\n]\n\"B\" [\ncolor = \"#dbab0a\"\n]\n\"A\" -> \"B\" [\ntaillabel = \"100\"\n, headlabel = \"80 (20)\"\n, color = \"#dbab0a\"\n]\n}\n";
    assert_eq!(text, expected);
}

#[test]
fn dark_scheme_header() {
    let text = render(&a_to_b(), &progress_snapshot(), ColorScheme::Dark).unwrap();
    assert!(text.starts_with("digraph G {\n    graph [bgcolor=\"transparent\"];\n    node [fontcolor=\"white\", color=\"white\"];\n    edge [fontcolor=\"white\", color=\"white\"];\n"));
}

#[test]
fn render_is_repeatable() {
    let first = render(&a_to_b(), &progress_snapshot(), ColorScheme::Light).unwrap();
    let second = render(&a_to_b(), &progress_snapshot(), ColorScheme::Light).unwrap();
    assert_eq!(first, second);
}

#[test]
fn edge_without_both_counters_has_no_color() {
    let snapshot = StatusSnapshot {
        entries: vec![
            entry("A", status(ExecutionState::Running, vec![], vec![Some(7)])),
            entry("B", status(ExecutionState::Waiting, vec![None], vec![])),
        ],
    };
    let text = render(&a_to_b(), &snapshot, ColorScheme::Light).unwrap();
    assert!(text.contains("\"A\" -> \"B\" [\ntaillabel = \"7\"\n]\n"));
    let only_head = StatusSnapshot {
        entries: vec![
            entry("A", status(ExecutionState::Running, vec![], vec![])),
            entry("B", status(ExecutionState::Running, vec![Some(5)], vec![])),
        ],
    };
    let text = render(&a_to_b(), &only_head, ColorScheme::Light).unwrap();
    assert!(text.contains("\"A\" -> \"B\" [\nheadlabel = \"5\"\n]\n"));
    let neither = StatusSnapshot {
        entries: vec![
            entry("A", status(ExecutionState::Waiting, vec![], vec![])),
            entry("B", status(ExecutionState::Waiting, vec![], vec![])),
        ],
    };
    let text = render(&a_to_b(), &neither, ColorScheme::Light).unwrap();
    assert!(text.contains("\"A\" -> \"B\" []\n"));
}

#[test]
fn negative_backlog_label() {
    let snapshot = StatusSnapshot {
        entries: vec![
            entry("A", status(ExecutionState::Running, vec![], vec![Some(5)])),
            entry("B", status(ExecutionState::Running, vec![Some(8)], vec![])),
        ],
    };
    let text = render(&a_to_b(), &snapshot, ColorScheme::Light).unwrap();
    assert!(text.contains("headlabel = \"8 (-3)\"\n, color = \"#1a7f37\""));
}

#[test]
fn edge_counters_by_port() {
    let edge = Edge { tail: "A".to_string(), tail_port: 1, head: "B".to_string(), head_port: 2 };
    let snapshot = StatusSnapshot {
        entries: vec![
            entry("A", status(ExecutionState::Running, vec![], vec![Some(1), Some(60)])),
            entry("B", status(ExecutionState::Running, vec![None, Some(3), Some(9)], vec![])),
        ],
    };
    assert_eq!(edge_counters(&snapshot, &edge), (Some(60), Some(9)));
    let out_of_range = Edge { tail: "A".to_string(), tail_port: 5, head: "C".to_string(), head_port: 0 };
    assert_eq!(edge_counters(&snapshot, &out_of_range), (None, None));
}

#[test]
fn later_entry_of_a_name_stands() {
    let snapshot = StatusSnapshot {
        entries: vec![
            entry("A", status(ExecutionState::Waiting, vec![], vec![])),
            entry("A", status(ExecutionState::Success, vec![], vec![])),
        ],
    };
    assert_eq!(snapshot.find(&"A".to_string()), Some(1));
    assert_eq!(snapshot.find(&"B".to_string()), None);
}

#[test]
fn quote_in_name_is_refused() {
    let topology = GraphTopology { nodes: vec!["a\"b".to_string()], edges: vec![] };
    let snapshot = StatusSnapshot { entries: vec![entry("a\"b", status(ExecutionState::Waiting, vec![], vec![]))] };
    assert_eq!(render(&topology, &snapshot, ColorScheme::Light), Err(RenderError::UnquotableName));
}

#[test]
fn missing_status_is_refused() {
    let snapshot = StatusSnapshot { entries: vec![entry("A", status(ExecutionState::Waiting, vec![], vec![]))] };
    assert_eq!(render(&a_to_b(), &snapshot, ColorScheme::Light), Err(RenderError::MissingStatus));
    assert!(!snapshot.covers(&a_to_b()));
    assert!(progress_snapshot().covers(&a_to_b()));
}

#[test]
fn topology_closure() {
    assert!(a_to_b().is_closed());
    let dangling = GraphTopology {
        nodes: vec!["A".to_string()],
        edges: vec![Edge { tail: "A".to_string(), tail_port: 0, head: "Z".to_string(), head_port: 0 }],
    };
    assert!(!dangling.is_closed());
}
