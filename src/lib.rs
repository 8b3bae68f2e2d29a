//! Observation core of a data-pipeline monitor: the pipeline's graph and
//! per-node status model, the graph-description renderer, the termination
//! rule, the poll scheduler's state machine, and the image size read back
//! out of a rendered SVG.

pub mod laws;
pub mod model;
pub mod render;
pub mod scheduler;
pub mod svg;
pub mod text;
