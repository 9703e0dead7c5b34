//! Orchestration logic for driving an external media-transcoding engine:
//! command planning, probe-output parsing, progress-stream interpretation,
//! and the transcode-session state machine.
//!
//! The library itself performs no I/O: a thin driver invokes the external
//! probing tool and the engine process, and hands this crate the plain
//! values (argument lists, output bytes, progress lines, output-file sizes)
//! that the verified logic consumes and produces.

pub mod digits;
pub mod plan;
pub mod probe;
pub mod progress;
pub mod session;
