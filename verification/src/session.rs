//! The transcode-session state machine: one complete attempt to transcode
//! a single source file, from `start()` to a terminal phase.
//!
//! The session owns the observable snapshot that a polling consumer reads
//! every frame, and every lifecycle decision: whether a start is accepted,
//! how a progress line moves the snapshot, when cancellation takes effect,
//! and how a finished run is classified.  The blocking work itself —
//! probing, spawning the engine, reading its pipe, killing or waiting on
//! the process — is done by the surrounding driver, which reports each
//! outcome to the session through the transitions below.

use vstd::prelude::*;
use vstd::string::StringExecFns;
use crate::progress::completion_fraction_ppm;
use crate::progress::elapsed_of_line;
use crate::progress::spec_elapsed_of_line;
use crate::progress::spec_fraction_ppm;

verus! {

/// Where a session stands in its lifecycle.  `Completed`, `Failed` and
/// `Cancelled` are terminal.
#[derive(Clone, Copy, Debug, PartialEq, Eq, Structural)]
pub enum Phase {
    Idle,
    Probing,
    Encoding,
    Completed,
    Failed,
    Cancelled,
}

/// The observable snapshot a polling consumer renders every frame.
pub struct SessionState {
    /// Completion in parts per million: one million is fully complete.
    pub progress_ppm: u32,
    pub running: bool,
    pub completed: bool,
    pub log: String,
    pub cancel_requested: bool,
}

/// The mathematical image of a `SessionState`.
#[verifier::ext_equal]
pub ghost struct StateModel {
    pub progress_ppm: int,
    pub running: bool,
    pub completed: bool,
    pub log: Seq<char>,
    pub cancel_requested: bool,
}

impl View for SessionState {
    type V = StateModel;

    open spec fn view(&self) -> StateModel {
        StateModel {
            progress_ppm: self.progress_ppm as int,
            running: self.running,
            completed: self.completed,
            log: self.log@,
            cancel_requested: self.cancel_requested,
        }
    }
}

/// One transcode session: its phase, the shared observable state, and the
/// probed total duration in microseconds (zero while unknown).
pub struct Session {
    pub phase: Phase,
    pub state: SessionState,
    pub total_us: u64,
}

/// The mathematical image of a `Session`.
#[verifier::ext_equal]
pub ghost struct SessionModel {
    pub phase: Phase,
    pub state: StateModel,
    pub total_us: u64,
}

impl View for Session {
    type V = SessionModel;

    open spec fn view(&self) -> SessionModel {
        SessionModel { phase: self.phase, state: self.state@, total_us: self.total_us }
    }
}

/// Log marker appended when a run is cancelled.
pub open spec fn cancel_marker() -> Seq<char> {
    "\n=== transcode cancelled ===\n"@
}

/// Log marker appended when a run fails (output file missing or empty).
pub open spec fn failure_marker() -> Seq<char> {
    "\n=== transcode failed: output file missing or empty ===\n"@
}

/// Log marker appended when a run completes.
pub open spec fn success_marker() -> Seq<char> {
    "\n=== transcode finished ===\n"@
}

/// Well-formedness of a session: progress stays within one million parts
/// per million; `running` holds exactly in the two active phases;
/// `completed` holds exactly in the Completed phase and forces full
/// progress; a cancelled session shows zero progress.
pub open spec fn wf_model(m: SessionModel) -> bool {
    &&& 0 <= m.state.progress_ppm <= 1_000_000
    &&& (m.state.running <==> (m.phase == Phase::Probing || m.phase == Phase::Encoding))
    &&& (m.state.completed <==> m.phase == Phase::Completed)
    &&& (m.state.completed ==> m.state.progress_ppm == 1_000_000)
    &&& (m.phase == Phase::Cancelled ==> m.state.progress_ppm == 0)
}

/// The state every run begins from: zero progress, running, not completed,
/// an empty log, no cancellation pending.
pub open spec fn spec_reset_state() -> StateModel {
    StateModel {
        progress_ppm: 0,
        running: true,
        completed: false,
        log: Seq::empty(),
        cancel_requested: false,
    }
}

/// A fresh session: idle, nothing observed yet.
pub open spec fn spec_idle_model() -> SessionModel {
    SessionModel {
        phase: Phase::Idle,
        state: StateModel {
            progress_ppm: 0,
            running: false,
            completed: false,
            log: Seq::empty(),
            cancel_requested: false,
        },
        total_us: 0,
    }
}

/// `start()`: refused without any change while a run is in flight;
/// otherwise a full reset into the Probing phase.
pub open spec fn spec_start(m: SessionModel) -> SessionModel {
    if m.state.running {
        m
    } else {
        SessionModel { phase: Phase::Probing, state: spec_reset_state(), total_us: 0 }
    }
}

/// Recording the probe's results: the total duration and the descriptive
/// text that seeds the log; the session moves to Encoding.
pub open spec fn spec_finish_probe(m: SessionModel, total_us: u64, info: Seq<char>) -> SessionModel {
    SessionModel {
        phase: Phase::Encoding,
        state: StateModel {
            progress_ppm: m.state.progress_ppm,
            running: m.state.running,
            completed: m.state.completed,
            log: info,
            cancel_requested: m.state.cancel_requested,
        },
        total_us,
    }
}

/// A fatal launch failure ends the session Failed; beyond leaving
/// `running` false the observable state is untouched.
pub open spec fn spec_abort_launch(m: SessionModel) -> SessionModel {
    SessionModel {
        phase: Phase::Failed,
        state: StateModel {
            progress_ppm: m.state.progress_ppm,
            running: false,
            completed: m.state.completed,
            log: m.state.log,
            cancel_requested: m.state.cancel_requested,
        },
        total_us: m.total_us,
    }
}

/// Consuming one line of the progress stream.  A pending cancel freezes
/// the snapshot; otherwise a line carrying the elapsed-time key moves
/// progress to the corresponding completion fraction — and only if the
/// total duration is known, so an unknown duration leaves progress at its
/// prior value whatever the stream says.
pub open spec fn spec_observe_line(m: SessionModel, line: Seq<u8>) -> SessionModel {
    if m.state.cancel_requested {
        m
    } else {
        match spec_elapsed_of_line(line) {
            Some(e) => if m.total_us > 0 {
                SessionModel {
                    phase: m.phase,
                    state: StateModel {
                        progress_ppm: spec_fraction_ppm(e, m.total_us),
                        running: m.state.running,
                        completed: m.state.completed,
                        log: m.state.log,
                        cancel_requested: m.state.cancel_requested,
                    },
                    total_us: m.total_us,
                }
            } else {
                m
            },
            None => m,
        }
    }
}

/// Requesting cancellation: sets the flag while a run is in flight; has no
/// effect once `running` is false.
pub open spec fn spec_request_cancel(m: SessionModel) -> SessionModel {
    if m.state.running {
        SessionModel {
            phase: m.phase,
            state: StateModel {
                progress_ppm: m.state.progress_ppm,
                running: m.state.running,
                completed: m.state.completed,
                log: m.state.log,
                cancel_requested: true,
            },
            total_us: m.total_us,
        }
    } else {
        m
    }
}

/// Observing a requested cancel mid-encode: the log gains the cancellation
/// marker, progress resets to zero, and the session ends Cancelled with
/// `completed` false.
pub open spec fn spec_finalize_cancelled(m: SessionModel) -> SessionModel {
    SessionModel {
        phase: Phase::Cancelled,
        state: StateModel {
            progress_ppm: 0,
            running: false,
            completed: false,
            log: m.state.log + cancel_marker(),
            cancel_requested: m.state.cancel_requested,
        },
        total_us: m.total_us,
    }
}

/// Classifying a naturally exited run by its output artifact alone: a
/// missing (`None`) or zero-length output file means Failed with progress
/// reset; otherwise Completed with full progress.
pub open spec fn spec_finalize_exit(m: SessionModel, output_len: Option<u64>) -> SessionModel {
    match output_len {
        Some(n) if n > 0 => SessionModel {
            phase: Phase::Completed,
            state: StateModel {
                progress_ppm: 1_000_000,
                running: false,
                completed: true,
                log: m.state.log + success_marker(),
                cancel_requested: m.state.cancel_requested,
            },
            total_us: m.total_us,
        },
        _ => SessionModel {
            phase: Phase::Failed,
            state: StateModel {
                progress_ppm: 0,
                running: false,
                completed: false,
                log: m.state.log + failure_marker(),
                cancel_requested: m.state.cancel_requested,
            },
            total_us: m.total_us,
        },
    }
}

impl Session {
    /// Well-formedness of this session's observable state.
    pub open spec fn wf(self) -> bool {
        wf_model(self@)
    }

    /// A fresh, idle session.
    pub fn new() -> (s: Session)
        ensures
            s@ == spec_idle_model(),
            s.wf(),
    {
        let s = Session {
            phase: Phase::Idle,
            state: SessionState {
                progress_ppm: 0,
                running: false,
                completed: false,
                log: String::new(),
                cancel_requested: false,
            },
            total_us: 0,
        };
        proof {
            assert(s@ =~= spec_idle_model());
        }
        s
    }

    /// Begin a run.  Refused — with the in-flight state left untouched —
    /// while one is already running; otherwise the observable state is
    /// fully reset before any blocking work begins, so a poller never sees
    /// stale state from a previous run.
    pub fn start(&mut self) -> (accepted: bool)
        requires
            old(self).wf(),
        ensures
            final(self)@ == spec_start(old(self)@),
            accepted == !old(self)@.state.running,
            final(self).wf(),
    {
        if self.state.running {
            false
        } else {
            self.phase = Phase::Probing;
            self.total_us = 0;
            self.state = SessionState {
                progress_ppm: 0,
                running: true,
                completed: false,
                log: String::new(),
                cancel_requested: false,
            };
            proof {
                assert(self@ =~= spec_start(old(self)@));
            }
            true
        }
    }

    /// Record what the probe found: the total duration in microseconds
    /// (zero when unknown) and the descriptive text that seeds the log.
    /// The session moves to Encoding and the driver spawns the engine.
    pub fn finish_probe(&mut self, total_us: u64, media_info: String)
        requires
            old(self).wf(),
            old(self)@.phase == Phase::Probing,
        ensures
            final(self)@ == spec_finish_probe(old(self)@, total_us, media_info@),
            final(self).wf(),
    {
        self.total_us = total_us;
        self.state.log = media_info;
        self.phase = Phase::Encoding;
        proof {
            assert(self@ =~= spec_finish_probe(old(self)@, total_us, self.state.log@));
        }
    }

    /// A fatal launch failure — the probing tool or the engine could not
    /// be started.  The session ends Failed; beyond leaving `running`
    /// false, the observable state is not touched.
    pub fn abort_launch(&mut self)
        requires
            old(self).wf(),
            old(self)@.phase == Phase::Probing || old(self)@.phase == Phase::Encoding,
        ensures
            final(self)@ == spec_abort_launch(old(self)@),
            final(self).wf(),
    {
        self.state.running = false;
        self.phase = Phase::Failed;
        proof {
            assert(self@ =~= spec_abort_launch(old(self)@));
        }
    }

    /// Consume one line of the progress stream.  Cancellation is checked
    /// before the line is interpreted: when a cancel is pending, nothing
    /// changes and the caller must stop reading (without draining the
    /// remaining buffered output).
    pub fn observe_line(&mut self, line: &[u8]) -> (keep_reading: bool)
        requires
            old(self).wf(),
            old(self)@.phase == Phase::Encoding,
        ensures
            final(self)@ == spec_observe_line(old(self)@, line@),
            keep_reading == !old(self)@.state.cancel_requested,
            final(self).wf(),
    {
        if self.state.cancel_requested {
            return false;
        }
        if self.total_us > 0 {
            match elapsed_of_line(line) {
                Some(e) => {
                    self.state.progress_ppm = completion_fraction_ppm(e, self.total_us);
                },
                None => {},
            }
        }
        proof {
            assert(self@ =~= spec_observe_line(old(self)@, line@));
        }
        true
    }

    /// Request cooperative cancellation: callable from any context at any
    /// time, idempotent, and without effect once `running` is false.
    pub fn request_cancel(&mut self)
        requires
            old(self).wf(),
        ensures
            final(self)@ == spec_request_cancel(old(self)@),
            final(self).wf(),
    {
        if self.state.running {
            self.state.cancel_requested = true;
        }
        proof {
            assert(self@ =~= spec_request_cancel(old(self)@));
        }
    }

    /// Observe a requested cancel mid-encode, after the driver has killed
    /// the engine process: the log gains the cancellation marker, progress
    /// resets to zero, and the session ends Cancelled, not completed.
    pub fn finalize_cancelled(&mut self)
        requires
            old(self).wf(),
            old(self)@.phase == Phase::Encoding,
            old(self)@.state.cancel_requested,
        ensures
            final(self)@ == spec_finalize_cancelled(old(self)@),
            final(self).wf(),
    {
        self.state.log.append("\n=== transcode cancelled ===\n");
        self.state.progress_ppm = 0;
        self.state.completed = false;
        self.state.running = false;
        self.phase = Phase::Cancelled;
        proof {
            assert(self@ =~= spec_finalize_cancelled(old(self)@));
        }
    }

    /// Classify a naturally exited run by inspecting the output artifact:
    /// `output_len` is the output file's byte length, `None` when the file
    /// does not exist.  Missing or empty means Failed with progress reset;
    /// anything else means Completed with full progress.  The process's
    /// exit code is deliberately not consulted: the artifact alone decides.
    pub fn finalize_exit(&mut self, output_len: Option<u64>) -> (completed: bool)
        requires
            old(self).wf(),
            old(self)@.phase == Phase::Encoding,
            !old(self)@.state.cancel_requested,
        ensures
            final(self)@ == spec_finalize_exit(old(self)@, output_len),
            completed == (match output_len {
                Some(n) => n > 0,
                None => false,
            }),
            final(self).wf(),
    {
        let ok = match output_len {
            Some(n) => n > 0,
            None => false,
        };
        if ok {
            self.state.completed = true;
            self.state.progress_ppm = 1_000_000;
            self.state.log.append("\n=== transcode finished ===\n");
        } else {
            self.state.log.append("\n=== transcode failed: output file missing or empty ===\n");
            self.state.completed = false;
            self.state.progress_ppm = 0;
        }
        self.state.running = false;
        self.phase = if ok {
            Phase::Completed
        } else {
            Phase::Failed
        };
        proof {
            assert(self@ =~= spec_finalize_exit(old(self)@, output_len));
        }
        ok
    }
}

/// A start while a run is in flight is rejected without altering the
/// in-flight state.
pub proof fn lemma_start_rejected_while_running(m: SessionModel)
    requires
        m.state.running,
    ensures
        spec_start(m) == m,
{
}

/// With the total duration unknown, no line of the progress stream — the
/// elapsed-time key included — changes the observable state at all:
/// progress remains at its prior value.
pub proof fn lemma_no_progress_when_duration_unknown(m: SessionModel, line: Seq<u8>)
    requires
        m.total_us == 0,
    ensures
        spec_observe_line(m, line) == m,
{
}

/// Cancellation requested at any point mid-encode — before any progress
/// line was read included — always reaches the Cancelled terminal state:
/// not running, not completed, progress zero, and the cancellation marker
/// appended to the log.
pub proof fn lemma_cancel_reaches_cancelled(m: SessionModel)
    requires
        wf_model(m),
        m.phase == Phase::Encoding,
    ensures
        ({
            let c = spec_finalize_cancelled(spec_request_cancel(m));
            &&& c.phase == Phase::Cancelled
            &&& !c.state.running
            &&& !c.state.completed
            &&& c.state.progress_ppm == 0
            &&& c.state.log == m.state.log + cancel_marker()
            &&& c.state.cancel_requested
            &&& wf_model(c)
        }),
{
}

/// Well-formedness — in particular the invariant that `completed` forces
/// `running` false and full progress — holds of a fresh session and is
/// preserved by every transition, each taken from the phases in which its
/// caller may invoke it.
pub proof fn lemma_transitions_preserve_wf(
    m: SessionModel,
    total_us: u64,
    info: Seq<char>,
    line: Seq<u8>,
    output_len: Option<u64>,
)
    requires
        wf_model(m),
    ensures
        wf_model(spec_idle_model()),
        wf_model(spec_start(m)),
        wf_model(spec_request_cancel(m)),
        m.phase == Phase::Probing ==> wf_model(spec_finish_probe(m, total_us, info)),
        m.phase == Phase::Probing || m.phase == Phase::Encoding ==> wf_model(
            spec_abort_launch(m),
        ),
        m.phase == Phase::Encoding ==> wf_model(spec_observe_line(m, line)),
        m.phase == Phase::Encoding ==> wf_model(spec_finalize_cancelled(m)),
        m.phase == Phase::Encoding ==> wf_model(spec_finalize_exit(m, output_len)),
{
}

/// Every terminal classification leaves `running` false, and `completed`
/// holds exactly when the run ended Completed.
pub proof fn lemma_terminal_states_not_running(m: SessionModel, output_len: Option<u64>)
    ensures
        !spec_finalize_cancelled(m).state.running,
        !spec_finalize_exit(m, output_len).state.running,
        !spec_abort_launch(m).state.running,
        spec_finalize_exit(m, output_len).state.completed <==> spec_finalize_exit(
            m,
            output_len,
        ).phase == Phase::Completed,
{
}

} // verus!
