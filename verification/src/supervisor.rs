//! Process supervisor: the verified lifecycle of one external job.
//!
//! The supervisor owns the job's state machine: streaming until a terminal
//! result, and no way back. The actual spawning, pipe reading and killing is
//! outside work; the caller feeds what happened (spawn failed, a line
//! arrived, the pipe closed, the child exited) and the supervisor decides
//! what follows and produces the single terminal result.

use crate::args::ProcessArgs;
use crate::progress::spec_decode;
use crate::progress::decode_line;
use crate::progress::ProgressEvent;
use crate::progress::ProgressRec;
use vstd::prelude::*;
use vstd::string::StringExecFns;

verus! {

/// Why a job failed.
#[derive(PartialEq, Eq, Structural, Clone, Copy, Debug)]
pub enum FailureReason {
    /// The executable could not be spawned.
    SpawnError,
    /// A pipe read failed mid-stream.
    IoError,
    /// The child ran but reported a non-zero exit status.
    NonZeroExit,
    /// The caller requested cancellation.
    Cancelled,
}

/// The single terminal outcome of one job.
pub enum JobResult {
    Success { artifact_path: String },
    Failure { reason: FailureReason, detail: String },
}

/// Where a supervised job stands.
pub enum JobPhase {
    /// Lines are still being consumed.
    Streaming,
    /// A terminal result was produced; no transition leads back.
    Done,
}

/// What one read-loop iteration asks of the caller.
pub enum LineStep {
    /// Cancellation was observed: kill the child and return the held result.
    Cancelled(JobResult),
    /// The line decoded: forward this event to the sink.
    Emit(ProgressEvent),
    /// The line was no progress record: drop it silently.
    Skip,
}

/// The artifact the pipeline is expected to leave on success: `output.ply`
/// directly inside the requested output directory.
pub open spec fn artifact_of(dir: Seq<char>) -> Seq<char> {
    dir + "/output.ply"@
}

/// Build the artifact path for an output directory.
pub fn artifact_path(output_dir: &str) -> (r: String)
    ensures
        r@ == artifact_of(output_dir@),
{
    let mut s = String::from_str(output_dir);
    s.append("/output.ply");
    s
}

/// The progress records a stream of lines carries, in stream order:
/// decodable lines contribute exactly their record, all others nothing.
pub open spec fn decoded_events(lines: Seq<Seq<char>>) -> Seq<ProgressRec>
    decreases lines.len(),
{
    if lines.len() == 0 {
        Seq::empty()
    } else {
        let rest = decoded_events(lines.drop_first());
        match spec_decode(lines[0]) {
            Some(r) => seq![r] + rest,
            None => rest,
        }
    }
}

/// How one more line extends the forwarded events: a well-formed record
/// appends exactly its event at the end (order kept), an unparsable line
/// changes nothing (silently discarded).
pub proof fn lemma_decoded_events_snoc(lines: Seq<Seq<char>>, l: Seq<char>)
    ensures
        decoded_events(lines.push(l)) == (match spec_decode(l) {
            Some(r) => decoded_events(lines).push(r),
            None => decoded_events(lines),
        }),
    decreases lines.len(),
{
    if lines.len() == 0 {
        reveal_with_fuel(decoded_events, 3);
        assert(lines.push(l)[0] == l);
        assert(lines =~= Seq::<Seq<char>>::empty());
        assert(lines.push(l).drop_first() =~= Seq::<Seq<char>>::empty());
        match spec_decode(l) {
            Some(r) => {
                assert(decoded_events(lines.push(l)) =~= decoded_events(lines).push(r));
            },
            None => {
                assert(decoded_events(lines.push(l)) =~= decoded_events(lines));
            },
        }
    } else {
        lemma_decoded_events_snoc(lines.drop_first(), l);
        assert(lines.push(l)[0] == lines[0]);
        assert(lines.push(l).drop_first() =~= lines.drop_first().push(l));
        match spec_decode(l) {
            Some(r) => {
                assert(decoded_events(lines.push(l)) =~= decoded_events(lines).push(r));
            },
            None => {
                assert(decoded_events(lines.push(l)) =~= decoded_events(lines));
            },
        }
    }
}

/// How many of the lines are well-formed progress records.
pub open spec fn record_count(lines: Seq<Seq<char>>) -> int
    decreases lines.len(),
{
    if lines.len() == 0 {
        0
    } else {
        (if spec_decode(lines[0]) is Some {
            1int
        } else {
            0int
        }) + record_count(lines.drop_first())
    }
}

/// Exactly one event is forwarded per well-formed record: with N records
/// among the lines, N events come out, however many unparsable lines stand
/// between them.
pub proof fn lemma_decoded_events_count(lines: Seq<Seq<char>>)
    ensures
        decoded_events(lines).len() == record_count(lines),
    decreases lines.len(),
{
    if lines.len() > 0 {
        lemma_decoded_events_count(lines.drop_first());
    }
}

/// Supervisor of one job: holds the requested output directory (for the
/// artifact path) and the phase of the job's state machine.
pub struct Supervisor {
    pub output_dir: String,
    pub phase: JobPhase,
}

impl Supervisor {
    /// Take over a freshly requested job; streaming begins at spawn.
    pub fn new(request: &ProcessArgs) -> (s: Supervisor)
        ensures
            s.phase is Streaming,
            s.output_dir@ == request.output_dir@,
    {
        Supervisor { output_dir: request.output_dir.clone(), phase: JobPhase::Streaming }
    }

    /// The executable could not be spawned: terminal at once, no retry, and
    /// necessarily before any progress event was forwarded.
    pub fn fail_spawn(&mut self, detail: String) -> (r: JobResult)
        requires
            old(self).phase is Streaming,
        ensures
            final(self).phase is Done,
            final(self).output_dir == old(self).output_dir,
            r matches JobResult::Failure { reason, detail: d } && reason
                == FailureReason::SpawnError && d == detail,
    {
        self.phase = JobPhase::Done;
        JobResult::Failure { reason: FailureReason::SpawnError, detail }
    }

    /// A pipe read failed mid-stream: terminal, surfaced as an I/O failure.
    pub fn fail_read(&mut self, detail: String) -> (r: JobResult)
        requires
            old(self).phase is Streaming,
        ensures
            final(self).phase is Done,
            final(self).output_dir == old(self).output_dir,
            r matches JobResult::Failure { reason, detail: d } && reason == FailureReason::IoError
                && d == detail,
    {
        self.phase = JobPhase::Done;
        JobResult::Failure { reason: FailureReason::IoError, detail }
    }

    /// One read-loop iteration. The cancellation signal is checked before the
    /// line is looked at: if it is set, the job ends cancelled right here and
    /// the line is not processed — never a success, whatever the line held.
    /// Otherwise the line is decoded; a record is forwarded, anything else is
    /// dropped, and the job streams on unchanged.
    pub fn step_line(&mut self, cancelled: bool, line: &str) -> (r: LineStep)
        requires
            old(self).phase is Streaming,
        ensures
            final(self).output_dir == old(self).output_dir,
            cancelled ==> final(self).phase is Done && (r matches LineStep::Cancelled(res)
                && res matches JobResult::Failure { reason, detail } && reason
                == FailureReason::Cancelled && detail@ == "Processing cancelled"@),
            !cancelled ==> *final(self) == *old(self) && (match spec_decode(line@) {
                Some(rec) => r matches LineStep::Emit(ev) && ev@ == rec,
                None => r is Skip,
            }),
    {
        if cancelled {
            self.phase = JobPhase::Done;
            return LineStep::Cancelled(
                JobResult::Failure {
                    reason: FailureReason::Cancelled,
                    detail: String::from_str("Processing cancelled"),
                },
            );
        }
        match decode_line(line) {
            Some(ev) => LineStep::Emit(ev),
            None => LineStep::Skip,
        }
    }

    /// The pipe closed and the child exited. A clean exit yields the one
    /// success, carrying `<output_dir>/output.ply`; anything else is a
    /// non-zero-exit failure carrying the status text.
    pub fn finish(&mut self, exit_ok: bool, status_detail: String) -> (r: JobResult)
        requires
            old(self).phase is Streaming,
        ensures
            final(self).phase is Done,
            final(self).output_dir == old(self).output_dir,
            exit_ok ==> (r matches JobResult::Success { artifact_path } && artifact_path@
                == artifact_of(old(self).output_dir@)),
            !exit_ok ==> (r matches JobResult::Failure { reason, detail } && reason
                == FailureReason::NonZeroExit && detail == status_detail),
    {
        self.phase = JobPhase::Done;
        if exit_ok {
            JobResult::Success { artifact_path: artifact_path(self.output_dir.as_str()) }
        } else {
            JobResult::Failure { reason: FailureReason::NonZeroExit, detail: status_detail }
        }
    }

    /// Feed a whole batch of lines with no cancellation pending: exactly the
    /// decodable lines are forwarded, in stream order, and the job streams on.
    pub fn drain_lines(&mut self, lines: &Vec<String>) -> (events: Vec<ProgressEvent>)
        requires
            old(self).phase is Streaming,
        ensures
            *final(self) == *old(self),
            events.deep_view() == decoded_events(lines.deep_view()),
    {
        let ghost s0 = *self;
        let mut events: Vec<ProgressEvent> = Vec::new();
        let mut idx: usize = 0;
        assert(events.deep_view() =~= decoded_events(lines.deep_view().take(0)));
        while idx < lines.len()
            invariant
                idx <= lines.len(),
                *self == s0,
                s0.phase is Streaming,
                events.deep_view() =~= decoded_events(lines.deep_view().take(idx as int)),
            decreases lines.len() - idx,
        {
            let step = self.step_line(false, lines[idx].as_str());
            match step {
                LineStep::Emit(ev) => events.push(ev),
                _ => {},
            }
            idx = idx + 1;
            proof {
                let lv = lines.deep_view();
                lemma_decoded_events_snoc(lv.take(idx - 1), lv[idx - 1]);
                assert(lv.take(idx as int) =~= lv.take(idx - 1).push(lv[idx - 1]));
                assert(events.deep_view() =~= decoded_events(lv.take(idx as int)));
            }
        }
        assert(lines.deep_view().take(lines.len() as int) =~= lines.deep_view());
        events
    }
}

/// Run one job whose whole transcript is known: every decodable line is
/// forwarded in order, nothing else is, and the result is the one success
/// carrying `<output_dir>/output.ply` exactly when the child exited cleanly —
/// however many unparsable lines the transcript held.
pub fn run_transcript(request: &ProcessArgs, lines: &Vec<String>, exit_ok: bool, status_detail: String) -> (r: (
    Vec<ProgressEvent>,
    JobResult,
))
    ensures
        r.0.deep_view() == decoded_events(lines.deep_view()),
        exit_ok ==> (r.1 matches JobResult::Success { artifact_path } && artifact_path@
            == artifact_of(request.output_dir@)),
        !exit_ok ==> (r.1 matches JobResult::Failure { reason, detail } && reason
            == FailureReason::NonZeroExit && detail == status_detail),
{
    let mut sup = Supervisor::new(request);
    let events = sup.drain_lines(lines);
    let result = sup.finish(exit_ok, status_detail);
    (events, result)
}

} // verus!
