use vstd::prelude::*;

use crate::connection::{
    ApiInfo,
    ApiState,
    RawRecord,
    lemma_malformed_record_rejected,
    ready_info,
    ready_word,
};

verus! {

/// One event from the worker's output.
pub enum WorkerEvent {
    /// A line on standard output, with the fields it decoded to; `None` when it
    /// was not UTF-8 text or not a JSON object of the ready shape.
    Stdout(Option<RawRecord>),
    /// A line on the error stream: always diagnostic.
    Stderr,
    /// An error reported by the process machinery: diagnostic.
    Error,
    /// The process ended, with its exit code if one was reported.
    Terminated(Option<i32>),
}

/// Why a handshake failed.
pub enum HandshakeError {
    /// The output stream closed before a ready record was seen.
    ClosedBeforeReady,
    /// The process ended before a ready record was seen.
    TerminatedBeforeReady(Option<i32>),
}

impl HandshakeError {
    /// The text reported to the application.
    pub fn message(&self) -> (r: String)
        ensures
            match self {
                HandshakeError::ClosedBeforeReady => r@
                    == "Sidecar output closed before it became ready."@,
                HandshakeError::TerminatedBeforeReady(_) => r@
                    == "Sidecar process terminated before it became ready."@,
            },
    {
        match self {
            HandshakeError::ClosedBeforeReady => String::from_str(
                "Sidecar output closed before it became ready.",
            ),
            HandshakeError::TerminatedBeforeReady(_) => String::from_str(
                "Sidecar process terminated before it became ready.",
            ),
        }
    }
}

/// What the reader asks its driver to do after an event.
pub enum ReaderAction {
    /// The handshake succeeded: publish this descriptor and keep draining.
    Publish(ApiInfo),
    /// Log the event as diagnostic output and keep reading.
    Diagnostic,
    /// The handshake failed; stop reading.
    Fail(HandshakeError),
    /// Stop reading: the stream ended after the handshake, or after a stop
    /// that the application itself requested.
    Finish,
}

/// How a handshake over a finished sequence of events turned out.
pub enum HandshakeOutcome {
    Ready(ApiInfo),
    Stopped,
    Failed(HandshakeError),
}

/// The descriptor an event completes the handshake with, if any.
pub open spec fn event_ready(e: WorkerEvent) -> Option<ApiInfo> {
    match e {
        WorkerEvent::Stdout(Some(raw)) => ready_info(raw),
        _ => None,
    }
}

/// The outcome of a handshake over `events`, read in order until the first
/// ready record; `stopped` says whether the application stopped the worker,
/// in which case nothing is ever published.
pub open spec fn handshake_outcome(events: Seq<WorkerEvent>, stopped: bool) -> HandshakeOutcome
    decreases events.len(),
{
    if events.len() == 0 {
        if stopped {
            HandshakeOutcome::Stopped
        } else {
            HandshakeOutcome::Failed(HandshakeError::ClosedBeforeReady)
        }
    } else {
        match event_ready(events[0]) {
            Some(info) => if stopped {
                HandshakeOutcome::Stopped
            } else {
                HandshakeOutcome::Ready(info)
            },
            None => match events[0] {
                WorkerEvent::Terminated(code) => if stopped {
                    HandshakeOutcome::Stopped
                } else {
                    HandshakeOutcome::Failed(HandshakeError::TerminatedBeforeReady(code))
                },
                _ => handshake_outcome(events.drop_first(), stopped),
            },
        }
    }
}

/// What the handshake leaves in the connection state: the descriptor when it
/// succeeded, else the state as it was.
pub open spec fn handshake_effect(events: Seq<WorkerEvent>, stopped: bool, state: ApiState) -> ApiState {
    match handshake_outcome(events, stopped) {
        HandshakeOutcome::Ready(info) => ApiState { info: Some(info) },
        _ => state,
    }
}

/// An event that neither completes nor ends the handshake.
pub open spec fn is_noise(e: WorkerEvent) -> bool {
    event_ready(e) is None && !(e is Terminated)
}

/// While the worker runs, lines that complete nothing (output that is no ready
/// record, or diagnostics), followed by a ready record, complete the handshake
/// with exactly that record's fields, which the connection state then holds;
/// what comes after the record does not matter.
pub proof fn lemma_ready_after_noise(
    noise: Seq<WorkerEvent>,
    status: String,
    port: u16,
    token: String,
    rest: Seq<WorkerEvent>,
    state: ApiState,
)
    requires
        forall|i: int| 0 <= i < noise.len() ==> is_noise(#[trigger] noise[i]),
        status@ == ready_word(),
    ensures
        handshake_effect(
            noise + seq![
                WorkerEvent::Stdout(
                    Some(
                        RawRecord {
                            status: Some(status),
                            port: Some(port as u64),
                            token: Some(token),
                        },
                    ),
                ),
            ] + rest,
            false,
            state,
        ).info == Some(ApiInfo { port, token, status }),
        handshake_outcome(
            noise + seq![
                WorkerEvent::Stdout(
                    Some(
                        RawRecord {
                            status: Some(status),
                            port: Some(port as u64),
                            token: Some(token),
                        },
                    ),
                ),
            ] + rest,
            false,
        ) == HandshakeOutcome::Ready(ApiInfo { port, token, status }),
    decreases noise.len(),
{
    let ready = WorkerEvent::Stdout(
        Some(RawRecord { status: Some(status), port: Some(port as u64), token: Some(token) }),
    );
    let events = noise + seq![ready] + rest;
    if noise.len() == 0 {
        assert(events[0] == ready);
    } else {
        let tail = noise.drop_first();
        assert(events.drop_first() =~= tail + seq![ready] + rest);
        assert(is_noise(noise[0]));
        assert(events[0] == noise[0]);
        lemma_ready_after_noise(tail, status, port, token, rest, state);
    }
}

/// Once the application has stopped the worker, the handshake publishes
/// nothing, whatever the worker still writes: the connection state stays as the
/// stop left it.
pub proof fn lemma_nothing_published_after_stop(events: Seq<WorkerEvent>, state: ApiState)
    ensures
        !(handshake_outcome(events, true) is Ready),
        handshake_effect(events, true, state) == state,
    decreases events.len(),
{
    if events.len() > 0 {
        lemma_nothing_published_after_stop(events.drop_first(), state);
    }
}

/// A line whose record has a port beyond 16 bits, or no token, does not
/// complete the handshake: reading goes on as if the line were not there.
pub proof fn lemma_malformed_line_skipped(raw: RawRecord, rest: Seq<WorkerEvent>, stopped: bool)
    requires
        raw.token is None || (raw.port is Some && raw.port->Some_0 > u16::MAX),
    ensures
        is_noise(WorkerEvent::Stdout(Some(raw))),
        handshake_outcome(seq![WorkerEvent::Stdout(Some(raw))] + rest, stopped)
            == handshake_outcome(rest, stopped),
{
    lemma_malformed_record_rejected(raw);
    let events = seq![WorkerEvent::Stdout(Some(raw))] + rest;
    assert(events[0] == WorkerEvent::Stdout(Some(raw)));
    assert(events.drop_first() =~= rest);
}

/// When the output stream closes after events of which none completes or ends
/// the handshake, and the application did not stop the worker, the handshake
/// fails with `ClosedBeforeReady` and the connection state is left as it was.
pub proof fn lemma_closed_before_ready(events: Seq<WorkerEvent>, state: ApiState)
    requires
        forall|i: int| 0 <= i < events.len() ==> is_noise(#[trigger] events[i]),
    ensures
        handshake_outcome(events, false) == HandshakeOutcome::Failed(
            HandshakeError::ClosedBeforeReady,
        ),
        handshake_effect(events, false, state) == state,
    decreases events.len(),
{
    if events.len() > 0 {
        let tail = events.drop_first();
        assert(is_noise(events[0]));
        assert forall|i: int| 0 <= i < tail.len() implies is_noise(#[trigger] tail[i]) by {
            assert(tail[i] == events[i + 1]);
        }
        lemma_closed_before_ready(tail, state);
    }
}

/// The handshake reader: a transducer from worker events to actions.
pub struct HandshakeReader {
    pub complete: bool,
}

impl HandshakeReader {
    /// A reader that has not seen a ready record yet.
    pub fn new() -> (r: HandshakeReader)
        ensures
            !r.complete,
    {
        HandshakeReader { complete: false }
    }

    /// Classifies one event. Before the handshake the first ready record is
    /// published, unless the application had stopped the worker: then reading
    /// ends and nothing is published. A termination before the handshake fails
    /// it unless the worker was stopped. After the handshake, output is
    /// diagnostic and a termination ends the reading.
    pub fn step(&mut self, event: &WorkerEvent, stopped: bool) -> (r: ReaderAction)
        ensures
            !old(self).complete ==> match event_ready(*event) {
                Some(info) => if stopped {
                    r == ReaderAction::Finish && !final(self).complete
                } else {
                    r == ReaderAction::Publish(info) && final(self).complete
                },
                None => !final(self).complete && match *event {
                    WorkerEvent::Terminated(code) => if stopped {
                        r == ReaderAction::Finish
                    } else {
                        r == ReaderAction::Fail(HandshakeError::TerminatedBeforeReady(code))
                    },
                    _ => r == ReaderAction::Diagnostic,
                },
            },
            old(self).complete ==> final(self).complete && match *event {
                WorkerEvent::Terminated(_) => r == ReaderAction::Finish,
                _ => r == ReaderAction::Diagnostic,
            },
    {
        if !self.complete {
            if let WorkerEvent::Stdout(Some(raw)) = event {
                if let Some(info) = raw.ready() {
                    if stopped {
                        return ReaderAction::Finish;
                    }
                    self.complete = true;
                    return ReaderAction::Publish(info);
                }
            }
        }
        match event {
            WorkerEvent::Terminated(code) => {
                if self.complete || stopped {
                    ReaderAction::Finish
                } else {
                    ReaderAction::Fail(HandshakeError::TerminatedBeforeReady(*code))
                }
            },
            _ => ReaderAction::Diagnostic,
        }
    }

    /// The action once the output stream has closed.
    pub fn at_close(&self, stopped: bool) -> (r: ReaderAction)
        ensures
            r == (if self.complete || stopped {
                ReaderAction::Finish
            } else {
                ReaderAction::Fail(HandshakeError::ClosedBeforeReady)
            }),
    {
        if self.complete || stopped {
            ReaderAction::Finish
        } else {
            ReaderAction::Fail(HandshakeError::ClosedBeforeReady)
        }
    }
}

/// Runs the handshake over a finished sequence of events and publishes the
/// descriptor into `state` when it succeeds; on any other outcome `state` is
/// left as it was.
pub fn run_handshake(events: &Vec<WorkerEvent>, stopped: bool, state: &mut ApiState) -> (r:
    HandshakeOutcome)
    ensures
        r == handshake_outcome(events@, stopped),
        *final(state) == handshake_effect(events@, stopped, *old(state)),
        match r {
            HandshakeOutcome::Ready(info) => final(state).info == Some(info),
            _ => *final(state) == *old(state),
        },
{
    let mut reader = HandshakeReader::new();
    let mut i: usize = 0;
    assert(events@.subrange(0, events@.len() as int) =~= events@);
    while i < events.len()
        invariant
            i <= events@.len(),
            !reader.complete,
            *state == *old(state),
            handshake_outcome(events@, stopped) == handshake_outcome(
                events@.subrange(i as int, events@.len() as int),
                stopped,
            ),
        decreases events@.len() - i,
    {
        let ghost rest = events@.subrange(i as int, events@.len() as int);
        assert(rest.drop_first() =~= events@.subrange(i + 1, events@.len() as int));
        match reader.step(&events[i], stopped) {
            ReaderAction::Publish(info) => {
                state.set_info(info.clone());
                return HandshakeOutcome::Ready(info);
            },
            ReaderAction::Fail(e) => {
                return HandshakeOutcome::Failed(e);
            },
            ReaderAction::Finish => {
                return HandshakeOutcome::Stopped;
            },
            ReaderAction::Diagnostic => {},
        }
        i = i + 1;
    }
    match reader.at_close(stopped) {
        ReaderAction::Fail(e) => HandshakeOutcome::Failed(e),
        _ => HandshakeOutcome::Stopped,
    }
}

} // verus!
