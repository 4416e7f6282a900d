use vstd::prelude::*;
use crate::stream::ReadEvent;
use crate::stream::StepOutcome;
use crate::stream::StreamReader;
use crate::stream::event_bytes;
use crate::stream::spec_completes;
use crate::stream::spec_delivers;
use crate::stream::spec_next_count;

verus! {

/// A fatal report from the inference collaborator. Any of these ends the
/// process: the collaborator can no longer be trusted with further sessions.
#[derive(Clone, Copy, PartialEq, Eq, Structural, Debug)]
pub enum FailureKind {
    /// The collaborator failed internally.
    Internal,
    /// The collaborator rejected the request as invalid.
    Validation,
    /// The model itself failed while generating.
    Model,
}

/// State of the inference node: it cycles listen, accumulate, infer,
/// stream, one session at a time.
pub enum InferState {
    /// Waiting to accept the next inbound prompt connection.
    Listening,
    /// Consuming the inbound stream, gathering every delivered fragment
    /// into one prompt.
    Accumulating { reader: StreamReader, prompt: Vec<u8> },
    /// The prompt is complete and on its way to the collaborator.
    Inferring,
    /// Forwarding the collaborator's chunks to the response connection.
    Streaming,
    /// The collaborator reported a fatal error; no further session runs.
    Failed { kind: FailureKind },
}

/// One outside outcome handed to the inference node.
pub enum InferEvent {
    /// A prompt connection was accepted.
    Accepted,
    /// Outcome of one read on the accepted connection.
    Read(ReadEvent),
    /// The prompt was submitted and the outbound response connection was
    /// attempted; `connected` tells whether the connect succeeded.
    Dispatched { connected: bool },
    /// The collaborator produced one chunk of response text.
    Chunk(Vec<u8>),
    /// The collaborator reported normal completion.
    Done,
    /// The collaborator reported a fatal error.
    Collapsed { kind: FailureKind },
}

/// What the control loop must do next.
pub enum InferAction {
    /// Bind a fresh listener, accept one connection, note the peer's
    /// remote address, and report with an `Accepted` event.
    AwaitConnection,
    /// Perform the next read on the accepted connection.
    ReadAgain,
    /// Submit this prompt to the collaborator with the fixed generation
    /// parameters, streaming requested, and open the outbound connection
    /// to the derived response address; report with a `Dispatched` event.
    Submit(Vec<u8>),
    /// Await the collaborator's next signal; report it as a `Chunk`,
    /// `Done` or `Collapsed` event.
    AwaitSignal,
    /// Write these bytes to the response connection, best effort (a failed
    /// write is logged, not retried), then await the next signal.
    ForwardChunk(Vec<u8>),
    /// The session is over: let the connection close on its own and listen
    /// again.
    FinishSession,
    /// Fatal collaborator failure: terminate the process with a message
    /// naming the failure.
    Abort(FailureKind),
}

/// Which events can reach the node in each state.
pub open spec fn infer_event_fits(s: InferState, ev: InferEvent) -> bool {
    match s {
        InferState::Listening => ev is Accepted,
        InferState::Accumulating { .. } => ev is Read,
        InferState::Inferring => ev is Dispatched,
        InferState::Streaming => ev is Chunk || ev is Done || ev is Collapsed,
        InferState::Failed { .. } => false,
    }
}

impl InferState {
    /// A state the protocol can be in: a reader that is consuming a stream
    /// has not yet run past the empty-observation limit.
    pub open spec fn wf(self) -> bool {
        self matches InferState::Accumulating { reader, .. } ==> reader.wf()
    }

    /// The node as it starts, and as it stands between sessions.
    pub fn start() -> (s: InferState)
        ensures
            s is Listening,
            s.wf(),
    {
        InferState::Listening
    }

    /// Drive the node by one outside outcome: decide the next state and the
    /// action the control loop must take.
    pub fn step(self, ev: InferEvent) -> (r: (InferState, InferAction))
        requires
            self.wf(),
            infer_event_fits(self, ev),
        ensures
            r.0.wf(),
            ev is Accepted ==> {
                &&& r.0 matches InferState::Accumulating { reader, prompt }
                    && reader.empty_count == 0 && prompt@ == Seq::<u8>::empty()
                &&& r.1 is ReadAgain
            },
            ev matches InferEvent::Read(rd) ==> {
                let c0 = self->Accumulating_reader.empty_count as int;
                let buf0 = self->Accumulating_prompt@;
                &&& spec_completes(c0, rd) ==> {
                    &&& r.0 is Inferring
                    &&& r.1 matches InferAction::Submit(p) && p@ == buf0
                }
                &&& spec_delivers(rd) ==> {
                    &&& r.0 matches InferState::Accumulating { reader, prompt }
                        && reader.empty_count == 0 && prompt@ == buf0 + event_bytes(rd)
                    &&& r.1 is ReadAgain
                }
                &&& !spec_completes(c0, rd) && !spec_delivers(rd) ==> {
                    &&& r.0 matches InferState::Accumulating { reader, prompt }
                        && reader.empty_count as int == spec_next_count(c0, rd) && prompt@
                        == buf0
                    &&& r.1 is ReadAgain
                }
            },
            ev matches InferEvent::Dispatched { connected } ==> if connected {
                r.0 is Streaming && r.1 is AwaitSignal
            } else {
                r.0 is Listening && r.1 is FinishSession
            },
            ev matches InferEvent::Chunk(b) ==> {
                &&& r.0 is Streaming
                &&& r.1 matches InferAction::ForwardChunk(f) && f@ == b@
            },
            ev is Done ==> r.0 is Listening && r.1 is FinishSession,
            ev matches InferEvent::Collapsed { kind } ==> {
                &&& r.0 matches InferState::Failed { kind: k } && k == kind
                &&& r.1 matches InferAction::Abort(k) && k == kind
            },
    {
        match self {
            InferState::Listening => {
                match ev {
                    InferEvent::Accepted => (
                        InferState::Accumulating {
                            reader: StreamReader::new(),
                            prompt: Vec::new(),
                        },
                        InferAction::ReadAgain,
                    ),
                    _ => (InferState::Listening, InferAction::AwaitConnection),
                }
            },
            InferState::Accumulating { mut reader, mut prompt } => {
                match ev {
                    InferEvent::Read(rd) => {
                        match reader.step(rd) {
                            StepOutcome::Deliver(b) => {
                                let mut chunk = b;
                                prompt.append(&mut chunk);
                                (
                                    InferState::Accumulating { reader, prompt },
                                    InferAction::ReadAgain,
                                )
                            },
                            StepOutcome::Continue => (
                                InferState::Accumulating { reader, prompt },
                                InferAction::ReadAgain,
                            ),
                            StepOutcome::Complete => (
                                InferState::Inferring,
                                InferAction::Submit(prompt),
                            ),
                        }
                    },
                    _ => (
                        InferState::Accumulating { reader, prompt },
                        InferAction::ReadAgain,
                    ),
                }
            },
            InferState::Inferring => {
                match ev {
                    InferEvent::Dispatched { connected } => {
                        if connected {
                            (InferState::Streaming, InferAction::AwaitSignal)
                        } else {
                            (InferState::Listening, InferAction::FinishSession)
                        }
                    },
                    _ => (InferState::Inferring, InferAction::AwaitSignal),
                }
            },
            InferState::Streaming => {
                match ev {
                    InferEvent::Chunk(b) => (
                        InferState::Streaming,
                        InferAction::ForwardChunk(b),
                    ),
                    InferEvent::Done => (InferState::Listening, InferAction::FinishSession),
                    InferEvent::Collapsed { kind } => (
                        InferState::Failed { kind },
                        InferAction::Abort(kind),
                    ),
                    _ => (InferState::Streaming, InferAction::AwaitSignal),
                }
            },
            InferState::Failed { kind } => (
                InferState::Failed { kind },
                InferAction::Abort(kind),
            ),
        }
    }
}

} // verus!
