use vstd::prelude::*;
use crate::keys::Key;
use crate::keys::combo_held;
use crate::keys::hotkey_pressed;
use crate::stream::ReadEvent;
use crate::stream::StepOutcome;
use crate::stream::StreamReader;
use crate::stream::event_bytes;
use crate::stream::spec_completes;
use crate::stream::spec_delivers;
use crate::stream::spec_next_count;

verus! {

/// State of the capture node: it cycles hotkey-watch, clipboard-send,
/// listen-and-type, one session at a time, forever.
pub enum CaptureState {
    /// Polling the pressed-key set for the hotkey combination.
    WaitingForHotkey,
    /// Holding a captured prompt, the outbound connection not yet open.
    Sending { prompt: Vec<u8> },
    /// Consuming the inbound response stream.
    Receiving { reader: StreamReader },
}

/// One outside outcome handed to the capture node.
pub enum CaptureEvent {
    /// One poll: the sampled keys and, when the sample held the hotkey
    /// combination, the clipboard text that was read on the spot (`None`
    /// when the clipboard held no text).
    Poll { keys: Vec<Key>, clipboard: Option<Vec<u8>> },
    /// Outcome of the outbound connect to the configured peer.
    Connect { ok: bool },
    /// Outcome of one read on the accepted inbound connection.
    Read(ReadEvent),
}

/// What the control loop must do next.
pub enum CaptureAction {
    /// Yield briefly, then poll the pressed keys again.
    KeepPolling,
    /// Open the outbound connection to the configured peer; report the
    /// outcome as a `Connect` event.
    OpenOutbound,
    /// Write these bytes to the open connection, flush, drop it, then bind
    /// a fresh listener, accept one connection, and report each read as a
    /// `Read` event.
    SendPrompt(Vec<u8>),
    /// Log the failed connect; nothing was sent this cycle.
    ReportConnectFailed,
    /// Inject this text as keystrokes at once, then read again.
    TypeChunk(Vec<u8>),
    /// Perform the next read on the inbound connection.
    ReadAgain,
    /// The response stream is complete: drop the connection and listener.
    FinishSession,
}

/// The prompt a clipboard read yields: its text, or empty when the
/// clipboard held none.
pub open spec fn clip_bytes(clipboard: Option<Vec<u8>>) -> Seq<u8> {
    match clipboard {
        Option::Some(b) => b@,
        Option::None => Seq::empty(),
    }
}

/// Which events can reach the node in each state.
pub open spec fn capture_event_fits(s: CaptureState, ev: CaptureEvent) -> bool {
    match s {
        CaptureState::WaitingForHotkey => ev is Poll,
        CaptureState::Sending { .. } => ev is Connect,
        CaptureState::Receiving { .. } => ev is Read,
    }
}

impl CaptureState {
    /// A state the protocol can be in: a reader that is consuming a stream
    /// has not yet run past the empty-observation limit.
    pub open spec fn wf(self) -> bool {
        self matches CaptureState::Receiving { reader } ==> reader.wf()
    }

    /// The node as it starts, and as it stands between sessions.
    pub fn start() -> (s: CaptureState)
        ensures
            s is WaitingForHotkey,
            s.wf(),
    {
        CaptureState::WaitingForHotkey
    }

    /// Drive the node by one outside outcome: decide the next state and the
    /// action the control loop must take.
    pub fn step(self, ev: CaptureEvent) -> (r: (CaptureState, CaptureAction))
        requires
            self.wf(),
            capture_event_fits(self, ev),
        ensures
            r.0.wf(),
            ev matches CaptureEvent::Poll { keys, clipboard } ==> if combo_held(keys@) {
                &&& r.0 matches CaptureState::Sending { prompt } && prompt@ == clip_bytes(
                    clipboard,
                )
                &&& r.1 is OpenOutbound
            } else {
                &&& r.0 is WaitingForHotkey
                &&& r.1 is KeepPolling
            },
            ev matches CaptureEvent::Connect { ok } ==> if ok {
                &&& r.0 matches CaptureState::Receiving { reader } && reader.empty_count == 0
                &&& r.1 matches CaptureAction::SendPrompt(p) && p@ == self->prompt@
            } else {
                &&& r.0 is WaitingForHotkey
                &&& r.1 is ReportConnectFailed
            },
            ev matches CaptureEvent::Read(rd) ==> {
                let c0 = self->reader.empty_count as int;
                &&& spec_completes(c0, rd) ==> r.0 is WaitingForHotkey && r.1 is FinishSession
                &&& spec_delivers(rd) ==> {
                    &&& r.0 matches CaptureState::Receiving { reader } && reader.empty_count
                        == 0
                    &&& r.1 matches CaptureAction::TypeChunk(b) && b@ == event_bytes(rd)
                }
                &&& !spec_completes(c0, rd) && !spec_delivers(rd) ==> {
                    &&& r.0 matches CaptureState::Receiving { reader }
                        && reader.empty_count as int == spec_next_count(c0, rd)
                    &&& r.1 is ReadAgain
                }
            },
    {
        match self {
            CaptureState::WaitingForHotkey => {
                match ev {
                    CaptureEvent::Poll { keys, clipboard } => {
                        if hotkey_pressed(&keys) {
                            let prompt = match clipboard {
                                Option::Some(b) => b,
                                Option::None => Vec::new(),
                            };
                            (CaptureState::Sending { prompt }, CaptureAction::OpenOutbound)
                        } else {
                            (CaptureState::WaitingForHotkey, CaptureAction::KeepPolling)
                        }
                    },
                    _ => (CaptureState::WaitingForHotkey, CaptureAction::KeepPolling),
                }
            },
            CaptureState::Sending { prompt } => {
                match ev {
                    CaptureEvent::Connect { ok } => {
                        if ok {
                            (
                                CaptureState::Receiving { reader: StreamReader::new() },
                                CaptureAction::SendPrompt(prompt),
                            )
                        } else {
                            (
                                CaptureState::WaitingForHotkey,
                                CaptureAction::ReportConnectFailed,
                            )
                        }
                    },
                    _ => (CaptureState::Sending { prompt }, CaptureAction::KeepPolling),
                }
            },
            CaptureState::Receiving { mut reader } => {
                match ev {
                    CaptureEvent::Read(rd) => {
                        match reader.step(rd) {
                            StepOutcome::Deliver(b) => (
                                CaptureState::Receiving { reader },
                                CaptureAction::TypeChunk(b),
                            ),
                            StepOutcome::Continue => (
                                CaptureState::Receiving { reader },
                                CaptureAction::ReadAgain,
                            ),
                            StepOutcome::Complete => (
                                CaptureState::WaitingForHotkey,
                                CaptureAction::FinishSession,
                            ),
                        }
                    },
                    _ => (CaptureState::Receiving { reader }, CaptureAction::ReadAgain),
                }
            },
        }
    }
}

} // verus!
