use vstd::prelude::*;

use crate::diagnostics::{ascii_chars, diagnostic_bytes, error_text, is_ascii_bytes, reported_text};
use crate::error::StreamError;
use vstd::string::StringSliceAdditionalSpecFns;

verus! {

/// Whether a byte sequence holds a zero byte.
pub open spec fn has_nul(bytes: Seq<u8>) -> bool {
    exists|i: int| 0 <= i < bytes.len() && bytes[i] == 0
}

/// The text form of a path that the host runtime expects: its UTF-8 bytes
/// followed by one terminating zero byte; a path that holds a zero byte has
/// no such form.
pub open spec fn encoded_path(bytes: Seq<u8>) -> Result<Seq<u8>, StreamError> {
    if has_nul(bytes) {
        Err(StreamError::InvalidPath)
    } else {
        Ok(bytes.push(0u8))
    }
}

/// Turns `path` into the zero-terminated text handed to the data-producing
/// entry point, or `InvalidPath` if it holds a zero byte.
pub fn encode_path(path: &str) -> (r: Result<Vec<u8>, StreamError>)
    ensures
        match (r, encoded_path(path.spec_bytes())) {
            (Ok(b), Ok(e)) => b@ == e,
            (Err(x), Err(y)) => x == y,
            _ => false,
        },
{
    let bytes = path.as_bytes();
    let mut out: Vec<u8> = Vec::new();
    let mut i: usize = 0;
    while i < bytes.len()
        invariant
            bytes@ == path.spec_bytes(),
            i <= bytes@.len(),
            out@ == bytes@.take(i as int),
            forall|j: int| 0 <= j < i ==> bytes@[j] != 0,
        decreases bytes@.len() - i,
    {
        if bytes[i] == 0 {
            return Err(StreamError::InvalidPath);
        }
        out.push(bytes[i]);
        i = i + 1;
        assert(out@ =~= bytes@.take(i as int));
    }
    assert(out@ =~= bytes@);
    out.push(0u8);
    Ok(out)
}

/// What the caller of an open session does next.
#[derive(Debug, PartialEq, Eq)]
pub enum OpenAction {
    /// Register the calling thread with the context.
    Attach,
    /// Call the data-producing entry point on `thread` with the zero-terminated
    /// `path` and the address of a zeroed stream descriptor.
    Produce { thread: usize, path: Vec<u8> },
    /// Let the error-retrieval entry point fill a buffer from `error_buffer`.
    FetchError { thread: usize },
    /// Deregister `thread`.
    Detach { thread: usize },
    /// The open is over. `Ok` means the stream descriptor is filled in and
    /// ready to be wrapped into a reader.
    Finish(Result<(), StreamError>),
}

/// What came back from the action last asked for.
#[derive(Debug, PartialEq, Eq)]
pub enum OpenEvent {
    /// Status of the attach call and the thread handle it gave.
    Attached { code: i32, thread: usize },
    /// Status of the data-producing call.
    Produced { code: i32 },
    /// The buffer after the error-retrieval call.
    ErrorFetched { buffer: Vec<u8> },
    /// Status of the detach call.
    Detached { code: i32 },
}

/// Where an open session stands.
#[derive(Debug, PartialEq, Eq)]
pub enum OpenPhase {
    /// Waiting for the attach; `path` is the zero-terminated path, or `None`
    /// where the path held a zero byte.
    Attaching { path: Option<Vec<u8>> },
    Producing { thread: usize },
    FetchingError { thread: usize },
    /// The thread is being deregistered; `outcome` is what the open returns
    /// if deregistration does not itself fail.
    Detaching { thread: usize, outcome: Result<(), StreamError> },
    Finished,
}

/// The protocol for opening a data source by path, as a state machine: the
/// caller performs each action on the host runtime and hands back the event.
#[derive(Debug, PartialEq, Eq)]
pub struct OpenSession {
    pub phase: OpenPhase,
}

/// The event kind that answers the action asked for in `phase`.
pub open spec fn expects(phase: OpenPhase, event: OpenEvent) -> bool {
    match (phase, event) {
        (OpenPhase::Attaching { .. }, OpenEvent::Attached { .. }) => true,
        (OpenPhase::Producing { .. }, OpenEvent::Produced { .. }) => true,
        (OpenPhase::FetchingError { .. }, OpenEvent::ErrorFetched { .. }) => true,
        (OpenPhase::Detaching { .. }, OpenEvent::Detached { .. }) => true,
        _ => false,
    }
}

/// Whether the calling thread is registered with the context in `phase`.
pub open spec fn holds_thread(phase: OpenPhase) -> bool {
    match phase {
        OpenPhase::Producing { .. } => true,
        OpenPhase::FetchingError { .. } => true,
        OpenPhase::Detaching { .. } => true,
        _ => false,
    }
}

/// The registered thread in `phase`, where there is one.
pub open spec fn thread_of(phase: OpenPhase) -> usize {
    match phase {
        OpenPhase::Producing { thread } => thread,
        OpenPhase::FetchingError { thread } => thread,
        OpenPhase::Detaching { thread, .. } => thread,
        _ => 0,
    }
}

impl OpenSession {
    /// Starts opening `path`; the first action is always to register the
    /// calling thread.
    pub fn begin(path: &str) -> (r: (OpenSession, OpenAction))
        ensures
            r.1 == OpenAction::Attach,
            r.0.phase matches OpenPhase::Attaching { path: p } && match (
                p,
                encoded_path(path.spec_bytes()),
            ) {
                (Some(b), Ok(e)) => b@ == e,
                (None, Err(_)) => true,
                _ => false,
            },
    {
        let encoded = match encode_path(path) {
            Ok(b) => Some(b),
            Err(_) => None,
        };
        (OpenSession { phase: OpenPhase::Attaching { path: encoded } }, OpenAction::Attach)
    }

    /// Whether `event` answers the action that this session asked for last.
    pub fn accepts(&self, event: &OpenEvent) -> (r: bool)
        ensures
            r == expects(self.phase, *event),
    {
        match (&self.phase, event) {
            (OpenPhase::Attaching { .. }, OpenEvent::Attached { .. }) => true,
            (OpenPhase::Producing { .. }, OpenEvent::Produced { .. }) => true,
            (OpenPhase::FetchingError { .. }, OpenEvent::ErrorFetched { .. }) => true,
            (OpenPhase::Detaching { .. }, OpenEvent::Detached { .. }) => true,
            _ => false,
        }
    }

    /// Takes the answer to the last action and returns the session and its
    /// next action.
    ///
    /// A failed attach finishes with `ThreadAttach`. After a successful
    /// attach, a path that could not be encoded is reported as `InvalidPath`,
    /// and otherwise the data-producing call is made. If that call fails, the
    /// host runtime's diagnostic is fetched and reported as `DataSource`. The
    /// thread is deregistered on every path that registered it, and a failed
    /// deregistration gives `ThreadDetach` only when nothing failed before it.
    pub fn step(self, event: OpenEvent) -> (r: (OpenSession, OpenAction))
        requires
            expects(self.phase, event),
        ensures
            holds_thread(self.phase) && !(self.phase is Detaching) ==> holds_thread(r.0.phase)
                && thread_of(r.0.phase) == thread_of(self.phase),
            r.1 is Finish <==> r.0.phase == OpenPhase::Finished,
            holds_thread(self.phase) && r.1 is Finish ==> self.phase is Detaching,
            match (self.phase, event) {
                (OpenPhase::Attaching { path }, OpenEvent::Attached { code, thread }) => {
                    if code != 0 {
                        r.1 == OpenAction::Finish(Err(StreamError::ThreadAttach))
                    } else {
                        match path {
                            Some(p) => r.0.phase == OpenPhase::Producing { thread } && r.1
                                == OpenAction::Produce { thread, path: p },
                            None => r.0.phase == OpenPhase::Detaching {
                                thread,
                                outcome: Err(StreamError::InvalidPath),
                            } && r.1 == OpenAction::Detach { thread },
                        }
                    }
                },
                (OpenPhase::Producing { thread }, OpenEvent::Produced { code }) => {
                    if code == 0 {
                        r.0.phase == OpenPhase::Detaching { thread, outcome: Ok(()) } && r.1
                            == OpenAction::Detach { thread }
                    } else {
                        r.0.phase == OpenPhase::FetchingError { thread } && r.1
                            == OpenAction::FetchError { thread }
                    }
                },
                (OpenPhase::FetchingError { thread }, OpenEvent::ErrorFetched { buffer }) => {
                    r.1 == OpenAction::Detach { thread } && (r.0.phase matches OpenPhase::Detaching {
                        thread: t,
                        outcome: Err(StreamError::DataSource(m)),
                    } && t == thread && m@ == reported_text(buffer@) && (is_ascii_bytes(
                        diagnostic_bytes(buffer@),
                    ) ==> m@ == ascii_chars(diagnostic_bytes(buffer@))))
                },
                (OpenPhase::Detaching { outcome, .. }, OpenEvent::Detached { code }) => {
                    r.1 == OpenAction::Finish(
                        if outcome is Err {
                            outcome
                        } else if code == 0 {
                            Ok(())
                        } else {
                            Err(StreamError::ThreadDetach)
                        },
                    )
                },
                _ => false,
            },
    {
        let finished = OpenSession { phase: OpenPhase::Finished };
        match (self.phase, event) {
            (OpenPhase::Attaching { path }, OpenEvent::Attached { code, thread }) => {
                if code != 0 {
                    (finished, OpenAction::Finish(Err(StreamError::ThreadAttach)))
                } else {
                    match path {
                        Some(p) => (
                            OpenSession { phase: OpenPhase::Producing { thread } },
                            OpenAction::Produce { thread, path: p },
                        ),
                        None => (
                            OpenSession {
                                phase: OpenPhase::Detaching {
                                    thread,
                                    outcome: Err(StreamError::InvalidPath),
                                },
                            },
                            OpenAction::Detach { thread },
                        ),
                    }
                }
            },
            (OpenPhase::Producing { thread }, OpenEvent::Produced { code }) => {
                if code == 0 {
                    (
                        OpenSession { phase: OpenPhase::Detaching { thread, outcome: Ok(()) } },
                        OpenAction::Detach { thread },
                    )
                } else {
                    (
                        OpenSession { phase: OpenPhase::FetchingError { thread } },
                        OpenAction::FetchError { thread },
                    )
                }
            },
            (OpenPhase::FetchingError { thread }, OpenEvent::ErrorFetched { buffer }) => {
                let message = error_text(buffer.as_slice());
                (
                    OpenSession {
                        phase: OpenPhase::Detaching {
                            thread,
                            outcome: Err(StreamError::DataSource(message)),
                        },
                    },
                    OpenAction::Detach { thread },
                )
            },
            (OpenPhase::Detaching { outcome, .. }, OpenEvent::Detached { code }) => {
                let result = match outcome {
                    Err(e) => Err(e),
                    Ok(()) => {
                        if code == 0 {
                            Ok(())
                        } else {
                            Err(StreamError::ThreadDetach)
                        }
                    },
                };
                (finished, OpenAction::Finish(result))
            },
            (_, _) => (finished, OpenAction::Finish(Ok(()))),
        }
    }
}

} // verus!
