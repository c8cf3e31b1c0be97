use vstd::prelude::*;

verus! {

/// A fatal reason for which a debug stream ends.
#[derive(Clone, Copy, Debug, PartialEq, Eq, Structural)]
pub enum DebugError {
    PortOpenError,
    DTRError,
    ReadError,
}

/// Where a debug stream stands: opening the port, asserting DTR,
/// forwarding raw bytes, or ended.
#[derive(Clone, Copy, Debug, PartialEq, Eq, Structural)]
pub enum DebugPhase {
    Connecting,
    AssertingDtr,
    Forwarding,
    Failed(DebugError),
}

/// What the outside world reports back to the stream: the outcome of a
/// port-open attempt, of the DTR assertion, and of one raw byte read.
#[derive(Clone, Copy, Debug, PartialEq, Eq, Structural)]
pub enum DebugEvent {
    OpenOk,
    OpenFailed,
    DtrOk,
    DtrFailed,
    ByteRead(u8),
    Timeout,
    ReadFailed,
}

/// What the stream asks the outside world to do next. `Forward` means
/// write the byte to the output sink as it is, with nothing added, and
/// flush the connection; `Poll` means read the next byte.
#[derive(Clone, Copy, Debug, PartialEq, Eq, Structural)]
pub enum DebugAction {
    TryOpen,
    AssertDtr,
    Forward(u8),
    Poll,
    Fail(DebugError),
}

/// The debug stream state machine: a retry-bounded connection open, the
/// DTR assertion, then an unbounded raw byte passthrough. The driver
/// performs each returned action on the real port and sink and feeds the
/// outcome back in as the next event.
#[derive(Clone, Copy, Debug, PartialEq, Eq, Structural)]
pub struct DebugStream {
    pub phase: DebugPhase,
    pub attempts: u32,
    pub budget: u32,
}

/// The action that the stream's current phase is waiting to have performed.
pub open spec fn debug_pending_action(m: DebugStream) -> DebugAction {
    match m.phase {
        DebugPhase::Connecting => DebugAction::TryOpen,
        DebugPhase::AssertingDtr => DebugAction::AssertDtr,
        DebugPhase::Forwarding => DebugAction::Poll,
        DebugPhase::Failed(e) => DebugAction::Fail(e),
    }
}

/// The state after the stream consumes one event. A timeout while
/// forwarding is not an error; only a real read failure ends the stream.
pub open spec fn debug_step_model(pre: DebugStream, ev: DebugEvent) -> DebugStream {
    match pre.phase {
        DebugPhase::Connecting => match ev {
            DebugEvent::OpenOk => DebugStream { phase: DebugPhase::AssertingDtr, ..pre },
            DebugEvent::OpenFailed => if pre.attempts + 1 >= pre.budget {
                DebugStream { phase: DebugPhase::Failed(DebugError::PortOpenError), ..pre }
            } else {
                DebugStream { attempts: (pre.attempts + 1) as u32, ..pre }
            },
            _ => pre,
        },
        DebugPhase::AssertingDtr => match ev {
            DebugEvent::DtrOk => DebugStream { phase: DebugPhase::Forwarding, ..pre },
            DebugEvent::DtrFailed => DebugStream {
                phase: DebugPhase::Failed(DebugError::DTRError),
                ..pre
            },
            _ => pre,
        },
        DebugPhase::Forwarding => match ev {
            DebugEvent::ByteRead(_) => pre,
            DebugEvent::Timeout => pre,
            DebugEvent::ReadFailed => DebugStream {
                phase: DebugPhase::Failed(DebugError::ReadError),
                ..pre
            },
            _ => pre,
        },
        DebugPhase::Failed(_) => pre,
    }
}

/// The action the stream returns for one event: a received byte is
/// forwarded exactly as it is; otherwise the pending action of the state
/// the event leads to.
pub open spec fn debug_action_model(pre: DebugStream, ev: DebugEvent) -> DebugAction {
    match (pre.phase, ev) {
        (DebugPhase::Forwarding, DebugEvent::ByteRead(b)) => DebugAction::Forward(b),
        _ => debug_pending_action(debug_step_model(pre, ev)),
    }
}

impl DebugStream {
    /// A fresh stream that will open the port with the given retry budget.
    pub fn new(budget: u32) -> (s: DebugStream)
        ensures
            s.phase == DebugPhase::Connecting,
            s.attempts == 0,
            s.budget == budget,
    {
        DebugStream { phase: DebugPhase::Connecting, attempts: 0, budget }
    }

    /// The action the stream is waiting to have performed; a fresh
    /// stream's first action is `TryOpen`.
    pub fn current_action(&self) -> (a: DebugAction)
        ensures
            a == debug_pending_action(*self),
    {
        match self.phase {
            DebugPhase::Connecting => DebugAction::TryOpen,
            DebugPhase::AssertingDtr => DebugAction::AssertDtr,
            DebugPhase::Forwarding => DebugAction::Poll,
            DebugPhase::Failed(e) => DebugAction::Fail(e),
        }
    }

    /// Consumes one event from the outside world and decides the next
    /// action.
    pub fn step(&mut self, ev: DebugEvent) -> (a: DebugAction)
        ensures
            *final(self) == debug_step_model(*old(self), ev),
            a == debug_action_model(*old(self), ev),
    {
        match (self.phase, ev) {
            (DebugPhase::Connecting, DebugEvent::OpenOk) => {
                self.phase = DebugPhase::AssertingDtr;
                DebugAction::AssertDtr
            },
            (DebugPhase::Connecting, DebugEvent::OpenFailed) => {
                if self.budget == 0 || self.attempts >= self.budget - 1 {
                    self.phase = DebugPhase::Failed(DebugError::PortOpenError);
                    DebugAction::Fail(DebugError::PortOpenError)
                } else {
                    self.attempts = self.attempts + 1;
                    DebugAction::TryOpen
                }
            },
            (DebugPhase::AssertingDtr, DebugEvent::DtrOk) => {
                self.phase = DebugPhase::Forwarding;
                DebugAction::Poll
            },
            (DebugPhase::AssertingDtr, DebugEvent::DtrFailed) => {
                self.phase = DebugPhase::Failed(DebugError::DTRError);
                DebugAction::Fail(DebugError::DTRError)
            },
            (DebugPhase::Forwarding, DebugEvent::ByteRead(b)) => DebugAction::Forward(b),
            (DebugPhase::Forwarding, DebugEvent::Timeout) => DebugAction::Poll,
            (DebugPhase::Forwarding, DebugEvent::ReadFailed) => {
                self.phase = DebugPhase::Failed(DebugError::ReadError);
                DebugAction::Fail(DebugError::ReadError)
            },
            (_, _) => self.current_action(),
        }
    }

    /// Forwards a run of received bytes through the stream and collects
    /// what the sink is told to write: byte for byte the input, in order,
    /// with no added delimiters, and the stream itself unchanged.
    pub fn forward_all(&mut self, bytes: &Vec<u8>) -> (out: Vec<u8>)
        requires
            old(self).phase == DebugPhase::Forwarding,
        ensures
            *final(self) == *old(self),
            out@ == bytes@,
    {
        let mut out: Vec<u8> = Vec::new();
        let mut i: usize = 0;
        while i < bytes.len()
            invariant
                i <= bytes@.len(),
                *self == *old(self),
                self.phase == DebugPhase::Forwarding,
                out@ == bytes@.take(i as int),
            decreases bytes@.len() - i,
        {
            let b = bytes[i];
            let a = self.step(DebugEvent::ByteRead(b));
            match a {
                DebugAction::Forward(x) => {
                    out.push(x);
                },
                _ => {},
            }
            proof {
                assert(out@ =~= bytes@.take(i + 1 as int));
            }
            i = i + 1;
        }
        proof {
            assert(bytes@.take(bytes@.len() as int) =~= bytes@);
        }
        out
    }
}

/// The connecting state after `k` consecutive failed open attempts.
pub open spec fn debug_open_failures(m: DebugStream, k: nat) -> DebugStream
    decreases k,
{
    if k == 0 {
        m
    } else {
        debug_step_model(debug_open_failures(m, (k - 1) as nat), DebugEvent::OpenFailed)
    }
}

/// The debug stream's connection-open retries follow the same policy as a
/// flash session's: they give up with `PortOpenError` exactly when the open
/// call fails on every one of the budgeted consecutive attempts, and a
/// success moves straight on to asserting DTR.
pub proof fn lemma_debug_retry_exhaustion(m: DebugStream, k: nat)
    requires
        m.phase == DebugPhase::Connecting,
        m.attempts == 0,
        m.budget >= 1,
        k <= m.budget,
    ensures
        debug_open_failures(m, k).budget == m.budget,
        k < m.budget ==> debug_open_failures(m, k).phase == DebugPhase::Connecting
            && debug_open_failures(m, k).attempts == k,
        k == m.budget ==> debug_open_failures(m, k).phase == DebugPhase::Failed(
            DebugError::PortOpenError,
        ),
        debug_step_model(m, DebugEvent::OpenOk).phase == DebugPhase::AssertingDtr,
    decreases k,
{
    if k > 0 {
        lemma_debug_retry_exhaustion(m, (k - 1) as nat);
    }
}

} // verus!
