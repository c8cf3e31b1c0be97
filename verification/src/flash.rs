use vstd::prelude::*;
use crate::protocol::{
    classify_line, dec_digits, lemma_log_line_len, line_class, u64_decimal, LineClass,
};

verus! {

/// The fixed baud rate of every serial connection this tool opens.
pub const BAUD_RATE: u32 = 115200;

/// How many consecutive failed open attempts the connecting phase tolerates
/// before it gives up with `PortOpenError`.
pub const RETRY_BUDGET: u32 = 30000;

/// A fatal reason for which a flash session aborts.
#[derive(Clone, Copy, Debug, PartialEq, Eq, Structural)]
pub enum BootError {
    PortOpenError,
    SerialReadError,
    DTRError,
    WriteError,
    ReadError,
    FileOpenError,
    FileReadError,
}

/// Where a flash session stands. `Connecting` through `SendingBoot` cover
/// opening the port, asserting DTR and sending the `BOOT` trigger; from
/// `AwaitingLine` on, the device drives the handshake and the session
/// answers; `Done` and `Failed` are terminal.
#[derive(Clone, Copy, Debug, PartialEq, Eq, Structural)]
pub enum Phase {
    OpeningFile,
    Connecting,
    AssertingDtr,
    SendingBoot,
    AwaitingLine,
    QueryingSize,
    SendingSize,
    ReadingChunk,
    SendingChunk,
    Done,
    Failed(BootError),
}

/// How a surfaced line should be displayed: a `log:` message with its
/// prefix stripped, a highlighted identity field, or an unrecognized
/// diagnostic line.
#[derive(Clone, Copy, Debug, PartialEq, Eq, Structural)]
pub enum ReportKind {
    LogMsg,
    IdentityLine,
    Unrecognized,
}

/// What the outside world reports back to the session: the outcome of the
/// file open, of a port-open attempt, of the DTR assertion, of a write,
/// of a line read, of the file-length query, and of a chunk read.
#[derive(Debug)]
pub enum FlashEvent {
    FileOpened,
    FileOpenFailed,
    OpenOk,
    OpenFailed,
    DtrOk,
    DtrFailed,
    WriteOk,
    WriteFailed,
    LineReceived(Vec<u8>),
    NoLine,
    ReadFailed,
    FileSize(u64),
    FileFailed,
}

/// The mathematical value of a `FlashEvent`. `ChunkData` carries the bytes
/// actually read from the file at the requested offset.
pub enum FlashEventView {
    FileOpened,
    FileOpenFailed,
    OpenOk,
    OpenFailed,
    DtrOk,
    DtrFailed,
    WriteOk,
    WriteFailed,
    LineReceived(Seq<u8>),
    NoLine,
    ReadFailed,
    FileSize(u64),
    FileFailed,
    ChunkData(Seq<u8>),
}

/// What the session asks the outside world to do next. `SendOutbox` means
/// write the outbox bytes and flush; `Report` means surface the report
/// bytes and then read the next line, as `Poll` does without a report;
/// `ReadFileChunk` means seek the file to the given offset and read up to
/// 256 bytes; `SendChunk` means write the whole 256-byte chunk buffer and
/// flush, reporting only whether the write succeeded.
#[derive(Clone, Copy, Debug, PartialEq, Eq, Structural)]
pub enum FlashAction {
    OpenFile,
    TryOpen,
    AssertDtr,
    SendOutbox,
    Poll,
    Report(ReportKind),
    QueryFileSize,
    ReadFileChunk(u64),
    SendChunk,
    Finished,
    Fail(BootError),
}

/// The mathematical state of a flash session.
#[verifier::ext_equal]
pub struct EngineView {
    pub phase: Phase,
    pub attempts: u32,
    pub budget: u32,
    pub bytes_sent: u64,
    pub file_size: u64,
    pub outbox: Seq<u8>,
    pub chunk: Seq<u8>,
    pub report: Seq<u8>,
}

/// The flash session state machine. It owns no handles itself: the driver
/// performs each returned action on the real port and file and feeds the
/// outcome back in as the next event.
pub struct FlashEngine {
    phase: Phase,
    attempts: u32,
    budget: u32,
    bytes_sent: u64,
    file_size: u64,
    outbox: Vec<u8>,
    chunk: Vec<u8>,
    report: Vec<u8>,
}

/// The ASCII bytes of the `BOOT` trigger command.
pub open spec fn boot_command() -> Seq<u8> {
    seq![66u8, 79u8, 79u8, 84u8]
}

/// A freshly read chunk laid over the previous chunk buffer: the fresh
/// bytes come first and the rest of the buffer keeps its stale bytes, so a
/// short final read still sends a full buffer, residue included.
pub open spec fn overlay(chunk: Seq<u8>, fresh: Seq<u8>) -> Seq<u8> {
    if fresh.len() <= chunk.len() {
        fresh + chunk.skip(fresh.len() as int)
    } else {
        fresh.take(chunk.len() as int)
    }
}

/// `bytes_sent` after one successfully written chunk: advanced by the full
/// chunk size, saturating at the counter's ceiling.
pub open spec fn advance_sent(sent: u64) -> u64 {
    if sent + 256 <= u64::MAX {
        (sent + 256) as u64
    } else {
        u64::MAX
    }
}

/// The state after the session consumes one event.
pub open spec fn step_model(pre: EngineView, ev: FlashEventView) -> EngineView {
    match pre.phase {
        Phase::OpeningFile => match ev {
            FlashEventView::FileOpened => EngineView { phase: Phase::Connecting, ..pre },
            FlashEventView::FileOpenFailed => EngineView {
                phase: Phase::Failed(BootError::FileOpenError),
                ..pre
            },
            _ => pre,
        },
        Phase::Connecting => match ev {
            FlashEventView::OpenOk => EngineView { phase: Phase::AssertingDtr, ..pre },
            FlashEventView::OpenFailed => if pre.attempts + 1 >= pre.budget {
                EngineView { phase: Phase::Failed(BootError::PortOpenError), ..pre }
            } else {
                EngineView { attempts: (pre.attempts + 1) as u32, ..pre }
            },
            _ => pre,
        },
        Phase::AssertingDtr => match ev {
            FlashEventView::DtrOk => EngineView {
                phase: Phase::SendingBoot,
                outbox: boot_command(),
                ..pre
            },
            FlashEventView::DtrFailed => EngineView {
                phase: Phase::Failed(BootError::DTRError),
                ..pre
            },
            _ => pre,
        },
        Phase::SendingBoot => match ev {
            FlashEventView::WriteOk => EngineView { phase: Phase::AwaitingLine, ..pre },
            FlashEventView::WriteFailed => EngineView {
                phase: Phase::Failed(BootError::WriteError),
                ..pre
            },
            _ => pre,
        },
        Phase::AwaitingLine => match ev {
            FlashEventView::LineReceived(line) => match line_class(line) {
                LineClass::Log => EngineView { report: line.skip(4), ..pre },
                LineClass::Identity => EngineView { report: line, ..pre },
                LineClass::Other => EngineView { report: line, ..pre },
                LineClass::Size => EngineView { phase: Phase::QueryingSize, ..pre },
                LineClass::Data => EngineView { phase: Phase::ReadingChunk, ..pre },
                LineClass::Done => EngineView { phase: Phase::Done, ..pre },
            },
            FlashEventView::NoLine => pre,
            FlashEventView::ReadFailed => EngineView {
                phase: Phase::Failed(BootError::ReadError),
                ..pre
            },
            _ => pre,
        },
        Phase::QueryingSize => match ev {
            FlashEventView::FileSize(n) => EngineView {
                phase: Phase::SendingSize,
                file_size: n,
                outbox: dec_digits(n as nat),
                ..pre
            },
            FlashEventView::FileFailed => EngineView {
                phase: Phase::Failed(BootError::FileReadError),
                ..pre
            },
            _ => pre,
        },
        Phase::SendingSize => match ev {
            FlashEventView::WriteOk => EngineView { phase: Phase::AwaitingLine, ..pre },
            FlashEventView::WriteFailed => EngineView {
                phase: Phase::Failed(BootError::WriteError),
                ..pre
            },
            _ => pre,
        },
        Phase::ReadingChunk => match ev {
            FlashEventView::ChunkData(fresh) => EngineView {
                phase: Phase::SendingChunk,
                chunk: overlay(pre.chunk, fresh),
                ..pre
            },
            FlashEventView::FileFailed => EngineView {
                phase: Phase::Failed(BootError::FileReadError),
                ..pre
            },
            _ => pre,
        },
        Phase::SendingChunk => match ev {
            FlashEventView::WriteOk => EngineView {
                phase: Phase::AwaitingLine,
                bytes_sent: advance_sent(pre.bytes_sent),
                ..pre
            },
            FlashEventView::WriteFailed => EngineView { phase: Phase::AwaitingLine, ..pre },
            _ => pre,
        },
        Phase::Done => pre,
        Phase::Failed(_) => pre,
    }
}

/// The action that the session's current phase is waiting to have performed.
pub open spec fn pending_action(m: EngineView) -> FlashAction {
    match m.phase {
        Phase::OpeningFile => FlashAction::OpenFile,
        Phase::Connecting => FlashAction::TryOpen,
        Phase::AssertingDtr => FlashAction::AssertDtr,
        Phase::SendingBoot => FlashAction::SendOutbox,
        Phase::AwaitingLine => FlashAction::Poll,
        Phase::QueryingSize => FlashAction::QueryFileSize,
        Phase::SendingSize => FlashAction::SendOutbox,
        Phase::ReadingChunk => FlashAction::ReadFileChunk(m.bytes_sent),
        Phase::SendingChunk => FlashAction::SendChunk,
        Phase::Done => FlashAction::Finished,
        Phase::Failed(e) => FlashAction::Fail(e),
    }
}

/// The action the session returns for one event: the pending action of the
/// state the event leads to, except that a surfaced line asks for a report
/// before the next poll.
pub open spec fn action_model(pre: EngineView, ev: FlashEventView) -> FlashAction {
    match (pre.phase, ev) {
        (Phase::AwaitingLine, FlashEventView::LineReceived(line)) => match line_class(line) {
            LineClass::Log => FlashAction::Report(ReportKind::LogMsg),
            LineClass::Identity => FlashAction::Report(ReportKind::IdentityLine),
            LineClass::Other => FlashAction::Report(ReportKind::Unrecognized),
            _ => pending_action(step_model(pre, ev)),
        },
        _ => pending_action(step_model(pre, ev)),
    }
}

/// The state of a fresh session with the given retry budget.
pub open spec fn initial_view(budget: u32) -> EngineView {
    EngineView {
        phase: Phase::OpeningFile,
        attempts: 0,
        budget: budget,
        bytes_sent: 0,
        file_size: 0,
        outbox: Seq::empty(),
        chunk: Seq::new(256, |i: int| 0u8),
        report: Seq::empty(),
    }
}

impl EngineView {
    /// The chunk buffer always holds exactly one full chunk.
    pub open spec fn wf(self) -> bool {
        self.chunk.len() == 256
    }
}

impl View for FlashEvent {
    type V = FlashEventView;

    open spec fn view(&self) -> FlashEventView {
        match self {
            FlashEvent::FileOpened => FlashEventView::FileOpened,
            FlashEvent::FileOpenFailed => FlashEventView::FileOpenFailed,
            FlashEvent::OpenOk => FlashEventView::OpenOk,
            FlashEvent::OpenFailed => FlashEventView::OpenFailed,
            FlashEvent::DtrOk => FlashEventView::DtrOk,
            FlashEvent::DtrFailed => FlashEventView::DtrFailed,
            FlashEvent::WriteOk => FlashEventView::WriteOk,
            FlashEvent::WriteFailed => FlashEventView::WriteFailed,
            FlashEvent::LineReceived(l) => FlashEventView::LineReceived(l@),
            FlashEvent::NoLine => FlashEventView::NoLine,
            FlashEvent::ReadFailed => FlashEventView::ReadFailed,
            FlashEvent::FileSize(n) => FlashEventView::FileSize(*n),
            FlashEvent::FileFailed => FlashEventView::FileFailed,
        }
    }
}

impl View for FlashEngine {
    type V = EngineView;

    closed spec fn view(&self) -> EngineView {
        EngineView {
            phase: self.phase,
            attempts: self.attempts,
            budget: self.budget,
            bytes_sent: self.bytes_sent,
            file_size: self.file_size,
            outbox: self.outbox@,
            chunk: self.chunk@,
            report: self.report@,
        }
    }
}

/// Copies the bytes of `v` from index `k` on into a fresh vector.
fn tail_from(v: &Vec<u8>, k: usize) -> (out: Vec<u8>)
    requires
        k <= v@.len(),
    ensures
        out@ == v@.skip(k as int),
{
    let mut out: Vec<u8> = Vec::new();
    let vlen = v.len();
    let mut i: usize = k;
    while i < v.len()
        invariant
            k <= i <= v@.len(),
            v@.len() == vlen,
            out@ == v@.subrange(k as int, i as int),
        decreases v@.len() - i,
    {
        out.push(v[i]);
        proof {
            assert(out@ =~= v@.subrange(k as int, i + 1 as int));
        }
        i = i + 1;
    }
    proof {
        assert(v@.subrange(k as int, v@.len() as int) =~= v@.skip(k as int));
    }
    out
}

/// Lays freshly read bytes over the front of the chunk buffer, keeping the
/// buffer's stale tail and its length.
fn overlay_into(chunk: &mut Vec<u8>, fresh: &Vec<u8>)
    ensures
        final(chunk)@ == overlay(old(chunk)@, fresh@),
{
    if fresh.len() <= chunk.len() {
        let mut i: usize = 0;
        while i < fresh.len()
            invariant
                i <= fresh@.len() <= chunk@.len(),
                chunk@.len() == old(chunk)@.len(),
                forall|j: int| 0 <= j < i ==> chunk@[j] == fresh@[j],
                forall|j: int| i <= j < chunk@.len() ==> chunk@[j] == old(chunk)@[j],
            decreases fresh@.len() - i,
        {
            chunk.set(i, fresh[i]);
            i = i + 1;
        }
        proof {
            assert(chunk@ =~= overlay(old(chunk)@, fresh@));
        }
    } else {
        let mut out: Vec<u8> = Vec::new();
        let mut i: usize = 0;
        let limit = chunk.len();
        while i < limit
            invariant
                i <= limit,
                limit <= fresh@.len(),
                out@ == fresh@.subrange(0, i as int),
            decreases limit - i,
        {
            out.push(fresh[i]);
            proof {
                assert(out@ =~= fresh@.subrange(0, i + 1 as int));
            }
            i = i + 1;
        }
        *chunk = out;
        proof {
            assert(chunk@ =~= overlay(old(chunk)@, fresh@));
        }
    }
}

/// Builds the runtime bytes of the `BOOT` trigger.
fn boot_bytes() -> (v: Vec<u8>)
    ensures
        v@ == boot_command(),
{
    let mut v: Vec<u8> = Vec::new();
    v.push(66);
    v.push(79);
    v.push(79);
    v.push(84);
    proof {
        assert(v@ =~= boot_command());
    }
    v
}

impl FlashEngine {
    /// The session's structural invariant.
    pub open spec fn wf(&self) -> bool {
        self@.wf()
    }

    /// A fresh session that will first ask for the file to be opened and
    /// then open the port with the given retry budget.
    pub fn new(budget: u32) -> (e: FlashEngine)
        ensures
            e@ == initial_view(budget),
            e.wf(),
    {
        let mut chunk: Vec<u8> = Vec::new();
        let mut i: usize = 0;
        while i < 256
            invariant
                i <= 256,
                chunk@.len() == i,
                forall|j: int| 0 <= j < i ==> chunk@[j] == 0u8,
            decreases 256 - i,
        {
            chunk.push(0);
            i = i + 1;
        }
        proof {
            assert(chunk@ =~= Seq::new(256, |i: int| 0u8));
        }
        let e = FlashEngine {
            phase: Phase::OpeningFile,
            attempts: 0,
            budget,
            bytes_sent: 0,
            file_size: 0,
            outbox: Vec::new(),
            chunk,
            report: Vec::new(),
        };
        proof {
            assert(e@ =~= initial_view(budget));
        }
        e
    }

    /// The action the session is waiting to have performed; a fresh
    /// session's first action is `OpenFile`.
    pub fn current_action(&self) -> (a: FlashAction)
        ensures
            a == pending_action(self@),
    {
        match self.phase {
            Phase::OpeningFile => FlashAction::OpenFile,
            Phase::Connecting => FlashAction::TryOpen,
            Phase::AssertingDtr => FlashAction::AssertDtr,
            Phase::SendingBoot => FlashAction::SendOutbox,
            Phase::AwaitingLine => FlashAction::Poll,
            Phase::QueryingSize => FlashAction::QueryFileSize,
            Phase::SendingSize => FlashAction::SendOutbox,
            Phase::ReadingChunk => FlashAction::ReadFileChunk(self.bytes_sent),
            Phase::SendingChunk => FlashAction::SendChunk,
            Phase::Done => FlashAction::Finished,
            Phase::Failed(e) => FlashAction::Fail(e),
        }
    }

    /// Consumes one event from the outside world and decides the next
    /// action. The returned action is what the driver must perform before
    /// it reports the following event.
    pub fn step(&mut self, ev: FlashEvent) -> (a: FlashAction)
        requires
            old(self).wf(),
        ensures
            final(self).wf(),
            final(self)@ == step_model(old(self)@, ev@),
            a == action_model(old(self)@, ev@),
    {
        let ph = self.phase;
        match (ph, ev) {
            (Phase::OpeningFile, FlashEvent::FileOpened) => {
                self.phase = Phase::Connecting;
                FlashAction::TryOpen
            },
            (Phase::OpeningFile, FlashEvent::FileOpenFailed) => {
                self.phase = Phase::Failed(BootError::FileOpenError);
                FlashAction::Fail(BootError::FileOpenError)
            },
            (Phase::Connecting, FlashEvent::OpenOk) => {
                self.phase = Phase::AssertingDtr;
                FlashAction::AssertDtr
            },
            (Phase::Connecting, FlashEvent::OpenFailed) => {
                if self.budget == 0 || self.attempts >= self.budget - 1 {
                    self.phase = Phase::Failed(BootError::PortOpenError);
                    FlashAction::Fail(BootError::PortOpenError)
                } else {
                    self.attempts = self.attempts + 1;
                    FlashAction::TryOpen
                }
            },
            (Phase::AssertingDtr, FlashEvent::DtrOk) => {
                self.outbox = boot_bytes();
                self.phase = Phase::SendingBoot;
                FlashAction::SendOutbox
            },
            (Phase::AssertingDtr, FlashEvent::DtrFailed) => {
                self.phase = Phase::Failed(BootError::DTRError);
                FlashAction::Fail(BootError::DTRError)
            },
            (Phase::SendingBoot, FlashEvent::WriteOk) => {
                self.phase = Phase::AwaitingLine;
                FlashAction::Poll
            },
            (Phase::SendingBoot, FlashEvent::WriteFailed) => {
                self.phase = Phase::Failed(BootError::WriteError);
                FlashAction::Fail(BootError::WriteError)
            },
            (Phase::AwaitingLine, FlashEvent::LineReceived(line)) => {
                let c = classify_line(&line);
                match c {
                    LineClass::Log => {
                        proof {
                            lemma_log_line_len(line@);
                        }
                        self.report = tail_from(&line, 4);
                        FlashAction::Report(ReportKind::LogMsg)
                    },
                    LineClass::Identity => {
                        self.report = line;
                        FlashAction::Report(ReportKind::IdentityLine)
                    },
                    LineClass::Other => {
                        self.report = line;
                        FlashAction::Report(ReportKind::Unrecognized)
                    },
                    LineClass::Size => {
                        self.phase = Phase::QueryingSize;
                        FlashAction::QueryFileSize
                    },
                    LineClass::Data => {
                        self.phase = Phase::ReadingChunk;
                        FlashAction::ReadFileChunk(self.bytes_sent)
                    },
                    LineClass::Done => {
                        self.phase = Phase::Done;
                        FlashAction::Finished
                    },
                }
            },
            (Phase::AwaitingLine, FlashEvent::NoLine) => FlashAction::Poll,
            (Phase::AwaitingLine, FlashEvent::ReadFailed) => {
                self.phase = Phase::Failed(BootError::ReadError);
                FlashAction::Fail(BootError::ReadError)
            },
            (Phase::QueryingSize, FlashEvent::FileSize(n)) => {
                self.file_size = n;
                self.outbox = u64_decimal(n);
                self.phase = Phase::SendingSize;
                FlashAction::SendOutbox
            },
            (Phase::QueryingSize, FlashEvent::FileFailed) => {
                self.phase = Phase::Failed(BootError::FileReadError);
                FlashAction::Fail(BootError::FileReadError)
            },
            (Phase::SendingSize, FlashEvent::WriteOk) => {
                self.phase = Phase::AwaitingLine;
                FlashAction::Poll
            },
            (Phase::SendingSize, FlashEvent::WriteFailed) => {
                self.phase = Phase::Failed(BootError::WriteError);
                FlashAction::Fail(BootError::WriteError)
            },
            (Phase::ReadingChunk, FlashEvent::FileFailed) => {
                self.phase = Phase::Failed(BootError::FileReadError);
                FlashAction::Fail(BootError::FileReadError)
            },
            (Phase::SendingChunk, FlashEvent::WriteOk) => {
                if self.bytes_sent <= u64::MAX - 256 {
                    self.bytes_sent = self.bytes_sent + 256;
                } else {
                    self.bytes_sent = u64::MAX;
                }
                self.phase = Phase::AwaitingLine;
                FlashAction::Poll
            },
            (Phase::SendingChunk, FlashEvent::WriteFailed) => {
                self.phase = Phase::AwaitingLine;
                FlashAction::Poll
            },
            (_, _) => self.current_action(),
        }
    }

    /// Feeds the bytes read for one chunk request into the chunk buffer.
    /// The fresh bytes overlay the front of the buffer; a short final read
    /// leaves the stale tail in place, so the buffer sent on the wire is
    /// always a full chunk.
    pub fn chunk_read(&mut self, fresh: &Vec<u8>) -> (a: FlashAction)
        requires
            old(self).wf(),
        ensures
            final(self).wf(),
            final(self)@ == step_model(old(self)@, FlashEventView::ChunkData(fresh@)),
            a == action_model(old(self)@, FlashEventView::ChunkData(fresh@)),
    {
        match self.phase {
            Phase::ReadingChunk => {
                overlay_into(&mut self.chunk, fresh);
                self.phase = Phase::SendingChunk;
                FlashAction::SendChunk
            },
            _ => self.current_action(),
        }
    }

    /// The bytes the driver must write for `SendOutbox`.
    pub fn outbox(&self) -> (v: &Vec<u8>)
        ensures
            v@ == self@.outbox,
    {
        &self.outbox
    }

    /// The full chunk buffer the driver must write for `SendChunk`.
    pub fn chunk(&self) -> (v: &Vec<u8>)
        ensures
            v@ == self@.chunk,
    {
        &self.chunk
    }

    /// The bytes the driver must surface for `Report`.
    pub fn report(&self) -> (v: &Vec<u8>)
        ensures
            v@ == self@.report,
    {
        &self.report
    }

    /// How many bytes of the chunk stream have been counted as sent.
    pub fn bytes_sent(&self) -> (n: u64)
        ensures
            n == self@.bytes_sent,
    {
        self.bytes_sent
    }

    /// The negotiated file length, zero until the device has asked for it.
    pub fn file_size(&self) -> (n: u64)
        ensures
            n == self@.file_size,
    {
        self.file_size
    }

    /// How far the transfer has come, as thousandths of the negotiated
    /// file length, for the driver's progress display.
    pub fn progress_permille(&self) -> (p: u64)
        ensures
            p == progress_spec(self@.bytes_sent, self@.file_size),
    {
        if self.file_size == 0 {
            1000
        } else {
            let scaled: u128 = 1000u128 * (self.bytes_sent as u128) / (self.file_size as u128);
            if scaled >= 1000 {
                1000
            } else {
                scaled as u64
            }
        }
    }
}

/// Transfer progress scaled to thousandths of the file length, capped at
/// the full bar; an unnegotiated or empty file counts as complete.
pub open spec fn progress_spec(sent: u64, size: u64) -> u64 {
    if size == 0 {
        1000
    } else if 1000 * (sent as int) / (size as int) >= 1000 {
        1000
    } else {
        (1000 * (sent as int) / (size as int)) as u64
    }
}

/// One complete `DATA` round: the device's request line, the bytes read
/// from the file, and a successful write of the chunk buffer.
pub open spec fn data_round(m: EngineView, line: Seq<u8>, fresh: Seq<u8>) -> EngineView {
    step_model(
        step_model(
            step_model(m, FlashEventView::LineReceived(line)),
            FlashEventView::ChunkData(fresh),
        ),
        FlashEventView::WriteOk,
    )
}

/// One successful `DATA` round sends the full chunk buffer — fresh bytes
/// first, stale tail kept — and advances `bytes_sent` by exactly one chunk,
/// touching nothing else of the session.
pub proof fn lemma_data_round(m: EngineView, line: Seq<u8>, fresh: Seq<u8>)
    requires
        m.phase == Phase::AwaitingLine,
        line_class(line) == LineClass::Data,
        m.bytes_sent + 256 <= u64::MAX,
    ensures
        ({
            let sent_chunk = step_model(
                step_model(m, FlashEventView::LineReceived(line)),
                FlashEventView::ChunkData(fresh),
            ).chunk;
            let r = data_round(m, line, fresh);
            &&& sent_chunk == overlay(m.chunk, fresh)
            &&& m.wf() ==> sent_chunk.len() == 256
            &&& r.phase == Phase::AwaitingLine
            &&& r.bytes_sent == m.bytes_sent + 256
            &&& r.chunk == overlay(m.chunk, fresh)
            &&& r.file_size == m.file_size
            &&& r.attempts == m.attempts
            &&& r.budget == m.budget
            &&& r.outbox == m.outbox
            &&& m.wf() ==> r.wf()
        }),
{
}

/// Every line of the trace asks for a chunk.
pub open spec fn all_data_rounds(tr: Seq<(Seq<u8>, Seq<u8>)>) -> bool {
    forall|i: int| 0 <= i < tr.len() ==> line_class(#[trigger] tr[i].0) == LineClass::Data
}

/// The session after a trace of complete successful `DATA` rounds, each a
/// request line paired with the bytes read from the file for it.
pub open spec fn run_data_rounds(m: EngineView, tr: Seq<(Seq<u8>, Seq<u8>)>) -> EngineView
    decreases tr.len(),
{
    if tr.len() == 0 {
        m
    } else {
        run_data_rounds(data_round(m, tr[0].0, tr[0].1), tr.skip(1))
    }
}

/// A trace of `k` successful `DATA` rounds advances `bytes_sent` by exactly
/// `256 * k` and leaves the session awaiting the next line, whatever bytes
/// each round read from the file.
pub proof fn lemma_run_data_rounds(m: EngineView, tr: Seq<(Seq<u8>, Seq<u8>)>)
    requires
        m.phase == Phase::AwaitingLine,
        all_data_rounds(tr),
        m.bytes_sent + 256 * tr.len() <= u64::MAX,
    ensures
        ({
            let r = run_data_rounds(m, tr);
            &&& r.phase == Phase::AwaitingLine
            &&& r.bytes_sent == m.bytes_sent + 256 * tr.len()
            &&& r.file_size == m.file_size
            &&& r.attempts == m.attempts
            &&& r.budget == m.budget
            &&& m.wf() ==> r.wf()
        }),
    decreases tr.len(),
{
    if tr.len() > 0 {
        lemma_data_round(m, tr[0].0, tr[0].1);
        let m1 = data_round(m, tr[0].0, tr[0].1);
        assert(all_data_rounds(tr.skip(1))) by {
            assert forall|i: int| 0 <= i < tr.skip(1).len() implies line_class(
                #[trigger] tr.skip(1)[i].0,
            ) == LineClass::Data by {
                assert(tr.skip(1)[i] == tr[i + 1]);
            }
        }
        lemma_run_data_rounds(m1, tr.skip(1));
    }
}

/// How many chunks a file of `n` bytes takes: `n / 256`, rounded up.
pub open spec fn chunks_needed(n: u64) -> int {
    (n + 255) / 256
}

/// For a file of `n` bytes, a complete successful session — the device asks
/// for the size, receives its decimal digits, requests exactly as many
/// chunks as the file takes, each write succeeding, and signals completion —
/// ends in `Done` having counted exactly `256 * (n / 256 rounded up)` bytes
/// sent: the whole file, plus at most one chunk's worth of stale tail bytes.
pub proof fn lemma_complete_session(
    m: EngineView,
    size_line: Seq<u8>,
    n: u64,
    tr: Seq<(Seq<u8>, Seq<u8>)>,
    done_line: Seq<u8>,
)
    requires
        m.phase == Phase::AwaitingLine,
        m.bytes_sent == 0,
        line_class(size_line) == LineClass::Size,
        line_class(done_line) == LineClass::Done,
        all_data_rounds(tr),
        tr.len() == chunks_needed(n),
        n + 255 <= u64::MAX,
    ensures
        ({
            let asked = step_model(m, FlashEventView::LineReceived(size_line));
            let replied = step_model(asked, FlashEventView::FileSize(n));
            let streaming = step_model(replied, FlashEventView::WriteOk);
            let streamed = run_data_rounds(streaming, tr);
            let finished = step_model(streamed, FlashEventView::LineReceived(done_line));
            &&& replied.outbox == dec_digits(n as nat)
            &&& replied.file_size == n
            &&& finished.phase == Phase::Done
            &&& finished.bytes_sent == 256 * chunks_needed(n)
            &&& n <= finished.bytes_sent <= n + 255
        }),
{
    broadcast use vstd::arithmetic::div_mod::lemma_fundamental_div_mod;
    broadcast use vstd::arithmetic::div_mod::lemma_mod_division_less_than_divisor;

    let asked = step_model(m, FlashEventView::LineReceived(size_line));
    let replied = step_model(asked, FlashEventView::FileSize(n));
    let streaming = step_model(replied, FlashEventView::WriteOk);
    assert(n + 255 == 256 * ((n + 255) / 256) + ((n + 255) % 256));
    assert(0 <= (n + 255) % 256 < 256);
    assert(256 * chunks_needed(n) <= n + 255);
    assert(n <= 256 * chunks_needed(n));
    lemma_run_data_rounds(streaming, tr);
}

/// The connecting state after `k` consecutive failed open attempts.
pub open spec fn open_failures(m: EngineView, k: nat) -> EngineView
    decreases k,
{
    if k == 0 {
        m
    } else {
        step_model(open_failures(m, (k - 1) as nat), FlashEventView::OpenFailed)
    }
}

/// Connection-open retries give up with `PortOpenError` exactly when the
/// open call fails on every one of the budgeted consecutive attempts:
/// after fewer failures the session is still connecting with that many
/// attempts recorded, and the budgeted failure is the one that fails it.
pub proof fn lemma_retry_exhaustion(m: EngineView, k: nat)
    requires
        m.phase == Phase::Connecting,
        m.attempts == 0,
        m.budget >= 1,
        k <= m.budget,
    ensures
        open_failures(m, k).budget == m.budget,
        k < m.budget ==> open_failures(m, k).phase == Phase::Connecting && open_failures(
            m,
            k,
        ).attempts == k,
        k == m.budget ==> open_failures(m, k).phase == Phase::Failed(BootError::PortOpenError),
    decreases k,
{
    if k > 0 {
        lemma_retry_exhaustion(m, (k - 1) as nat);
    }
}

/// An open attempt that succeeds ends the retry loop at once, whatever
/// number of failures preceded it: the session moves straight on to
/// asserting DTR.
pub proof fn lemma_open_success(m: EngineView)
    requires
        m.phase == Phase::Connecting,
    ensures
        step_model(m, FlashEventView::OpenOk).phase == Phase::AssertingDtr,
        action_model(m, FlashEventView::OpenOk) == FlashAction::AssertDtr,
{
}

} // verus!
