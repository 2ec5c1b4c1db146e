//! The downloader: one fetch of a remote archive to a local cache path, as a
//! state machine.
//!
//! The machine holds the decision logic of a fetch: probe the authoritative
//! size first, skip the transfer when the destination already has a file of
//! exactly that size, otherwise stream the body chunk by chunk while counting
//! bytes and emitting coarse progress events. An unverified driver performs
//! the network and filesystem operations each phase calls for and feeds the
//! observed outcome back in as a [`FetchEvent`].

use vstd::prelude::*;
use vstd::string::StringExecFns;

use crate::error::ArchiveDownloadError;
use crate::error::BetterIoError;

verus! {

/// Number of streamed chunks between two progress events.
pub const PROGRESS_CHUNK_INTERVAL: u64 = 1000;

/// The filesystem operation during which a wrapped I/O failure arose.
#[derive(Clone, Copy, PartialEq, Eq, Structural, Debug)]
pub enum IoOp {
    CheckExistence,
    CreateFile,
    WriteChunk,
    Flush,
}

/// Why a fetch ended without completing.
#[derive(Debug)]
pub enum DownloadFailure {
    /// The size probe could not determine the authoritative byte size.
    SizeUnknown,
    /// The transport itself failed; the payload carries the rendered cause.
    Network { cause: String },
    /// The retrieval request returned a non-success status.
    RequestFailed,
    /// A filesystem operation failed.
    Io { op: IoOp, cause: String },
}

/// How a completed fetch finished.
#[derive(Clone, Copy, PartialEq, Eq, Structural, Debug)]
pub enum FetchOutcome {
    /// The destination already held a file of the authoritative size; no
    /// bytes were transferred.
    AlreadyCached,
    /// The body was streamed to the destination in full.
    Transferred,
}

/// Where a fetch stands. Each active phase names the operation the driver
/// must perform next before it can report the next event.
#[derive(Debug)]
pub enum FetchPhase {
    /// Issue the metadata-only size probe against the URL.
    Probing,
    /// Examine whether the destination file exists and how large it is.
    CheckingLocal,
    /// Issue the full retrieval request.
    Requesting,
    /// Create (truncate) the destination file.
    CreatingFile,
    /// Await the next body chunk and write it to the destination.
    Streaming,
    /// Flush and close the destination file.
    Flushing,
    /// The fetch completed.
    Done(FetchOutcome),
    /// The fetch failed.
    Failed(DownloadFailure),
}

/// An observation the driver feeds back into the fetch machine.
#[derive(Debug)]
pub enum FetchEvent {
    /// The size probe answered; the payload is the authoritative byte size,
    /// or none when it could not be determined.
    SizeProbe(Option<u64>),
    /// A network operation failed at transport level.
    NetworkFailed { cause: String },
    /// The destination path was examined.
    LocalFile { exists: bool, size: u64 },
    /// The retrieval request answered; `success` is whether its status was
    /// successful.
    RequestStatus { success: bool },
    /// The destination file was created.
    FileCreated,
    /// A body chunk of `len` bytes was written to the destination.
    ChunkWritten { len: u64 },
    /// The body stream ended.
    StreamEnd,
    /// The destination file was flushed.
    Flushed,
    /// A filesystem operation failed; the machine labels it with the
    /// operation the current phase called for.
    IoFailed { cause: String },
}

/// A coarse progress event, carrying the bytes transferred so far and the
/// authoritative total.
#[derive(Clone, Copy, PartialEq, Eq, Structural, Debug)]
pub struct ProgressEvent {
    pub transferred: u64,
    pub total: u64,
}

/// One fetch of `url` to `destination`. Created per invocation and discarded
/// after completion; the destination file itself is the only state kept
/// across runs.
#[derive(Debug)]
pub struct DownloadTask {
    pub url: String,
    pub destination: String,
    /// Authoritative byte size reported by the size probe; meaningful from
    /// the `CheckingLocal` phase on.
    pub total_size: u64,
    /// Bytes transferred so far.
    pub transferred: u64,
    /// Chunks processed so far.
    pub chunks: u64,
    pub phase: FetchPhase,
}

/// Whether a phase has a network operation in flight whose transport can
/// fail.
pub open spec fn network_phase(p: FetchPhase) -> bool {
    p is Probing || p is Requesting || p is Streaming
}

/// The filesystem operation the given phase calls for, used to label an I/O
/// failure reported there.
pub open spec fn phase_io_op(p: FetchPhase) -> Option<IoOp> {
    match p {
        FetchPhase::CheckingLocal => Some(IoOp::CheckExistence),
        FetchPhase::CreatingFile => Some(IoOp::CreateFile),
        FetchPhase::Streaming => Some(IoOp::WriteChunk),
        FetchPhase::Flushing => Some(IoOp::Flush),
        _ => None,
    }
}

/// The transition function of a fetch: how one observed event advances the
/// task. An event that the current phase does not call for leaves the task
/// unchanged.
pub open spec fn spec_step(s: DownloadTask, ev: FetchEvent) -> DownloadTask {
    match ev {
        FetchEvent::SizeProbe(sz) => {
            if s.phase is Probing {
                match sz {
                    Some(n) => DownloadTask {
                        total_size: n,
                        phase: FetchPhase::CheckingLocal,
                        ..s
                    },
                    None => DownloadTask {
                        phase: FetchPhase::Failed(DownloadFailure::SizeUnknown),
                        ..s
                    },
                }
            } else {
                s
            }
        },
        FetchEvent::NetworkFailed { cause } => {
            if network_phase(s.phase) {
                DownloadTask { phase: FetchPhase::Failed(DownloadFailure::Network { cause }), ..s }
            } else {
                s
            }
        },
        FetchEvent::LocalFile { exists, size } => {
            if s.phase is CheckingLocal {
                if exists && size == s.total_size {
                    DownloadTask {
                        phase: FetchPhase::Done(FetchOutcome::AlreadyCached),
                        ..s
                    }
                } else {
                    DownloadTask { phase: FetchPhase::Requesting, ..s }
                }
            } else {
                s
            }
        },
        FetchEvent::RequestStatus { success } => {
            if s.phase is Requesting {
                if success {
                    DownloadTask { phase: FetchPhase::CreatingFile, ..s }
                } else {
                    DownloadTask {
                        phase: FetchPhase::Failed(DownloadFailure::RequestFailed),
                        ..s
                    }
                }
            } else {
                s
            }
        },
        FetchEvent::FileCreated => {
            if s.phase is CreatingFile {
                DownloadTask { phase: FetchPhase::Streaming, ..s }
            } else {
                s
            }
        },
        FetchEvent::ChunkWritten { len } => {
            if s.phase is Streaming {
                DownloadTask {
                    transferred: (s.transferred + len) as u64,
                    chunks: (s.chunks + 1) as u64,
                    ..s
                }
            } else {
                s
            }
        },
        FetchEvent::StreamEnd => {
            if s.phase is Streaming {
                DownloadTask { phase: FetchPhase::Flushing, ..s }
            } else {
                s
            }
        },
        FetchEvent::Flushed => {
            if s.phase is Flushing {
                DownloadTask { phase: FetchPhase::Done(FetchOutcome::Transferred), ..s }
            } else {
                s
            }
        },
        FetchEvent::IoFailed { cause } => {
            match phase_io_op(s.phase) {
                Some(op) => DownloadTask {
                    phase: FetchPhase::Failed(DownloadFailure::Io { op, cause }),
                    ..s
                },
                None => s,
            }
        },
    }
}

/// The progress event a chunk gives rise to: one after every
/// [`PROGRESS_CHUNK_INTERVAL`] chunks, and one when the running byte count
/// reaches the authoritative total. Any other event emits none.
pub open spec fn spec_progress(s: DownloadTask, ev: FetchEvent) -> Option<ProgressEvent> {
    match ev {
        FetchEvent::ChunkWritten { len } => {
            if s.phase is Streaming {
                let t = (s.transferred + len) as u64;
                let c = (s.chunks + 1) as u64;
                if c % PROGRESS_CHUNK_INTERVAL == 0 || t == s.total_size {
                    Some(ProgressEvent { transferred: t, total: s.total_size })
                } else {
                    None
                }
            } else {
                None
            }
        },
        _ => None,
    }
}

/// The state a fetch reaches after a sequence of observed events.
pub open spec fn run_events(s: DownloadTask, evs: Seq<FetchEvent>) -> DownloadTask
    decreases evs.len(),
{
    if evs.len() == 0 {
        s
    } else {
        run_events(spec_step(s, evs[0]), evs.skip(1))
    }
}

impl DownloadTask {
    /// Begins a fetch of `url` to `destination`; the driver's first duty is
    /// the size probe.
    pub fn new(url: String, destination: String) -> (t: Self)
        ensures
            t.url == url,
            t.destination == destination,
            t.total_size == 0,
            t.transferred == 0,
            t.chunks == 0,
            t.phase is Probing,
    {
        DownloadTask {
            url,
            destination,
            total_size: 0,
            transferred: 0,
            chunks: 0,
            phase: FetchPhase::Probing,
        }
    }

    /// Advances the fetch by one observed event, returning the progress
    /// event it gives rise to, if any.
    pub fn step(&mut self, ev: FetchEvent) -> (r: Option<ProgressEvent>)
        requires
            ev matches FetchEvent::ChunkWritten { len } ==> old(self).transferred + len
                <= u64::MAX && old(self).chunks < u64::MAX,
        ensures
            *final(self) == spec_step(*old(self), ev),
            r == spec_progress(*old(self), ev),
    {
        match ev {
            FetchEvent::SizeProbe(sz) => {
                if matches!(self.phase, FetchPhase::Probing) {
                    match sz {
                        Some(n) => {
                            self.total_size = n;
                            self.phase = FetchPhase::CheckingLocal;
                        },
                        None => {
                            self.phase = FetchPhase::Failed(DownloadFailure::SizeUnknown);
                        },
                    }
                }
                None
            },
            FetchEvent::NetworkFailed { cause } => {
                if matches!(
                    self.phase,
                    FetchPhase::Probing | FetchPhase::Requesting | FetchPhase::Streaming
                ) {
                    self.phase = FetchPhase::Failed(DownloadFailure::Network { cause });
                }
                None
            },
            FetchEvent::LocalFile { exists, size } => {
                if matches!(self.phase, FetchPhase::CheckingLocal) {
                    if exists && size == self.total_size {
                        self.phase = FetchPhase::Done(FetchOutcome::AlreadyCached);
                    } else {
                        self.phase = FetchPhase::Requesting;
                    }
                }
                None
            },
            FetchEvent::RequestStatus { success } => {
                if matches!(self.phase, FetchPhase::Requesting) {
                    if success {
                        self.phase = FetchPhase::CreatingFile;
                    } else {
                        self.phase = FetchPhase::Failed(DownloadFailure::RequestFailed);
                    }
                }
                None
            },
            FetchEvent::FileCreated => {
                if matches!(self.phase, FetchPhase::CreatingFile) {
                    self.phase = FetchPhase::Streaming;
                }
                None
            },
            FetchEvent::ChunkWritten { len } => {
                if matches!(self.phase, FetchPhase::Streaming) {
                    self.transferred = self.transferred + len;
                    self.chunks = self.chunks + 1;
                    if self.chunks % PROGRESS_CHUNK_INTERVAL == 0 || self.transferred
                        == self.total_size {
                        Some(ProgressEvent { transferred: self.transferred, total: self.total_size })
                    } else {
                        None
                    }
                } else {
                    None
                }
            },
            FetchEvent::StreamEnd => {
                if matches!(self.phase, FetchPhase::Streaming) {
                    self.phase = FetchPhase::Flushing;
                }
                None
            },
            FetchEvent::Flushed => {
                if matches!(self.phase, FetchPhase::Flushing) {
                    self.phase = FetchPhase::Done(FetchOutcome::Transferred);
                }
                None
            },
            FetchEvent::IoFailed { cause } => {
                if matches!(self.phase, FetchPhase::CheckingLocal) {
                    self.phase = FetchPhase::Failed(
                        DownloadFailure::Io { op: IoOp::CheckExistence, cause },
                    );
                } else if matches!(self.phase, FetchPhase::CreatingFile) {
                    self.phase = FetchPhase::Failed(
                        DownloadFailure::Io { op: IoOp::CreateFile, cause },
                    );
                } else if matches!(self.phase, FetchPhase::Streaming) {
                    self.phase = FetchPhase::Failed(
                        DownloadFailure::Io { op: IoOp::WriteChunk, cause },
                    );
                } else if matches!(self.phase, FetchPhase::Flushing) {
                    self.phase = FetchPhase::Failed(DownloadFailure::Io { op: IoOp::Flush, cause });
                }
                None
            },
        }
    }

    /// Maps a failed fetch onto the download error taxonomy: a filesystem
    /// failure carries the destination path and the operation's label; a
    /// missing size or an unsuccessful status is a failed request.
    pub fn failure_error(&self) -> (r: ArchiveDownloadError)
        requires
            self.phase is Failed,
        ensures
            self.phase matches FetchPhase::Failed(DownloadFailure::SizeUnknown) ==> r
                is FailedRequest,
            self.phase matches FetchPhase::Failed(DownloadFailure::RequestFailed) ==> r
                is FailedRequest,
            self.phase matches FetchPhase::Failed(DownloadFailure::Network { cause }) ==> (
            r matches ArchiveDownloadError::Network(c) && c == cause),
            self.phase matches FetchPhase::Failed(DownloadFailure::Io { op, cause }) ==> (
            r matches ArchiveDownloadError::Io(e) && e.location == self.destination && e.context@
                == io_op_label(op) && e.error == cause),
    {
        match &self.phase {
            FetchPhase::Failed(f) => match f {
                DownloadFailure::SizeUnknown => ArchiveDownloadError::FailedRequest,
                DownloadFailure::RequestFailed => ArchiveDownloadError::FailedRequest,
                DownloadFailure::Network { cause } => ArchiveDownloadError::Network(cause.clone()),
                DownloadFailure::Io { op, cause } => ArchiveDownloadError::Io(
                    BetterIoError::new(
                        self.destination.clone(),
                        io_op_label_text(*op),
                        cause.clone(),
                    ),
                ),
            },
            _ => {
                proof {
                    assert(false);
                }
                ArchiveDownloadError::FailedRequest
            },
        }
    }
}

/// The label each filesystem operation is reported under.
pub open spec fn io_op_label(op: IoOp) -> Seq<char> {
    match op {
        IoOp::CheckExistence => "checking existence"@,
        IoOp::CreateFile => "creating file"@,
        IoOp::WriteChunk => "writing chunk"@,
        IoOp::Flush => "flushing"@,
    }
}

/// Renders the label of a filesystem operation.
pub fn io_op_label_text(op: IoOp) -> (r: String)
    ensures
        r@ == io_op_label(op),
{
    match op {
        IoOp::CheckExistence => String::from_str("checking existence"),
        IoOp::CreateFile => String::from_str("creating file"),
        IoOp::WriteChunk => String::from_str("writing chunk"),
        IoOp::Flush => String::from_str("flushing"),
    }
}

/// Law (idempotence of the downloader): a second fetch of the same URL and
/// destination performs no transfer, provided the first completed and the
/// destination still holds a file whose size equals the remote-reported
/// size. The second run's size probe then answers with that same size `n`,
/// the local check finds a file of `n` bytes, and the fetch finishes as
/// already-cached with zero bytes transferred.
pub proof fn lemma_fetch_idempotent(t1: DownloadTask, t2: DownloadTask, n: u64)
    requires
        t1.phase is Done,
        t1.total_size == n,
        t2.url == t1.url,
        t2.destination == t1.destination,
        t2.phase is Probing,
        t2.transferred == 0,
    ensures
        ({
            let done = run_events(
                t2,
                seq![
                    FetchEvent::SizeProbe(Some(n)),
                    FetchEvent::LocalFile { exists: true, size: n },
                ],
            );
            &&& done.phase matches FetchPhase::Done(o) && o is AlreadyCached
            &&& done.transferred == 0
            &&& done.chunks == t2.chunks
        }),
{
    let evs = seq![
        FetchEvent::SizeProbe(Some(n)),
        FetchEvent::LocalFile { exists: true, size: n },
    ];
    let s1 = spec_step(t2, evs[0]);
    assert(s1.phase is CheckingLocal && s1.total_size == n);
    let s2 = spec_step(s1, evs[1]);
    assert(s2.phase matches FetchPhase::Done(o) && o is AlreadyCached);
    assert(evs.skip(1).skip(1) =~= Seq::<FetchEvent>::empty());
    assert(evs.skip(1)[0] == evs[1]);
    assert(run_events(t2, evs) == run_events(s1, evs.skip(1)));
    assert(run_events(s1, evs.skip(1)) == run_events(s2, evs.skip(1).skip(1)));
    assert(run_events(s2, evs.skip(1).skip(1)) == s2);
}

} // verus!
