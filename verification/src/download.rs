//! The resumable download protocol, as a machine that is told what the
//! server and the network did and answers with what to do next.
//!
//! The caller sends the requests, writes the destination file and measures
//! time. The machine decides: whether to resume, whether the server honoured
//! the resume offset, when the transfer is complete and how it failed.

use vstd::prelude::*;
use vstd::string::StringExecFns;
use crate::error::Error;
use crate::text::{append_number, decimal_of};

verus! {

/// How far a transfer has come.
#[derive(Clone, Copy, Debug, PartialEq, Eq, Structural)]
pub struct Progress {
    /// Bytes now in the destination file.
    pub bytes_transferred: u64,
    /// Size of the whole resource, where the server told it.
    pub total_size: Option<u64>,
    /// Milliseconds since the transfer began.
    pub elapsed_ms: u64,
}

impl Progress {
    /// The share of the resource that has arrived, in whole percent, where
    /// the total size is known and not zero.
    pub open spec fn percent_spec(self) -> Option<u8> {
        match self.total_size {
            Some(total) => if total == 0 {
                None
            } else if self.bytes_transferred >= total {
                Some(100u8)
            } else {
                Some((self.bytes_transferred * 100 / total as int) as u8)
            },
            None => None,
        }
    }

    /// The milliseconds that the rest will take at the rate so far, where
    /// the total size is known and something has arrived: the time elapsed,
    /// times the bytes that are missing, divided by the bytes that have
    /// arrived, and no more than a `u64` holds.
    pub open spec fn eta_spec(self) -> Option<u64> {
        match self.total_size {
            Some(total) => if self.bytes_transferred == 0 || self.bytes_transferred > total {
                None
            } else {
                let eta = self.elapsed_ms * (total - self.bytes_transferred)
                    / self.bytes_transferred as int;
                if eta > u64::MAX {
                    Some(u64::MAX)
                } else {
                    Some(eta as u64)
                }
            },
            None => None,
        }
    }

    /// The share of the resource that has arrived, in whole percent.
    pub fn percent(&self) -> (p: Option<u8>)
        ensures
            p == self.percent_spec(),
    {
        match self.total_size {
            Some(total) => if total == 0 {
                None
            } else if self.bytes_transferred >= total {
                Some(100)
            } else {
                let share = self.bytes_transferred as u128 * 100 / total as u128;
                assert(share < 100) by (nonlinear_arith)
                    requires
                        share == self.bytes_transferred as int * 100 / total as int,
                        0 <= self.bytes_transferred < total,
                ;
                Some(share as u8)
            },
            None => None,
        }
    }

    /// The milliseconds that the rest will take at the rate so far.
    pub fn eta_ms(&self) -> (eta: Option<u64>)
        ensures
            eta == self.eta_spec(),
    {
        match self.total_size {
            Some(total) => if self.bytes_transferred == 0 || self.bytes_transferred > total {
                None
            } else {
                let missing = (total - self.bytes_transferred) as u128;
                assert(self.elapsed_ms as int * missing as int <= u128::MAX) by (nonlinear_arith)
                    requires
                        0 <= self.elapsed_ms as int <= 0xffff_ffff_ffff_ffff,
                        0 <= missing as int <= 0xffff_ffff_ffff_ffff,
                ;
                let eta = self.elapsed_ms as u128 * missing / self.bytes_transferred as u128;
                if eta > u64::MAX as u128 {
                    Some(u64::MAX)
                } else {
                    Some(eta as u64)
                }
            },
            None => None,
        }
    }
}

/// Where the protocol stands.
#[derive(Clone, Copy, Debug, PartialEq, Eq, Structural)]
pub enum Phase {
    /// The size probe is out.
    Probing,
    /// The data request is out.
    Requesting,
    /// The body is arriving.
    Streaming,
    /// The destination holds the whole resource.
    Done,
    /// The transfer was given up.
    Failed,
}

/// What the server or the network did.
#[derive(Clone, Copy, Debug, PartialEq, Eq, Structural)]
pub enum Event {
    /// The size probe was answered.
    ProbeAnswered { status: u16, content_length: Option<u64> },
    /// The data request was answered; the body has not been read yet.
    DataAnswered { status: u16, content_length: Option<u64> },
    /// `len` bytes of the body arrived, `elapsed_ms` after the start.
    Chunk { len: u64, elapsed_ms: u64 },
    /// The body ended.
    BodyEnded,
    /// The connection broke.
    Interrupted,
}

/// What the caller does next.
#[derive(Clone, Debug, PartialEq, Eq)]
pub enum Action {
    /// Ask the server for the size of the resource.
    Probe,
    /// Ask for the resource, from byte `range_start` on where one is given.
    Request { range_start: Option<u64> },
    /// Open the destination for writing at its end, emptying it first if
    /// `truncate` is set.
    Open { truncate: bool },
    /// Append the chunk that just arrived and report the progress.
    Append { progress: Progress },
    /// The transfer is complete.
    Finish,
    /// The transfer failed; the destination is left as it is.
    Fail(Error),
    /// The transfer ended earlier; nothing is left to do.
    Halt,
}

/// One transfer from `url` to a destination file.
#[derive(Clone, Debug, PartialEq, Eq)]
pub struct Download {
    /// Where the resource comes from.
    pub url: String,
    /// Bytes in the destination file.
    pub length: u64,
    /// Size of the whole resource, where the probe told it.
    pub total: Option<u64>,
    /// Where the protocol stands.
    pub phase: Phase,
}

/// Whether `status` is one of the success codes, 200 to 299.
pub open spec fn is_success(status: u16) -> bool {
    200 <= status && status < 300
}

/// Whether the answer to a request from byte `existing` on delivers exactly
/// the rest of the resource: the server says that the content is partial,
/// and where both sizes are known the body is as long as what is missing.
pub open spec fn honours_resume(
    status: u16,
    content_length: Option<u64>,
    total: Option<u64>,
    existing: u64,
) -> bool {
    status == 206 && match (content_length, total) {
        (Some(body), Some(whole)) => body + existing == whole,
        _ => true,
    }
}

/// What a step does to the destination file. `payload` is the chunk that
/// arrived with the event.
pub open spec fn apply(action: Action, file: Seq<u8>, payload: Seq<u8>) -> Seq<u8> {
    match action {
        Action::Open { truncate } => if truncate {
            Seq::<u8>::empty()
        } else {
            file
        },
        Action::Append { progress } => file + payload,
        _ => file,
    }
}

impl Download {
    /// A transfer that has just sent its probe.
    pub open spec fn started(url: String, existing: u64) -> Download {
        Download { url, length: existing, total: None, phase: Phase::Probing }
    }

    /// Whether the transfer has ended, well or badly.
    pub open spec fn is_over(self) -> bool {
        self.phase == Phase::Done || self.phase == Phase::Failed
    }

    /// The failed state, and the failure as it is reported.
    pub open spec fn failure(self, status: Option<u16>) -> (Download, Action) {
        (
            Download { phase: Phase::Failed, ..self },
            Action::Fail(
                Error::Transfer { status, url: self.url, partial_preserved: self.length > 0 },
            ),
        )
    }

    /// The protocol: the state and the action that follow `event`.
    pub open spec fn next(self, event: Event) -> (Download, Action) {
        match (self.phase, event) {
            (Phase::Done, _) => (self, Action::Halt),
            (Phase::Failed, _) => (self, Action::Halt),
            (Phase::Probing, Event::ProbeAnswered { status, content_length }) => {
                if is_success(status) {
                    (
                        Download { total: content_length, phase: Phase::Requesting, ..self },
                        Action::Request {
                            range_start: if self.length > 0 {
                                Some(self.length)
                            } else {
                                None
                            },
                        },
                    )
                } else {
                    self.failure(Some(status))
                }
            },
            (Phase::Requesting, Event::DataAnswered { status, content_length }) => {
                if !is_success(status) {
                    self.failure(Some(status))
                } else if self.length > 0 && honours_resume(
                    status,
                    content_length,
                    self.total,
                    self.length,
                ) {
                    (Download { phase: Phase::Streaming, ..self }, Action::Open { truncate: false })
                } else {
                    (
                        Download { length: 0, phase: Phase::Streaming, ..self },
                        Action::Open { truncate: true },
                    )
                }
            },
            (Phase::Streaming, Event::Chunk { len, elapsed_ms }) => {
                if self.length + len <= u64::MAX {
                    (
                        Download { length: (self.length + len) as u64, ..self },
                        Action::Append {
                            progress: Progress {
                                bytes_transferred: (self.length + len) as u64,
                                total_size: self.total,
                                elapsed_ms,
                            },
                        },
                    )
                } else {
                    self.failure(None)
                }
            },
            (Phase::Streaming, Event::BodyEnded) => {
                if self.total is Some && self.total->0 != self.length {
                    self.failure(None)
                } else {
                    (Download { phase: Phase::Done, ..self }, Action::Finish)
                }
            },
            _ => self.failure(None),
        }
    }

    /// Begins a transfer of `url` into a destination that now holds
    /// `existing` bytes (zero where it does not exist). The first thing to
    /// do is always the size probe.
    pub fn start(url: String, existing: u64) -> (r: (Download, Action))
        ensures
            r.0 == Download::started(url, existing),
            r.1 == Action::Probe,
    {
        (Download { url, length: existing, total: None, phase: Phase::Probing }, Action::Probe)
    }

    fn fail(&mut self, status: Option<u16>) -> (action: Action)
        ensures
            (*final(self), action) == old(self).failure(status),
    {
        self.phase = Phase::Failed;
        Action::Fail(
            Error::Transfer { status, url: self.url.clone(), partial_preserved: self.length > 0 },
        )
    }

    /// Takes one event and says what to do next.
    pub fn step(&mut self, event: Event) -> (action: Action)
        ensures
            (*final(self), action) == old(self).next(event),
    {
        match self.phase {
            Phase::Done | Phase::Failed => Action::Halt,
            Phase::Probing => match event {
                Event::ProbeAnswered { status, content_length } => {
                    if 200 <= status && status < 300 {
                        self.total = content_length;
                        self.phase = Phase::Requesting;
                        Action::Request {
                            range_start: if self.length > 0 {
                                Some(self.length)
                            } else {
                                None
                            },
                        }
                    } else {
                        self.fail(Some(status))
                    }
                },
                _ => self.fail(None),
            },
            Phase::Requesting => match event {
                Event::DataAnswered { status, content_length } => {
                    if !(200 <= status && status < 300) {
                        self.fail(Some(status))
                    } else if self.length > 0 && resume_honoured(
                        status,
                        content_length,
                        self.total,
                        self.length,
                    ) {
                        self.phase = Phase::Streaming;
                        Action::Open { truncate: false }
                    } else {
                        self.length = 0;
                        self.phase = Phase::Streaming;
                        Action::Open { truncate: true }
                    }
                },
                _ => self.fail(None),
            },
            Phase::Streaming => match event {
                Event::Chunk { len, elapsed_ms } => {
                    match self.length.checked_add(len) {
                        Some(length) => {
                            self.length = length;
                            Action::Append {
                                progress: Progress {
                                    bytes_transferred: length,
                                    total_size: self.total,
                                    elapsed_ms,
                                },
                            }
                        },
                        None => self.fail(None),
                    }
                },
                Event::BodyEnded => {
                    let short = match self.total {
                        Some(whole) => whole != self.length,
                        None => false,
                    };
                    if short {
                        self.fail(None)
                    } else {
                        self.phase = Phase::Done;
                        Action::Finish
                    }
                },
                _ => self.fail(None),
            },
        }
    }
}

/// The state and the file after the chunks of a body have arrived one by
/// one, the `i`-th at time `times[i]`.
pub open spec fn receive(
    download: Download,
    file: Seq<u8>,
    chunks: Seq<Seq<u8>>,
    times: Seq<u64>,
) -> (Download, Seq<u8>)
    decreases chunks.len(),
{
    if chunks.len() == 0 {
        (download, file)
    } else {
        let step = download.next(
            Event::Chunk { len: chunks[0].len() as u64, elapsed_ms: times[0] },
        );
        receive(step.0, apply(step.1, file, chunks[0]), chunks.drop_first(), times.drop_first())
    }
}

/// The state and the file after a whole exchange: the probe is answered,
/// the data request is answered, the body arrives in `chunks` and ends.
pub open spec fn transfer(
    url: String,
    file: Seq<u8>,
    probe: Event,
    answer: Event,
    chunks: Seq<Seq<u8>>,
    times: Seq<u64>,
) -> (Download, Seq<u8>) {
    let probed = Download::started(url, file.len() as u64).next(probe);
    let answered = probed.0.next(answer);
    let opened = apply(answered.1, apply(probed.1, file, Seq::<u8>::empty()), Seq::<u8>::empty());
    let received = receive(answered.0, opened, chunks, times);
    let ended = received.0.next(Event::BodyEnded);
    (ended.0, apply(ended.1, received.1, Seq::<u8>::empty()))
}

/// While a body streams, the machine's count is the length of the file, and
/// the file grows by the chunks in the order of their arrival.
pub proof fn lemma_receive_appends(
    download: Download,
    file: Seq<u8>,
    chunks: Seq<Seq<u8>>,
    times: Seq<u64>,
)
    requires
        download.phase == Phase::Streaming,
        download.length == file.len(),
        times.len() == chunks.len(),
        file.len() + chunks.flatten().len() <= u64::MAX,
    ensures
        receive(download, file, chunks, times) == (
            Download { length: (file.len() + chunks.flatten().len()) as u64, ..download },
            file + chunks.flatten(),
        ),
    decreases chunks.len(),
{
    if chunks.len() == 0 {
        assert(chunks.flatten() =~= Seq::<u8>::empty());
        assert(file + chunks.flatten() =~= file);
    } else {
        let rest = chunks.drop_first();
        assert(chunks.flatten() =~= chunks[0] + rest.flatten());
        let step = download.next(
            Event::Chunk { len: chunks[0].len() as u64, elapsed_ms: times[0] },
        );
        let grown = apply(step.1, file, chunks[0]);
        assert(grown == file + chunks[0]);
        lemma_receive_appends(step.0, grown, rest, times.drop_first());
        assert(grown + rest.flatten() =~= file + chunks.flatten());
    }
}

/// Resuming is sound. The destination holds the first `existing` bytes of
/// `source`; the server reports the size of `source` and answers the data
/// request with success. If its answer honours the resume offset the body is
/// the rest of `source`, and otherwise the body is all of `source`. Then the
/// transfer ends in `Done` with the destination equal to `source`, byte for
/// byte: what a download into an empty destination gives as well.
pub proof fn lemma_fetch_completes(
    url: String,
    source: Seq<u8>,
    existing: int,
    probe_status: u16,
    data_status: u16,
    body_length: Option<u64>,
    chunks: Seq<Seq<u8>>,
    times: Seq<u64>,
)
    requires
        source.len() <= u64::MAX,
        0 <= existing < source.len(),
        is_success(probe_status),
        is_success(data_status),
        times.len() == chunks.len(),
        chunks.flatten() == if existing > 0 && honours_resume(
            data_status,
            body_length,
            Some(source.len() as u64),
            existing as u64,
        ) {
            source.skip(existing)
        } else {
            source
        },
    ensures
        transfer(
            url,
            source.take(existing),
            Event::ProbeAnswered {
                status: probe_status,
                content_length: Some(source.len() as u64),
            },
            Event::DataAnswered { status: data_status, content_length: body_length },
            chunks,
            times,
        ) == (
            Download {
                url,
                length: source.len() as u64,
                total: Some(source.len() as u64),
                phase: Phase::Done,
            },
            source,
        ),
{
    let file = source.take(existing);
    let whole = source.len() as u64;
    let probed = Download::started(url, file.len() as u64).next(
        Event::ProbeAnswered { status: probe_status, content_length: Some(whole) },
    );
    let answered = probed.0.next(
        Event::DataAnswered { status: data_status, content_length: body_length },
    );
    let opened = apply(answered.1, apply(probed.1, file, Seq::<u8>::empty()), Seq::<u8>::empty());
    if existing > 0 && honours_resume(data_status, body_length, Some(whole), existing as u64) {
        assert(opened == file);
        assert(file + source.skip(existing) =~= source);
    } else {
        assert(opened =~= Seq::<u8>::empty());
        assert(opened + source =~= source);
    }
    lemma_receive_appends(answered.0, opened, chunks, times);
}

/// A failure never costs what has arrived: the step that reports it leaves
/// the destination file and the machine's count as they are, and the
/// failure names the source and tells whether bytes are left to resume
/// from.
pub proof fn lemma_failure_preserves_file(
    download: Download,
    event: Event,
    file: Seq<u8>,
    payload: Seq<u8>,
)
    requires
        download.next(event).1 is Fail,
    ensures
        apply(download.next(event).1, file, payload) == file,
        download.next(event).0 == (Download { phase: Phase::Failed, ..download }),
        download.next(event).1->Fail_0 matches Error::Transfer { url, partial_preserved, .. }
            && url == download.url && partial_preserved == (download.length > 0),
{
}

/// The value of the `Range` header that asks for everything from byte
/// `offset` on: `bytes=`, the offset in decimal, and `-`.
pub open spec fn range_header_spec(offset: u64) -> Seq<char> {
    "bytes="@ + decimal_of(offset as nat) + "-"@
}

/// The value of the `Range` header for a request from byte `offset` on.
pub fn range_header(offset: u64) -> (value: String)
    ensures
        value@ == range_header_spec(offset),
{
    let mut value = String::from_str("bytes=");
    append_number(&mut value, offset);
    value.append("-");
    value
}

/// Decides whether the server honoured a request to resume at `existing`.
pub fn resume_honoured(
    status: u16,
    content_length: Option<u64>,
    total: Option<u64>,
    existing: u64,
) -> (honoured: bool)
    ensures
        honoured == honours_resume(status, content_length, total, existing),
{
    if status != 206 {
        return false;
    }
    match (content_length, total) {
        (Some(body), Some(whole)) => whole >= existing && whole - existing == body,
        _ => true,
    }
}

} // verus!
