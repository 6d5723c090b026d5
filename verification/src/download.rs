//! The download itself, as a sequence of decisions.
//!
//! A download goes through phases, each a type of its own.  A phase is
//! left by telling it what happened outside (the response came, the body
//! yielded a chunk, the sink took a write); the answer is the next phase
//! together with what to do before entering it.  The caller owns the
//! connection, the body and the sink, and does exactly what it is told:
//!
//! 1. [`download`] checks the request and says how to connect.
//! 2. [`Connecting::on_response`] takes the response head, refuses every
//!    status but 200 and 206, chooses the decoder and says which total, if
//!    any, to announce to the observer.
//! 3. [`Transfer::next`] takes the body's word on whether it has ended.
//! 4. [`Polling::on_item`] takes what the body yielded.
//! 5. [`Writing::on_written`] takes the sink's word on the write.

use vstd::prelude::*;
use bytes::Bytes;
use crate::body::{Body, item_view};
use crate::chunk::bytes_of;
use crate::decoder::{Accepts, Coding, Decoder, DecoderView, detected, superseded};
use crate::dns::{ResolverService, SocketAddrs};
use crate::error::Error;
use crate::headers::{
    content_length_value,
    first_value,
    header_get,
    lemma_known_names,
    parse_content_length,
};
use crate::progress::ProgressCall;
use crate::request::{Parts, PartsView, Request, host_of, host_view, uri_host};

verus! {

/// The statuses whose body is downloaded.
pub open spec fn admitted(status: u16) -> bool {
    status == 200 || status == 206
}

/// The first phase: the request is good to send.  Says how to connect.
#[derive(Debug)]
pub struct Connecting {
    /// Whether plaintext connections are to be refused.
    pub https_only: bool,
    /// The resolver to connect through, in place of the system's name
    /// resolution; `None` where the system's is to be used.
    pub resolver: Option<ResolverService>,
    /// Whether an observer is there to report to.
    pub observed: bool,
}

/// A download whose body is open, as the contracts see it.
pub struct TransferView {
    /// The response head that the download ends with.
    pub parts: PartsView,
    /// Whether an observer is there to report to.
    pub observed: bool,
}

/// The body is open and nothing is pending: next, ask the body whether it
/// has ended.
#[derive(Debug)]
pub struct Transfer {
    parts: Parts,
    observed: bool,
}

/// The body has not ended: next, ask it for a chunk.
#[derive(Debug)]
pub struct Polling {
    parts: Parts,
    observed: bool,
}

/// A chunk is on its way to the sink: next, hear how the write went.
#[derive(Debug)]
pub struct Writing {
    parts: Parts,
    observed: bool,
}

impl View for Transfer {
    type V = TransferView;

    closed spec fn view(&self) -> TransferView {
        TransferView { parts: self.parts@, observed: self.observed }
    }
}

impl View for Polling {
    type V = TransferView;

    closed spec fn view(&self) -> TransferView {
        TransferView { parts: self.parts@, observed: self.observed }
    }
}

impl View for Writing {
    type V = TransferView;

    closed spec fn view(&self) -> TransferView {
        TransferView { parts: self.parts@, observed: self.observed }
    }
}

/// What [`Connecting::on_response`] answers where the download goes on.
#[derive(Debug)]
pub struct Started<S> {
    /// The call to make on the observer before the body is read: the total
    /// size, where one is to be announced.
    pub report: Option<ProgressCall>,
    /// The phase that the download is in.
    pub transfer: Transfer,
    /// The body, with the decoding chosen for it.
    pub decoder: Decoder<S>,
}

/// What [`Transfer::next`] answers.
#[derive(Debug)]
pub enum Next {
    /// Ask the body for its next chunk.
    Poll(Polling),
    /// The download is complete: this is the response head to return.
    Done(Parts),
}

/// What [`Polling::on_item`] answers.
#[derive(Debug)]
pub enum Turn {
    /// Nothing to do: ask the body again whether it has ended.
    Again(Transfer),
    /// Make `report` on the observer, where there is one, then append
    /// `chunk` to the sink.
    Write { report: Option<ProgressCall>, chunk: Bytes, writing: Writing },
    /// The download has failed with this error.
    Failed(Error),
}

/// [`Next`] as the contracts see it.
pub enum NextView {
    Poll(TransferView),
    Done(PartsView),
}

/// [`Turn`] as the contracts see it.
pub enum TurnView {
    Again(TransferView),
    Write { report: Option<ProgressCall>, chunk: Seq<u8>, writing: TransferView },
    Failed(Error),
}

impl View for Next {
    type V = NextView;

    open spec fn view(&self) -> NextView {
        match *self {
            Next::Poll(polling) => NextView::Poll(polling@),
            Next::Done(parts) => NextView::Done(parts@),
        }
    }
}

impl View for Turn {
    type V = TurnView;

    open spec fn view(&self) -> TurnView {
        match *self {
            Turn::Again(transfer) => TurnView::Again(transfer@),
            Turn::Write { report, chunk, writing } => TurnView::Write {
                report,
                chunk: bytes_of(chunk),
                writing: writing@,
            },
            Turn::Failed(e) => TurnView::Failed(e),
        }
    }
}

/// The total to announce for a response whose header fields, after the
/// decoder was chosen, are `left`.
///
/// A total is announced only to an observer, and only for a body that
/// passes through as it is: the length declared for an encoded body is not
/// the length of what the decoder yields.  Then a `content-length` that is
/// an unsigned integer is the total; one that is not is an error; and
/// where there is none, the total stays unknown.
pub open spec fn announced(
    left: Map<Seq<char>, Seq<Seq<u8>>>,
    coding: Option<Coding>,
    observed: bool,
) -> Result<Option<ProgressCall>, Error> {
    if observed && coding is None {
        match first_value(left, "content-length"@) {
            Some(value) => match content_length_value(value) {
                Some(total) => Ok(Some(ProgressCall::SetFileSize(total))),
                None => Err(Error::HeaderParseError),
            },
            None => Ok(None),
        }
    } else {
        Ok(None)
    }
}

/// How a download begins on the response head `head`: the phase it enters,
/// the encoding its body is decoded from and the call to make on the
/// observer first; or the error it ends with.
pub open spec fn begin(head: PartsView, observed: bool) -> Result<
    (TransferView, Option<Coding>, Option<ProgressCall>),
    Error,
> {
    if !admitted(head.status) {
        Err(Error::StatusError(head.status))
    } else {
        let coding = detected(head.headers, Accepts::all());
        let left = superseded(head.headers, Accepts::all());
        match announced(left, coding, observed) {
            Err(e) => Err(e),
            Ok(report) => Ok(
                (
                    TransferView {
                        parts: PartsView { status: head.status, version: head.version, headers: left },
                        observed,
                    },
                    coding,
                    report,
                ),
            ),
        }
    }
}

/// Where a download goes once the body has said whether it has ended.
pub open spec fn next_model(transfer: TransferView, ended: bool) -> NextView {
    if ended {
        NextView::Done(transfer.parts)
    } else {
        NextView::Poll(transfer)
    }
}

/// The call that tells an observer of a chunk of `len` bytes.
pub open spec fn chunk_report(observed: bool, len: nat) -> Option<ProgressCall> {
    if observed {
        Some(ProgressCall::AddToProgress(len as usize))
    } else {
        None
    }
}

/// Where a download goes on what the body yielded: no item, look again; a
/// chunk, report its length and write it; an error, fail with that error.
pub open spec fn item_model(polling: TransferView, item: Option<Result<Seq<u8>, Error>>) -> TurnView {
    match item {
        None => TurnView::Again(polling),
        Some(Ok(chunk)) => TurnView::Write {
            report: chunk_report(polling.observed, chunk.len()),
            chunk,
            writing: polling,
        },
        Some(Err(e)) => TurnView::Failed(e),
    }
}

/// Where a download goes once the sink has said whether it took the write.
pub open spec fn written_model(writing: TransferView, accepted: bool) -> Result<TransferView, Error> {
    if accepted {
        Ok(writing)
    } else {
        Err(Error::IoError)
    }
}

/// How a download goes on once the request was sent: a transport that
/// failed ends it; a response head begins it as [`begin`] says.
pub open spec fn respond(response: Option<PartsView>, observed: bool) -> Result<
    (TransferView, Option<Coding>, Option<ProgressCall>),
    Error,
> {
    match response {
        Some(head) => begin(head, observed),
        None => Err(Error::TransportError),
    }
}

/// The head of a response that may have failed to come.
pub open spec fn response_view<S>(response: Option<(Parts, Body<S>)>) -> Option<PartsView> {
    match response {
        Some((parts, _)) => Some(parts@),
        None => None,
    }
}

/// The view of what [`Connecting::on_response`] answers.
pub open spec fn started_view<S>(r: Result<Started<S>, Error>) -> Result<
    (TransferView, Option<Coding>, Option<ProgressCall>),
    Error,
> {
    match r {
        Ok(started) => Ok((started.transfer@, started.decoder@.coding, started.report)),
        Err(e) => Err(e),
    }
}

/// The view of what [`Writing::on_written`] answers.
pub open spec fn resumed_view(r: Result<Transfer, Error>) -> Result<TransferView, Error> {
    match r {
        Ok(transfer) => Ok(transfer@),
        Err(e) => Err(e),
    }
}

/// How a download begins on the host that its URI names: a URI that names
/// no host is refused; any other is connected to, through a resolver that
/// answers with `socket_addrs` where these are given.
pub open spec fn connect_model(
    host: Option<Seq<char>>,
    https_only: bool,
    observed: bool,
    socket_addrs: Option<SocketAddrs>,
) -> Result<Connecting, Error> {
    if host is Some {
        Ok(
            Connecting {
                https_only,
                resolver: match socket_addrs {
                    Some(addrs) => Some(ResolverService { socket_addrs: addrs }),
                    None => None,
                },
                observed,
            },
        )
    } else {
        Err(Error::MissingHostError)
    }
}

/// Says how to connect for a request whose URI names `host`, or refuses
/// the request where the URI names none.
pub fn connect(
    host: Option<String>,
    https_only: bool,
    observed: bool,
    socket_addrs: Option<SocketAddrs>,
) -> (r: Result<Connecting, Error>)
    ensures
        r == connect_model(host_view(host), https_only, observed, socket_addrs),
{
    if host.is_none() {
        return Err(Error::MissingHostError);
    }
    let resolver = match socket_addrs {
        Some(addrs) => Some(ResolverService::new(addrs)),
        None => None,
    };
    Ok(Connecting { https_only, resolver, observed })
}

/// Begins a download: checks that the request names a host and says how to
/// connect.  With `socket_addrs`, the connection is to go through a
/// resolver that answers with exactly these; without, through the system's
/// name resolution.
pub fn download<B>(
    request: &Request<B>,
    https_only: bool,
    observed: bool,
    socket_addrs: Option<SocketAddrs>,
) -> (r: Result<Connecting, Error>)
    ensures
        r == connect_model(host_of(request.uri@), https_only, observed, socket_addrs),
{
    connect(uri_host(request.uri.as_str()), https_only, observed, socket_addrs)
}

impl Connecting {
    /// Takes the outcome of sending the request: the response head with the
    /// body, or nothing where the transport failed.
    pub fn on_response<S>(self, response: Option<(Parts, Body<S>)>) -> (r: Result<
        Started<S>,
        Error,
    >)
        ensures
            started_view(r) == respond(response_view(response), self.observed),
            r matches Ok(started) ==> response matches Some((_, body)) && started.decoder@.body
                == body@,
    {
        let (mut parts, body) = match response {
            Some(pair) => pair,
            None => {
                return Err(Error::TransportError);
            },
        };
        let status: u16 = parts.status;
        if status == 200 || status == 206 {
            let decoder = Decoder::detect(&mut parts.headers, body, Accepts::default());
            let mut report: Option<ProgressCall> = None;
            if !decoder.is_encoded() && self.observed {
                proof {
                    lemma_known_names();
                }
                if let Some(value) = header_get(&parts.headers, "content-length") {
                    match parse_content_length(value.as_slice()) {
                        Some(total) => {
                            report = Some(ProgressCall::SetFileSize(total));
                        },
                        None => {
                            return Err(Error::HeaderParseError);
                        },
                    }
                }
            }
            Ok(Started { report, transfer: Transfer { parts, observed: self.observed }, decoder })
        } else {
            Err(Error::StatusError(status))
        }
    }
}

impl Transfer {
    /// Takes the body's word on whether it has come to its end.
    pub fn next(self, ended: bool) -> (r: Next)
        ensures
            r@ == next_model(self@, ended),
    {
        if ended {
            Next::Done(self.parts)
        } else {
            Next::Poll(Polling { parts: self.parts, observed: self.observed })
        }
    }
}

impl Polling {
    /// Takes what the body yielded when it was asked for its next chunk.
    /// A chunk goes on to the sink as it came.
    pub fn on_item(self, item: Option<Result<Bytes, Error>>) -> (r: Turn)
        ensures
            r@ == item_model(self@, item_view(item)),
            item matches Some(Ok(chunk)) ==> r matches Turn::Write { chunk: out, .. } && out
                == chunk,
    {
        match item {
            None => Turn::Again(Transfer { parts: self.parts, observed: self.observed }),
            Some(Ok(chunk)) => {
                let report = if self.observed {
                    Some(ProgressCall::AddToProgress(chunk.len()))
                } else {
                    None
                };
                Turn::Write {
                    report,
                    chunk,
                    writing: Writing { parts: self.parts, observed: self.observed },
                }
            },
            Some(Err(e)) => Turn::Failed(e),
        }
    }
}

impl Writing {
    /// Takes the sink's word on whether it took the chunk.
    pub fn on_written(self, accepted: bool) -> (r: Result<Transfer, Error>)
        ensures
            resumed_view(r) == written_model(self@, accepted),
    {
        if accepted {
            Ok(Transfer { parts: self.parts, observed: self.observed })
        } else {
            Err(Error::IoError)
        }
    }
}

} // verus!
