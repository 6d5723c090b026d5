//! Collecting what a download needs: where from, with which headers,
//! over which transport, watched by whom.

use vstd::prelude::*;
use vstd::string::StringSliceAdditionalSpecFns;
use vstd::utf8::encode_utf8;
use http::{HeaderMap, HeaderValue};
use crate::decoder::Accepts;
use crate::dns::SocketAddrs;
use crate::download::{Connecting, connect, connect_model};
use crate::error::Error;
use crate::headers::{fields, header_append, lemma_known_names, no_fields, takes, values_of};
use crate::progress::{Progress, Unobserved};
use crate::request::{Method, Request, host_of, host_view, uri_host};

verus! {

/// Represents a downloader that can be used to download resources over
/// HTTP/HTTPS.
pub struct Downloader<P: Progress = Unobserved> {
    /// The target of the request.
    uri: String,
    /// The headers of the request.
    headers: HeaderMap<HeaderValue>,
    /// If set to true, only HTTPS URLs will be used.
    https_only: bool,
    /// An optional progress tracker.
    progress: Option<P>,
    /// The list of sockets to use.
    sockets: Option<SocketAddrs>,
    /// If set to true, compression will be disabled.
    disabled_compression: bool,
}

/// A downloader as the contracts see it.
pub struct DownloaderView<P> {
    pub uri: Seq<char>,
    pub headers: Map<Seq<char>, Seq<Seq<u8>>>,
    pub https_only: bool,
    pub progress: Option<P>,
    pub sockets: Option<SocketAddrs>,
    pub disabled_compression: bool,
}

impl<P: Progress> View for Downloader<P> {
    type V = DownloaderView<P>;

    closed spec fn view(&self) -> DownloaderView<P> {
        DownloaderView {
            uri: self.uri@,
            headers: fields(self.headers),
            https_only: self.https_only,
            progress: self.progress,
            sockets: self.sockets,
            disabled_compression: self.disabled_compression,
        }
    }
}

/// What a downloader hands over when the download starts.
#[derive(Debug)]
pub struct Launch<B, P> {
    /// The request to send.
    pub request: Request<B>,
    /// The first phase of the download; says how to connect.
    pub connecting: Connecting,
    /// The observer, to make the calls on that the download asks for.
    pub progress: Option<P>,
}

/// `all` with `value` added as the last value of `name`.
pub open spec fn appended(all: Map<Seq<char>, Seq<Seq<u8>>>, name: Seq<char>, value: Seq<u8>) -> Map<
    Seq<char>,
    Seq<Seq<u8>>,
> {
    all.insert(name, values_of(all, name).push(value))
}

/// The headers that a request goes out with: the downloader's own, and an
/// `accept-encoding` that announces every encoding a decoder can be chosen
/// for, unless compression was disabled.
pub open spec fn outgoing(all: Map<Seq<char>, Seq<Seq<u8>>>, disabled_compression: bool) -> Map<
    Seq<char>,
    Seq<Seq<u8>>,
> {
    if disabled_compression {
        all
    } else {
        appended(all, "accept-encoding"@, "gzip, br, deflate".spec_bytes())
    }
}

/// A downloader once `uri` was offered to it: unchanged where the URI
/// names no host or the header map did not take the `host` field; with the
/// URI as its target and the host added to its `host` header where the map
/// took the field.
pub open spec fn uri_model<P>(
    before: DownloaderView<P>,
    uri: Seq<char>,
    host: Option<Seq<char>>,
    taken: bool,
) -> DownloaderView<P> {
    match host {
        Some(text) => if taken {
            DownloaderView {
                uri,
                headers: appended(before.headers, "host"@, encode_utf8(text)),
                ..before
            }
        } else {
            before
        },
        None => before,
    }
}

/// The error that a launch ends with, if any: no host in the URI is
/// `MissingHostError`, whatever the headers; headers that are not complete
/// are `TransportError`.
pub open spec fn launch_failure(host: Option<Seq<char>>, announced: bool) -> Option<Error> {
    if host is None {
        Some(Error::MissingHostError)
    } else if !announced {
        Some(Error::TransportError)
    } else {
        None
    }
}

/// The error of a result, if it is one.
pub open spec fn failure<T>(r: Result<T, Error>) -> Option<Error> {
    match r {
        Ok(_) => None,
        Err(e) => Some(e),
    }
}

/// The target that a downloader has once `uri` was offered to it, given
/// the header map's answer on the `host` field that goes with the URI: the
/// URI where the map took the field, and the target as it was where the
/// map did not.
pub open spec fn target_model(current: Seq<char>, uri: Seq<char>, added: bool) -> Seq<char> {
    if added {
        uri
    } else {
        current
    }
}

/// Settles the target of a downloader on the header map's answer: `uri`
/// where the `host` field was added, `current` where it was not.
pub fn target_after(current: &str, uri: &str, added: bool) -> (r: String)
    ensures
        r@ == target_model(current@, uri@, added),
{
    if added {
        uri.to_string()
    } else {
        current.to_string()
    }
}

impl<P: Progress> Downloader<P> {
    /// Creates a new `Downloader`: a `GET` of `/` without headers, over
    /// HTTPS only, through the system's name resolution, with compression
    /// and without an observer.
    pub fn new() -> (r: Self)
        ensures
            r@ == (DownloaderView::<P> {
                uri: "/"@,
                headers: no_fields(),
                https_only: true,
                progress: None,
                sockets: None,
                disabled_compression: false,
            }),
    {
        Downloader {
            uri: "/".to_string(),
            headers: HeaderMap::new(),
            https_only: true,
            progress: None,
            sockets: None,
            disabled_compression: false,
        }
    }

    /// The header map of the request, as it stands.
    pub closed spec fn header_map(&self) -> HeaderMap<HeaderValue> {
        self.headers
    }

    /// The headers that the view shows are the fields of the header map.
    pub proof fn lemma_header_fields(&self)
        ensures
            self@.headers == fields(self.header_map()),
    {
    }

    /// Sets the URI to download from, and a `host` header with the host
    /// that the URI names.
    ///
    /// A URI that names no host is not taken: the downloader stays as it
    /// is.  One that names a host is taken, with its `host` header, exactly
    /// where the header map takes that field; where the map refuses it,
    /// the downloader stays as it is.
    pub fn use_uri(&mut self, uri: &str) -> (r: &mut Self)
        ensures
            *final(self) == *final(r),
            r@ == uri_model(
                old(self)@,
                uri@,
                host_of(uri@),
                host_of(uri@) matches Some(host) && takes(
                    old(self).header_map(),
                    "host"@,
                    encode_utf8(host),
                ),
            ),
    {
        self.use_uri_with_host(uri, uri_host(uri))
    }

    /// Sets the URI to download from, for a caller that knows the host
    /// that the URI names: `host`, or `None` where it names none.  The
    /// `host` header is set from it as [`Downloader::use_uri`] does.
    pub fn use_uri_with_host(&mut self, uri: &str, host: Option<String>) -> (r: &mut Self)
        ensures
            *final(self) == *final(r),
            r@ == uri_model(
                old(self)@,
                uri@,
                host_view(host),
                host matches Some(text) && takes(
                    old(self).header_map(),
                    "host"@,
                    encode_utf8(text@),
                ),
            ),
    {
        proof {
            lemma_known_names();
        }
        if let Some(host) = host {
            let added = header_append(&mut self.headers, "host", host.as_str().as_bytes());
            self.uri = target_after(self.uri.as_str(), uri, added);
        }
        self
    }

    /// Gets a mutable reference to the headers map for the request.  What
    /// the caller does to the map is all that changes in the downloader.
    pub fn headers(&mut self) -> (r: Option<&mut HeaderMap<HeaderValue>>)
        ensures
            r matches Some(map) && *map == old(self).header_map() && final(self).header_map()
                == *final(map) && final(self)@ == (DownloaderView {
                headers: fields(*final(map)),
                ..old(self)@
            }),
    {
        Some(&mut self.headers)
    }

    /// Sets the `SocketAddrs` to use for the request, in place of the
    /// system's name resolution.
    pub fn use_sockets(&mut self, sockets: SocketAddrs) -> (r: &mut Self)
        ensures
            *final(self) == *final(r),
            r@ == (DownloaderView { sockets: Some(sockets), ..old(self)@ }),
    {
        self.sockets = Some(sockets);
        self
    }

    /// Allows HTTP requests in addition to HTTPS requests.
    pub fn allow_http(&mut self) -> (r: &mut Self)
        ensures
            *final(self) == *final(r),
            r@ == (DownloaderView { https_only: false, ..old(self)@ }),
    {
        self.https_only = false;
        self
    }

    /// Sets the observer that the download reports to.
    pub fn use_progress(&mut self, progress: P) -> (r: &mut Self)
        ensures
            *final(self) == *final(r),
            r@ == (DownloaderView { progress: Some(progress), ..old(self)@ }),
    {
        self.progress = Some(progress);
        self
    }

    /// Sends the server the appropriate headers to prevent response
    /// compression: no `accept-encoding` goes out.
    pub fn disable_compression(&mut self) -> (r: &mut Self)
        ensures
            *final(self) == *final(r),
            r@ == (DownloaderView { disabled_compression: true, ..old(self)@ }),
    {
        self.disabled_compression = true;
        self
    }

    /// Starts the download of what was collected, with `body` as the body
    /// of the request.
    ///
    /// A URI that names no host fails with `MissingHostError`.  Otherwise
    /// the request goes out with the headers that [`outgoing`] names; where
    /// the header map refuses the `accept-encoding` field, the download
    /// fails with `TransportError`, and in every other case it starts as
    /// [`connect`] says.
    pub fn download<B>(self, body: B) -> (r: Result<Launch<B, P>, Error>)
        ensures
            failure(r) == launch_failure(
                host_of(self@.uri),
                self@.disabled_compression || takes(
                    self.header_map(),
                    "accept-encoding"@,
                    "gzip, br, deflate".spec_bytes(),
                ),
            ),
            r matches Ok(launch) ==> {
                &&& launch.request.method == Method::Get
                &&& launch.request.uri@ == self@.uri
                &&& fields(launch.request.headers) == outgoing(
                    self@.headers,
                    self@.disabled_compression,
                )
                &&& launch.request.body == body
                &&& launch.progress == self@.progress
                &&& Ok::<Connecting, Error>(launch.connecting) == connect_model(
                    host_of(self@.uri),
                    self@.https_only,
                    self@.progress is Some,
                    self@.sockets,
                )
            },
    {
        let mut ready = self;
        let host = uri_host(ready.uri.as_str());
        let mut announced = true;
        if host.is_some() && !ready.disabled_compression {
            proof {
                lemma_known_names();
            }
            match Accepts::default().as_str() {
                Some(accepts) => {
                    announced = header_append(
                        &mut ready.headers,
                        "accept-encoding",
                        accepts.as_bytes(),
                    );
                },
                None => {},
            }
        }
        ready.launch(body, host, announced)
    }

    /// Starts the download for a caller that knows what the outside
    /// answered: `host` is the host that the URI names, and `announced`
    /// tells whether the request's headers are complete, which they are not
    /// where the header map refused a field.
    ///
    /// No host fails with `MissingHostError`; incomplete headers fail with
    /// `TransportError`; in every other case the request is the
    /// downloader's target and headers as they stand, with `body`, and the
    /// download starts as [`connect`] says.
    pub fn launch<B>(self, body: B, host: Option<String>, announced: bool) -> (r: Result<
        Launch<B, P>,
        Error,
    >)
        ensures
            failure(r) == launch_failure(host_view(host), announced),
            r matches Ok(launch) ==> {
                &&& launch.request.method == Method::Get
                &&& launch.request.uri@ == self@.uri
                &&& launch.request.headers == self.header_map()
                &&& launch.request.body == body
                &&& launch.progress == self@.progress
                &&& Ok::<Connecting, Error>(launch.connecting) == connect_model(
                    host_view(host),
                    self@.https_only,
                    self@.progress is Some,
                    self@.sockets,
                )
            },
    {
        let connecting = connect(host, self.https_only, self.progress.is_some(), self.sockets)?;
        if !announced {
            return Err(Error::TransportError);
        }
        let request = Request { method: Method::Get, uri: self.uri, headers: self.headers, body };
        Ok(Launch { request, connecting, progress: self.progress })
    }
}

} // verus!
