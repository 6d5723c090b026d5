//! Choosing a decoder: a response's `content-encoding` against the
//! encodings that are accepted.  The decoding itself is not done here.

use vstd::prelude::*;
use vstd::string::StringSliceAdditionalSpecFns;
use http::{HeaderMap, HeaderValue};
use crate::body::{Body, BodyView};
use crate::headers::{fields, first_value, header_get, header_remove, lemma_known_names, same_bytes};

verus! {

/// A transport encoding of a body.
#[derive(Clone, Copy, Debug, PartialEq, Eq, Structural)]
pub enum Coding {
    Gzip,
    Brotli,
    Deflate,
}

/// The encodings that a caller is ready to receive.
#[derive(Clone, Copy, Debug, PartialEq, Eq, Structural)]
pub struct Accepts {
    pub gzip: bool,
    pub brotli: bool,
    pub deflate: bool,
}

/// The value of `accept-encoding` that announces `accepts`; nothing where
/// no encoding is accepted.
pub open spec fn accept_text(accepts: Accepts) -> Option<Seq<char>> {
    match (accepts.gzip, accepts.brotli, accepts.deflate) {
        (true, true, true) => Some("gzip, br, deflate"@),
        (true, true, false) => Some("gzip, br"@),
        (true, false, true) => Some("gzip, deflate"@),
        (false, true, true) => Some("br, deflate"@),
        (true, false, false) => Some("gzip"@),
        (false, true, false) => Some("br"@),
        (false, false, true) => Some("deflate"@),
        (false, false, false) => None,
    }
}

/// The view of a text that may be missing.
pub open spec fn text_view(text: Option<&'static str>) -> Option<Seq<char>> {
    match text {
        Some(s) => Some(s@),
        None => None,
    }
}

impl Accepts {
    /// Every encoding that a decoder can be chosen for.
    pub open spec fn all() -> Accepts {
        Accepts { gzip: true, brotli: true, deflate: true }
    }

    /// No encoding at all.
    pub fn none() -> (r: Accepts)
        ensures
            r == (Accepts { gzip: false, brotli: false, deflate: false }),
    {
        Accepts { gzip: false, brotli: false, deflate: false }
    }

    /// The value of `accept-encoding` that announces these encodings.
    pub fn as_str(&self) -> (r: Option<&'static str>)
        ensures
            text_view(r) == accept_text(*self),
    {
        match (self.gzip, self.brotli, self.deflate) {
            (true, true, true) => Some("gzip, br, deflate"),
            (true, true, false) => Some("gzip, br"),
            (true, false, true) => Some("gzip, deflate"),
            (false, true, true) => Some("br, deflate"),
            (true, false, false) => Some("gzip"),
            (false, true, false) => Some("br"),
            (false, false, true) => Some("deflate"),
            (false, false, false) => None,
        }
    }
}

impl Default for Accepts {
    /// Every encoding is accepted.
    fn default() -> (r: Accepts)
        ensures
            r == Accepts::all(),
    {
        Accepts { gzip: true, brotli: true, deflate: true }
    }
}

/// The bytes by which a `content-encoding` header names `coding`.
pub open spec fn token(coding: Coding) -> Seq<u8> {
    match coding {
        Coding::Gzip => "gzip".spec_bytes(),
        Coding::Brotli => "br".spec_bytes(),
        Coding::Deflate => "deflate".spec_bytes(),
    }
}

/// The encoding that a response with the header fields `all` is decoded
/// from: the one that the first `content-encoding` value names, byte for
/// byte, where that one is accepted.  No `content-encoding`, another value
/// or an encoding that is not accepted mean that the body passes through
/// as it is.
pub open spec fn detected(all: Map<Seq<char>, Seq<Seq<u8>>>, accepts: Accepts) -> Option<Coding> {
    match first_value(all, "content-encoding"@) {
        Some(value) => if accepts.gzip && value == token(Coding::Gzip) {
            Some(Coding::Gzip)
        } else if accepts.brotli && value == token(Coding::Brotli) {
            Some(Coding::Brotli)
        } else if accepts.deflate && value == token(Coding::Deflate) {
            Some(Coding::Deflate)
        } else {
            None
        },
        None => None,
    }
}

/// The header fields that are left of `all` once a decoder was chosen: a
/// decoder that decodes takes `content-encoding` and `content-length` away,
/// because what comes out of it is neither encoded nor of that length.
pub open spec fn superseded(all: Map<Seq<char>, Seq<Seq<u8>>>, accepts: Accepts) -> Map<
    Seq<char>,
    Seq<Seq<u8>>,
> {
    if detected(all, accepts) is Some {
        all.remove("content-encoding"@).remove("content-length"@)
    } else {
        all
    }
}

/// A body together with the decoding chosen for it.
#[derive(Debug)]
pub struct Decoder<S> {
    body: Body<S>,
    coding: Option<Coding>,
}

/// A decoder as the contracts see it.
pub struct DecoderView<S> {
    /// The body that is read.
    pub body: BodyView<S>,
    /// The encoding that the body is decoded from; `None` where the body
    /// passes through as it is.
    pub coding: Option<Coding>,
}

impl<S> View for Decoder<S> {
    type V = DecoderView<S>;

    closed spec fn view(&self) -> DecoderView<S> {
        DecoderView { body: self.body@, coding: self.coding }
    }
}

impl<S> Decoder<S> {
    /// Chooses the decoder for `body` from the response's header fields and
    /// the encodings accepted, and takes out of `headers` what a decoder that
    /// decodes supersedes.
    pub fn detect(headers: &mut HeaderMap<HeaderValue>, body: Body<S>, accepts: Accepts) -> (r:
        Decoder<S>)
        ensures
            r@ == (DecoderView { body: body@, coding: detected(fields(*old(headers)), accepts) }),
            fields(*final(headers)) == superseded(fields(*old(headers)), accepts),
    {
        proof {
            lemma_known_names();
        }
        let coding = match header_get(headers, "content-encoding") {
            Some(value) => if accepts.gzip && same_bytes(value.as_slice(), "gzip".as_bytes()) {
                Some(Coding::Gzip)
            } else if accepts.brotli && same_bytes(value.as_slice(), "br".as_bytes()) {
                Some(Coding::Brotli)
            } else if accepts.deflate && same_bytes(value.as_slice(), "deflate".as_bytes()) {
                Some(Coding::Deflate)
            } else {
                None
            },
            None => None,
        };
        if coding.is_some() {
            header_remove(headers, "content-encoding");
            header_remove(headers, "content-length");
        }
        Decoder { body, coding }
    }

    /// Whether the body is being decoded, so that a length declared for it
    /// is not the length of what comes out.
    pub fn is_encoded(&self) -> (r: bool)
        ensures
            r == self@.coding is Some,
    {
        self.coding.is_some()
    }

    /// The encoding that the body is decoded from, if any.
    pub fn coding(&self) -> (r: Option<Coding>)
        ensures
            r == self@.coding,
    {
        self.coding
    }

    /// Gives the body back, to be read as it is or through the decoder that
    /// was chosen.
    pub fn into_body(self) -> (r: Body<S>)
        ensures
            r@ == self@.body,
    {
        self.body
    }
}

} // verus!
