//! A body: either one buffer held in memory or a live source of chunks,
//! under one contract for asking for the next chunk.
//!
//! The library never polls a source.  Where a question is the source's to
//! answer, it says so ([`Answer::Delegated`]) and the caller asks the
//! source, which the body hands out for that.

use vstd::prelude::*;
use vstd::std_specs::convert::FromSpecImpl;
use bytes::Bytes;
use crate::chunk::bytes_of;
use crate::error::Error;

verus! {

/// What the body says to a question.
#[derive(Debug, PartialEq, Eq)]
pub enum Answer<T> {
    /// The body knows the answer itself; the source was not touched.
    Decided(T),
    /// The answer is the source's: ask it.
    Delegated,
}

/// The outcome of polling a source of chunks.
#[derive(Debug, PartialEq, Eq)]
pub enum Poll<T> {
    /// The source answered.
    Ready(T),
    /// The source has nothing yet; the caller suspends.
    Pending,
}

/// How many bytes a body will still yield: at least `lower`, and at most
/// `upper` where that is known.
#[derive(Clone, Copy, Debug, PartialEq, Eq, Structural)]
pub struct SizeHint {
    pub lower: u64,
    pub upper: Option<u64>,
}

impl SizeHint {
    /// The hint that says "exactly `value` bytes".
    pub fn with_exact(value: u64) -> (r: SizeHint)
        ensures
            r == (SizeHint { lower: value, upper: Some(value) }),
    {
        SizeHint { lower: value, upper: Some(value) }
    }

    /// The exact number of bytes, where both bounds agree.
    pub open spec fn spec_exact(self) -> Option<u64> {
        if self.upper == Some(self.lower) {
            self.upper
        } else {
            None
        }
    }

    /// The exact number of bytes, where both bounds agree.
    #[verifier::when_used_as_spec(spec_exact)]
    pub fn exact(self) -> (r: Option<u64>)
        ensures
            r == self.spec_exact(),
    {
        match self.upper {
            Some(upper) => if upper == self.lower {
                Some(upper)
            } else {
                None
            },
            None => None,
        }
    }
}

/// A body.  `S` is the type of the source that a streaming body wraps; the
/// library carries the source and never looks into it.
#[derive(Debug)]
pub struct Body<S> {
    inner: Inner<S>,
}

#[derive(Debug)]
enum Inner<S> {
    Reusable(Bytes),
    Streaming { body: S, timeout: Option<u64> },
}

/// A body as the contracts see it.
pub enum BodyView<S> {
    /// A buffer that is handed out once, whole; empty once it was.
    Reusable(Seq<u8>),
    /// A source of chunks, with the instant after which asking it for the
    /// next chunk is refused, if there is one.  Instants are numbers on a
    /// clock of the caller's choosing.
    Streaming { body: S, timeout: Option<u64> },
}

impl<S> View for Body<S> {
    type V = BodyView<S>;

    closed spec fn view(&self) -> BodyView<S> {
        match self.inner {
            Inner::Reusable(bytes) => BodyView::Reusable(bytes_of(bytes)),
            Inner::Streaming { body, timeout } => BodyView::Streaming { body, timeout },
        }
    }
}

/// One item of a body, with the chunk as the bytes it holds.
pub open spec fn item_view(item: Option<Result<Bytes, Error>>) -> Option<Result<Seq<u8>, Error>> {
    match item {
        Some(Ok(chunk)) => Some(Ok(bytes_of(chunk))),
        Some(Err(e)) => Some(Err(e)),
        None => None,
    }
}

/// Whether a deadline has passed at the instant `now`.
pub open spec fn elapsed(timeout: Option<u64>, now: u64) -> bool {
    timeout matches Some(deadline) && deadline <= now
}

/// What asking `body` for its next chunk at the instant `now` gives, and
/// what the body is afterwards.
///
/// A buffer in memory is handed out whole and leaves the body empty; an
/// empty one yields the end of the stream.  A streaming body refuses with
/// `TimedOut` once its deadline has passed, and otherwise leaves the
/// answer to its source; either way the body, source included, stays as
/// it is.
pub open spec fn poll_model<S>(body: BodyView<S>, now: u64) -> (
    BodyView<S>,
    Answer<Option<Result<Seq<u8>, Error>>>,
) {
    match body {
        BodyView::Reusable(bytes) => if bytes.len() == 0 {
            (body, Answer::Decided(None))
        } else {
            (BodyView::Reusable(Seq::empty()), Answer::Decided(Some(Ok(bytes))))
        },
        BodyView::Streaming { body: source, timeout } => if elapsed(timeout, now) {
            (body, Answer::Decided(Some(Err(Error::TimedOut))))
        } else {
            (body, Answer::Delegated)
        },
    }
}

/// The answer of a poll, with the chunk as the bytes it holds.
pub open spec fn answer_view(answer: Answer<Option<Result<Bytes, Error>>>) -> Answer<
    Option<Result<Seq<u8>, Error>>,
> {
    match answer {
        Answer::Decided(item) => Answer::Decided(item_view(item)),
        Answer::Delegated => Answer::Delegated,
    }
}

/// What a source's poll becomes on its way out of the body: a chunk stays
/// the chunk it is, an error of the source is a transport error, and the
/// end of the stream and "nothing yet" pass through.
pub open spec fn source_poll_model<E>(polled: Poll<Option<Result<Bytes, E>>>) -> Poll<
    Option<Result<Bytes, Error>>,
> {
    match polled {
        Poll::Ready(Some(Ok(chunk))) => Poll::Ready(Some(Ok(chunk))),
        Poll::Ready(Some(Err(_))) => Poll::Ready(Some(Err(Error::TransportError))),
        Poll::Ready(None) => Poll::Ready(None),
        Poll::Pending => Poll::Pending,
    }
}

/// Whether `body` has come to its end, as far as the body itself knows.
pub open spec fn end_model<S>(body: BodyView<S>) -> Answer<bool> {
    match body {
        BodyView::Reusable(bytes) => Answer::Decided(bytes.len() == 0),
        BodyView::Streaming { .. } => Answer::Delegated,
    }
}

/// How much `body` will still yield, as far as the body itself knows.
pub open spec fn hint_model<S>(body: BodyView<S>) -> Answer<SizeHint> {
    match body {
        BodyView::Reusable(bytes) => Answer::Decided(
            SizeHint { lower: bytes.len() as u64, upper: Some(bytes.len() as u64) },
        ),
        BodyView::Streaming { .. } => Answer::Delegated,
    }
}

/// A body that holds a buffer of one byte or more hands it out whole when
/// it is first asked, and is empty from then on: every later poll, at
/// whatever instant, yields the end of the stream and no chunk, not even an
/// empty one, and the body reports that it has ended.
pub proof fn lemma_reusable_yields_once<S>(bytes: Seq<u8>, first: u64, later: u64)
    requires
        bytes.len() > 0,
    ensures
        poll_model(BodyView::<S>::Reusable(bytes), first) == (
            BodyView::<S>::Reusable(Seq::empty()),
            Answer::Decided(Some(Ok::<Seq<u8>, Error>(bytes))),
        ),
        poll_model(poll_model(BodyView::<S>::Reusable(bytes), first).0, later) == (
            BodyView::<S>::Reusable(Seq::empty()),
            Answer::<Option<Result<Seq<u8>, Error>>>::Decided(None),
        ),
        end_model(poll_model(BodyView::<S>::Reusable(bytes), first).0) == Answer::Decided(true),
{
}

/// A streaming body whose deadline has passed answers the next poll with
/// `TimedOut` by itself: the poll is not delegated, and the body, its source
/// included, is afterwards what it was before.
pub proof fn lemma_past_deadline_times_out<S>(source: S, deadline: u64, now: u64)
    requires
        deadline <= now,
    ensures
        poll_model(BodyView::Streaming { body: source, timeout: Some(deadline) }, now) == (
            BodyView::Streaming { body: source, timeout: Some(deadline) },
            Answer::Decided(Some(Err::<Seq<u8>, Error>(Error::TimedOut))),
        ),
{
}

impl<S> Body<S> {
    /// The body that wraps `body`, with no deadline.
    pub closed spec fn streaming(body: S) -> Body<S> {
        Body { inner: Inner::Streaming { body, timeout: None } }
    }

    /// Wraps a source of chunks in a body.  No deadline is set.
    pub fn wrap_stream(stream: S) -> (r: Body<S>)
        ensures
            r@ == (BodyView::Streaming { body: stream, timeout: None }),
    {
        Body { inner: Inner::Streaming { body: stream, timeout: None } }
    }

    /// A body without data.
    pub fn empty() -> (r: Body<S>)
        ensures
            r@ == BodyView::<S>::Reusable(Seq::empty()),
    {
        Body::reusable(Bytes::new())
    }

    /// A body that holds `chunk` and hands it out once.
    pub fn reusable(chunk: Bytes) -> (r: Body<S>)
        ensures
            r@ == BodyView::<S>::Reusable(bytes_of(chunk)),
    {
        Body { inner: Inner::Reusable(chunk) }
    }

    /// Sets the instant after which a streaming body refuses to ask its
    /// source for the next chunk.  A body in memory never waits and stays
    /// as it is.
    pub fn with_timeout(self, deadline: u64) -> (r: Body<S>)
        ensures
            r@ == match self@ {
                BodyView::Reusable(bytes) => self@,
                BodyView::Streaming { body, timeout } => BodyView::Streaming {
                    body,
                    timeout: Some(deadline),
                },
            },
    {
        match self.inner {
            Inner::Reusable(bytes) => Body { inner: Inner::Reusable(bytes) },
            Inner::Streaming { body, timeout } => Body {
                inner: Inner::Streaming { body, timeout: Some(deadline) },
            },
        }
    }

    /// The number of bytes the body holds, where the body itself knows it.
    pub fn content_length(&self) -> (r: Answer<Option<u64>>)
        ensures
            r == match self@ {
                BodyView::Reusable(bytes) => Answer::Decided(Some(bytes.len() as u64)),
                BodyView::Streaming { .. } => Answer::Delegated,
            },
    {
        match &self.inner {
            Inner::Reusable(bytes) => Answer::Decided(Some(bytes.len() as u64)),
            Inner::Streaming { .. } => Answer::Delegated,
        }
    }

    /// Asks for the next chunk at the instant `now`.
    pub fn poll_data(&mut self, now: u64) -> (r: Answer<Option<Result<Bytes, Error>>>)
        ensures
            (final(self)@, answer_view(r)) == poll_model(old(self)@, now),
    {
        match &mut self.inner {
            Inner::Streaming { body, timeout } => {
                if let Some(deadline) = timeout {
                    if *deadline <= now {
                        return Answer::Decided(Some(Err(Error::TimedOut)));
                    }
                }
                Answer::Delegated
            },
            Inner::Reusable(bytes) => {
                if bytes.is_empty() {
                    Answer::Decided(None)
                } else {
                    let mut chunk = Bytes::new();
                    core::mem::swap(bytes, &mut chunk);
                    Answer::Decided(Some(Ok(chunk)))
                }
            },
        }
    }

    /// Passes on what the source answered to a delegated poll.
    pub fn poll_source<E>(polled: Poll<Option<Result<Bytes, E>>>) -> (r: Poll<
        Option<Result<Bytes, Error>>,
    >)
        ensures
            r == source_poll_model(polled),
    {
        match polled {
            Poll::Ready(Some(Ok(chunk))) => Poll::Ready(Some(Ok(chunk))),
            Poll::Ready(Some(Err(_))) => Poll::Ready(Some(Err(Error::TransportError))),
            Poll::Ready(None) => Poll::Ready(None),
            Poll::Pending => Poll::Pending,
        }
    }

    /// Whether the body has come to its end.
    pub fn is_end_stream(&self) -> (r: Answer<bool>)
        ensures
            r == end_model(self@),
    {
        match &self.inner {
            Inner::Streaming { .. } => Answer::Delegated,
            Inner::Reusable(bytes) => Answer::Decided(bytes.is_empty()),
        }
    }

    /// How many bytes the body will still yield.
    pub fn size_hint(&self) -> (r: Answer<SizeHint>)
        ensures
            r == hint_model(self@),
    {
        match &self.inner {
            Inner::Streaming { .. } => Answer::Delegated,
            Inner::Reusable(bytes) => Answer::Decided(SizeHint::with_exact(bytes.len() as u64)),
        }
    }

    /// The source of a streaming body, to ask it what the body delegated.
    pub fn source(&self) -> (r: Option<&S>)
        ensures
            r == match self@ {
                BodyView::Reusable(_) => None::<&S>,
                BodyView::Streaming { body, .. } => Some(&body),
            },
    {
        match &self.inner {
            Inner::Streaming { body, .. } => Some(body),
            Inner::Reusable(_) => None,
        }
    }

    /// The source of a streaming body, to poll it.  What the caller does to
    /// the source is all that changes in the body.
    pub fn source_mut(&mut self) -> (r: Option<&mut S>)
        ensures
            match old(self)@ {
                BodyView::Reusable(_) => r is None && final(self)@ == old(self)@,
                BodyView::Streaming { body, timeout } => r matches Some(source) && *source == body
                    && final(self)@ == (BodyView::Streaming { body: *final(source), timeout }),
            },
    {
        match &mut self.inner {
            Inner::Streaming { body, .. } => Some(body),
            Inner::Reusable(_) => None,
        }
    }
}

impl<S> From<S> for Body<S> {
    fn from(body: S) -> (r: Body<S>)
        ensures
            r@ == (BodyView::Streaming { body, timeout: None }),
    {
        Body { inner: Inner::Streaming { body, timeout: None } }
    }
}

impl<S> FromSpecImpl<S> for Body<S> {
    open spec fn obeys_from_spec() -> bool {
        true
    }

    open spec fn from_spec(body: S) -> Body<S> {
        Body::streaming(body)
    }
}

} // verus!
