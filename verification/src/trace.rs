//! What a whole download does, told over the steps of [`crate::download`]:
//! which calls reach the observer and which bytes reach the sink, in which
//! order, and how the download ends.

use vstd::prelude::*;
use crate::decoder::{Accepts, detected};
use crate::download::{
    NextView,
    TransferView,
    TurnView,
    admitted,
    begin,
    chunk_report,
    item_model,
    next_model,
    respond,
    written_model,
};
use crate::error::Error;
use crate::progress::ProgressCall;
use crate::request::PartsView;

verus! {

/// Something a download makes happen outside.
pub enum Effect {
    /// A call on the observer.
    Report(ProgressCall),
    /// These bytes are appended to the sink.
    Write(Seq<u8>),
}

/// What the body and the sink do in one round of a download: the body is
/// asked whether it has ended and, if not, for a chunk, which is written.
pub enum Round {
    /// The body says that it has ended.
    End,
    /// The body has not ended and yields no item.
    Nothing,
    /// The body has not ended and yields an error.
    Fail(Error),
    /// The body has not ended and yields these bytes; the sink takes them
    /// or refuses them.
    Chunk { bytes: Seq<u8>, accepted: bool },
}

/// What a download has done: its effects in the order they happened, and
/// how it ended.  `outcome` is `None` while the download is still going.
pub struct Trace {
    pub effects: Seq<Effect>,
    pub outcome: Option<Result<PartsView, Error>>,
}

/// Whether the body says in this round that it has ended.
pub open spec fn round_ended(round: Round) -> bool {
    round is End
}

/// What the body yields in this round.
pub open spec fn round_item(round: Round) -> Option<Result<Seq<u8>, Error>> {
    match round {
        Round::End => None,
        Round::Nothing => None,
        Round::Fail(e) => Some(Err(e)),
        Round::Chunk { bytes, accepted } => Some(Ok(bytes)),
    }
}

/// Whether the sink takes what is written in this round.
pub open spec fn round_accepted(round: Round) -> bool {
    round matches Round::Chunk { bytes, accepted } && accepted
}

/// The effect of making `report`, where there is one.
pub open spec fn report_effects(report: Option<ProgressCall>) -> Seq<Effect> {
    match report {
        Some(call) => seq![Effect::Report(call)],
        None => Seq::empty(),
    }
}

/// The download from the phase `transfer` on, against a body and a sink
/// that behave as `script` says, round by round: the steps of
/// [`crate::download`] taken in their order.
pub open spec fn drain(transfer: TransferView, script: Seq<Round>) -> Trace
    decreases script.len(),
{
    if script.len() == 0 {
        Trace { effects: Seq::empty(), outcome: None }
    } else {
        let round = script[0];
        match next_model(transfer, round_ended(round)) {
            NextView::Done(parts) => Trace { effects: Seq::empty(), outcome: Some(Ok(parts)) },
            NextView::Poll(polling) => match item_model(polling, round_item(round)) {
                TurnView::Again(again) => drain(again, script.skip(1)),
                TurnView::Failed(e) => Trace { effects: Seq::empty(), outcome: Some(Err(e)) },
                TurnView::Write { report, chunk, writing } => {
                    let effects = report_effects(report).push(Effect::Write(chunk));
                    match written_model(writing, round_accepted(round)) {
                        Ok(resumed) => {
                            let rest = drain(resumed, script.skip(1));
                            Trace { effects: effects + rest.effects, outcome: rest.outcome }
                        },
                        Err(e) => Trace { effects, outcome: Some(Err(e)) },
                    }
                },
            },
        }
    }
}

/// The whole download: the response comes (or the transport fails), then
/// the body is drained.
pub open spec fn run(response: Option<PartsView>, observed: bool, script: Seq<Round>) -> Trace {
    match respond(response, observed) {
        Err(e) => Trace { effects: Seq::empty(), outcome: Some(Err(e)) },
        Ok((transfer, coding, report)) => {
            let rest = drain(transfer, script);
            Trace { effects: report_effects(report) + rest.effects, outcome: rest.outcome }
        },
    }
}

/// The bytes that the sink holds after `effects`.
pub open spec fn written(effects: Seq<Effect>) -> Seq<u8>
    decreases effects.len(),
{
    if effects.len() == 0 {
        Seq::empty()
    } else {
        match effects[0] {
            Effect::Write(bytes) => bytes + written(effects.skip(1)),
            Effect::Report(_) => written(effects.skip(1)),
        }
    }
}

/// The calls that the observer has received after `effects`, in order.
pub open spec fn reported(effects: Seq<Effect>) -> Seq<ProgressCall>
    decreases effects.len(),
{
    if effects.len() == 0 {
        Seq::empty()
    } else {
        match effects[0] {
            Effect::Write(_) => reported(effects.skip(1)),
            Effect::Report(call) => seq![call] + reported(effects.skip(1)),
        }
    }
}

/// A body that yields `chunks`, one a round, and then ends, with a sink
/// that takes every write.
pub open spec fn delivery(chunks: Seq<Seq<u8>>) -> Seq<Round> {
    Seq::new(
        chunks.len() + 1,
        |i: int|
            if i < chunks.len() {
                Round::Chunk { bytes: chunks[i], accepted: true }
            } else {
                Round::End
            },
    )
}

/// `chunks` one after the other.
pub open spec fn concat(chunks: Seq<Seq<u8>>) -> Seq<u8>
    decreases chunks.len(),
{
    if chunks.len() == 0 {
        Seq::empty()
    } else {
        chunks[0] + concat(chunks.skip(1))
    }
}

/// The effects of delivering `chunks`: for each chunk in turn, the report
/// of its length, where there is an observer, and then the write.
pub open spec fn delivery_effects(observed: bool, chunks: Seq<Seq<u8>>) -> Seq<Effect>
    decreases chunks.len(),
{
    if chunks.len() == 0 {
        Seq::empty()
    } else {
        report_effects(chunk_report(observed, chunks[0].len())).push(Effect::Write(chunks[0]))
            + delivery_effects(observed, chunks.skip(1))
    }
}

/// The reports of delivering `chunks` to an observer: one `add_to_progress`
/// for each chunk, in order, with the length of that chunk.
pub open spec fn delivery_reports(chunks: Seq<Seq<u8>>) -> Seq<ProgressCall> {
    Seq::new(chunks.len(), |i: int| ProgressCall::AddToProgress(chunks[i].len() as usize))
}

/// The sink holds what the first effects wrote followed by what the later
/// ones wrote, and likewise for the observer.
pub proof fn lemma_effects_append(a: Seq<Effect>, b: Seq<Effect>)
    ensures
        written(a + b) == written(a) + written(b),
        reported(a + b) == reported(a) + reported(b),
    decreases a.len(),
{
    if a.len() == 0 {
        assert(a + b == b);
        assert(written(a) + written(b) == written(b));
        assert(reported(a) + reported(b) == reported(b));
    } else {
        lemma_effects_append(a.skip(1), b);
        assert((a + b).skip(1) == a.skip(1) + b);
        assert((a + b)[0] == a[0]);
        match a[0] {
            Effect::Write(bytes) => {
                assert(written(a + b) == bytes + (written(a.skip(1)) + written(b)));
                assert(written(a + b) == written(a) + written(b));
            },
            Effect::Report(call) => {
                assert(reported(a + b) == seq![call] + (reported(a.skip(1)) + reported(b)));
                assert(reported(a + b) == reported(a) + reported(b));
            },
        }
    }
}

/// What the effects of one chunk put into the sink and tell an observer.
pub proof fn lemma_chunk_effects(report: Option<ProgressCall>, chunk: Seq<u8>)
    ensures
        written(report_effects(report).push(Effect::Write(chunk))) == chunk,
        reported(report_effects(report).push(Effect::Write(chunk))) == match report {
            Some(call) => seq![call],
            None => Seq::empty(),
        },
{
    let effects = report_effects(report).push(Effect::Write(chunk));
    reveal_with_fuel(written, 3);
    reveal_with_fuel(reported, 3);
    match report {
        Some(call) => {
            assert(effects.skip(1) == seq![Effect::Write(chunk)]);
            assert(effects.skip(1).skip(1) == Seq::<Effect>::empty());
            assert(chunk + Seq::<u8>::empty() == chunk);
            assert(seq![call] + Seq::<ProgressCall>::empty() == seq![call]);
        },
        None => {
            assert(effects.skip(1) == Seq::<Effect>::empty());
            assert(chunk + Seq::<u8>::empty() == chunk);
        },
    }
}

/// A status other than 200 and 206 ends the download with `StatusError`
/// and that status: nothing is written to the sink and nothing reaches the
/// observer, whatever the body would have yielded.  With 200 or 206 the
/// body is drained: the download begins as [`begin`] says and goes on as
/// [`drain`] says.
pub proof fn lemma_status_gate(head: PartsView, observed: bool, script: Seq<Round>)
    ensures
        !admitted(head.status) ==> run(Some(head), observed, script) == (Trace {
            effects: Seq::empty(),
            outcome: Some(Err(Error::StatusError(head.status))),
        }),
        !admitted(head.status) ==> written(run(Some(head), observed, script).effects)
            == Seq::<u8>::empty(),
        admitted(head.status) ==> match begin(head, observed) {
            Ok((transfer, coding, report)) => run(Some(head), observed, script) == (Trace {
                effects: report_effects(report) + drain(transfer, script).effects,
                outcome: drain(transfer, script).outcome,
            }),
            Err(e) => e == Error::HeaderParseError,
        },
{
}

/// Draining a body reports chunks and nothing else: no total is set and
/// no progress is taken back.
pub proof fn lemma_drain_reports_chunks(transfer: TransferView, script: Seq<Round>, i: int)
    requires
        0 <= i < drain(transfer, script).effects.len(),
    ensures
        drain(transfer, script).effects[i] matches Effect::Report(call) ==> call is AddToProgress,
    decreases script.len(),
{
    if script.len() > 0 {
        let round = script[0];
        match next_model(transfer, round_ended(round)) {
            NextView::Done(parts) => {},
            NextView::Poll(polling) => match item_model(polling, round_item(round)) {
                TurnView::Again(again) => {
                    lemma_drain_reports_chunks(again, script.skip(1), i);
                },
                TurnView::Failed(e) => {},
                TurnView::Write { report, chunk, writing } => {
                    let effects = report_effects(report).push(Effect::Write(chunk));
                    match written_model(writing, round_accepted(round)) {
                        Ok(resumed) => {
                            if i >= effects.len() {
                                lemma_drain_reports_chunks(
                                    resumed,
                                    script.skip(1),
                                    i - effects.len(),
                                );
                            }
                        },
                        Err(e) => {},
                    }
                },
            },
        }
    }
}

/// Where the body is decoded, no total is ever set on the observer,
/// whatever `content-length` the response declares and whatever the body
/// yields.
pub proof fn lemma_no_total_when_encoded(
    head: PartsView,
    observed: bool,
    script: Seq<Round>,
    i: int,
)
    requires
        detected(head.headers, Accepts::all()) is Some,
        0 <= i < run(Some(head), observed, script).effects.len(),
    ensures
        !(run(Some(head), observed, script).effects[i] matches Effect::Report(call)
            && call is SetFileSize),
{
    match begin(head, observed) {
        Ok((transfer, coding, report)) => {
            assert(report is None);
            assert(report_effects(report) + drain(transfer, script).effects == drain(
                transfer,
                script,
            ).effects);
            lemma_drain_reports_chunks(transfer, script, i);
        },
        Err(e) => {},
    }
}

/// A download never asks its observer to take progress back.
pub proof fn lemma_never_removes(
    response: Option<PartsView>,
    observed: bool,
    script: Seq<Round>,
    i: int,
)
    requires
        0 <= i < run(response, observed, script).effects.len(),
    ensures
        !(run(response, observed, script).effects[i] matches Effect::Report(call)
            && call is RemoveFromProgress),
{
    match respond(response, observed) {
        Ok((transfer, coding, report)) => {
            let first = report_effects(report);
            if i >= first.len() {
                lemma_drain_reports_chunks(transfer, script, i - first.len());
            }
        },
        Err(e) => {},
    }
}

/// Without an observer a download reports nothing.
pub proof fn lemma_unobserved_is_silent(transfer: TransferView, script: Seq<Round>)
    requires
        !transfer.observed,
    ensures
        reported(drain(transfer, script).effects) == Seq::<ProgressCall>::empty(),
    decreases script.len(),
{
    if script.len() > 0 {
        let round = script[0];
        match next_model(transfer, round_ended(round)) {
            NextView::Done(parts) => {},
            NextView::Poll(polling) => match item_model(polling, round_item(round)) {
                TurnView::Again(again) => {
                    lemma_unobserved_is_silent(again, script.skip(1));
                },
                TurnView::Failed(e) => {},
                TurnView::Write { report, chunk, writing } => {
                    let effects = report_effects(report).push(Effect::Write(chunk));
                    lemma_chunk_effects(report, chunk);
                    match written_model(writing, round_accepted(round)) {
                        Ok(resumed) => {
                            lemma_unobserved_is_silent(resumed, script.skip(1));
                            lemma_effects_append(effects, drain(resumed, script.skip(1)).effects);
                        },
                        Err(e) => {},
                    }
                },
            },
        }
    }
}

/// What the effects of a delivery put into the sink and tell an observer.
pub proof fn lemma_delivery_effects(observed: bool, chunks: Seq<Seq<u8>>)
    ensures
        written(delivery_effects(observed, chunks)) == concat(chunks),
        observed ==> reported(delivery_effects(observed, chunks)) == delivery_reports(chunks),
        !observed ==> reported(delivery_effects(observed, chunks)) == Seq::<ProgressCall>::empty(),
    decreases chunks.len(),
{
    if chunks.len() > 0 {
        let first = report_effects(chunk_report(observed, chunks[0].len())).push(
            Effect::Write(chunks[0]),
        );
        let rest = delivery_effects(observed, chunks.skip(1));
        lemma_delivery_effects(observed, chunks.skip(1));
        lemma_effects_append(first, rest);
        lemma_chunk_effects(chunk_report(observed, chunks[0].len()), chunks[0]);
        if observed {
            assert(reported(first) + delivery_reports(chunks.skip(1)) == delivery_reports(chunks));
        }
    } else {
        assert(delivery_reports(chunks) == Seq::<ProgressCall>::empty());
    }
}

/// A body that yields the chunks `c1 .. cN` and then ends, into a sink that
/// takes every write: the download succeeds with the response head it
/// began with; the sink receives `c1 .. cN` end to end, each chunk once and
/// in the order it came; and an observer receives exactly `N` calls of
/// `add_to_progress`, in that order, each with the length of its chunk and
/// each before that chunk is written.
pub proof fn lemma_delivery(transfer: TransferView, chunks: Seq<Seq<u8>>)
    ensures
        drain(transfer, delivery(chunks)) == (Trace {
            effects: delivery_effects(transfer.observed, chunks),
            outcome: Some(Ok(transfer.parts)),
        }),
        written(drain(transfer, delivery(chunks)).effects) == concat(chunks),
        reported(drain(transfer, delivery(chunks)).effects) == if transfer.observed {
            delivery_reports(chunks)
        } else {
            Seq::<ProgressCall>::empty()
        },
    decreases chunks.len(),
{
    let script = delivery(chunks);
    lemma_delivery_effects(transfer.observed, chunks);
    if chunks.len() == 0 {
        assert(script[0] is End);
    } else {
        assert(script[0] == (Round::Chunk { bytes: chunks[0], accepted: true }));
        assert(script.skip(1) == delivery(chunks.skip(1)));
        lemma_delivery(transfer, chunks.skip(1));
    }
}

} // verus!
