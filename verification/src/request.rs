//! A request: one channel opened, one buffer sent, the write side closed,
//! and the answer drained to its end.
//!
//! The request is a state machine over the events of its channel. The
//! driver keeps the handles, performs each action and hands back what came
//! of it.

use crate::error::{TransportError, TransportResult};
use crate::read::{concat_chunks, drain_outcome, ReadToEnd};
use crate::write::{write_and_close, write_step, WriteAction, WriteActionView, WriteAndClose,
    WriteEvent, WriteStage};
use vstd::prelude::*;

verus! {

#[verifier::external_type_specification]
#[verifier::external_body]
pub struct ExUrl2(url2::Url2);

/// What came of an action of a request.
#[derive(Debug)]
pub enum RequestEvent {
    /// The listener answered the channel creation, with the negotiated
    /// remote address.
    Created(TransportResult<url2::Url2>),
    /// The send ended.
    Sent(TransportResult<()>),
    /// The close ended.
    Closed(TransportResult<()>),
    /// The read handle yielded a chunk, or the end of the channel.
    Read(Option<Vec<u8>>),
    /// The transport failed while the answer was drained.
    ReadFailed(TransportError),
}

/// A `RequestEvent` with its bytes as a sequence.
pub enum RequestEventView {
    Created(TransportResult<url2::Url2>),
    Sent(TransportResult<()>),
    Closed(TransportResult<()>),
    Read(Option<Seq<u8>>),
    ReadFailed(TransportError),
}

impl View for RequestEvent {
    type V = RequestEventView;

    open spec fn view(&self) -> RequestEventView {
        match *self {
            RequestEvent::Created(result) => RequestEventView::Created(result),
            RequestEvent::Sent(result) => RequestEventView::Sent(result),
            RequestEvent::Closed(result) => RequestEventView::Closed(result),
            RequestEvent::Read(Some(chunk)) => RequestEventView::Read(Some(chunk@)),
            RequestEvent::Read(None) => RequestEventView::Read(None),
            RequestEvent::ReadFailed(e) => RequestEventView::ReadFailed(e),
        }
    }
}

/// What the driver of a request does next.
#[derive(Debug)]
pub enum RequestAction {
    /// Ask the listener for a channel to this address.
    CreateChannel(url2::Url2),
    /// Send these bytes on the write handle as one logical send.
    Send(Vec<u8>),
    /// Close the write handle.
    Close,
    /// Pull the next item from the read handle.
    Read,
    /// Stop, with this result.
    Return(TransportResult<Vec<u8>>),
}

/// A `RequestAction` with its bytes as a sequence.
pub enum RequestActionView {
    CreateChannel(url2::Url2),
    Send(Seq<u8>),
    Close,
    Read,
    Return(Result<Seq<u8>, TransportError>),
}

impl View for RequestAction {
    type V = RequestActionView;

    open spec fn view(&self) -> RequestActionView {
        match *self {
            RequestAction::CreateChannel(url) => RequestActionView::CreateChannel(url),
            RequestAction::Send(data) => RequestActionView::Send(data@),
            RequestAction::Close => RequestActionView::Close,
            RequestAction::Read => RequestActionView::Read,
            RequestAction::Return(Ok(bytes)) => RequestActionView::Return(Ok(bytes@)),
            RequestAction::Return(Err(e)) => RequestActionView::Return(Err(e)),
        }
    }
}

/// The view of an action that may be absent.
pub open spec fn request_action_view(action: Option<RequestAction>) -> Option<RequestActionView> {
    match action {
        Some(a) => Some(a@),
        None => None,
    }
}

/// How far a request has come.
pub enum RequestStage {
    /// The channel was asked for; these bytes wait for it.
    Creating(Seq<u8>),
    /// The send-and-close is under way.
    Writing(WriteStage),
    /// The answer is being drained; these bytes have arrived.
    Reading(Seq<u8>),
    /// The result was given.
    Finished,
}

/// The write event that a request event stands for, if any.
pub open spec fn as_write_event(event: RequestEventView) -> Option<WriteEvent> {
    match event {
        RequestEventView::Sent(result) => Some(WriteEvent::Sent(result)),
        RequestEventView::Closed(result) => Some(WriteEvent::Closed(result)),
        _ => None,
    }
}

/// One step of a request: the stage after `event`, and the action it
/// calls for. The failure of any stage ends the request with that error.
/// An event that the stage does not await changes nothing and calls for
/// nothing.
pub open spec fn request_step(stage: RequestStage, event: RequestEventView) -> (
    RequestStage,
    Option<RequestActionView>,
) {
    match (stage, event) {
        (RequestStage::Creating(data), RequestEventView::Created(Ok(_))) => (
            RequestStage::Writing(WriteStage::Sending),
            Some(RequestActionView::Send(data)),
        ),
        (RequestStage::Creating(_), RequestEventView::Created(Err(e))) => (
            RequestStage::Finished,
            Some(RequestActionView::Return(Err(e))),
        ),
        (RequestStage::Writing(w), _) => match as_write_event(event) {
            Some(write_event) => {
                let step = write_step(w, write_event);
                match step.1 {
                    Some(WriteActionView::Close) => (
                        RequestStage::Writing(step.0),
                        Some(RequestActionView::Close),
                    ),
                    Some(WriteActionView::Return(Ok(_))) => (
                        RequestStage::Reading(Seq::empty()),
                        Some(RequestActionView::Read),
                    ),
                    Some(WriteActionView::Return(Err(e))) => (
                        RequestStage::Finished,
                        Some(RequestActionView::Return(Err(e))),
                    ),
                    _ => (stage, None),
                }
            },
            None => (stage, None),
        },
        (RequestStage::Reading(buf), RequestEventView::Read(Some(chunk))) => (
            RequestStage::Reading(buf + chunk),
            Some(RequestActionView::Read),
        ),
        (RequestStage::Reading(buf), RequestEventView::Read(None)) => (
            RequestStage::Finished,
            Some(RequestActionView::Return(Ok(buf))),
        ),
        (RequestStage::Reading(_), RequestEventView::ReadFailed(e)) => (
            RequestStage::Finished,
            Some(RequestActionView::Return(Err(e))),
        ),
        _ => (stage, None),
    }
}

enum State {
    Creating(Vec<u8>),
    Writing(WriteAndClose),
    Reading(ReadToEnd),
    Finished,
}

/// A request in progress.
pub struct Request {
    state: State,
}

impl View for Request {
    type V = RequestStage;

    closed spec fn view(&self) -> RequestStage {
        match self.state {
            State::Creating(data) => RequestStage::Creating(data@),
            State::Writing(writer) => RequestStage::Writing(writer@),
            State::Reading(reader) => RequestStage::Reading(reader@),
            State::Finished => RequestStage::Finished,
        }
    }
}

/// Starts a request of `data` to `url` over a single channel: the first
/// action is the creation of that channel.
pub fn request(url: url2::Url2, data: Vec<u8>) -> (start: (Request, RequestAction))
    ensures
        start.0@ == RequestStage::Creating(data@),
        start.1@ == RequestActionView::CreateChannel(url),
{
    (Request { state: State::Creating(data) }, RequestAction::CreateChannel(url))
}

impl Request {
    /// Whether the result has been given.
    pub fn is_finished(&self) -> (finished: bool)
        ensures
            finished == (self@ is Finished),
    {
        match self.state {
            State::Finished => true,
            _ => false,
        }
    }

    /// Takes what came of the last action and gives the next one.
    pub fn on_event(self, event: RequestEvent) -> (next: (Request, Option<RequestAction>))
        ensures
            (next.0@, request_action_view(next.1)) == request_step(self@, event@),
    {
        match self.state {
            State::Creating(data) => match event {
                RequestEvent::Created(Ok(_)) => match write_and_close(data) {
                    (writer, WriteAction::Send(bytes)) => (
                        Request { state: State::Writing(writer) },
                        Some(RequestAction::Send(bytes)),
                    ),
                    (writer, _) => (Request { state: State::Writing(writer) }, None),
                },
                RequestEvent::Created(Err(e)) => (
                    Request { state: State::Finished },
                    Some(RequestAction::Return(Err(e))),
                ),
                _ => (Request { state: State::Creating(data) }, None),
            },
            State::Writing(writer) => {
                let mut writer = writer;
                let write_event = match event {
                    RequestEvent::Sent(result) => WriteEvent::Sent(result),
                    RequestEvent::Closed(result) => WriteEvent::Closed(result),
                    _ => { return (Request { state: State::Writing(writer) }, None); },
                };
                match writer.on_event(write_event) {
                    Some(WriteAction::Close) => (
                        Request { state: State::Writing(writer) },
                        Some(RequestAction::Close),
                    ),
                    Some(WriteAction::Return(Ok(_))) => (
                        Request { state: State::Reading(ReadToEnd::new()) },
                        Some(RequestAction::Read),
                    ),
                    Some(WriteAction::Return(Err(e))) => (
                        Request { state: State::Finished },
                        Some(RequestAction::Return(Err(e))),
                    ),
                    _ => (Request { state: State::Writing(writer) }, None),
                }
            },
            State::Reading(reader) => match event {
                RequestEvent::Read(Some(chunk)) => {
                    let mut reader = reader;
                    reader.on_chunk(chunk.as_slice());
                    (Request { state: State::Reading(reader) }, Some(RequestAction::Read))
                },
                RequestEvent::Read(None) => (
                    Request { state: State::Finished },
                    Some(RequestAction::Return(Ok(reader.finish()))),
                ),
                RequestEvent::ReadFailed(e) => (
                    Request { state: State::Finished },
                    Some(RequestAction::Return(Err(e))),
                ),
                _ => (Request { state: State::Reading(reader) }, None),
            },
            State::Finished => (Request { state: State::Finished }, None),
        }
    }
}

/// The stage reached from `stage` over `events`, and the actions called
/// for on the way, in order.
pub open spec fn request_run(stage: RequestStage, events: Seq<RequestEventView>) -> (
    RequestStage,
    Seq<RequestActionView>,
)
    decreases events.len(),
{
    if events.len() == 0 {
        (stage, Seq::empty())
    } else {
        let before = request_run(stage, events.drop_last());
        let step = request_step(before.0, events.last());
        match step.1 {
            Some(action) => (step.0, before.1.push(action)),
            None => (step.0, before.1),
        }
    }
}

/// The events of a read handle that yields `chunks` in order, without its
/// end.
pub open spec fn read_events(chunks: Seq<Seq<u8>>) -> Seq<RequestEventView> {
    Seq::new(chunks.len(), |i: int| RequestEventView::Read(Some(chunks[i])))
}

/// As many pulls as there are chunks.
pub open spec fn read_actions(chunks: Seq<Seq<u8>>) -> Seq<RequestActionView> {
    Seq::new(chunks.len(), |i: int| RequestActionView::Read)
}

/// The event with which a read handle ends: the end of the channel, or
/// the failure of the transport.
pub open spec fn end_event(end: TransportResult<()>) -> RequestEventView {
    match end {
        Ok(_) => RequestEventView::Read(None),
        Err(e) => RequestEventView::ReadFailed(e),
    }
}

/// The events of one exchange, in the order in which a driver meets them:
/// the channel creation, the send, the close, each chunk of the answer and
/// the way the channel ended.
pub open spec fn exchange_events(
    created: TransportResult<url2::Url2>,
    sent: TransportResult<()>,
    closed: TransportResult<()>,
    chunks: Seq<Seq<u8>>,
    end: TransportResult<()>,
) -> Seq<RequestEventView> {
    seq![
        RequestEventView::Created(created),
        RequestEventView::Sent(sent),
        RequestEventView::Closed(closed),
    ] + read_events(chunks) + seq![end_event(end)]
}

/// What a request returns: the error of the first stage that failed, or
/// else the chunks of the answer laid end to end.
pub open spec fn request_outcome(
    created: TransportResult<url2::Url2>,
    sent: TransportResult<()>,
    closed: TransportResult<()>,
    chunks: Seq<Seq<u8>>,
    end: TransportResult<()>,
) -> Result<Seq<u8>, TransportError> {
    match (created, sent, closed) {
        (Err(e), _, _) => Err(e),
        (Ok(_), Err(e), _) => Err(e),
        (Ok(_), Ok(_), Err(e)) => Err(e),
        (Ok(_), Ok(_), Ok(_)) => drain_outcome(chunks, end),
    }
}

/// The actions that a request of `data` calls for after the channel
/// creation: nothing follows the stage that failed.
pub open spec fn request_actions(
    data: Seq<u8>,
    created: TransportResult<url2::Url2>,
    sent: TransportResult<()>,
    closed: TransportResult<()>,
    chunks: Seq<Seq<u8>>,
    end: TransportResult<()>,
) -> Seq<RequestActionView> {
    let last = RequestActionView::Return(request_outcome(created, sent, closed, chunks, end));
    match (created, sent, closed) {
        (Err(_), _, _) => seq![last],
        (Ok(_), Err(_), _) => seq![RequestActionView::Send(data), last],
        (Ok(_), Ok(_), Err(_)) => seq![
            RequestActionView::Send(data),
            RequestActionView::Close,
            last,
        ],
        (Ok(_), Ok(_), Ok(_)) => seq![
            RequestActionView::Send(data),
            RequestActionView::Close,
            RequestActionView::Read,
        ] + read_actions(chunks) + seq![last],
    }
}

/// The run over `events` followed by one more event.
proof fn lemma_request_run_push(
    stage: RequestStage,
    events: Seq<RequestEventView>,
    event: RequestEventView,
)
    ensures
        request_run(stage, events.push(event)) == ({
            let before = request_run(stage, events);
            let step = request_step(before.0, event);
            match step.1 {
                Some(action) => (step.0, before.1.push(action)),
                None => (step.0, before.1),
            }
        }),
{
    assert(events.push(event).drop_last() == events);
    assert(events.push(event).last() == event);
}

/// A run over two stretches of events is the run over the first followed
/// by the run over the second from where the first ended.
pub proof fn lemma_request_run_split(
    stage: RequestStage,
    head: Seq<RequestEventView>,
    tail: Seq<RequestEventView>,
)
    ensures
        request_run(stage, head + tail) == (
            request_run(request_run(stage, head).0, tail).0,
            request_run(stage, head).1 + request_run(request_run(stage, head).0, tail).1,
        ),
    decreases tail.len(),
{
    let mid = request_run(stage, head);
    if tail.len() == 0 {
        assert(head + tail == head);
        assert(mid.1 + Seq::<RequestActionView>::empty() == mid.1);
    } else {
        lemma_request_run_split(stage, head, tail.drop_last());
        assert((head + tail).drop_last() == head + tail.drop_last());
        assert((head + tail).last() == tail.last());
        let before = request_run(mid.0, tail.drop_last());
        let step = request_step(before.0, tail.last());
        match step.1 {
            Some(action) => {
                assert((mid.1 + before.1).push(action) == mid.1 + before.1.push(action));
            },
            None => {},
        }
    }
}

/// Once the result was given, no event calls for anything more: there is
/// no retry and no second result.
pub proof fn lemma_request_finished_is_final(events: Seq<RequestEventView>)
    ensures
        request_run(RequestStage::Finished, events) == (
            RequestStage::Finished,
            Seq::<RequestActionView>::empty(),
        ),
    decreases events.len(),
{
    if events.len() > 0 {
        lemma_request_finished_is_final(events.drop_last());
    }
}

/// While the answer is drained every chunk is appended in arrival order
/// and calls for one more pull.
pub proof fn lemma_request_reads_in_order(buf: Seq<u8>, chunks: Seq<Seq<u8>>)
    ensures
        request_run(RequestStage::Reading(buf), read_events(chunks)) == (
            RequestStage::Reading(buf + concat_chunks(chunks)),
            read_actions(chunks),
        ),
    decreases chunks.len(),
{
    if chunks.len() == 0 {
        assert(buf + concat_chunks(chunks) == buf);
        assert(read_actions(chunks) == Seq::<RequestActionView>::empty());
    } else {
        let init = chunks.drop_last();
        lemma_request_reads_in_order(buf, init);
        assert(read_events(chunks).drop_last() == read_events(init));
        assert(read_events(chunks).last() == RequestEventView::Read(Some(chunks.last())));
        assert(buf + concat_chunks(init) + chunks.last() == buf + concat_chunks(chunks));
        assert(read_actions(init).push(RequestActionView::Read) == read_actions(chunks));
    }
}

/// A request performs one send, one close and one full drain, in that
/// order, and returns the chunks of the answer laid end to end; the first
/// stage that fails, the drain included, ends it with that stage's error
/// and nothing further is attempted.
pub proof fn lemma_request_exchange(
    data: Seq<u8>,
    created: TransportResult<url2::Url2>,
    sent: TransportResult<()>,
    closed: TransportResult<()>,
    chunks: Seq<Seq<u8>>,
    end: TransportResult<()>,
)
    ensures
        request_run(
            RequestStage::Creating(data),
            exchange_events(created, sent, closed, chunks, end),
        ) == (
            RequestStage::Finished,
            request_actions(data, created, sent, closed, chunks, end),
        ),
        request_actions(data, created, sent, closed, chunks, end).last()
            == RequestActionView::Return(request_outcome(created, sent, closed, chunks, end)),
{
    let start = RequestStage::Creating(data);
    let none = Seq::<RequestEventView>::empty();
    let quiet = Seq::<RequestActionView>::empty();
    let e1 = RequestEventView::Created(created);
    let e2 = RequestEventView::Sent(sent);
    let e3 = RequestEventView::Closed(closed);
    let ending = end_event(end);
    let head = seq![e1, e2, e3];
    let tail = read_events(chunks) + seq![ending];
    let last = RequestActionView::Return(request_outcome(created, sent, closed, chunks, end));
    assert(exchange_events(created, sent, closed, chunks, end) == head + tail);
    lemma_request_run_push(start, none, e1);
    lemma_request_run_push(start, none.push(e1), e2);
    lemma_request_run_push(start, none.push(e1).push(e2), e3);
    assert(none.push(e1).push(e2).push(e3) == head);
    lemma_request_run_split(start, head, tail);
    let mid = request_run(start, head);
    match (created, sent, closed) {
        (Ok(_), Ok(_), Ok(_)) => {
            let opening = seq![
                RequestActionView::Send(data),
                RequestActionView::Close,
                RequestActionView::Read,
            ];
            assert(quiet.push(RequestActionView::Send(data)).push(RequestActionView::Close).push(
                RequestActionView::Read,
            ) == opening);
            assert(mid == (RequestStage::Reading(Seq::<u8>::empty()), opening));
            lemma_request_reads_in_order(Seq::<u8>::empty(), chunks);
            lemma_request_run_push(mid.0, read_events(chunks), ending);
            assert(read_events(chunks).push(ending) == tail);
            assert(Seq::<u8>::empty() + concat_chunks(chunks) == concat_chunks(chunks));
            assert(opening + read_actions(chunks).push(last) == opening + read_actions(chunks)
                + seq![last]);
        },
        _ => {
            lemma_request_finished_is_final(tail);
            assert(mid.1 + quiet == mid.1);
            match (created, sent) {
                (Err(_), _) => {
                    assert(quiet.push(last) == seq![last]);
                },
                (Ok(_), Err(_)) => {
                    assert(quiet.push(RequestActionView::Send(data)).push(last) == seq![
                        RequestActionView::Send(data),
                        last,
                    ]);
                },
                _ => {
                    assert(quiet.push(RequestActionView::Send(data)).push(
                        RequestActionView::Close,
                    ).push(last) == seq![
                        RequestActionView::Send(data),
                        RequestActionView::Close,
                        last,
                    ]);
                },
            }
        },
    }
}

/// Round trip: over a healthy channel to a peer that answers with the
/// bytes it received, in whatever chunks, a request of `data` returns
/// `data`.
pub proof fn lemma_echo_round_trip(data: Seq<u8>, remote: url2::Url2, chunks: Seq<Seq<u8>>)
    requires
        concat_chunks(chunks) == data,
    ensures
        request_run(
            RequestStage::Creating(data),
            exchange_events(Ok(remote), Ok(()), Ok(()), chunks, Ok(())),
        ).0 == RequestStage::Finished,
        request_run(
            RequestStage::Creating(data),
            exchange_events(Ok(remote), Ok(()), Ok(()), chunks, Ok(())),
        ).1.last() == RequestActionView::Return(Ok(data)),
{
    lemma_request_exchange(data, Ok(remote), Ok(()), Ok(()), chunks, Ok(()));
}

/// A failure of the transport while the answer is drained ends the
/// request with that error, whatever had arrived before it.
pub proof fn lemma_failed_read_fails_request(
    data: Seq<u8>,
    remote: url2::Url2,
    chunks: Seq<Seq<u8>>,
    e: TransportError,
)
    ensures
        request_run(
            RequestStage::Creating(data),
            exchange_events(Ok(remote), Ok(()), Ok(()), chunks, Err(e)),
        ).0 == RequestStage::Finished,
        request_run(
            RequestStage::Creating(data),
            exchange_events(Ok(remote), Ok(()), Ok(()), chunks, Err(e)),
        ).1.last() == RequestActionView::Return(Err(e)),
{
    lemma_request_exchange(data, Ok(remote), Ok(()), Ok(()), chunks, Err(e));
}

} // verus!
