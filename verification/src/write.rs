//! Sending one buffer on the write side of a channel and closing it.
//!
//! The writer is a state machine: the driver performs each action on the
//! real handle and hands back what came of it.

use crate::error::{TransportError, TransportResult};
use vstd::prelude::*;

verus! {

/// How far a send-and-close has come.
#[derive(Debug)]
pub enum WriteStage {
    /// The buffer was handed out and the send is under way.
    Sending,
    /// The send succeeded and the close is under way.
    Closing,
    /// The result was given; the handle takes no further work.
    Finished,
}

/// What came of an action on the write handle.
#[derive(Debug)]
pub enum WriteEvent {
    /// The send ended.
    Sent(TransportResult<()>),
    /// The close ended.
    Closed(TransportResult<()>),
}

/// What the driver of a send-and-close does next.
#[derive(Debug)]
pub enum WriteAction {
    /// Send these bytes as one logical send.
    Send(Vec<u8>),
    /// Close the sink, so that the peer sees the end of the stream.
    Close,
    /// Stop, with this result.
    Return(TransportResult<()>),
}

/// A `WriteAction` with its bytes as a sequence.
pub enum WriteActionView {
    Send(Seq<u8>),
    Close,
    Return(TransportResult<()>),
}

impl View for WriteAction {
    type V = WriteActionView;

    open spec fn view(&self) -> WriteActionView {
        match *self {
            WriteAction::Send(data) => WriteActionView::Send(data@),
            WriteAction::Close => WriteActionView::Close,
            WriteAction::Return(result) => WriteActionView::Return(result),
        }
    }
}

/// The view of an action that may be absent.
pub open spec fn write_action_view(action: Option<WriteAction>) -> Option<WriteActionView> {
    match action {
        Some(a) => Some(a@),
        None => None,
    }
}

/// One step of a send-and-close: the stage after `event`, and the action
/// it calls for. An event that the stage does not await changes nothing
/// and calls for nothing.
pub open spec fn write_step(stage: WriteStage, event: WriteEvent) -> (
    WriteStage,
    Option<WriteActionView>,
) {
    match (stage, event) {
        (WriteStage::Sending, WriteEvent::Sent(Ok(_))) => (
            WriteStage::Closing,
            Some(WriteActionView::Close),
        ),
        (WriteStage::Sending, WriteEvent::Sent(Err(e))) => (
            WriteStage::Finished,
            Some(WriteActionView::Return(Err(e))),
        ),
        (WriteStage::Closing, WriteEvent::Closed(result)) => (
            WriteStage::Finished,
            Some(WriteActionView::Return(result)),
        ),
        _ => (stage, None),
    }
}

/// The stage reached from `stage` over `events`, and the actions called
/// for on the way, in order.
pub open spec fn write_run(stage: WriteStage, events: Seq<WriteEvent>) -> (
    WriteStage,
    Seq<WriteActionView>,
)
    decreases events.len(),
{
    if events.len() == 0 {
        (stage, Seq::empty())
    } else {
        let before = write_run(stage, events.drop_last());
        let step = write_step(before.0, events.last());
        match step.1 {
            Some(action) => (step.0, before.1.push(action)),
            None => (step.0, before.1),
        }
    }
}

/// How many of `actions` close the sink.
pub open spec fn count_close(actions: Seq<WriteActionView>) -> nat
    decreases actions.len(),
{
    if actions.len() == 0 {
        0
    } else if actions.last() is Close {
        count_close(actions.drop_last()) + 1
    } else {
        count_close(actions.drop_last())
    }
}

/// A send-and-close in progress on one write handle.
pub struct WriteAndClose {
    stage: WriteStage,
}

impl View for WriteAndClose {
    type V = WriteStage;

    closed spec fn view(&self) -> WriteStage {
        self.stage
    }
}

/// Starts writing all of `data` and closing the channel: the first action
/// is the send of the whole buffer.
pub fn write_and_close(data: Vec<u8>) -> (start: (WriteAndClose, WriteAction))
    ensures
        start.0@ == WriteStage::Sending,
        start.1@ == WriteActionView::Send(data@),
{
    (WriteAndClose { stage: WriteStage::Sending }, WriteAction::Send(data))
}

impl WriteAndClose {
    /// Whether the result has been given.
    pub fn is_finished(&self) -> (finished: bool)
        ensures
            finished == (self@ is Finished),
    {
        match self.stage {
            WriteStage::Finished => true,
            _ => false,
        }
    }

    /// Takes what came of the last action and gives the next one.
    ///
    /// A failed send ends the operation with its error and no close. An
    /// event that is not awaited gives `None` and leaves the writer as it
    /// was.
    pub fn on_event(&mut self, event: WriteEvent) -> (action: Option<WriteAction>)
        ensures
            (final(self)@, write_action_view(action)) == write_step(old(self)@, event),
    {
        match self.stage {
            WriteStage::Sending => match event {
                WriteEvent::Sent(Ok(_)) => {
                    self.stage = WriteStage::Closing;
                    Some(WriteAction::Close)
                },
                WriteEvent::Sent(Err(e)) => {
                    self.stage = WriteStage::Finished;
                    Some(WriteAction::Return(Err(e)))
                },
                WriteEvent::Closed(_) => None,
            },
            WriteStage::Closing => match event {
                WriteEvent::Closed(result) => {
                    self.stage = WriteStage::Finished;
                    Some(WriteAction::Return(result))
                },
                WriteEvent::Sent(_) => None,
            },
            WriteStage::Finished => None,
        }
    }
}

/// A run over two stretches of events is the run over the first followed
/// by the run over the second from where the first ended.
pub proof fn lemma_write_run_split(stage: WriteStage, head: Seq<WriteEvent>, tail: Seq<WriteEvent>)
    ensures
        write_run(stage, head + tail) == (
            write_run(write_run(stage, head).0, tail).0,
            write_run(stage, head).1 + write_run(write_run(stage, head).0, tail).1,
        ),
    decreases tail.len(),
{
    let mid = write_run(stage, head);
    if tail.len() == 0 {
        assert(head + tail == head);
        assert(mid.1 + Seq::<WriteActionView>::empty() == mid.1);
    } else {
        lemma_write_run_split(stage, head, tail.drop_last());
        assert((head + tail).drop_last() == head + tail.drop_last());
        assert((head + tail).last() == tail.last());
        let before = write_run(mid.0, tail.drop_last());
        let step = write_step(before.0, tail.last());
        match step.1 {
            Some(action) => {
                assert((mid.1 + before.1).push(action) == mid.1 + before.1.push(action));
            },
            None => {},
        }
    }
}

/// Once the result was given, no event calls for anything more.
pub proof fn lemma_finished_is_final(events: Seq<WriteEvent>)
    ensures
        write_run(WriteStage::Finished, events) == (
            WriteStage::Finished,
            Seq::<WriteActionView>::empty(),
        ),
    decreases events.len(),
{
    if events.len() > 0 {
        lemma_finished_is_final(events.drop_last());
    }
}

/// The run over `events` followed by one more event.
proof fn lemma_write_run_push(stage: WriteStage, events: Seq<WriteEvent>, event: WriteEvent)
    ensures
        write_run(stage, events.push(event)) == ({
            let before = write_run(stage, events);
            let step = write_step(before.0, event);
            match step.1 {
                Some(action) => (step.0, before.1.push(action)),
                None => (step.0, before.1),
            }
        }),
{
    assert(events.push(event).drop_last() == events);
    assert(events.push(event).last() == event);
}

/// The closes among `actions` followed by one more action.
proof fn lemma_count_close_push(actions: Seq<WriteActionView>, action: WriteActionView)
    ensures
        count_close(actions.push(action)) == count_close(actions) + if action is Close {
            1nat
        } else {
            0nat
        },
{
    assert(actions.push(action).drop_last() == actions);
    assert(actions.push(action).last() == action);
}

/// On a healthy handle the sink is closed exactly once, after the send,
/// and the result is that of the close, whatever events follow.
pub proof fn lemma_healthy_write_closes_once(closed: TransportResult<()>, rest: Seq<WriteEvent>)
    ensures
        write_run(
            WriteStage::Sending,
            seq![WriteEvent::Sent(Ok(())), WriteEvent::Closed(closed)] + rest,
        ) == (
            WriteStage::Finished,
            seq![WriteActionView::Close, WriteActionView::Return(closed)],
        ),
        count_close(seq![WriteActionView::Close, WriteActionView::Return(closed)]) == 1,
{
    let none = Seq::<WriteEvent>::empty();
    let sent = WriteEvent::Sent(Ok(()));
    let head = seq![sent, WriteEvent::Closed(closed)];
    let quiet = Seq::<WriteActionView>::empty();
    let actions = seq![WriteActionView::Close, WriteActionView::Return(closed)];
    lemma_write_run_push(WriteStage::Sending, none, sent);
    lemma_write_run_push(WriteStage::Sending, none.push(sent), WriteEvent::Closed(closed));
    assert(none.push(sent).push(WriteEvent::Closed(closed)) == head);
    assert(quiet.push(WriteActionView::Close).push(WriteActionView::Return(closed)) == actions);
    lemma_write_run_split(WriteStage::Sending, head, rest);
    lemma_finished_is_final(rest);
    assert(actions + quiet == actions);
    lemma_count_close_push(quiet, WriteActionView::Close);
    lemma_count_close_push(quiet.push(WriteActionView::Close), WriteActionView::Return(closed));
}

/// When the send fails the operation ends with that error and the close
/// is never called for, whatever events follow.
pub proof fn lemma_failed_send_never_closes(e: TransportError, rest: Seq<WriteEvent>)
    ensures
        write_run(WriteStage::Sending, seq![WriteEvent::Sent(Err(e))] + rest) == (
            WriteStage::Finished,
            seq![WriteActionView::Return(Err(e))],
        ),
        count_close(seq![WriteActionView::Return(Err(e))]) == 0,
{
    let none = Seq::<WriteEvent>::empty();
    let head = seq![WriteEvent::Sent(Err(e))];
    let quiet = Seq::<WriteActionView>::empty();
    let actions = seq![WriteActionView::Return(Err(e))];
    lemma_write_run_push(WriteStage::Sending, none, WriteEvent::Sent(Err(e)));
    assert(none.push(WriteEvent::Sent(Err(e))) == head);
    assert(quiet.push(WriteActionView::Return(Err(e))) == actions);
    lemma_write_run_split(WriteStage::Sending, head, rest);
    lemma_finished_is_final(rest);
    assert(actions + quiet == actions);
    lemma_count_close_push(quiet, WriteActionView::Return(Err(e)));
}

/// Whatever events arrive, in whatever order, the sink is closed at most
/// once: never before the send succeeded, and never again afterwards.
pub proof fn lemma_close_at_most_once(events: Seq<WriteEvent>)
    ensures
        count_close(write_run(WriteStage::Sending, events).1) <= 1,
        write_run(WriteStage::Sending, events).0 is Sending ==> count_close(
            write_run(WriteStage::Sending, events).1,
        ) == 0,
        write_run(WriteStage::Sending, events).0 is Closing ==> count_close(
            write_run(WriteStage::Sending, events).1,
        ) == 1,
    decreases events.len(),
{
    if events.len() > 0 {
        lemma_close_at_most_once(events.drop_last());
        let before = write_run(WriteStage::Sending, events.drop_last());
        let step = write_step(before.0, events.last());
        match step.1 {
            Some(action) => {
                assert(before.1.push(action).drop_last() == before.1);
                assert(before.1.push(action).last() == action);
            },
            None => {},
        }
    }
}

} // verus!
