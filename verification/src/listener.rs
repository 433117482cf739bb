//! The contract of a listener: the commands it answers, and how they are
//! dispatched to the state that a transport binding owns.

use crate::error::TransportResult;
use vstd::prelude::*;

verus! {

/// What a listener hands over for one channel: the remote address, the
/// write handle and the read handle. It is the answer to a channel
/// creation, and the item that an accepted channel puts on the incoming
/// queue.
pub type TransportIncomingChannel<W, R> = (url2::Url2, W, R);

/// A command to a transport binding for establishing connections.
#[derive(Debug)]
pub enum TransportListener {
    /// Retrieve the address this listener is bound to.
    BoundUrl,
    /// Establish one outgoing channel to a remote.
    CreateChannel {
        /// The address of the remote.
        url: url2::Url2,
    },
}

/// The answer to a `TransportListener` command, of the same kind.
pub enum TransportListenerReply<W, R> {
    BoundUrl(TransportResult<url2::Url2>),
    CreateChannel(TransportResult<TransportIncomingChannel<W, R>>),
}

/// The state behind a listener, as a transport binding supplies it.
///
/// A listener is bound to one address for its lifetime: no command
/// changes it. The spec functions say what a binding answers; a binding
/// that is not itself verified gives them as ordinary functions.
pub trait TransportListenerHandler: Sized {
    /// The write handle of the channels of this transport.
    type Write;

    /// The read handle of the channels of this transport.
    type Read;

    /// The address that the listener is bound to.
    spec fn bound(&self) -> url2::Url2;

    /// Whether a listener in this state answers a query for its address
    /// with `url`.
    spec fn gives_bound_url(&self, url: TransportResult<url2::Url2>) -> bool;

    /// Whether a listener in this state answers the creation of a channel
    /// to `url` with `channel`.
    spec fn gives_channel(
        &self,
        url: url2::Url2,
        channel: TransportResult<TransportIncomingChannel<Self::Write, Self::Read>>,
    ) -> bool;

    /// Gives the bound address, as it was negotiated when binding.
    fn handle_bound_url(&mut self) -> (url: TransportResult<url2::Url2>)
        ensures
            final(self).bound() == old(self).bound(),
            old(self).gives_bound_url(url),
            url matches Ok(bound) ==> bound == old(self).bound(),
    ;

    /// Establishes one new channel to `url`, independent of all others.
    fn handle_create_channel(&mut self, url: url2::Url2) -> (channel: TransportResult<
        TransportIncomingChannel<Self::Write, Self::Read>,
    >)
        ensures
            final(self).bound() == old(self).bound(),
            old(self).gives_channel(url, channel),
    ;
}

/// Whether `reply` is what a listener in the state `before` answers to
/// `command`: it is the handler's own answer to that command, given the
/// command's address, and an address it gives is the bound one.
pub open spec fn answers<H: TransportListenerHandler>(
    before: H,
    command: TransportListener,
    reply: TransportListenerReply<H::Write, H::Read>,
) -> bool {
    match (command, reply) {
        (TransportListener::BoundUrl, TransportListenerReply::BoundUrl(url)) => {
            &&& before.gives_bound_url(url)
            &&& url matches Ok(given) ==> given == before.bound()
        },
        (
            TransportListener::CreateChannel { url },
            TransportListenerReply::CreateChannel(channel),
        ) => before.gives_channel(url, channel),
        _ => false,
    }
}

/// Whether `replies` are the answers to `commands`, each given by the
/// listener as it stood before that command, over the states `states`
/// that the listener went through, all bound to one address.
pub open spec fn answers_all<H: TransportListenerHandler>(
    states: Seq<H>,
    commands: Seq<TransportListener>,
    replies: Seq<TransportListenerReply<H::Write, H::Read>>,
) -> bool {
    &&& states.len() == commands.len() + 1
    &&& replies.len() == commands.len()
    &&& forall|i: int|
        0 <= i < commands.len() ==> (#[trigger] states[i]).bound() == states[0].bound() && answers(
            states[i],
            commands[i],
            replies[i],
        )
    &&& states[commands.len() as int].bound() == states[0].bound()
}

/// The address that `reply` gives, if it gives one.
pub open spec fn address_given<W, R>(reply: TransportListenerReply<W, R>) -> Option<url2::Url2> {
    match reply {
        TransportListenerReply::BoundUrl(Ok(url)) => Some(url),
        _ => None,
    }
}

/// Hands one command to the handler and gives its answer.
pub fn dispatch<H: TransportListenerHandler>(handler: &mut H, command: TransportListener) -> (reply:
    TransportListenerReply<H::Write, H::Read>)
    ensures
        final(handler).bound() == old(handler).bound(),
        answers(*old(handler), command, reply),
{
    match command {
        TransportListener::BoundUrl => TransportListenerReply::BoundUrl(
            handler.handle_bound_url(),
        ),
        TransportListener::CreateChannel { url } => TransportListenerReply::CreateChannel(
            handler.handle_create_channel(url),
        ),
    }
}

/// Hands the commands to the handler in order and gives their answers in
/// the same order. However often the address is asked for, and whatever
/// channels are created in between, every answer that gives an address
/// gives the same one.
pub fn dispatch_all<H: TransportListenerHandler>(
    handler: &mut H,
    commands: Vec<TransportListener>,
) -> (replies: Vec<TransportListenerReply<H::Write, H::Read>>)
    ensures
        final(handler).bound() == old(handler).bound(),
        replies.len() == commands.len(),
        exists|states: Seq<H>|
            {
                &&& #[trigger] answers_all(states, commands@, replies@)
                &&& states[0] == *old(handler)
                &&& states[commands.len() as int] == *final(handler)
            },
        forall|i: int|
            0 <= i < replies.len() ==> (address_given(#[trigger] replies[i]) matches Some(url)
                ==> url == old(handler).bound()),
{
    let mut replies = Vec::new();
    let ghost mut states: Seq<H> = seq![*handler];
    for command in it: commands
        invariant
            it.seq() == commands@,
            handler.bound() == old(handler).bound(),
            replies.len() == it.index(),
            states.len() == it.index() + 1,
            states[0] == *old(handler),
            states[it.index() as int] == *handler,
            forall|i: int|
                0 <= i < it.index() ==> (#[trigger] states[i]).bound() == old(handler).bound()
                    && answers(states[i], commands[i], replies[i]),
    {
        let reply = dispatch(handler, command);
        replies.push(reply);
        proof {
            states = states.push(*handler);
        }
    }
    proof {
        assert(answers_all(states, commands@, replies@));
        assert forall|i: int| 0 <= i < replies.len() implies (address_given(
            #[trigger] replies[i],
        ) matches Some(url) ==> url == old(handler).bound()) by {
            assert(answers(states[i], commands[i], replies[i]));
        }
    }
    replies
}

} // verus!
