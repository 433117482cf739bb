use kitsune_transport::error::{TransportError, TransportResult};
use kitsune_transport::listener::{
    dispatch, dispatch_all, TransportIncomingChannel, TransportListener, TransportListenerHandler,
    TransportListenerReply,
};
use kitsune_transport::queue::IncomingQueue;
use kitsune_transport::read::{ReadStep, ReadToEnd};
use kitsune_transport::request::{request, RequestAction, RequestEvent};
use kitsune_transport::write::{write_and_close, WriteAction, WriteEvent};
use std::cell::RefCell;
use std::collections::{HashMap, VecDeque};
use std::rc::Rc;
use url2::Url2;

struct Pipe {
    chunks: VecDeque<Vec<u8>>,
    sends: usize,
    closes: usize,
    broken: bool,
    cut: bool,
}

#[derive(Clone)]
struct MemWrite(Rc<RefCell<Pipe>>);

struct MemRead(Rc<RefCell<Pipe>>);

impl MemWrite {
    fn send(&self, data: Vec<u8>) -> TransportResult<()> {
        let mut pipe = self.0.borrow_mut();
        if pipe.broken {
            return Err(TransportError::from("simulated transport fault"));
        }
        if pipe.closes > 0 {
            return Err(TransportError::from("send after close"));
        }
        pipe.sends += 1;
        pipe.chunks.push_back(data);
        Ok(())
    }

    fn close(&self) -> TransportResult<()> {
        self.0.borrow_mut().closes += 1;
        Ok(())
    }
}

impl MemRead {
    fn next(&self) -> TransportResult<Option<Vec<u8>>> {
        let mut pipe = self.0.borrow_mut();
        match pipe.chunks.pop_front() {
            Some(chunk) => Ok(Some(chunk)),
            None if pipe.cut => Err(TransportError::from("connection reset")),
            None => {
                assert!(pipe.closes > 0, "the read would wait for a peer that never writes");
                Ok(None)
            }
        }
    }
}

fn pipe(broken: bool) -> (MemWrite, MemRead, Rc<RefCell<Pipe>>) {
    let shared =
        Rc::new(RefCell::new(Pipe {
            chunks: VecDeque::new(),
            sends: 0,
            closes: 0,
            broken,
            cut: false,
        }));
    (MemWrite(shared.clone()), MemRead(shared.clone()), shared)
}

type Incoming = TransportIncomingChannel<MemWrite, MemRead>;

struct Inbox {
    queue: IncomingQueue,
    accepted: HashMap<u64, Incoming>,
}

struct Net {
    inboxes: HashMap<String, Inbox>,
    tickets: u64,
    broken: bool,
    cut: bool,
    outgoing: Vec<Rc<RefCell<Pipe>>>,
}

struct MemListener {
    bound: Url2,
    net: Rc<RefCell<Net>>,
}

fn network() -> Rc<RefCell<Net>> {
    Rc::new(RefCell::new(Net {
        inboxes: HashMap::new(),
        tickets: 0,
        broken: false,
        cut: false,
        outgoing: Vec::new(),
    }))
}

fn bind(net: &Rc<RefCell<Net>>, url: &str, capacity: usize) -> MemListener {
    let bound = Url2::parse(url);
    assert!(1 <= capacity && capacity <= usize::MAX / 4);
    let inbox = Inbox { queue: IncomingQueue::new(capacity), accepted: HashMap::new() };
    net.borrow_mut().inboxes.insert(bound.as_str().to_string(), inbox);
    MemListener { bound, net: net.clone() }
}

impl TransportListenerHandler for MemListener {
    type Write = MemWrite;
    type Read = MemRead;

    fn bound(&self) -> Url2 {
        self.bound.clone()
    }

    fn gives_bound_url(&self, url: TransportResult<Url2>) -> bool {
        matches!(url, Ok(given) if given == self.bound)
    }

    fn gives_channel(&self, url: Url2, channel: TransportResult<Incoming>) -> bool {
        match channel {
            Ok((remote, _, _)) => remote == url,
            Err(_) => true,
        }
    }

    fn handle_bound_url(&mut self) -> TransportResult<Url2> {
        Ok(self.bound.clone())
    }

    fn handle_create_channel(&mut self, url: Url2) -> TransportResult<Incoming> {
        let mut net = self.net.borrow_mut();
        let broken = net.broken;
        let (out_write, peer_read, out_pipe) = pipe(broken);
        let (peer_write, in_read, in_pipe) = pipe(false);
        in_pipe.borrow_mut().cut = net.cut;
        net.outgoing.push(out_pipe);
        net.tickets += 1;
        let ticket = net.tickets;
        let inbox = match net.inboxes.get_mut(url.as_str()) {
            Some(inbox) => inbox,
            None => return Err(TransportError::from("connection refused")),
        };
        match inbox.queue.try_push(ticket) {
            Ok(()) => {
                inbox.accepted.insert(ticket, (self.bound.clone(), peer_write, peer_read));
                Ok((url, out_write, in_read))
            }
            Err(_) => Err(TransportError::from("peer is busy")),
        }
    }
}

fn accept(net: &Rc<RefCell<Net>>, at: &Url2) -> Option<Incoming> {
    let mut net = net.borrow_mut();
    let inbox = net.inboxes.get_mut(at.as_str())?;
    let ticket = inbox.queue.pop()?;
    inbox.accepted.remove(&ticket)
}

fn drive_write(handle: &MemWrite, data: Vec<u8>) -> TransportResult<()> {
    let (mut writer, mut action) = write_and_close(data);
    loop {
        let event = match action {
            WriteAction::Send(bytes) => WriteEvent::Sent(handle.send(bytes)),
            WriteAction::Close => WriteEvent::Closed(handle.close()),
            WriteAction::Return(result) => return result,
        };
        action = writer.on_event(event).expect("the writer awaits what it asked for");
    }
}

fn drive_read(handle: MemRead) -> TransportResult<Vec<u8>> {
    let mut reader = ReadToEnd::new();
    loop {
        reader = match reader.on_item(handle.next()) {
            ReadStep::Pull(reader) => reader,
            ReadStep::Done(bytes) => return Ok(bytes),
            ReadStep::Failed(e) => return Err(e),
        };
    }
}

fn serve(net: &Rc<RefCell<Net>>, at: &Url2, handler: fn(Vec<u8>) -> Vec<u8>) {
    if let Some((_from, write, read)) = accept(net, at) {
        let received = drive_read(read).unwrap();
        let reply = handler(received);
        if reply != b"half an answer" {
            drive_write(&write, reply).unwrap();
        } else {
            write.send(reply).unwrap();
        }
    }
}

fn drive_request(
    listener: &mut MemListener,
    url: Url2,
    data: Vec<u8>,
    peer: fn(Vec<u8>) -> Vec<u8>,
) -> (TransportResult<Vec<u8>>, Vec<String>) {
    let net = listener.net.clone();
    let target = url.clone();
    let (mut machine, first) = request(url, data);
    let mut action = first;
    let mut handles: Option<(MemWrite, MemRead)> = None;
    let mut trace = Vec::new();
    loop {
        let event = match action {
            RequestAction::CreateChannel(url) => {
                trace.push(String::from("create"));
                let command = TransportListener::CreateChannel { url };
                match dispatch(listener, command) {
                    TransportListenerReply::CreateChannel(Ok((remote, write, read))) => {
                        handles = Some((write, read));
                        RequestEvent::Created(Ok(remote))
                    }
                    TransportListenerReply::CreateChannel(Err(e)) => RequestEvent::Created(Err(e)),
                    TransportListenerReply::BoundUrl(_) => panic!("answer of another kind"),
                }
            }
            RequestAction::Send(bytes) => {
                trace.push(String::from("send"));
                RequestEvent::Sent(handles.as_ref().unwrap().0.send(bytes))
            }
            RequestAction::Close => {
                trace.push(String::from("close"));
                let closed = handles.as_ref().unwrap().0.close();
                serve(&net, &target, peer);
                RequestEvent::Closed(closed)
            }
            RequestAction::Read => {
                trace.push(String::from("read"));
                match handles.as_ref().unwrap().1.next() {
                    Ok(item) => RequestEvent::Read(item),
                    Err(e) => RequestEvent::ReadFailed(e),
                }
            }
            RequestAction::Return(result) => {
                trace.push(String::from("return"));
                return (result, trace);
            }
        };
        let (next, called) = machine.on_event(event);
        machine = next;
        action = called.expect("the request awaits what it asked for");
    }
}

fn echo(received: Vec<u8>) -> Vec<u8> {
    received
}

fn reverse(mut received: Vec<u8>) -> Vec<u8> {
    received.reverse();
    received
}

#[test]
fn created_channel_reaches_the_peer_and_carries_its_answer() {
    let net = network();
    let mut a = bind(&net, "mem://a/", 4);
    let mut b = bind(&net, "mem://b/", 4);
    let b_url = b.handle_bound_url().unwrap();
    let (remote, _write, read) = a.handle_create_channel(b_url.clone()).unwrap();
    assert_eq!(remote.as_str(), b_url.as_str());
    let (from, peer_write, _peer_read) = accept(&net, &b_url).expect("the queue yields the item");
    assert_eq!(from.as_str(), "mem://a/");
    drive_write(&peer_write, b"pong".to_vec()).unwrap();
    assert_eq!(drive_read(read).unwrap(), b"pong".to_vec());
    assert!(accept(&net, &b_url).is_none());
}

#[test]
fn request_to_a_reversing_peer() {
    let net = network();
    let mut a = bind(&net, "mem://a/", 4);
    let b = bind(&net, "mem://b/", 4);
    let (answer, trace) = drive_request(&mut a, b.bound.clone(), b"ping".to_vec(), reverse);
    assert_eq!(answer.unwrap(), b"gnip".to_vec());
    assert_eq!(trace, vec!["create", "send", "close", "read", "read", "return"]);
}

#[test]
fn request_to_an_echoing_peer_returns_what_was_sent() {
    let net = network();
    let mut a = bind(&net, "mem://a/", 4);
    let b = bind(&net, "mem://b/", 4);
    let buffers: Vec<Vec<u8>> =
        vec![Vec::new(), b"x".to_vec(), b"hello world".to_vec(), (0..=255).collect(), vec![0; 5000]];
    for buffer in buffers {
        let (answer, _) = drive_request(&mut a, b.bound.clone(), buffer.clone(), echo);
        assert_eq!(answer.unwrap(), buffer);
    }
}

#[test]
fn request_closes_its_write_side_once() {
    let net = network();
    let mut a = bind(&net, "mem://a/", 4);
    let b = bind(&net, "mem://b/", 4);
    let (answer, trace) = drive_request(&mut a, b.bound.clone(), b"ping".to_vec(), echo);
    assert!(answer.is_ok());
    assert_eq!(trace.iter().filter(|step| step.as_str() == "create").count(), 1);
    assert_eq!(trace.iter().filter(|step| step.as_str() == "send").count(), 1);
    assert_eq!(trace.iter().filter(|step| step.as_str() == "close").count(), 1);
    let net = net.borrow();
    assert_eq!(net.outgoing.len(), 1);
    assert_eq!(net.outgoing[0].borrow().sends, 1);
    assert_eq!(net.outgoing[0].borrow().closes, 1);
}

#[test]
fn failed_send_ends_the_request_without_a_close() {
    let net = network();
    let mut a = bind(&net, "mem://a/", 4);
    let b = bind(&net, "mem://b/", 4);
    net.borrow_mut().broken = true;
    let (answer, trace) = drive_request(&mut a, b.bound.clone(), b"ping".to_vec(), echo);
    assert_eq!(answer.unwrap_err().message(), "simulated transport fault");
    assert_eq!(trace, vec!["create", "send", "return"]);
    assert_eq!(net.borrow().outgoing[0].borrow().closes, 0);
}

#[test]
fn send_and_close_on_a_broken_handle_never_closes() {
    let (write, _read, shared) = pipe(true);
    let result = drive_write(&write, b"lost".to_vec());
    assert_eq!(result.unwrap_err().message(), "simulated transport fault");
    assert_eq!(shared.borrow().closes, 0);
    assert_eq!(shared.borrow().sends, 0);
}

#[test]
fn send_and_close_on_a_healthy_handle_closes_once() {
    let (write, read, shared) = pipe(false);
    drive_write(&write, b"all of it".to_vec()).unwrap();
    assert_eq!(shared.borrow().sends, 1);
    assert_eq!(shared.borrow().closes, 1);
    assert_eq!(drive_read(read).unwrap(), b"all of it".to_vec());
}

fn half(_received: Vec<u8>) -> Vec<u8> {
    b"half an answer".to_vec()
}

#[test]
fn failure_while_draining_ends_the_request_with_the_error() {
    let net = network();
    let mut a = bind(&net, "mem://a/", 4);
    let b = bind(&net, "mem://b/", 4);
    net.borrow_mut().cut = true;
    let (answer, trace) = drive_request(&mut a, b.bound.clone(), b"ping".to_vec(), half);
    assert_eq!(answer.unwrap_err().message(), "connection reset");
    assert_eq!(trace, vec!["create", "send", "close", "read", "read", "return"]);
}

#[test]
fn failure_while_draining_a_read_handle_is_returned() {
    let (write, read, shared) = pipe(false);
    write.send(b"some".to_vec()).unwrap();
    shared.borrow_mut().cut = true;
    assert_eq!(drive_read(read).unwrap_err().message(), "connection reset");
}

#[test]
fn failed_channel_creation_ends_the_request_at_once() {
    let net = network();
    let mut a = bind(&net, "mem://a/", 4);
    let (answer, trace) =
        drive_request(&mut a, Url2::parse("mem://nobody/"), b"ping".to_vec(), echo);
    assert_eq!(answer.unwrap_err().message(), "connection refused");
    assert_eq!(trace, vec!["create", "return"]);
    assert!(net.borrow().outgoing.iter().all(|pipe| pipe.borrow().sends == 0));
}

#[test]
fn bound_url_is_the_same_each_time() {
    let net = network();
    let mut a = bind(&net, "mem://a/", 4);
    let b = bind(&net, "mem://b/", 4);
    let commands = vec![
        TransportListener::BoundUrl,
        TransportListener::CreateChannel { url: b.bound.clone() },
        TransportListener::BoundUrl,
        TransportListener::CreateChannel { url: Url2::parse("mem://nobody/") },
        TransportListener::BoundUrl,
    ];
    let replies = dispatch_all(&mut a, commands);
    assert_eq!(replies.len(), 5);
    let mut given = Vec::new();
    for (index, reply) in replies.into_iter().enumerate() {
        match reply {
            TransportListenerReply::BoundUrl(url) => {
                assert!(index % 2 == 0);
                given.push(url.unwrap().as_str().to_string());
            }
            TransportListenerReply::CreateChannel(channel) => {
                assert!(index % 2 == 1);
                assert_eq!(channel.is_ok(), index == 1);
            }
        }
    }
    assert_eq!(given, vec!["mem://a/", "mem://a/", "mem://a/"]);
}

#[test]
fn unclaimed_channel_holds_back_the_next() {
    let net = network();
    let mut a = bind(&net, "mem://a/", 1);
    let b = bind(&net, "mem://b/", 1);
    let mut order = Vec::new();
    assert!(a.handle_create_channel(b.bound.clone()).is_ok());
    order.push("first accepted");
    assert_eq!(
        a.handle_create_channel(b.bound.clone()).err().unwrap().message(),
        "peer is busy"
    );
    order.push("second held back");
    let (from, _, _) = accept(&net, &b.bound).expect("the first channel waits in the queue");
    assert_eq!(from.as_str(), "mem://a/");
    order.push("first taken");
    assert!(a.handle_create_channel(b.bound.clone()).is_ok());
    order.push("second accepted");
    assert!(accept(&net, &b.bound).is_some());
    assert!(accept(&net, &b.bound).is_none());
    assert_eq!(
        order,
        vec!["first accepted", "second held back", "first taken", "second accepted"]
    );
}
