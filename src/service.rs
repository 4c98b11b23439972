//! The request/reply bridge between a background execution context and a
//! polling host thread: two bounded channels, one each way, and the
//! dispatch of drained results to host callbacks.

use vstd::prelude::*;
use vstd::string::*;

verus! {

#[verifier::external_type_specification]
#[verifier::external_body]
#[verifier::reject_recursive_types(T)]
pub struct ExSender<T>(tokio::sync::mpsc::Sender<T>);

#[verifier::external_type_specification]
#[verifier::external_body]
#[verifier::reject_recursive_types(T)]
pub struct ExReceiver<T>(tokio::sync::mpsc::Receiver<T>);

/// Relies on tokio's `mpsc::Sender::try_send`: enqueues without waiting, or
/// fails (the channel is full, or its receiver is gone) with the error's text.
#[verifier::external_body]
fn channel_try_send<T>(tx: &tokio::sync::mpsc::Sender<T>, value: T) -> (r: Result<(), String>) {
    match tx.try_send(value) {
        Ok(()) => Ok(()),
        Err(e) => Err(e.to_string()),
    }
}

/// Relies on tokio's `mpsc::Receiver::try_recv`: the next queued value, or
/// `None` when the channel is empty or closed; never waits.
#[verifier::external_body]
fn channel_try_recv<T>(rx: &mut tokio::sync::mpsc::Receiver<T>) -> (r: Option<T>) {
    rx.try_recv().ok()
}

/// Relies on tokio's `mpsc::Receiver::len`: how many values are queued now.
#[verifier::external_body]
fn channel_len<T>(rx: &tokio::sync::mpsc::Receiver<T>) -> (r: usize) {
    rx.len()
}

/// The "results are ready" signal: called with a host-chosen id each time
/// the background context delivered a result.
#[derive(Clone, Copy)]
#[allow(non_camel_case_types)]
pub struct callback_notify<F> {
    pub id: usize,
    pub cb: Option<F>,
}

impl<F: Fn(usize)> callback_notify<F> {
    /// A signal that calls `cb` with `id`.
    pub fn new(id: usize, cb: Option<F>) -> (r: Self)
        ensures
            r.id == id,
            r.cb == cb,
    {
        callback_notify { id, cb }
    }

    /// Fires the signal, if a callback is set: the callback is called with the id.
    pub fn exec(&self)
        requires
            self.cb matches Some(f) ==> f.requires((self.id,)),
        ensures
            self.cb matches Some(f) ==> f.ensures((self.id,), ()),
    {
        match &self.cb {
            Some(f) => f(self.id),
            None => {},
        }
    }
}

/// After a background-side delivery attempt: fires the notify signal when
/// the value was delivered, and says whether it was. A failed delivery is
/// not retried.
pub fn notify_delivered<F: Fn(usize)>(delivered: bool, cb_notify: &callback_notify<F>) -> (r: bool)
    requires
        cb_notify.cb matches Some(f) ==> f.requires((cb_notify.id,)),
    ensures
        r == delivered,
        r ==> (cb_notify.cb matches Some(f) ==> f.ensures((cb_notify.id,), ())),
{
    if delivered {
        cb_notify.exec();
    }
    delivered
}

/// A side-channel value carried beside replies: diagnostics and progress.
#[derive(Debug)]
pub enum Error {
    Error(String),
    Post(String),
    Debug(String),
    Log(String),
    /// Percentage complete, 0 to 100.
    Progress(u8),
}

/// The host's handler for one kind of value, such as a protocol reply.
pub trait ServiceCallback<T> {
    fn exec(&self, data: &mut T);
}

/// The host's handlers for notices, one per kind.
pub trait NoticeCallbacks {
    fn on_error(&self, msg: &str);

    fn on_post(&self, msg: &str);

    fn on_debug(&self, msg: &str);

    fn on_log(&self, msg: &str);

    fn on_progress(&self, val: u8);
}

/// The host handler that a drained result goes to.
#[derive(PartialEq, Eq, Structural, Debug, Clone, Copy)]
pub enum Handler {
    Reply,
    Error,
    Post,
    Debug,
    Log,
    Progress,
}

/// A reply goes to the reply handler, each notice to the handler of its kind.
pub open spec fn handler_of<Reply>(item: Result<Reply, Error>) -> Handler {
    match item {
        Ok(_) => Handler::Reply,
        Err(Error::Error(_)) => Handler::Error,
        Err(Error::Post(_)) => Handler::Post,
        Err(Error::Debug(_)) => Handler::Debug,
        Err(Error::Log(_)) => Handler::Log,
        Err(Error::Progress(_)) => Handler::Progress,
    }
}

/// What one drain did: how many results were queued when it began, and
/// the handlers it called, one per result taken, in order.
pub struct Drained {
    pub queued: usize,
    pub routed: Vec<Handler>,
}

/// Whether a submission went through, and the error text to raise if not.
pub fn submit_result(res: Result<(), String>) -> (r: (bool, Option<String>))
    ensures
        res is Ok ==> r.0 && r.1 is None,
        res matches Err(d) ==> !r.0 && (r.1 matches Some(m) && m@ == "send_request error: "@ + d@),
{
    match res {
        Ok(()) => (true, None),
        Err(d) => (false, Some(String::from_str("send_request error: ").concat(d.as_str()))),
    }
}

/// The host end of the bridge: submits requests and drains results.
#[verifier::reject_recursive_types(Request)]
#[verifier::reject_recursive_types(Reply)]
pub struct Service<Request, Reply, H, C> {
    host: H,
    cb_reply: C,
    tx: tokio::sync::mpsc::Sender<Request>,
    rx: tokio::sync::mpsc::Receiver<Result<Reply, Error>>,
}

impl<Request, Reply, H: NoticeCallbacks, C: ServiceCallback<Reply>> Service<Request, Reply, H, C> {
    /// A bridge over the request sender and the result receiver.
    pub fn new(
        host: H,
        cb_reply: C,
        tx: tokio::sync::mpsc::Sender<Request>,
        rx: tokio::sync::mpsc::Receiver<Result<Reply, Error>>,
    ) -> (r: Self)
        ensures
            r.host() == host,
            r.reply_callback() == cb_reply,
    {
        Service { host, cb_reply, tx, rx }
    }

    /// The notice handlers.
    pub closed spec fn host(&self) -> H {
        self.host
    }

    /// The reply handler.
    pub closed spec fn reply_callback(&self) -> C {
        self.cb_reply
    }

    pub fn on_error(&self, msg: &str) {
        self.host.on_error(msg);
    }

    pub fn on_post(&self, msg: &str) {
        self.host.on_post(msg);
    }

    pub fn on_debug(&self, msg: &str) {
        self.host.on_debug(msg);
    }

    pub fn on_log(&self, msg: &str) {
        self.host.on_log(msg);
    }

    pub fn on_progress(&self, val: u8) {
        self.host.on_progress(val);
    }

    fn on_reply(&self, reply: &mut Reply) {
        self.cb_reply.exec(reply);
    }

    /// Routes one drained result: a reply to the reply handler, each notice
    /// to the handler of its kind; returns the handler called.
    pub fn dispatch(&self, item: Result<Reply, Error>) -> (h: Handler)
        ensures
            h == handler_of(item),
    {
        match item {
            Ok(mut reply) => {
                self.on_reply(&mut reply);
                Handler::Reply
            },
            Err(Error::Error(msg)) => {
                self.on_error(msg.as_str());
                Handler::Error
            },
            Err(Error::Post(msg)) => {
                self.on_post(msg.as_str());
                Handler::Post
            },
            Err(Error::Debug(msg)) => {
                self.on_debug(msg.as_str());
                Handler::Debug
            },
            Err(Error::Log(msg)) => {
                self.on_log(msg.as_str());
                Handler::Log
            },
            Err(Error::Progress(val)) => {
                self.on_progress(val);
                Handler::Progress
            },
        }
    }

    /// Submits a request without waiting; when the queue is full or the
    /// background context is gone, raises an error notice and returns false.
    pub fn send_request(&self, req: Request) -> (r: bool) {
        let (sent, err) = submit_result(channel_try_send(&self.tx, req));
        match err {
            Some(msg) => self.on_error(msg.as_str()),
            None => {},
        }
        sent
    }

    /// The sending end of the request queue, for a caller that must wait
    /// for room (teardown, off the host's real-time thread).
    pub fn request_sender(&self) -> &tokio::sync::mpsc::Sender<Request> {
        &self.tx
    }

    /// Takes at most `limit` queued results, stopping early when the queue
    /// runs dry, and routes each one taken through `dispatch`; returns the
    /// handlers called, in order, one per result taken. A limit of zero
    /// touches nothing.
    pub fn drain_at_most(&mut self, limit: usize) -> (routed: Vec<Handler>)
        ensures
            routed@.len() <= limit,
            limit == 0 ==> routed@.len() == 0 && *final(self) == *old(self),
            final(self).host() == old(self).host(),
            final(self).reply_callback() == old(self).reply_callback(),
    {
        let mut routed: Vec<Handler> = Vec::new();
        if limit == 0 {
            return routed;
        }
        while routed.len() < limit
            invariant
                routed@.len() <= limit,
                self.host() == old(self).host(),
                self.reply_callback() == old(self).reply_callback(),
            decreases limit - routed@.len(),
        {
            match channel_try_recv(&mut self.rx) {
                Some(item) => {
                    let h = self.dispatch(item);
                    routed.push(h);
                },
                None => {
                    return routed;
                },
            }
        }
        routed
    }

    /// Routes whatever results are queued now, without waiting: at most as
    /// many as were queued when it began, so an empty queue routes nothing
    /// and leaves the bridge as it was.
    pub fn process_results(&mut self) -> (r: Drained)
        ensures
            r.routed@.len() <= r.queued,
            r.queued == 0 ==> r.routed@.len() == 0 && *final(self) == *old(self),
            final(self).host() == old(self).host(),
            final(self).reply_callback() == old(self).reply_callback(),
    {
        let queued = channel_len(&self.rx);
        let routed = self.drain_at_most(queued);
        Drained { queued, routed }
    }
}

} // verus!
