use ceammc_net::service::{
    callback_notify, notify_delivered, submit_result, Error, Handler, NoticeCallbacks, Service, ServiceCallback,
};
use std::cell::{Cell, RefCell};
use std::rc::Rc;

#[derive(Clone, Default)]
struct Log(Rc<RefCell<Vec<String>>>);

impl Log {
    fn items(&self) -> Vec<String> {
        self.0.borrow().clone()
    }
}

impl NoticeCallbacks for Log {
    fn on_error(&self, msg: &str) {
        self.0.borrow_mut().push(format!("error:{msg}"));
    }
    fn on_post(&self, msg: &str) {
        self.0.borrow_mut().push(format!("post:{msg}"));
    }
    fn on_debug(&self, msg: &str) {
        self.0.borrow_mut().push(format!("debug:{msg}"));
    }
    fn on_log(&self, msg: &str) {
        self.0.borrow_mut().push(format!("log:{msg}"));
    }
    fn on_progress(&self, val: u8) {
        self.0.borrow_mut().push(format!("progress:{val}"));
    }
}

impl ServiceCallback<u32> for Log {
    fn exec(&self, data: &mut u32) {
        self.0.borrow_mut().push(format!("reply:{data}"));
    }
}

type Bridge = Service<u8, u32, Log, Log>;

#[test]
fn drain_on_empty_queue_dispatches_nothing() {
    let (req_tx, _req_rx) = tokio::sync::mpsc::channel::<u8>(4);
    let (_rep_tx, rep_rx) = tokio::sync::mpsc::channel::<Result<u32, Error>>(4);
    let log = Log::default();
    let mut b: Bridge = Service::new(log.clone(), log.clone(), req_tx, rep_rx);
    let d = b.process_results();
    assert_eq!(d.queued, 0);
    assert!(d.routed.is_empty());
    assert!(log.items().is_empty());
}

#[test]
fn drained_results_routed_in_order() {
    let (req_tx, _req_rx) = tokio::sync::mpsc::channel::<u8>(4);
    let (rep_tx, rep_rx) = tokio::sync::mpsc::channel::<Result<u32, Error>>(8);
    let log = Log::default();
    let mut b: Bridge = Service::new(log.clone(), log.clone(), req_tx, rep_rx);
    rep_tx.try_send(Ok(7)).unwrap();
    rep_tx.try_send(Err(Error::Error("e".to_string()))).unwrap();
    rep_tx.try_send(Err(Error::Post("p".to_string()))).unwrap();
    rep_tx.try_send(Err(Error::Debug("d".to_string()))).unwrap();
    rep_tx.try_send(Err(Error::Log("l".to_string()))).unwrap();
    rep_tx.try_send(Err(Error::Progress(42))).unwrap();
    let d = b.process_results();
    assert_eq!(d.queued, 6);
    assert_eq!(
        d.routed,
        vec![Handler::Reply, Handler::Error, Handler::Post, Handler::Debug, Handler::Log, Handler::Progress]
    );
    assert_eq!(
        log.items(),
        vec!["reply:7", "error:e", "post:p", "debug:d", "log:l", "progress:42"]
    );
    assert!(b.process_results().routed.is_empty());
}

#[test]
fn drain_limit_respected() {
    let (req_tx, _req_rx) = tokio::sync::mpsc::channel::<u8>(4);
    let (rep_tx, rep_rx) = tokio::sync::mpsc::channel::<Result<u32, Error>>(8);
    let log = Log::default();
    let mut b: Bridge = Service::new(log.clone(), log.clone(), req_tx, rep_rx);
    for i in 0..3 {
        rep_tx.try_send(Ok(i)).unwrap();
    }
    assert_eq!(b.drain_at_most(0).len(), 0);
    assert_eq!(b.drain_at_most(2).len(), 2);
    assert_eq!(b.drain_at_most(5).len(), 1);
    assert_eq!(log.items(), vec!["reply:0", "reply:1", "reply:2"]);
}

#[test]
fn full_request_queue_rejects_with_error_notice() {
    let (req_tx, mut req_rx) = tokio::sync::mpsc::channel::<u8>(2);
    let (_rep_tx, rep_rx) = tokio::sync::mpsc::channel::<Result<u32, Error>>(4);
    let log = Log::default();
    let b: Bridge = Service::new(log.clone(), log.clone(), req_tx, rep_rx);
    assert!(b.send_request(1));
    assert!(b.send_request(2));
    assert!(!b.send_request(3));
    let items = log.items();
    assert_eq!(items.len(), 1);
    assert!(items[0].starts_with("error:send_request error: "));
    assert_eq!(req_rx.try_recv().unwrap(), 1);
    assert_eq!(req_rx.try_recv().unwrap(), 2);
    assert!(req_rx.try_recv().is_err());
}

#[test]
fn closed_request_queue_rejects() {
    let (req_tx, req_rx) = tokio::sync::mpsc::channel::<u8>(2);
    let (_rep_tx, rep_rx) = tokio::sync::mpsc::channel::<Result<u32, Error>>(4);
    drop(req_rx);
    let log = Log::default();
    let b: Bridge = Service::new(log.clone(), log.clone(), req_tx, rep_rx);
    assert!(!b.send_request(1));
    assert!(b.request_sender().is_closed());
    assert_eq!(log.items().len(), 1);
}

#[test]
fn submit_results() {
    assert_eq!(submit_result(Ok(())), (true, None));
    assert_eq!(
        submit_result(Err("channel closed".to_string())),
        (false, Some("send_request error: channel closed".to_string()))
    );
}

#[test]
fn producer_notifies_once_per_delivery() {
    let hits = Rc::new(Cell::new(0usize));
    let seen = hits.clone();
    let notify = callback_notify::new(5, Some(move |id: usize| seen.set(seen.get() + id)));
    assert!(notify_delivered(true, &notify));
    assert!(notify_delivered(true, &notify));
    assert_eq!(hits.get(), 10);
    assert!(!notify_delivered(false, &notify));
    assert_eq!(hits.get(), 10);
    let none: callback_notify<fn(usize)> = callback_notify::new(1, None);
    none.exec();
    assert!(notify_delivered(true, &none));
}
