//! The message bus: one intake queue, fanned out to registered consumers,
//! each behind its own filter and its own outbound queue.
//!
//! The queues are crossbeam channels. Waiting on them is left to the caller,
//! which hands each event to [`ImChannel::step`]; the bus decides what is
//! delivered to whom, and when it stops.

use vstd::prelude::*;
use crate::local_llm::{self, LocalLlama};
use crate::message::{Message, MessageView, Role};
use crate::presentation;
use crate::tool_env;

verus! {

#[verifier::external_type_specification]
#[verifier::external_body]
#[verifier::reject_recursive_types(T)]
pub struct ExSender<T>(crossbeam::channel::Sender<T>);

#[verifier::external_type_specification]
#[verifier::external_body]
#[verifier::reject_recursive_types(T)]
pub struct ExReceiver<T>(crossbeam::channel::Receiver<T>);

pub type MessageTx = crossbeam::channel::Sender<Message>;

pub type MessageRx = crossbeam::channel::Receiver<Message>;

/// Relies on crossbeam::channel::unbounded: a fresh queue with no bound, as a
/// sending and a receiving end.
#[verifier::external_body]
fn unbounded_channel() -> (MessageTx, MessageRx) {
    crossbeam::channel::unbounded()
}

/// Relies on Sender::clone: another sending end of the same queue.
#[verifier::external_body]
fn clone_sender(tx: &MessageTx) -> MessageTx {
    tx.clone()
}

/// The filters a consumer can register with: the routing table of the bus.
#[derive(Clone, Copy, Debug, PartialEq, Eq, Structural)]
pub enum Route {
    /// Every message, unchanged.
    AcceptAll,
    /// No message.
    DropAll,
    /// The tool executor's filter.
    ToolExecutor,
    /// The inference adapter's filter.
    Inference,
    /// The presentation adapter's filter.
    Presentation,
}

/// What a consumer registered with `route` receives for `m`: `None` when the
/// message is dropped.
pub open spec fn route_view(route: Route, m: MessageView) -> Option<MessageView> {
    match route {
        Route::AcceptAll => Some(m),
        Route::DropAll => None,
        Route::ToolExecutor => tool_env::filter_view(m),
        Route::Inference => local_llm::filter_view(m),
        Route::Presentation => presentation::filter_view(m),
    }
}

/// A consumer's filter: drops a message, or passes a (possibly rewritten)
/// copy of it.
pub trait MessageFilter {
    /// What the filter passes for `m`; `None` when it drops it.
    spec fn filter_view(&self, m: MessageView) -> Option<MessageView>;

    /// Applies the filter to one message.
    fn apply(&self, message: &Message) -> (r: Option<Message>)
        ensures
            crate::message::opt_view(r) == self.filter_view(message@),
    ;
}

impl MessageFilter for Route {
    open spec fn filter_view(&self, m: MessageView) -> Option<MessageView> {
        route_view(*self, m)
    }

    fn apply(&self, message: &Message) -> (r: Option<Message>) {
        match self {
            Route::AcceptAll => Some(message.clone()),
            Route::DropAll => None,
            Route::ToolExecutor => tool_env::filter(message),
            Route::Inference => LocalLlama::filter(message),
            Route::Presentation => presentation::filter(message),
        }
    }
}

/// One message handed to one consumer: its place in registration order, and
/// the (possibly rewritten) message its filter returned.
#[derive(Debug)]
pub struct Delivery {
    pub consumer: usize,
    pub message: Message,
}

impl View for Delivery {
    type V = (int, MessageView);

    open spec fn view(&self) -> (int, MessageView) {
        (self.consumer as int, self.message@)
    }
}

/// The deliveries for `m` among the first `n` consumers, in registration
/// order.
pub open spec fn deliveries_upto<F: MessageFilter>(routes: Seq<F>, m: MessageView, n: nat) -> Seq<
    (int, MessageView),
>
    decreases n,
{
    if n == 0 {
        Seq::empty()
    } else {
        let before = deliveries_upto(routes, m, (n - 1) as nat);
        match routes[n - 1].filter_view(m) {
            Some(d) => before.push(((n - 1) as int, d)),
            None => before,
        }
    }
}

/// The deliveries for `m` to consumers registered with `routes`.
pub open spec fn deliveries_view<F: MessageFilter>(routes: Seq<F>, m: MessageView) -> Seq<(int, MessageView)> {
    deliveries_upto(routes, m, routes.len())
}

/// Something the dispatch loop waited for.
#[derive(Debug)]
pub enum BusEvent {
    /// The shutdown signal fired.
    Shutdown,
    /// The intake queue yielded a message.
    Incoming(Message),
    /// The intake queue was closed.
    Closed,
}

/// Whether the bus is stopped after `event`, given whether it was before.
pub open spec fn stopped_after(stopped: bool, event: BusEvent) -> bool {
    stopped || !(event is Incoming)
}

/// Whether the bus dispatches on `event`, given whether it was stopped.
pub open spec fn dispatches(stopped: bool, event: BusEvent) -> bool {
    !stopped && event is Incoming
}

pub struct MessageConsumer<F> {
    pub filter: F,
    pub tx: MessageTx,
}

pub struct ImChannel<F: MessageFilter> {
    rx: MessageRx,
    tx: MessageTx,
    consumers: Vec<MessageConsumer<F>>,
    close_rx: crossbeam::channel::Receiver<()>,
    stopped: bool,
    /// Every delivery handed to a consumer's queue so far, in order.
    log: Ghost<Seq<(int, MessageView)>>,
}

impl<F: MessageFilter> ImChannel<F> {
    /// The filters of the registered consumers, in registration order.
    pub closed spec fn routes(&self) -> Seq<F> {
        self.consumers@.map_values(|c: MessageConsumer<F>| c.filter)
    }

    /// The dispatch loop has ended.
    pub closed spec fn is_stopped(&self) -> bool {
        self.stopped
    }

    /// Every delivery handed to a consumer's outbound queue so far.
    pub closed spec fn delivered(&self) -> Seq<(int, MessageView)> {
        self.log@
    }

    /// The receiver the dispatch loop watches for the shutdown signal.
    pub closed spec fn shutdown_signal(&self) -> crossbeam::channel::Receiver<()> {
        self.close_rx
    }

    /// The receiving end of the intake queue.
    pub closed spec fn intake_queue(&self) -> MessageRx {
        self.rx
    }

    /// A bus with no consumers, which stops when `close_rx` fires.
    pub fn new(close_rx: crossbeam::channel::Receiver<()>) -> (r: Self)
        ensures
            r.routes() == Seq::<F>::empty(),
            !r.is_stopped(),
            r.delivered() == Seq::<(int, MessageView)>::empty(),
            r.shutdown_signal() == close_rx,
    {
        let (tx, rx) = unbounded_channel();
        let ghost empty = Seq::<(int, MessageView)>::empty();
        let r = ImChannel { rx, tx, consumers: Vec::new(), close_rx, stopped: false, log: Ghost(empty) };
        proof {
            assert(r.routes() =~= Seq::<F>::empty());
        }
        r
    }

    /// Adds a consumer behind `filter` and returns a sending end of the
    /// intake queue and the receiving end of the consumer's own queue.
    pub fn register(&mut self, filter: F) -> (r: (MessageTx, MessageRx))
        ensures
            final(self).routes() == old(self).routes().push(filter),
            final(self).is_stopped() == old(self).is_stopped(),
            final(self).delivered() == old(self).delivered(),
            final(self).shutdown_signal() == old(self).shutdown_signal(),
            final(self).intake_queue() == old(self).intake_queue(),
    {
        let (tx, rx) = unbounded_channel();
        self.consumers.push(MessageConsumer { filter, tx });
        proof {
            assert(self.routes() =~= old(self).routes().push(filter));
        }
        (clone_sender(&self.tx), rx)
    }

    /// The receiving end of the intake queue, for the caller to wait on.
    pub fn intake(&self) -> (r: &MessageRx)
        ensures
            *r == self.intake_queue(),
    {
        &self.rx
    }

    /// The shutdown signal, for the caller to wait on.
    pub fn close_signal(&self) -> (r: &crossbeam::channel::Receiver<()>)
        ensures
            *r == self.shutdown_signal(),
    {
        &self.close_rx
    }

    pub fn is_running(&self) -> (r: bool)
        ensures
            r == !self.is_stopped(),
    {
        !self.stopped
    }

    /// What each consumer receives for `message`, in registration order.
    pub fn deliveries(&self, message: &Message) -> (r: Vec<Delivery>)
        ensures
            r@.map_values(|d: Delivery| d@) == deliveries_view(self.routes(), message@),
    {
        let mut out: Vec<Delivery> = Vec::new();
        let mut i: usize = 0;
        while i < self.consumers.len()
            invariant
                i <= self.consumers@.len(),
                out@.map_values(|d: Delivery| d@) == deliveries_upto(
                    self.routes(),
                    message@,
                    i as nat,
                ),
            decreases self.consumers@.len() - i,
        {
            let ghost before = out@;
            let routed = self.consumers[i].filter.apply(message);
            proof {
                assert(self.routes()[i as int] == self.consumers@[i as int].filter);
            }
            match routed {
                Some(m) => {
                    out.push(Delivery { consumer: i, message: m });
                    proof {
                        assert(out@.map_values(|d: Delivery| d@) =~= before.map_values(
                            |d: Delivery| d@,
                        ).push((i as int, m@)));
                    }
                },
                None => {},
            }
            i = i + 1;
        }
        out
    }

    /// Relies on crossbeam's Sender::send: queues the message on the
    /// consumer's outbound queue (unbounded, so it never waits), or fails
    /// when its receiving end is gone, which depends on other threads. Either
    /// way the message has been handed to that queue, which the log records.
    #[verifier::external_body]
    fn deliver(&mut self, consumer: usize, message: Message) -> (sent: bool)
        requires
            consumer < old(self).consumers@.len(),
        ensures
            final(self).delivered() == old(self).delivered().push((consumer as int, message@)),
            final(self).consumers@ == old(self).consumers@,
            final(self).stopped == old(self).stopped,
            final(self).close_rx == old(self).close_rx,
            final(self).rx == old(self).rx,
    {
        self.consumers[consumer].tx.send(message).is_ok()
    }

    /// Handles one event of the dispatch loop. A message is fanned out while
    /// the bus runs; a shutdown signal or a closed intake stops it, and a
    /// stopped bus ignores every later event. Returns whether the loop goes
    /// on.
    pub fn step(&mut self, event: BusEvent) -> (r: bool)
        ensures
            r == dispatches(old(self).is_stopped(), event),
            final(self).is_stopped() == stopped_after(old(self).is_stopped(), event),
            final(self).routes() == old(self).routes(),
            final(self).shutdown_signal() == old(self).shutdown_signal(),
            final(self).intake_queue() == old(self).intake_queue(),
            final(self).delivered() == old(self).delivered() + match event {
                BusEvent::Incoming(m) if r => deliveries_view(old(self).routes(), m@),
                _ => Seq::<(int, MessageView)>::empty(),
            },
    {
        if self.stopped {
            proof {
                assert(self.log@ =~= self.log@ + Seq::<(int, MessageView)>::empty());
            }
            return false;
        }
        match event {
            BusEvent::Incoming(message) => {
                self.dispatch(&message);
                true
            },
            _ => {
                self.stopped = true;
                proof {
                    assert(self.log@ =~= self.log@ + Seq::<(int, MessageView)>::empty());
                }
                false
            },
        }
    }

    /// Hands every delivery for `message` to its consumer's queue. A consumer
    /// whose receiving end is gone is skipped; the others are still served.
    fn dispatch(&mut self, message: &Message)
        ensures
            final(self).routes() == old(self).routes(),
            final(self).close_rx == old(self).close_rx,
            final(self).rx == old(self).rx,
            final(self).is_stopped() == old(self).is_stopped(),
            final(self).delivered() == old(self).delivered() + deliveries_view(
                old(self).routes(),
                message@,
            ),
    {
        let ds = self.deliveries(message);
        let ghost all = ds@.map_values(|d: Delivery| d@);
        let ghost start = self.log@;
        proof {
            lemma_delivery_targets(self.routes(), message@, self.routes().len());
        }
        let mut j: usize = 0;
        while j < ds.len()
            invariant
                j <= ds@.len(),
                self.consumers@ == old(self).consumers@,
                self.stopped == old(self).stopped,
                self.close_rx == old(self).close_rx,
                self.rx == old(self).rx,
                all == ds@.map_values(|d: Delivery| d@),
                all == deliveries_view(old(self).routes(), message@),
                old(self).routes().len() == self.consumers@.len(),
                self.log@ == start + all.take(j as int),
                forall|k: int|
                    0 <= k < all.len() ==> 0 <= (#[trigger] all[k]).0 < self.consumers@.len(),
            decreases ds@.len() - j,
        {
            let d = &ds[j];
            proof {
                assert(all[j as int] == d@);
            }
            let _ = self.deliver(d.consumer, d.message.clone());
            proof {
                assert(all.take(j as int + 1) =~= all.take(j as int).push(d@));
            }
            j = j + 1;
        }
        proof {
            assert(all.take(j as int) =~= all);
        }
    }
}

/// A consumer receives a message exactly when its filter returns `Some`, and
/// what it receives is what the filter returned.
pub proof fn lemma_receives_iff_filter<F: MessageFilter>(routes: Seq<F>, m: MessageView, i: int, v: MessageView)
    requires
        0 <= i < routes.len(),
    ensures
        deliveries_view(routes, m).contains((i, v)) <==> routes[i].filter_view(m) == Some(v),
{
    lemma_receives_upto(routes, m, i, v, routes.len());
}

proof fn lemma_receives_upto<F: MessageFilter>(routes: Seq<F>, m: MessageView, i: int, v: MessageView, n: nat)
    requires
        0 <= i,
        n <= routes.len(),
    ensures
        deliveries_upto(routes, m, n).contains((i, v)) <==> (i < n && routes[i].filter_view(m)
            == Some(v)),
    decreases n,
{
    if n > 0 {
        let prev = deliveries_upto(routes, m, (n - 1) as nat);
        let cur = deliveries_upto(routes, m, n);
        lemma_receives_upto(routes, m, i, v, (n - 1) as nat);
        lemma_delivery_targets(routes, m, (n - 1) as nat);
        match routes[n - 1].filter_view(m) {
            Some(d) => {
                if cur.contains((i, v)) {
                    let k = choose|k: int| 0 <= k < cur.len() && cur[k] == (i, v);
                    if k < prev.len() {
                        assert(prev[k] == (i, v));
                    }
                }
                if i < n && routes[i].filter_view(m) == Some(v) {
                    if i == n - 1 {
                        assert(cur[cur.len() - 1] == (i, v));
                    } else {
                        let k = choose|k: int| 0 <= k < prev.len() && prev[k] == (i, v);
                        assert(cur[k] == (i, v));
                    }
                }
            },
            None => {},
        }
    }
}

/// No actor is fed its own output: assistant messages never reach the
/// inference adapter, user messages never reach the presentation adapter,
/// and tool results never reach the tool executor.
pub proof fn lemma_no_feedback(routes: Seq<Route>, m: MessageView, i: int, v: MessageView)
    requires
        0 <= i < routes.len(),
    ensures
        routes[i] == Route::Inference && m.role == Role::Assistant ==> !deliveries_view(
            routes,
            m,
        ).contains((i, v)),
        routes[i] == Route::Presentation && m.role == Role::User ==> !deliveries_view(
            routes,
            m,
        ).contains((i, v)),
        routes[i] == Route::ToolExecutor && m.role == Role::Tool ==> !deliveries_view(
            routes,
            m,
        ).contains((i, v)),
{
    lemma_receives_iff_filter(routes, m, i, v);
}

/// Signalling shutdown twice has the effect of signalling it once, and once
/// the bus has stopped no event makes it dispatch again.
pub proof fn lemma_shutdown_idempotent(stopped: bool, later: BusEvent)
    ensures
        stopped_after(stopped_after(stopped, BusEvent::Shutdown), BusEvent::Shutdown)
            == stopped_after(stopped, BusEvent::Shutdown),
        !dispatches(stopped_after(stopped, BusEvent::Shutdown), later),
        stopped_after(stopped_after(stopped, BusEvent::Shutdown), later),
{
}

/// Every delivery among the first `n` consumers goes to one of them.
proof fn lemma_delivery_targets<F: MessageFilter>(routes: Seq<F>, m: MessageView, n: nat)
    requires
        n <= routes.len(),
    ensures
        forall|k: int|
            0 <= k < deliveries_upto(routes, m, n).len() ==> 0 <= (
            #[trigger] deliveries_upto(routes, m, n)[k]).0 < n,
    decreases n,
{
    if n > 0 {
        let prev = deliveries_upto(routes, m, (n - 1) as nat);
        lemma_delivery_targets(routes, m, (n - 1) as nat);
        assert forall|k: int| 0 <= k < deliveries_upto(routes, m, n).len() implies 0 <= (
        #[trigger] deliveries_upto(routes, m, n)[k]).0 < n by {
            if k < prev.len() {
                assert(deliveries_upto(routes, m, n)[k] == prev[k]);
            }
        }
    }
}

} // verus!
