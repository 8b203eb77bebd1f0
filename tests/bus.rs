use llama_chat::im_channel::{BusEvent, ImChannel, MessageFilter, Route};
use llama_chat::message::{Message, Role, Token};

fn msg(role: Role, token: Token) -> Message {
    Message { role, token }
}

fn end(role: Role, text: &str) -> Message {
    msg(role, Token::End(text.to_string()))
}

/// Takes the next message off the intake queue and hands it to the bus.
fn pump<F: MessageFilter>(chan: &mut ImChannel<F>) -> bool {
    let m = chan.intake().try_recv().expect("a published message");
    chan.step(BusEvent::Incoming(m))
}

#[test]
fn scenario_a_accept_all_consumer_receives_published_message() {
    let (_close_tx, close_rx) = crossbeam::channel::bounded(1);
    let mut chan = ImChannel::new(close_rx);
    let (tx, rx) = chan.register(Route::AcceptAll);
    tx.send(end(Role::User, "hello")).unwrap();
    assert!(pump(&mut chan));
    assert_eq!(rx.try_recv().unwrap(), end(Role::User, "hello"));
    assert!(rx.try_recv().is_err());
}

#[test]
fn scenario_e_drop_all_and_accept_all() {
    let (_close_tx, close_rx) = crossbeam::channel::bounded(1);
    let mut chan = ImChannel::new(close_rx);
    let (tx, dropped) = chan.register(Route::DropAll);
    let (_, accepted) = chan.register(Route::AcceptAll);
    let m = end(Role::Assistant, "x");
    let ds = chan.deliveries(&m);
    assert_eq!(ds.len(), 1);
    assert_eq!(ds[0].consumer, 1);
    assert_eq!(ds[0].message, m);
    tx.send(m.clone()).unwrap();
    assert!(pump(&mut chan));
    assert_eq!(accepted.try_recv().unwrap(), m);
    assert!(accepted.try_recv().is_err());
    assert!(dropped.try_recv().is_err());
}

#[test]
fn deliveries_follow_each_filter_in_registration_order() {
    let (_close_tx, close_rx) = crossbeam::channel::bounded(1);
    let mut chan = ImChannel::new(close_rx);
    chan.register(Route::ToolExecutor);
    chan.register(Route::Inference);
    chan.register(Route::Presentation);
    chan.register(Route::AcceptAll);

    let code = end(Role::Assistant, "1+1");
    let to: Vec<usize> = chan.deliveries(&code).iter().map(|d| d.consumer).collect();
    assert_eq!(to, vec![0, 2, 3]);

    let typed = end(Role::User, "hi");
    let to: Vec<usize> = chan.deliveries(&typed).iter().map(|d| d.consumer).collect();
    assert_eq!(to, vec![1, 3]);

    let tool = end(Role::Tool, "2");
    let to: Vec<usize> = chan.deliveries(&tool).iter().map(|d| d.consumer).collect();
    assert_eq!(to, vec![1, 2, 3]);

    let start = msg(Role::Assistant, Token::Start);
    let to: Vec<usize> = chan.deliveries(&start).iter().map(|d| d.consumer).collect();
    assert_eq!(to, vec![2, 3]);
}

#[test]
fn no_consumer_is_fed_its_own_output() {
    assert!(Route::Inference.apply(&end(Role::Assistant, "answer")).is_none());
    assert!(Route::Inference.apply(&msg(Role::Assistant, Token::Start)).is_none());
    assert!(Route::Presentation.apply(&end(Role::User, "typed")).is_none());
    assert!(Route::ToolExecutor.apply(&end(Role::Tool, "2")).is_none());
    assert_eq!(
        Route::Presentation.apply(&end(Role::Assistant, "answer")),
        Some(end(Role::Assistant, "answer"))
    );
}

#[test]
fn shutdown_twice_is_shutdown_once() {
    let (_close_tx, close_rx) = crossbeam::channel::bounded(1);
    let mut chan = ImChannel::new(close_rx);
    let (tx, rx) = chan.register(Route::AcceptAll);
    assert!(chan.is_running());
    assert!(!chan.step(BusEvent::Shutdown));
    assert!(!chan.is_running());
    assert!(!chan.step(BusEvent::Shutdown));
    assert!(!chan.is_running());
    tx.send(end(Role::User, "late")).unwrap();
    assert!(!pump(&mut chan));
    assert!(rx.try_recv().is_err());
}

#[test]
fn closed_intake_stops_the_bus() {
    let (_close_tx, close_rx) = crossbeam::channel::bounded(1);
    let mut chan: ImChannel<Route> = ImChannel::new(close_rx);
    assert!(!chan.step(BusEvent::Closed));
    assert!(!chan.is_running());
}

#[test]
fn dead_consumer_does_not_stop_the_others() {
    let (_close_tx, close_rx) = crossbeam::channel::bounded(1);
    let mut chan = ImChannel::new(close_rx);
    let (tx, gone) = chan.register(Route::AcceptAll);
    let (_, alive) = chan.register(Route::AcceptAll);
    drop(gone);
    tx.send(end(Role::User, "hello")).unwrap();
    assert!(pump(&mut chan));
    assert_eq!(alive.try_recv().unwrap(), end(Role::User, "hello"));
}

#[test]
fn messages_from_one_producer_arrive_in_order() {
    let (_close_tx, close_rx) = crossbeam::channel::bounded(1);
    let mut chan = ImChannel::new(close_rx);
    let (tx, rx) = chan.register(Route::Presentation);
    let turn = vec![
        msg(Role::Assistant, Token::Start),
        msg(Role::Assistant, Token::Chunk("he".to_string())),
        msg(Role::Assistant, Token::Chunk("llo".to_string())),
        end(Role::Assistant, "hello"),
    ];
    for m in &turn {
        tx.send(m.clone()).unwrap();
    }
    for _ in 0..turn.len() {
        assert!(pump(&mut chan));
    }
    let got: Vec<Message> = rx.try_iter().collect();
    assert_eq!(got, turn);
}

#[test]
fn bus_watches_the_given_shutdown_signal() {
    let (close_tx, close_rx) = crossbeam::channel::bounded(1);
    let mut chan = ImChannel::new(close_rx);
    chan.register(Route::AcceptAll);
    assert!(chan.close_signal().try_recv().is_err());
    close_tx.send(()).unwrap();
    assert!(chan.close_signal().try_recv().is_ok());
}

