use basic_mpsc_pubsub::broker::{Broker, Delivery};
use basic_mpsc_pubsub::messages::{AppMessage, InMessage, OutMessage};

fn topic(s: &str) -> String {
    s.to_string()
}

fn generic(to: usize, t: &str, p: AppMessage) -> Delivery {
    Delivery { target: to, message: InMessage::Generic(topic(t), p) }
}

fn broker_with(names: &[&str], acknowledge: bool) -> Broker {
    let mut b = Broker::new(acknowledge);
    for n in names {
        b.start_module(n);
    }
    b
}

#[test]
fn start_module_registers_and_sends_startup() {
    let mut b = Broker::new(false);
    let d0 = b.start_module("Camera");
    let d1 = b.start_module("Display");
    assert_eq!(d0, Delivery { target: 0, message: InMessage::Startup });
    assert_eq!(d1, Delivery { target: 1, message: InMessage::Startup });
    assert_eq!(b.module_count(), 2);
    assert_eq!(b.module(1).name(), "Display");
    assert!(b.module(1).is_alive());
    assert_eq!(b.module(1).subscription_count(), 0);
}

#[test]
fn subscribe_then_unsubscribe_membership() {
    let mut b = broker_with(&["A", "B"], false);
    let r = b.handle(1, OutMessage::Subscribe(topic("/faces")));
    assert!(r.is_empty());
    assert!(b.module(1).is_subscribed(&topic("/faces")));
    assert!(!b.module(0).is_subscribed(&topic("/faces")));
    let r = b.handle(1, OutMessage::Unsubscribe(topic("/faces")));
    assert!(r.is_empty());
    assert!(!b.module(1).is_subscribed(&topic("/faces")));
}

#[test]
fn subscribe_twice_keeps_set() {
    let mut b = broker_with(&["A"], false);
    b.handle(0, OutMessage::Subscribe(topic("/frames")));
    assert_eq!(b.module(0).subscription_count(), 1);
    b.handle(0, OutMessage::Subscribe(topic("/frames")));
    assert_eq!(b.module(0).subscription_count(), 1);
    assert!(b.module(0).is_subscribed(&topic("/frames")));
}

#[test]
fn unsubscribe_of_non_member_is_noop() {
    let mut b = broker_with(&["A"], false);
    b.handle(0, OutMessage::Subscribe(topic("/a")));
    b.handle(0, OutMessage::Unsubscribe(topic("/b")));
    assert_eq!(b.module(0).subscription_count(), 1);
    assert!(b.module(0).is_subscribed(&topic("/a")));
}

#[test]
fn unsubscribe_keeps_other_topics() {
    let mut b = broker_with(&["A"], false);
    b.handle(0, OutMessage::Subscribe(topic("/a")));
    b.handle(0, OutMessage::Subscribe(topic("/b")));
    b.handle(0, OutMessage::Subscribe(topic("/c")));
    b.handle(0, OutMessage::Unsubscribe(topic("/a")));
    assert_eq!(b.module(0).subscription_count(), 2);
    assert!(!b.module(0).is_subscribed(&topic("/a")));
    assert!(b.module(0).is_subscribed(&topic("/b")));
    assert!(b.module(0).is_subscribed(&topic("/c")));
}

#[test]
fn acknowledgments_go_to_requester_only() {
    let mut b = broker_with(&["A", "B"], true);
    let r = b.handle(1, OutMessage::Subscribe(topic("/x")));
    assert_eq!(r, vec![Delivery { target: 1, message: InMessage::Subscribed(topic("/x")) }]);
    let r = b.handle(1, OutMessage::Unsubscribe(topic("/x")));
    assert_eq!(r, vec![Delivery { target: 1, message: InMessage::Unsubscribed(topic("/x")) }]);
}

#[test]
fn no_subscribers_zero_deliveries() {
    let mut b = broker_with(&["A", "B"], false);
    let r = b.handle(0, OutMessage::Generic(topic("/x"), AppMessage::VideoFrame));
    assert!(r.is_empty());
}

#[test]
fn empty_broker_dispatch() {
    let b = Broker::new(false);
    assert!(b.dispatch(&topic("/x"), AppMessage::FaceCoords).is_empty());
    assert!(b.shutdown().is_empty());
}

#[test]
fn single_subscriber_receives_one_copy() {
    let mut b = broker_with(&["A", "B"], false);
    b.handle(1, OutMessage::Subscribe(topic("/faces")));
    let r = b.handle(0, OutMessage::Generic(topic("/faces"), AppMessage::FaceCoords));
    assert_eq!(r, vec![generic(1, "/faces", AppMessage::FaceCoords)]);
}

#[test]
fn unsubscribe_suppresses_delivery() {
    let mut b = broker_with(&["A", "B"], false);
    b.handle(1, OutMessage::Subscribe(topic("/faces")));
    b.handle(1, OutMessage::Unsubscribe(topic("/faces")));
    let r = b.handle(0, OutMessage::Generic(topic("/faces"), AppMessage::FaceCoords));
    assert!(r.is_empty());
}

#[test]
fn fan_out_to_every_subscriber() {
    let mut b = broker_with(&["A", "B", "C", "D"], false);
    b.handle(1, OutMessage::Subscribe(topic("/frames")));
    b.handle(2, OutMessage::Subscribe(topic("/frames")));
    b.handle(3, OutMessage::Subscribe(topic("/faces")));
    let mut r = b.handle(0, OutMessage::Generic(topic("/frames"), AppMessage::VideoFrame));
    assert_eq!(
        r,
        vec![generic(1, "/frames", AppMessage::VideoFrame), generic(2, "/frames", AppMessage::VideoFrame)]
    );
    r[0].message = InMessage::Tick;
    assert_eq!(r[1], generic(2, "/frames", AppMessage::VideoFrame));
}

#[test]
fn publisher_receives_own_message() {
    let mut b = broker_with(&["A", "B"], false);
    b.handle(0, OutMessage::Subscribe(topic("/loop")));
    let r = b.handle(0, OutMessage::Generic(topic("/loop"), AppMessage::VideoFrame));
    assert_eq!(r, vec![generic(0, "/loop", AppMessage::VideoFrame)]);
}

#[test]
fn startup_precedes_any_generic() {
    let mut b = Broker::new(false);
    let mut sent: Vec<Delivery> = Vec::new();
    for n in ["Camera", "FaceDetector", "Display"] {
        sent.push(b.start_module(n));
    }
    b.handle(2, OutMessage::Subscribe(topic("/faces")));
    sent.extend(b.handle(1, OutMessage::Generic(topic("/faces"), AppMessage::FaceCoords)));
    for id in 0..3usize {
        let first = sent.iter().position(|d| d.target == id);
        assert_eq!(sent[first.unwrap()].message, InMessage::Startup);
    }
    assert_eq!(sent.last().unwrap(), &generic(2, "/faces", AppMessage::FaceCoords));
}

#[test]
fn per_module_order_kept() {
    let mut b = broker_with(&["A", "B"], false);
    b.handle(1, OutMessage::Subscribe(topic("/a")));
    b.handle(1, OutMessage::Subscribe(topic("/b")));
    let mut sent = b.handle(0, OutMessage::Generic(topic("/a"), AppMessage::VideoFrame));
    sent.extend(b.handle(0, OutMessage::Generic(topic("/b"), AppMessage::FaceCoords)));
    let to_b: Vec<InMessage> = sent.into_iter().filter(|d| d.target == 1).map(|d| d.message).collect();
    assert_eq!(
        to_b,
        vec![
            InMessage::Generic(topic("/a"), AppMessage::VideoFrame),
            InMessage::Generic(topic("/b"), AppMessage::FaceCoords),
        ]
    );
}

#[test]
fn retired_module_is_skipped() {
    let mut b = broker_with(&["A", "B", "C"], true);
    b.handle(1, OutMessage::Subscribe(topic("/x")));
    b.handle(2, OutMessage::Subscribe(topic("/x")));
    b.retire(1);
    assert!(!b.module(1).is_alive());
    assert_eq!(b.module(1).subscription_count(), 0);
    let r = b.handle(0, OutMessage::Generic(topic("/x"), AppMessage::VideoFrame));
    assert_eq!(r, vec![generic(2, "/x", AppMessage::VideoFrame)]);
    let r = b.handle(1, OutMessage::Subscribe(topic("/x")));
    assert!(r.is_empty());
    assert!(!b.module(1).is_subscribed(&topic("/x")));
}

#[test]
fn shutdown_goes_to_live_modules() {
    let mut b = broker_with(&["A", "B", "C"], false);
    b.retire(0);
    assert_eq!(
        b.shutdown(),
        vec![
            Delivery { target: 1, message: InMessage::Shutdown },
            Delivery { target: 2, message: InMessage::Shutdown },
        ]
    );
}

#[test]
fn request_changes_only_requester() {
    let mut b = broker_with(&["A", "B", "C"], true);
    b.handle(2, OutMessage::Subscribe(topic("/y")));
    let r = b.handle(0, OutMessage::Subscribe(topic("/x")));
    assert_eq!(r, vec![Delivery { target: 0, message: InMessage::Subscribed(topic("/x")) }]);
    assert!(b.module(0).is_subscribed(&topic("/x")));
    assert_eq!(b.module(1).subscription_count(), 0);
    assert_eq!(b.module(2).subscription_count(), 1);
    assert!(b.module(2).is_subscribed(&topic("/y")));
}

#[test]
fn publish_leaves_subscriptions_unchanged() {
    let mut b = broker_with(&["A", "B"], false);
    b.handle(1, OutMessage::Subscribe(topic("/x")));
    b.handle(0, OutMessage::Generic(topic("/x"), AppMessage::VideoFrame));
    assert_eq!(b.module(0).subscription_count(), 0);
    assert_eq!(b.module(1).subscription_count(), 1);
    assert!(b.module(1).is_subscribed(&topic("/x")));
}
