use directory_filter::{BrokerClosed, FilterEventBroker};

#[test]
fn a_new_broker_is_open_and_empty() {
    let mut broker = FilterEventBroker::new();
    assert!(broker.is_receiving());
    assert!(!broker.has_pending_events());
    assert_eq!(broker.try_recv(), None);
    assert_eq!(broker.recv(), Ok(None));
}

#[test]
fn a_single_text_is_delivered() {
    let mut broker = FilterEventBroker::new();
    broker.send("abc".to_string());
    assert!(broker.has_pending_events());
    assert_eq!(broker.recv(), Ok(Some("abc".to_string())));
    assert!(!broker.has_pending_events());
}

#[test]
fn a_burst_collapses_to_its_last_text() {
    let mut broker = FilterEventBroker::new();
    assert_eq!(broker.recv(), Ok(None));
    for text in ["f", "fi", "fil", "file"] {
        broker.send(text.to_string());
    }
    assert!(broker.has_pending_events());
    assert_eq!(broker.recv(), Ok(Some("file".to_string())));
    assert!(!broker.has_pending_events());
    assert_eq!(broker.recv(), Ok(None));
}

#[test]
fn try_recv_drains_the_queue() {
    let mut broker = FilterEventBroker::new();
    broker.send("one".to_string());
    broker.send("two".to_string());
    assert_eq!(broker.try_recv(), Some("two".to_string()));
    assert_eq!(broker.try_recv(), None);
    broker.send("three".to_string());
    assert_eq!(broker.try_recv(), Some("three".to_string()));
}

#[test]
fn a_long_burst_crosses_the_segments_of_the_queue() {
    let mut broker = FilterEventBroker::new();
    for i in 0..1000 {
        broker.send(format!("text {}", i));
    }
    assert_eq!(broker.recv(), Ok(Some("text 999".to_string())));
    assert_eq!(broker.recv(), Ok(None));
}

#[test]
fn a_closed_broker_answers_closed() {
    let mut broker = FilterEventBroker::new();
    broker.close();
    assert!(!broker.is_receiving());
    assert_eq!(broker.recv(), Err(BrokerClosed));
    assert_eq!(broker.recv(), Err(BrokerClosed));
}

#[test]
fn a_closed_broker_answers_closed_even_when_texts_wait() {
    let mut broker = FilterEventBroker::new();
    broker.send("early".to_string());
    broker.close();
    assert_eq!(broker.recv(), Err(BrokerClosed));
    broker.send("late".to_string());
    assert_eq!(broker.recv(), Err(BrokerClosed));
    assert!(broker.has_pending_events());
}

#[test]
fn the_closed_answer_says_so() {
    assert_eq!(BrokerClosed.as_str(), "no longer receiving events");
}

#[test]
fn closing_twice_is_closing_once() {
    let mut broker = FilterEventBroker::new();
    broker.close();
    broker.close();
    assert!(!broker.is_receiving());
    assert_eq!(broker.recv(), Err(BrokerClosed));
}

#[test]
fn try_recv_does_not_look_at_the_closed_flag() {
    let mut broker = FilterEventBroker::new();
    broker.send("kept".to_string());
    broker.close();
    assert_eq!(broker.try_recv(), Some("kept".to_string()));
    assert!(!broker.has_pending_events());
}
