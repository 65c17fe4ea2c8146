use aurelius::session::{Action, Event, Session};

fn deliver(session: &mut Session, text: &str) -> String {
    match session.step(Event::Received(text.to_string())) {
        Action::Deliver(text) => text,
        other => panic!("unexpected action: {:?}", other),
    }
}

#[test]
fn messages_go_out_in_order() {
    let mut session = Session::new();
    assert_eq!(session, Session::Upgrading);
    assert!(matches!(session.step(Event::Upgraded), Action::Receive));
    let mut client = Vec::new();
    for text in ["one", "two", "two", ""] {
        assert_eq!(session, Session::Receiving);
        client.push(deliver(&mut session, text));
        assert_eq!(session, Session::Delivering);
        assert!(matches!(session.step(Event::Delivered), Action::Receive));
    }
    assert_eq!(client, vec!["one", "two", "two", ""]);
    assert!(matches!(session.step(Event::Closed), Action::Finish));
    assert_eq!(session, Session::Finished);
}

#[test]
fn a_client_that_lags_is_let_go() {
    let mut session = Session::new();
    session.step(Event::Upgraded);
    assert!(matches!(session.step(Event::Lagged(3)), Action::Finish));
    assert_eq!(session, Session::Finished);
}

#[test]
fn failures_end_the_connection() {
    let mut session = Session::new();
    assert!(matches!(session.step(Event::UpgradeFailed), Action::Fail));
    assert_eq!(session, Session::Failed);
    let mut session = Session::new();
    session.step(Event::Upgraded);
    deliver(&mut session, "text");
    assert!(matches!(session.step(Event::DeliveryFailed), Action::Fail));
    assert_eq!(session, Session::Failed);
}
