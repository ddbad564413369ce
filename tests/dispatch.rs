use awful_book_sanitizer::retry::{
    backoff_delay_ms, is_empty_object, Action, DispatchError, Dispatcher, Event, BASE_DELAY_MS,
    MAX_RETRIES,
};

fn fail(d: &mut Dispatcher) -> Action {
    d.step(Event::RequestFailed)
}

#[test]
fn backoff_delays_double_from_base() {
    assert_eq!(BASE_DELAY_MS, 500);
    assert_eq!(MAX_RETRIES, 5);
    assert_eq!(backoff_delay_ms(1), 500);
    assert_eq!(backoff_delay_ms(2), 1000);
    assert_eq!(backoff_delay_ms(3), 2000);
    assert_eq!(backoff_delay_ms(4), 4000);
    assert_eq!(backoff_delay_ms(5), 8000);
}

#[test]
fn start_sends_request() {
    let mut d = Dispatcher::new();
    assert!(matches!(d.step(Event::Start), Action::Send));
    assert_eq!(d.failures, 0);
}

#[test]
fn six_failures_exhaust_retries() {
    let mut d = Dispatcher::new();
    assert!(matches!(d.step(Event::Start), Action::Send));
    let mut waits = Vec::new();
    for _ in 0..5 {
        match fail(&mut d) {
            Action::Wait(ms) => waits.push(ms),
            other => panic!("expected a wait, got {:?}", other),
        }
        assert!(matches!(d.step(Event::Waited), Action::Send));
    }
    assert_eq!(waits, vec![500, 1000, 2000, 4000, 8000]);
    assert!(matches!(fail(&mut d), Action::Abort(DispatchError::RetriesExhausted)));
    assert!(matches!(fail(&mut d), Action::Abort(DispatchError::RetriesExhausted)));
    assert_eq!(d.failures, 6);
}

#[test]
fn two_failures_then_success() {
    let mut d = Dispatcher::new();
    assert!(matches!(d.step(Event::Start), Action::Send));
    let mut waited: u64 = 0;
    for _ in 0..2 {
        match fail(&mut d) {
            Action::Wait(ms) => waited += ms,
            other => panic!("expected a wait, got {:?}", other),
        }
        assert!(matches!(d.step(Event::Waited), Action::Send));
    }
    assert_eq!(waited, 1500);
    let reply = "{\"sanitizedBookExcerpt\":\"Clean text\"}".to_string();
    match d.step(Event::Answered(reply.clone())) {
        Action::Decode(t) => assert_eq!(t, reply),
        other => panic!("expected a decode, got {:?}", other),
    }
    match d.step(Event::Decoded(Some("Clean text".to_string()))) {
        Action::Finish(Some(t)) => assert_eq!(t, "Clean text"),
        other => panic!("expected a finish, got {:?}", other),
    }
    assert_eq!(d.failures, 2);
}

#[test]
fn empty_object_is_no_content() {
    let mut d = Dispatcher::new();
    assert!(matches!(d.step(Event::Start), Action::Send));
    assert!(matches!(d.step(Event::Answered("{}".to_string())), Action::Finish(None)));
}

#[test]
fn empty_object_after_failures_is_no_content() {
    let mut d = Dispatcher::new();
    assert!(matches!(fail(&mut d), Action::Wait(500)));
    assert!(matches!(d.step(Event::Answered("{}".to_string())), Action::Finish(None)));
}

#[test]
fn undecodable_reply_aborts() {
    let mut d = Dispatcher::new();
    assert!(matches!(d.step(Event::Answered("not json".to_string())), Action::Decode(_)));
    assert!(matches!(d.step(Event::Decoded(None)), Action::Abort(DispatchError::MalformedResponse)));
}

#[test]
fn empty_object_recognised_with_whitespace() {
    assert!(is_empty_object("{}"));
    assert!(is_empty_object("{ }"));
    assert!(is_empty_object("{}\n"));
    assert!(is_empty_object(" \t{\r\n}  "));
    assert!(!is_empty_object(""));
    assert!(!is_empty_object("{"));
    assert!(!is_empty_object("{}}"));
    assert!(!is_empty_object("{\"a\":1}"));
    assert!(!is_empty_object("[]"));
}

#[test]
fn spaced_empty_object_is_no_content() {
    let mut d = Dispatcher::new();
    assert!(matches!(d.step(Event::Answered("{ }\n".to_string())), Action::Finish(None)));
}

#[test]
fn error_messages() {
    assert_eq!(DispatchError::RetriesExhausted.message(), "All retries failed");
    assert_eq!(DispatchError::MalformedResponse.message(), "Malformed response");
}
