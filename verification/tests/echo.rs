use socket_activation::cancel::Cancel;
use socket_activation::echo::{
    handler, sleep_seconds, Handler, HandlerAction, HandlerEvent, HandlerProgress, SleepEnd,
};

const ELAPSED: SleepEnd = SleepEnd::Elapsed;
const TOLD: SleepEnd = SleepEnd::Cancelled(Cancel::Told);

fn variable(value: Option<&str>) -> HandlerEvent {
    HandlerEvent::Variable { value: value.map(String::from) }
}

/// Answers a request in an environment and returns the reply.
fn reply(variables: &[(&str, &str)], end: SleepEnd) -> String {
    let mut request = handler();
    loop {
        let event = match request.action() {
            HandlerAction::ReadVariable { name } => {
                variable(variables.iter().find(|v| v.0 == name).map(|v| v.1))
            }
            HandlerAction::Sleep { .. } => HandlerEvent::Slept { end },
        };
        assert!(request.accepts(&event));
        match request.advance(event) {
            HandlerProgress::Next(next) => request = next,
            HandlerProgress::Finished { reply } => return reply,
        }
    }
}

fn next(progress: HandlerProgress) -> Handler {
    match progress {
        HandlerProgress::Next(request) => request,
        HandlerProgress::Finished { reply } => panic!("{}", reply),
    }
}

#[test]
fn the_plain_greeting() {
    assert_eq!(reply(&[], ELAPSED), "\nHello World!");
}

#[test]
fn a_variable_is_shown() {
    let variables = [("ECHO_ENV", "COLOUR"), ("COLOUR", "blue")];
    assert_eq!(reply(&variables, ELAPSED), "\nCOLOUR=blue\nHello, World!");
}

#[test]
fn a_variable_that_is_not_set() {
    let variables = [("ECHO_ENV", "COLOUR")];
    assert_eq!(reply(&variables, ELAPSED), "\nCOLOUR not set\nHello, World!");
}

#[test]
fn a_sleep_that_ends() {
    let variables = [("ECHO_SLEEP", "12")];
    assert_eq!(reply(&variables, ELAPSED), "woke after 12\nHello World!");
}

#[test]
fn a_sleep_that_is_interrupted() {
    let variables = [("ECHO_SLEEP", "12")];
    assert_eq!(reply(&variables, TOLD), "Sleep was interupted\nHello World!");
}

#[test]
fn a_sleep_and_a_variable() {
    let variables = [("ECHO_SLEEP", "+007"), ("ECHO_ENV", "COLOUR"), ("COLOUR", "blue")];
    assert_eq!(reply(&variables, ELAPSED), "woke after 7\nCOLOUR=blue\nHello, World!");
    let variables = [("ECHO_SLEEP", "0"), ("ECHO_ENV", "COLOUR")];
    let expected = "Sleep was interupted\nCOLOUR not set\nHello, World!";
    assert_eq!(reply(&variables, TOLD), expected);
}

#[test]
fn the_seconds_are_handed_on() {
    let request = next(handler().advance(variable(Some("18446744073709551615"))));
    match request.action() {
        HandlerAction::Sleep { secs } => assert_eq!(secs, u64::MAX),
        HandlerAction::ReadVariable { name } => panic!("reads {}", name),
    }
}

#[test]
fn the_variables_are_read_in_order() {
    let request = handler();
    match request.action() {
        HandlerAction::ReadVariable { name } => assert_eq!(name, "ECHO_SLEEP"),
        HandlerAction::Sleep { .. } => panic!("no sleep was asked for"),
    }
    let request = next(request.advance(variable(None)));
    match request.action() {
        HandlerAction::ReadVariable { name } => assert_eq!(name, "ECHO_ENV"),
        HandlerAction::Sleep { .. } => panic!("no sleep was asked for"),
    }
    let request = next(request.advance(variable(Some("HOME"))));
    match request.action() {
        HandlerAction::ReadVariable { name } => assert_eq!(name, "HOME"),
        HandlerAction::Sleep { .. } => panic!("no sleep was asked for"),
    }
}

#[test]
fn a_sleep_has_to_be_a_number() {
    assert_eq!(sleep_seconds("30"), Some(30));
    assert_eq!(sleep_seconds("soon"), None);
    assert_eq!(sleep_seconds("18446744073709551616"), None);
    assert!(handler().accepts(&variable(Some("30"))));
    assert!(handler().accepts(&variable(None)));
    assert!(!handler().accepts(&variable(Some("soon"))));
    assert!(!handler().accepts(&variable(Some(""))));
    assert!(handler().accepts(&HandlerEvent::Slept { end: TOLD }));
    let later = next(handler().advance(variable(None)));
    assert!(later.accepts(&variable(Some("soon"))));
}

#[test]
fn an_event_that_answers_nothing_changes_nothing() {
    let request = next(handler().advance(HandlerEvent::Slept { end: TOLD }));
    match request.action() {
        HandlerAction::ReadVariable { name } => assert_eq!(name, "ECHO_SLEEP"),
        HandlerAction::Sleep { .. } => panic!("no sleep was asked for"),
    }
    let request = next(request.advance(variable(Some("5"))));
    let request = next(request.advance(variable(Some("6"))));
    match request.action() {
        HandlerAction::Sleep { secs } => assert_eq!(secs, 5),
        HandlerAction::ReadVariable { name } => panic!("reads {}", name),
    }
}

#[test]
fn whatever_ends_the_wait_interrupts_the_sleep() {
    let variables = [("ECHO_SLEEP", "12")];
    for cancel in [Cancel::Told, Cancel::Closed, Cancel::Lagged] {
        let expected = "Sleep was interupted\nHello World!";
        assert_eq!(reply(&variables, SleepEnd::Cancelled(cancel)), expected);
    }
}
