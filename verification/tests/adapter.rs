use nats_microservice_rs::endpoint::{
    AdapterAction, AdapterEvent, AdapterState, Directive, EndpointHandler,
};

type Event = AdapterEvent<&'static str, Result<(), String>>;
type Action = AdapterAction<&'static str, Result<(), String>>;

#[test]
fn a_fresh_adapter_awaits_a_request_and_polls_the_source() {
    let adapter = EndpointHandler::new();
    assert_eq!(adapter.state(), AdapterState::AwaitingRequest);
    assert_eq!(adapter.directive(), Directive::PollSource);
}

#[test]
fn a_request_starts_a_computation_and_the_source_is_left_alone() {
    let mut adapter = EndpointHandler::new();
    assert_eq!(adapter.step(Event::SourceReady("r1")), Action::Start("r1"));
    assert_eq!(adapter.state(), AdapterState::Computing);
    assert_eq!(adapter.directive(), Directive::PollInvocation);
}

#[test]
fn a_pending_source_suspends_the_adapter() {
    let mut adapter = EndpointHandler::new();
    assert_eq!(adapter.step(Event::SourcePending), Action::Suspend);
    assert_eq!(adapter.state(), AdapterState::AwaitingRequest);
    assert_eq!(adapter.directive(), Directive::PollSource);
}

#[test]
fn a_pending_computation_suspends_the_adapter() {
    let mut adapter = EndpointHandler::new();
    adapter.step(Event::SourceReady("r1"));
    assert_eq!(adapter.step(Event::InvocationPending), Action::Suspend);
    assert_eq!(adapter.step(Event::InvocationPending), Action::Suspend);
    assert_eq!(adapter.state(), AdapterState::Computing);
    assert_eq!(adapter.directive(), Directive::PollInvocation);
}

#[test]
fn a_complete_computation_is_emitted_and_the_next_request_awaited() {
    let mut adapter = EndpointHandler::new();
    adapter.step(Event::SourceReady("r1"));
    assert_eq!(adapter.step(Event::InvocationComplete(Ok(()))), Action::Emit(Ok(())));
    assert_eq!(adapter.state(), AdapterState::AwaitingRequest);
    assert_eq!(adapter.directive(), Directive::PollSource);
}

#[test]
fn a_delivery_failure_is_emitted_like_any_outcome_and_the_adapter_goes_on() {
    let mut adapter = EndpointHandler::new();
    adapter.step(Event::SourceReady("r1"));
    let failure: Result<(), String> = Err("no responders".to_string());
    assert_eq!(adapter.step(Event::InvocationComplete(failure.clone())), Action::Emit(failure));
    assert_eq!(adapter.state(), AdapterState::AwaitingRequest);
    assert_eq!(adapter.step(Event::SourceReady("r2")), Action::Start("r2"));
    assert_eq!(adapter.step(Event::InvocationComplete(Ok(()))), Action::Emit(Ok(())));
}

#[test]
fn the_end_of_the_source_terminates_the_adapter() {
    let mut adapter = EndpointHandler::new();
    assert_eq!(adapter.step(Event::SourceExhausted), Action::Finish);
    assert_eq!(adapter.state(), AdapterState::Terminated);
    assert_eq!(adapter.directive(), Directive::Stop);
}

#[test]
fn a_terminated_adapter_only_ever_finishes() {
    let mut adapter = EndpointHandler::new();
    adapter.step(Event::SourceExhausted);
    assert_eq!(adapter.step(Event::SourceReady("late")), Action::Finish);
    assert_eq!(adapter.step(Event::SourcePending), Action::Finish);
    assert_eq!(adapter.step(Event::SourceExhausted), Action::Finish);
    assert_eq!(adapter.step(Event::InvocationPending), Action::Finish);
    assert_eq!(adapter.step(Event::InvocationComplete(Ok(()))), Action::Finish);
    assert_eq!(adapter.state(), AdapterState::Terminated);
}

#[test]
fn source_events_are_rejected_while_a_computation_is_in_flight() {
    let mut adapter = EndpointHandler::new();
    adapter.step(Event::SourceReady("r1"));
    assert_eq!(adapter.step(Event::SourceReady("r2")), Action::Rejected);
    assert_eq!(adapter.step(Event::SourcePending), Action::Rejected);
    assert_eq!(adapter.step(Event::SourceExhausted), Action::Rejected);
    assert_eq!(adapter.state(), AdapterState::Computing);
}

#[test]
fn invocation_events_are_rejected_while_nothing_is_in_flight() {
    let mut adapter = EndpointHandler::new();
    assert_eq!(adapter.step(Event::InvocationPending), Action::Rejected);
    assert_eq!(adapter.step(Event::InvocationComplete(Ok(()))), Action::Rejected);
    assert_eq!(adapter.state(), AdapterState::AwaitingRequest);
}

// A driver that follows the directives: the source holds `requests`, every
// computation needs `slowness` polls before it completes with the outcome that
// `process` gives.
fn drive(requests: Vec<u32>, slowness: usize, process: fn(u32) -> Result<(), String>) -> Vec<String> {
    let mut adapter = EndpointHandler::new();
    let mut source = requests.into_iter();
    let mut in_flight: Option<(u32, usize)> = None;
    let mut log = Vec::new();
    loop {
        let event: AdapterEvent<u32, Result<(), String>> = match adapter.directive() {
            Directive::PollSource => match source.next() {
                Some(request) => AdapterEvent::SourceReady(request),
                None => AdapterEvent::SourceExhausted,
            },
            Directive::PollInvocation => {
                let (request, polls) = in_flight.take().unwrap();
                if polls < slowness {
                    in_flight = Some((request, polls + 1));
                    AdapterEvent::InvocationPending
                } else {
                    AdapterEvent::InvocationComplete(process(request))
                }
            }
            Directive::Stop => break,
        };
        match adapter.step(event) {
            AdapterAction::Start(request) => {
                assert!(in_flight.is_none());
                in_flight = Some((request, 0));
                log.push(format!("start {}", request));
            }
            AdapterAction::Emit(outcome) => log.push(format!("emit {:?}", outcome)),
            AdapterAction::Suspend => {}
            AdapterAction::Finish => log.push("finish".to_string()),
            AdapterAction::Rejected => panic!("a conforming driver is never rejected"),
        }
    }
    log
}

fn odd_fails(request: u32) -> Result<(), String> {
    if request % 2 == 1 {
        Err(format!("delivery of {} failed", request))
    } else {
        Ok(())
    }
}

#[test]
fn n_requests_give_n_outcomes_in_arrival_order() {
    let log = drive(vec![1, 2, 3, 4], 0, odd_fails);
    assert_eq!(
        log,
        vec![
            "start 1",
            "emit Err(\"delivery of 1 failed\")",
            "start 2",
            "emit Ok(())",
            "start 3",
            "emit Err(\"delivery of 3 failed\")",
            "start 4",
            "emit Ok(())",
            "finish",
        ]
    );
}

#[test]
fn a_slow_handler_delays_the_later_requests_of_its_endpoint() {
    let log = drive(vec![10, 20], 5, odd_fails);
    assert_eq!(log, vec!["start 10", "emit Ok(())", "start 20", "emit Ok(())", "finish"]);
}

#[test]
fn source_that_ends_after_three_requests_gives_exactly_three_outcomes() {
    let log = drive(vec![7, 8, 9], 2, odd_fails);
    let outcomes = log.iter().filter(|line| line.starts_with("emit")).count();
    assert_eq!(outcomes, 3);
    assert_eq!(log.last().unwrap(), "finish");
    assert_eq!(log.len(), 7);
}

#[test]
fn an_empty_source_gives_no_outcome() {
    assert_eq!(drive(vec![], 3, odd_fails), vec!["finish"]);
}
