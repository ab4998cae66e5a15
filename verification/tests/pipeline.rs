use bytes::Bytes;
use nats_microservice_rs::error::{ProtocolError, BAD_REQUEST, INTERNAL_ERROR};
use nats_microservice_rs::handler::{Pipeline, PipelineAction, PipelineEvent, PipelineState};

type Event = PipelineEvent<u32, u64, String>;
type Action = PipelineAction<u32, u64, String>;

fn error(status: &str, code: usize) -> ProtocolError {
    ProtocolError { status: status.to_string(), code }
}

#[test]
fn decode_failure_has_code_400_and_the_decoders_message() {
    let e = ProtocolError::decode_failure("expected value at line 1 column 1");
    assert_eq!(e.code, 400);
    assert_eq!(e.status, "failed to deserialize request body: expected value at line 1 column 1");
}

#[test]
fn compute_failure_has_code_500_and_the_handlers_message() {
    let e = ProtocolError::compute_failure("division by zero");
    assert_eq!(e.code, 500);
    assert_eq!(e.status, "failed to compute: division by zero");
}

#[test]
fn encode_failure_has_code_500_and_the_encoders_message() {
    let e = ProtocolError::encode_failure("key must be a string");
    assert_eq!(e.code, 500);
    assert_eq!(e.status, "failed to serialize response body: key must be a string");
}

#[test]
fn failure_with_an_empty_message_keeps_the_prefix() {
    assert_eq!(ProtocolError::decode_failure("").status, "failed to deserialize request body: ");
    assert_eq!(ProtocolError::compute_failure("").status, "failed to compute: ");
    assert_eq!(ProtocolError::encode_failure("").status, "failed to serialize response body: ");
}

#[test]
fn status_codes_are_400_and_500() {
    assert_eq!(BAD_REQUEST, 400);
    assert_eq!(INTERNAL_ERROR, 500);
}

#[test]
fn a_fresh_pipeline_is_decoding() {
    assert_eq!(Pipeline::new().state(), PipelineState::Decoding);
}

#[test]
fn success_runs_through_every_stage() {
    let mut p = Pipeline::new();
    assert_eq!(p.step(Event::Decoded(Ok(7))), Action::Compute(7));
    assert_eq!(p.state(), PipelineState::Computing);
    assert_eq!(p.step(Event::Computed(Ok(49))), Action::Encode(49));
    assert_eq!(p.state(), PipelineState::Encoding);
    let body = Bytes::from(vec![b'4', b'9']);
    assert_eq!(p.step(Event::Encoded(Ok(body.clone()))), Action::Respond(Ok(body)));
    assert_eq!(p.state(), PipelineState::Responding);
    assert_eq!(p.step(Event::Delivered(Ok(()))), Action::Finish(Ok(())));
    assert_eq!(p.state(), PipelineState::Done);
}

#[test]
fn decode_failure_is_answered_with_400_and_skips_the_computation() {
    let mut p = Pipeline::new();
    let action = p.step(Event::Decoded(Err("bad input".to_string())));
    assert_eq!(
        action,
        Action::Respond(Err(error("failed to deserialize request body: bad input", 400)))
    );
    assert_eq!(p.state(), PipelineState::Responding);
    // Nothing that is reported afterwards makes the pipeline ask for a computation.
    assert_eq!(p.step(Event::Computed(Ok(1))), Action::Rejected);
    assert_eq!(p.step(Event::Decoded(Ok(1))), Action::Rejected);
    assert_eq!(p.step(Event::Delivered(Ok(()))), Action::Finish(Ok(())));
}

#[test]
fn compute_failure_is_answered_with_500() {
    let mut p = Pipeline::new();
    assert_eq!(p.step(Event::Decoded(Ok(3))), Action::Compute(3));
    let action = p.step(Event::Computed(Err("upstream unavailable".to_string())));
    assert_eq!(action, Action::Respond(Err(error("failed to compute: upstream unavailable", 500))));
    assert_eq!(p.state(), PipelineState::Responding);
    assert_eq!(p.step(Event::Encoded(Ok(Bytes::new()))), Action::Rejected);
}

#[test]
fn encode_failure_is_answered_with_500() {
    let mut p = Pipeline::new();
    assert_eq!(p.step(Event::Decoded(Ok(3))), Action::Compute(3));
    assert_eq!(p.step(Event::Computed(Ok(9))), Action::Encode(9));
    let action = p.step(Event::Encoded(Err("not representable".to_string())));
    assert_eq!(
        action,
        Action::Respond(Err(error("failed to serialize response body: not representable", 500)))
    );
    assert_eq!(p.state(), PipelineState::Responding);
}

#[test]
fn delivery_failure_is_the_pipelines_outcome() {
    let mut p = Pipeline::new();
    p.step(Event::Decoded(Ok(3)));
    p.step(Event::Computed(Ok(9)));
    p.step(Event::Encoded(Ok(Bytes::from(vec![b'9']))));
    let action = p.step(Event::Delivered(Err("requester is gone".to_string())));
    assert_eq!(action, Action::Finish(Err("requester is gone".to_string())));
    assert_eq!(p.state(), PipelineState::Done);
}

#[test]
fn delivery_failure_after_a_decode_failure_is_reported_too() {
    let mut p = Pipeline::new();
    p.step(Event::Decoded(Err("bad".to_string())));
    let action = p.step(Event::Delivered(Err("no responders".to_string())));
    assert_eq!(action, Action::Finish(Err("no responders".to_string())));
}

#[test]
fn events_out_of_turn_are_rejected_and_change_nothing() {
    let mut p = Pipeline::new();
    assert_eq!(p.step(Event::Computed(Ok(1))), Action::Rejected);
    assert_eq!(p.step(Event::Encoded(Ok(Bytes::new()))), Action::Rejected);
    assert_eq!(p.step(Event::Delivered(Ok(()))), Action::Rejected);
    assert_eq!(p.state(), PipelineState::Decoding);
    assert_eq!(p.step(Event::Decoded(Ok(1))), Action::Compute(1));
    assert_eq!(p.step(Event::Decoded(Ok(2))), Action::Rejected);
    assert_eq!(p.step(Event::Delivered(Ok(()))), Action::Rejected);
    assert_eq!(p.state(), PipelineState::Computing);
}

#[test]
fn a_finished_pipeline_rejects_everything() {
    let mut p = Pipeline::new();
    p.step(Event::Decoded(Err("bad".to_string())));
    p.step(Event::Delivered(Ok(())));
    assert_eq!(p.state(), PipelineState::Done);
    assert_eq!(p.step(Event::Decoded(Ok(1))), Action::Rejected);
    assert_eq!(p.step(Event::Computed(Ok(1))), Action::Rejected);
    assert_eq!(p.step(Event::Encoded(Ok(Bytes::new()))), Action::Rejected);
    assert_eq!(p.step(Event::Delivered(Ok(()))), Action::Rejected);
    assert_eq!(p.state(), PipelineState::Done);
}

fn count_replies(events: Vec<Event>) -> usize {
    let mut p = Pipeline::new();
    let mut replies = 0;
    for event in events {
        if let Action::Respond(_) = p.step(event) {
            replies += 1;
        }
    }
    replies
}

#[test]
fn a_request_gets_exactly_one_reply() {
    let body = Bytes::from(vec![1u8, 2, 3]);
    assert_eq!(
        count_replies(vec![
            Event::Decoded(Ok(1)),
            Event::Computed(Ok(2)),
            Event::Encoded(Ok(body.clone())),
            Event::Encoded(Ok(body.clone())),
            Event::Delivered(Ok(())),
            Event::Decoded(Err("late".to_string())),
        ]),
        1
    );
    assert_eq!(
        count_replies(vec![
            Event::Decoded(Err("bad".to_string())),
            Event::Decoded(Err("bad again".to_string())),
            Event::Computed(Err("boom".to_string())),
        ]),
        1
    );
    assert_eq!(count_replies(vec![Event::Decoded(Ok(1)), Event::Computed(Ok(2))]), 0);
    assert_eq!(count_replies(vec![]), 0);
}
