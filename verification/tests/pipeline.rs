use voice_relay::pipeline::{Pipeline, PipelineAction, PipelineEvent, PipelineState};
use voice_relay::resample::resample_discord_to_bytes;

fn frame(seed: i16) -> Vec<i16> {
    vec![seed, 0, seed, 0, seed, 0]
}

fn streaming() -> Pipeline {
    let (pipeline, action) = Pipeline::new().step(PipelineEvent::Connected);
    assert_eq!(action, Some(PipelineAction::AwaitFrame));
    pipeline
}

#[test]
fn new_pipeline_connects_first() {
    let pipeline = Pipeline::new();
    assert_eq!(pipeline, Pipeline::Connecting);
    assert_eq!(pipeline.state(), PipelineState::Connecting);
    assert_eq!(pipeline.pending(), PipelineAction::Connect);
}

#[test]
fn connect_failure_is_fatal() {
    let (pipeline, action) = Pipeline::new().step(PipelineEvent::ConnectFailed);
    assert_eq!(pipeline, Pipeline::Closed);
    assert_eq!(action, Some(PipelineAction::Exit));
    assert_eq!(pipeline.state(), PipelineState::Closed);
}

#[test]
fn frame_is_resampled_and_sent() {
    let (pipeline, action) = streaming().step(PipelineEvent::Frame(frame(0x0102)));
    assert_eq!(action, Some(PipelineAction::Send(vec![0x02, 0x01])));
    assert_eq!(pipeline, Pipeline::Sending { frame: vec![0x02, 0x01], resend: false });
    assert_eq!(pipeline.state(), PipelineState::Streaming);
    assert_eq!(pipeline.pending(), PipelineAction::Send(vec![0x02, 0x01]));
    let (pipeline, action) = pipeline.step(PipelineEvent::Sent);
    assert_eq!(pipeline, Pipeline::Awaiting);
    assert_eq!(action, Some(PipelineAction::AwaitFrame));
}

#[test]
fn healthy_stream_sends_every_frame_once_in_order() {
    let mut pipeline = streaming();
    let mut sent: Vec<Vec<u8>> = Vec::new();
    for k in 0..25 {
        let (next, action) = pipeline.step(PipelineEvent::Frame(frame(k)));
        match action {
            Some(PipelineAction::Send(bytes)) => sent.push(bytes),
            other => panic!("unexpected action {:?}", other),
        }
        let (next, action) = next.step(PipelineEvent::Sent);
        assert_eq!(action, Some(PipelineAction::AwaitFrame));
        pipeline = next;
    }
    let expected: Vec<Vec<u8>> = (0..25).map(|k| resample_discord_to_bytes(frame(k))).collect();
    assert_eq!(sent, expected);
    assert_eq!(pipeline, Pipeline::Awaiting);
}

#[test]
fn failed_send_reconnects_and_resends_the_same_frame_once() {
    let (pipeline, _) = streaming().step(PipelineEvent::Frame(frame(5)));
    let (pipeline, action) = pipeline.step(PipelineEvent::SendFailed);
    assert_eq!(action, Some(PipelineAction::Connect));
    assert_eq!(pipeline.state(), PipelineState::Reconnecting);
    assert_eq!(pipeline, Pipeline::Reconnecting { frame: vec![5, 0] });
    let (pipeline, action) = pipeline.step(PipelineEvent::Connected);
    assert_eq!(action, Some(PipelineAction::Send(vec![5, 0])));
    assert_eq!(pipeline, Pipeline::Sending { frame: vec![5, 0], resend: true });
    let (pipeline, action) = pipeline.step(PipelineEvent::Sent);
    assert_eq!(action, Some(PipelineAction::AwaitFrame));
    let (_, action) = pipeline.step(PipelineEvent::Frame(frame(6)));
    assert_eq!(action, Some(PipelineAction::Send(vec![6, 0])));
}

#[test]
fn second_consecutive_failure_is_fatal() {
    let (pipeline, _) = streaming().step(PipelineEvent::Frame(frame(5)));
    let (pipeline, _) = pipeline.step(PipelineEvent::SendFailed);
    let (pipeline, _) = pipeline.step(PipelineEvent::Connected);
    let (pipeline, action) = pipeline.step(PipelineEvent::SendFailed);
    assert_eq!(pipeline, Pipeline::Closed);
    assert_eq!(action, Some(PipelineAction::Exit));
}

#[test]
fn failure_after_a_successful_resend_reconnects_again() {
    let (pipeline, _) = streaming().step(PipelineEvent::Frame(frame(5)));
    let (pipeline, _) = pipeline.step(PipelineEvent::SendFailed);
    let (pipeline, _) = pipeline.step(PipelineEvent::Connected);
    let (pipeline, _) = pipeline.step(PipelineEvent::Sent);
    let (pipeline, _) = pipeline.step(PipelineEvent::Frame(frame(6)));
    let (pipeline, action) = pipeline.step(PipelineEvent::SendFailed);
    assert_eq!(action, Some(PipelineAction::Connect));
    assert_eq!(pipeline, Pipeline::Reconnecting { frame: vec![6, 0] });
}

#[test]
fn failed_reconnect_is_fatal() {
    let (pipeline, _) = streaming().step(PipelineEvent::Frame(frame(5)));
    let (pipeline, _) = pipeline.step(PipelineEvent::SendFailed);
    let (pipeline, action) = pipeline.step(PipelineEvent::ConnectFailed);
    assert_eq!(pipeline, Pipeline::Closed);
    assert_eq!(action, Some(PipelineAction::Exit));
}

#[test]
fn closed_queue_finalizes_then_closes() {
    let (pipeline, action) = streaming().step(PipelineEvent::InputClosed);
    assert_eq!(pipeline, Pipeline::Finalizing);
    assert_eq!(pipeline.state(), PipelineState::Finalizing);
    assert_eq!(action, Some(PipelineAction::CloseConnection));
    let (pipeline, action) = pipeline.step(PipelineEvent::ConnectionClosed);
    assert_eq!(pipeline, Pipeline::Closed);
    assert_eq!(action, Some(PipelineAction::Exit));
    assert_eq!(pipeline.pending(), PipelineAction::Exit);
}

#[test]
fn event_that_answers_nothing_is_handed_back() {
    let cases = vec![
        (Pipeline::Connecting, PipelineEvent::Sent),
        (Pipeline::Connecting, PipelineEvent::Frame(frame(1))),
        (Pipeline::Awaiting, PipelineEvent::Connected),
        (Pipeline::Awaiting, PipelineEvent::SendFailed),
        (Pipeline::Sending { frame: vec![1, 0], resend: false }, PipelineEvent::Frame(frame(2))),
        (Pipeline::Sending { frame: vec![1, 0], resend: true }, PipelineEvent::InputClosed),
        (Pipeline::Reconnecting { frame: vec![1, 0] }, PipelineEvent::Sent),
        (Pipeline::Finalizing, PipelineEvent::Frame(frame(2))),
        (Pipeline::Closed, PipelineEvent::Connected),
        (Pipeline::Closed, PipelineEvent::ConnectionClosed),
    ];
    for (pipeline, event) in cases {
        let before = pipeline.clone();
        let (after, action) = pipeline.step(event);
        assert_eq!(after, before);
        assert_eq!(action, None);
    }
}

#[test]
fn short_frame_is_sent_as_an_empty_frame() {
    let (pipeline, action) = streaming().step(PipelineEvent::Frame(vec![1, 2, 3]));
    assert_eq!(action, Some(PipelineAction::Send(vec![])));
    assert_eq!(pipeline, Pipeline::Sending { frame: vec![], resend: false });
}
