use embridge::dispatch::{dispatch_all, dispatch_event, CallbackFlags, Delivery};
use embridge::pump::{pump_run, pump_step, Frame, InboundEvent, ReadOutcome};
use embridge::session::WsPayload;

fn all_callbacks() -> CallbackFlags {
    CallbackFlags { has_on_close: true, has_on_error: true }
}

#[test]
fn close_frame_ends_the_run_with_one_close_event() {
    let events = pump_run(vec![
        ReadOutcome::Frame(Frame::Text("hello".to_owned())),
        ReadOutcome::Frame(Frame::Close),
        ReadOutcome::Frame(Frame::Text("after close".to_owned())),
    ]);
    assert_eq!(
        events,
        vec![InboundEvent::Text("hello".to_owned()), InboundEvent::Close],
    );
    let deliveries = dispatch_all(events, all_callbacks());
    assert_eq!(
        deliveries,
        vec![
            Delivery::Message(WsPayload::Text("hello".to_owned())),
            Delivery::Closed,
        ],
    );
    assert_eq!(deliveries.iter().filter(|d| **d == Delivery::Closed).count(), 1);
}

#[test]
fn ping_and_pong_are_filtered() {
    let events = pump_run(vec![
        ReadOutcome::Frame(Frame::Ping),
        ReadOutcome::Frame(Frame::Pong),
        ReadOutcome::Frame(Frame::Text("x".to_owned())),
    ]);
    assert_eq!(events, vec![InboundEvent::Text("x".to_owned())]);
}

#[test]
fn stream_end_terminates_silently() {
    let events = pump_run(vec![
        ReadOutcome::Frame(Frame::Text("a".to_owned())),
        ReadOutcome::Ended,
        ReadOutcome::Frame(Frame::Text("b".to_owned())),
    ]);
    assert_eq!(events, vec![InboundEvent::Text("a".to_owned())]);
}

#[test]
fn read_error_emits_error_event_and_terminates() {
    let events = pump_run(vec![
        ReadOutcome::ReadError("connection reset".to_owned()),
        ReadOutcome::Frame(Frame::Text("never read".to_owned())),
    ]);
    assert_eq!(events, vec![InboundEvent::Error("connection reset".to_owned())]);
    let deliveries = dispatch_all(events.clone(), all_callbacks());
    assert_eq!(deliveries, vec![Delivery::Errored("connection reset".to_owned())]);
    // without a registered error callback the event is silently dropped
    let silent = dispatch_all(events, CallbackFlags { has_on_close: false, has_on_error: false });
    assert_eq!(silent, vec![]);
}

#[test]
fn echoed_text_is_delivered_exactly_once_in_order() {
    let events = pump_run(vec![ReadOutcome::Frame(Frame::Text("hello".to_owned()))]);
    assert_eq!(events.len(), 1);
    let deliveries = dispatch_all(events, all_callbacks());
    assert_eq!(deliveries, vec![Delivery::Message(WsPayload::Text("hello".to_owned()))]);
}

#[test]
fn binary_frames_pass_through_to_the_message_callback() {
    let events = pump_run(vec![ReadOutcome::Frame(Frame::Binary(vec![1, 2, 3]))]);
    assert_eq!(events, vec![InboundEvent::Binary(vec![1, 2, 3])]);
    let deliveries = dispatch_all(events, all_callbacks());
    assert_eq!(deliveries, vec![Delivery::Message(WsPayload::Binary(vec![1, 2, 3]))]);
}

#[test]
fn close_without_registered_callback_is_dropped() {
    let flags = CallbackFlags { has_on_close: false, has_on_error: true };
    assert_eq!(dispatch_event(InboundEvent::Close, flags), None);
    let deliveries = dispatch_all(vec![InboundEvent::Close], flags);
    assert_eq!(deliveries, vec![]);
}

#[test]
fn single_step_decisions_match_the_frame_kind() {
    assert_eq!(
        pump_step(ReadOutcome::Frame(Frame::Text("t".to_owned()))),
        (Some(InboundEvent::Text("t".to_owned())), false),
    );
    assert_eq!(pump_step(ReadOutcome::Frame(Frame::Ping)), (None, false));
    assert_eq!(pump_step(ReadOutcome::Frame(Frame::Close)), (Some(InboundEvent::Close), true));
    assert_eq!(pump_step(ReadOutcome::Ended), (None, true));
}

#[test]
fn events_keep_per_connection_order() {
    let events = pump_run(vec![
        ReadOutcome::Frame(Frame::Text("one".to_owned())),
        ReadOutcome::Frame(Frame::Binary(vec![2])),
        ReadOutcome::Frame(Frame::Text("three".to_owned())),
    ]);
    assert_eq!(
        events,
        vec![
            InboundEvent::Text("one".to_owned()),
            InboundEvent::Binary(vec![2]),
            InboundEvent::Text("three".to_owned()),
        ],
    );
}
