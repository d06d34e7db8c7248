use vstd::prelude::*;

verus! {

/// One unit of WebSocket protocol data read from the peer.
#[derive(Debug, Clone, PartialEq, Eq)]
pub enum Frame {
    Text(String),
    Binary(Vec<u8>),
    Ping,
    Pong,
    Close,
}

/// What one read on a session's inbound stream came to: a frame, a
/// read failure with its cause chain, or the end of the stream without
/// an explicit close frame.
#[derive(Debug, Clone, PartialEq, Eq)]
pub enum ReadOutcome {
    Frame(Frame),
    ReadError(String),
    Ended,
}

/// A decoded event the pump emits towards the callback dispatcher.
#[derive(Debug, Clone, PartialEq, Eq)]
pub enum InboundEvent {
    Text(String),
    Binary(Vec<u8>),
    Close,
    Error(String),
}

/// The event one read outcome emits: text and binary frames pass
/// through, a close frame emits the close event, a read failure emits
/// the error event; ping and pong frames and a silent stream end emit
/// nothing.
pub open spec fn step_event(o: ReadOutcome) -> Option<InboundEvent> {
    match o {
        ReadOutcome::Frame(Frame::Text(t)) => Some(InboundEvent::Text(t)),
        ReadOutcome::Frame(Frame::Binary(b)) => Some(InboundEvent::Binary(b)),
        ReadOutcome::Frame(Frame::Ping) => None,
        ReadOutcome::Frame(Frame::Pong) => None,
        ReadOutcome::Frame(Frame::Close) => Some(InboundEvent::Close),
        ReadOutcome::ReadError(m) => Some(InboundEvent::Error(m)),
        ReadOutcome::Ended => None,
    }
}

/// Whether the pump terminates after this outcome: on a close frame, a
/// read failure, or the end of the stream. Termination is final; a
/// terminated pump never reads on.
pub open spec fn step_terminates(o: ReadOutcome) -> bool {
    match o {
        ReadOutcome::Frame(Frame::Close) => true,
        ReadOutcome::ReadError(_) => true,
        ReadOutcome::Ended => true,
        _ => false,
    }
}

/// The events of one step as a sequence: one or none.
pub open spec fn step_events(o: ReadOutcome) -> Seq<InboundEvent> {
    match step_event(o) {
        Some(e) => seq![e],
        None => Seq::empty(),
    }
}

/// The events a whole inbound stream produces, in reading order,
/// stopping at the first terminal outcome; outcomes past it are never
/// read.
pub open spec fn pump_events(inputs: Seq<ReadOutcome>) -> Seq<InboundEvent>
    decreases inputs.len(),
{
    if inputs.len() == 0 {
        Seq::empty()
    } else if step_terminates(inputs[0]) {
        step_events(inputs[0])
    } else {
        step_events(inputs[0]) + pump_events(inputs.drop_first())
    }
}

/// One turn of the pump: the event to emit for this outcome, and
/// whether the pump terminates now.
pub fn pump_step(outcome: ReadOutcome) -> (r: (Option<InboundEvent>, bool))
    ensures
        r.0 == step_event(outcome),
        r.1 == step_terminates(outcome),
{
    match outcome {
        ReadOutcome::Frame(Frame::Text(t)) => (Some(InboundEvent::Text(t)), false),
        ReadOutcome::Frame(Frame::Binary(b)) => (Some(InboundEvent::Binary(b)), false),
        ReadOutcome::Frame(Frame::Ping) => (None, false),
        ReadOutcome::Frame(Frame::Pong) => (None, false),
        ReadOutcome::Frame(Frame::Close) => (Some(InboundEvent::Close), true),
        ReadOutcome::ReadError(m) => (Some(InboundEvent::Error(m)), true),
        ReadOutcome::Ended => (None, true),
    }
}

/// Drains a whole recorded inbound stream through the pump's decision
/// rule, collecting the emitted events in order.
pub fn pump_run(inputs: Vec<ReadOutcome>) -> (events: Vec<InboundEvent>)
    ensures
        events@ == pump_events(inputs@),
{
    let ghost orig = inputs@;
    let mut rest = inputs;
    let mut events: Vec<InboundEvent> = Vec::new();
    let mut done = false;
    while !done && rest.len() > 0
        invariant
            !done ==> pump_events(orig) =~= events@ + pump_events(rest@),
            done ==> pump_events(orig) =~= events@,
        decreases rest@.len() + (if done { 0int } else { 1int }),
    {
        let ghost before = rest@;
        let outcome = rest.remove(0);
        proof {
            assert(rest@ =~= before.drop_first());
            assert(outcome == before[0]);
        }
        let (event, terminates) = pump_step(outcome);
        match event {
            Some(e) => {
                proof {
                    assert(events@.push(e) =~= events@ + seq![e]);
                }
                events.push(e);
            },
            None => {},
        }
        if terminates {
            done = true;
            proof {
                assert(pump_events(orig) =~= events@);
            }
        }
    }
    proof {
        assert(pump_events(orig) =~= events@);
        assert(pump_events(orig) == events@);
    }
    events
}

/// A close event can only stand last among the events of one pump run:
/// after the close frame nothing further is read, so nothing further
/// is emitted.
pub proof fn lemma_close_is_final(inputs: Seq<ReadOutcome>, i: int)
    requires
        0 <= i < pump_events(inputs).len(),
        pump_events(inputs)[i] is Close,
    ensures
        i == pump_events(inputs).len() - 1,
    decreases inputs.len(),
{
    let evs = pump_events(inputs);
    if inputs.len() == 0 {
        assert(evs.len() == 0);
    } else if step_terminates(inputs[0]) {
        assert(evs.len() <= 1);
    } else {
        let head = step_events(inputs[0]);
        let tail = pump_events(inputs.drop_first());
        assert(evs == head + tail);
        if i < head.len() {
            assert(!(head[i] is Close));
        } else {
            assert(evs[i] == tail[i - head.len()]);
            lemma_close_is_final(inputs.drop_first(), i - head.len());
        }
    }
}

/// A close frame from the peer, arriving before any other terminal
/// outcome, emits the close event exactly once — as the final event of
/// the run, with no message event after it.
pub proof fn lemma_peer_close_once(inputs: Seq<ReadOutcome>, k: int)
    requires
        0 <= k < inputs.len(),
        inputs[k] == ReadOutcome::Frame(Frame::Close),
        forall|j: int| 0 <= j < k ==> !step_terminates(#[trigger] inputs[j]),
    ensures
        pump_events(inputs).len() >= 1,
        pump_events(inputs).last() is Close,
        forall|i: int| 0 <= i < pump_events(inputs).len() - 1 ==> !(#[trigger] pump_events(
            inputs,
        )[i] is Close),
    decreases k,
{
    let evs = pump_events(inputs);
    if k == 0 {
        assert(evs =~= seq![InboundEvent::Close]);
    } else {
        assert(!step_terminates(inputs[0]));
        let head = step_events(inputs[0]);
        let rest = inputs.drop_first();
        let tail = pump_events(rest);
        assert(evs == head + tail);
        assert(rest[k - 1] == inputs[k]);
        assert forall|j: int| 0 <= j < k - 1 implies !step_terminates(#[trigger] rest[j]) by {
            assert(rest[j] == inputs[j + 1]);
        }
        lemma_peer_close_once(rest, k - 1);
        assert(evs.last() == tail.last());
        assert forall|i: int| 0 <= i < evs.len() - 1 implies !(#[trigger] evs[i] is Close) by {
            if i < head.len() {
                assert(evs[i] == head[i]);
                assert(!(head[i] is Close));
            } else {
                assert(evs[i] == tail[i - head.len()]);
            }
        }
    }
}

} // verus!
