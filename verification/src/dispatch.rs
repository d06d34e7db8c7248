use vstd::prelude::*;
use crate::pump::InboundEvent;
use crate::session::WsPayload;

verus! {

/// Which optional callbacks the host registered for a connection; the
/// message callback is always present.
#[derive(Debug, Clone, Copy, PartialEq, Eq, Structural)]
pub struct CallbackFlags {
    pub has_on_close: bool,
    pub has_on_error: bool,
}

/// One hand-off into the host's execution context: which callback to
/// run and with what argument. The hand-off is one-way — the network
/// side never waits for the host callback to finish.
#[derive(Debug, Clone, PartialEq, Eq)]
pub enum Delivery {
    /// Run the message callback with a text or binary payload.
    Message(WsPayload),
    /// Run the close callback.
    Closed,
    /// Run the error callback with the failure text.
    Errored(String),
}

/// What the dispatcher does with one event: messages always go to the
/// message callback; close and error events go to their callbacks only
/// when one is registered, and are silently dropped otherwise.
pub open spec fn spec_dispatch(e: InboundEvent, flags: CallbackFlags) -> Option<Delivery> {
    match e {
        InboundEvent::Text(t) => Some(Delivery::Message(WsPayload::Text(t))),
        InboundEvent::Binary(b) => Some(Delivery::Message(WsPayload::Binary(b))),
        InboundEvent::Close => if flags.has_on_close {
            Some(Delivery::Closed)
        } else {
            None
        },
        InboundEvent::Error(m) => if flags.has_on_error {
            Some(Delivery::Errored(m))
        } else {
            None
        },
    }
}

/// Routes one decoded event to the callback that should run for it, or
/// to none.
pub fn dispatch_event(e: InboundEvent, flags: CallbackFlags) -> (r: Option<Delivery>)
    ensures
        r == spec_dispatch(e, flags),
{
    match e {
        InboundEvent::Text(t) => Some(Delivery::Message(WsPayload::Text(t))),
        InboundEvent::Binary(b) => Some(Delivery::Message(WsPayload::Binary(b))),
        InboundEvent::Close => {
            if flags.has_on_close {
                Some(Delivery::Closed)
            } else {
                None
            }
        },
        InboundEvent::Error(m) => {
            if flags.has_on_error {
                Some(Delivery::Errored(m))
            } else {
                None
            }
        },
    }
}

/// The ordered hand-offs a whole event sequence produces for one
/// connection: each event's hand-off, if any, in the order the pump
/// emitted the events.
pub open spec fn spec_deliveries(events: Seq<InboundEvent>, flags: CallbackFlags) -> Seq<Delivery>
    decreases events.len(),
{
    if events.len() == 0 {
        Seq::empty()
    } else {
        (match spec_dispatch(events[0], flags) {
            Some(d) => seq![d],
            None => Seq::empty(),
        }) + spec_deliveries(events.drop_first(), flags)
    }
}

/// Routes a whole event sequence, preserving the per-connection order
/// in which the events were produced.
pub fn dispatch_all(events: Vec<InboundEvent>, flags: CallbackFlags) -> (r: Vec<Delivery>)
    ensures
        r@ == spec_deliveries(events@, flags),
{
    let ghost orig = events@;
    let mut rest = events;
    let mut out: Vec<Delivery> = Vec::new();
    while rest.len() > 0
        invariant
            spec_deliveries(orig, flags) =~= out@ + spec_deliveries(rest@, flags),
        decreases rest@.len(),
    {
        let ghost before = rest@;
        let e = rest.remove(0);
        proof {
            assert(rest@ =~= before.drop_first());
            assert(e == before[0]);
        }
        match dispatch_event(e, flags) {
            Some(d) => {
                proof {
                    assert(out@.push(d) =~= out@ + seq![d]);
                }
                out.push(d);
            },
            None => {},
        }
    }
    proof {
        assert(spec_deliveries(orig, flags) =~= out@);
    }
    out
}

/// When the close callback is registered and a run's events end with
/// its single close event, the close callback runs exactly once — as
/// the final hand-off — and no message or error callback runs after
/// it.
pub proof fn lemma_close_delivered_once(events: Seq<InboundEvent>, flags: CallbackFlags)
    requires
        flags.has_on_close,
        events.len() >= 1,
        events.last() is Close,
        forall|i: int| 0 <= i < events.len() - 1 ==> !(#[trigger] events[i] is Close),
    ensures
        spec_deliveries(events, flags).len() >= 1,
        spec_deliveries(events, flags).last() == Delivery::Closed,
        forall|i: int|
            0 <= i < spec_deliveries(events, flags).len() - 1 ==> #[trigger] spec_deliveries(
                events,
                flags,
            )[i] != Delivery::Closed,
    decreases events.len(),
{
    let ds = spec_deliveries(events, flags);
    if events.len() == 1 {
        assert(events[0] is Close);
        assert(ds =~= seq![Delivery::Closed]);
    } else {
        let head = (match spec_dispatch(events[0], flags) {
            Some(d) => seq![d],
            None => Seq::<Delivery>::empty(),
        });
        let rest = events.drop_first();
        let tail = spec_deliveries(rest, flags);
        assert(ds == head + tail);
        assert(!(events[0] is Close));
        assert(rest.last() == events.last());
        assert forall|i: int| 0 <= i < rest.len() - 1 implies !(#[trigger] rest[i] is Close) by {
            assert(rest[i] == events[i + 1]);
        }
        lemma_close_delivered_once(rest, flags);
        assert(ds.last() == tail.last());
        assert forall|i: int| 0 <= i < ds.len() - 1 implies #[trigger] ds[i] != Delivery::Closed by {
            if i < head.len() {
                assert(ds[i] == head[i]);
            } else {
                assert(ds[i] == tail[i - head.len()]);
            }
        }
    }
}

} // verus!
