use vstd::prelude::*;

verus! {

/// An event that mobility management reports to the telemetry collector.
#[derive(Debug, Clone)]
pub enum TelemetryEvent {
    /// A mobile station registered.
    MsRegistration { issi: u32 },
    /// A mobile station was removed from the registry.
    MsDeregistration { issi: u32 },
    /// A mobile station attached to groups.
    MsGroupAttach { issi: u32, gssis: Vec<u32> },
    /// A mobile station detached from groups.
    MsGroupDetach { issi: u32, gssis: Vec<u32> },
}

impl TelemetryEvent {
    /// Whether this event reports that `issi` attached to exactly the group `gssi`.
    pub open spec fn is_group_attach(self, issi: u32, gssi: u32) -> bool {
        self matches TelemetryEvent::MsGroupAttach { issi: i, gssis: g } && i == issi && g@ == seq![gssi]
    }

    /// Whether this event reports that `issi` detached from exactly the groups in `gssis`,
    /// each named once.
    pub open spec fn is_group_detach(self, issi: u32, gssis: Set<u32>) -> bool {
        &&& self matches TelemetryEvent::MsGroupDetach { issi: i, gssis: g }
        &&& i == issi
        &&& g@.no_duplicates()
        &&& g@.to_set() == gssis
    }
}

/// The outbox through which telemetry events leave mobility management: events queue
/// here in the order they were sent until the collector takes them.
pub struct TelemetrySink {
    events: Vec<TelemetryEvent>,
}

impl TelemetrySink {
    /// The events sent and not yet taken, oldest first.
    pub closed spec fn pending(&self) -> Seq<TelemetryEvent> {
        self.events@
    }

    /// An outbox with no events.
    pub fn new() -> (r: TelemetrySink)
        ensures
            r.pending() == Seq::<TelemetryEvent>::empty(),
    {
        TelemetrySink { events: Vec::new() }
    }

    /// Queues `event` after the events already sent.
    pub fn send(&mut self, event: TelemetryEvent)
        ensures
            final(self).pending() == old(self).pending().push(event),
    {
        self.events.push(event);
    }

    /// Hands out the queued events, oldest first, and empties the outbox.
    pub fn take_events(&mut self) -> (r: Vec<TelemetryEvent>)
        ensures
            r@ == old(self).pending(),
            final(self).pending() == Seq::<TelemetryEvent>::empty(),
    {
        let mut taken: Vec<TelemetryEvent> = Vec::new();
        std::mem::swap(&mut taken, &mut self.events);
        taken
    }
}

/// Whether `after` is `before` with one more event, of which `p` holds, or both are
/// absent: what sending one event through an optional outbox does.
pub open spec fn sent_one(
    before: Option<Seq<TelemetryEvent>>,
    after: Option<Seq<TelemetryEvent>>,
    p: spec_fn(TelemetryEvent) -> bool,
) -> bool {
    match before {
        None => after is None,
        Some(q) => after matches Some(q2) && q2.len() == q.len() + 1 && q2.take(q.len() as int) == q
            && p(q2.last()),
    }
}

/// What sending `event` through an optional outbox leaves in it.
pub open spec fn after_send(before: Option<Seq<TelemetryEvent>>, event: TelemetryEvent) -> Option<
    Seq<TelemetryEvent>,
> {
    match before {
        Some(q) => Some(q.push(event)),
        None => None,
    }
}

/// Sending an event of which `p` holds is sending one such event.
pub proof fn lemma_sent_one(before: Option<Seq<TelemetryEvent>>, event: TelemetryEvent, p: spec_fn(TelemetryEvent) -> bool)
    requires
        p(event),
    ensures
        sent_one(before, after_send(before, event), p),
{
    if let Some(q) = before {
        assert(q.push(event).take(q.len() as int) =~= q);
    }
}

} // verus!
