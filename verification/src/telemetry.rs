//! Events for the dashboard.

use vstd::prelude::*;

verus! {

/// Something the dashboard is told.
#[derive(Debug, PartialEq, Eq)]
pub enum TelemetryEvent {
    /// A radio entered emergency.
    EmergencyAlarm { source_issi: u32, dest_ssi: u32 },
    /// A radio's emergency is over.
    EmergencyCancel { source_issi: u32 },
    /// One SDS for the SDS log. `direction` is "rx" (from a local radio), "net" (from the network)
    /// or "tx" (from the dashboard).
    SdsLog {
        direction: String,
        source_issi: u32,
        dest_issi: u32,
        is_group: bool,
        protocol_id: u8,
        text: String,
    },
    /// An SDS was handled locally.
    SdsActivity { source_issi: u32, dest_issi: u32 },
}

/// The mathematical value of [`TelemetryEvent`].
pub enum TelemetryEventView {
    EmergencyAlarm { source_issi: u32, dest_ssi: u32 },
    EmergencyCancel { source_issi: u32 },
    SdsLog {
        direction: Seq<char>,
        source_issi: u32,
        dest_issi: u32,
        is_group: bool,
        protocol_id: u8,
        text: Seq<char>,
    },
    SdsActivity { source_issi: u32, dest_issi: u32 },
}

impl View for TelemetryEvent {
    type V = TelemetryEventView;

    open spec fn view(&self) -> TelemetryEventView {
        match self {
            TelemetryEvent::EmergencyAlarm { source_issi, dest_ssi } => {
                TelemetryEventView::EmergencyAlarm {
                    source_issi: *source_issi,
                    dest_ssi: *dest_ssi,
                }
            },
            TelemetryEvent::EmergencyCancel { source_issi } => {
                TelemetryEventView::EmergencyCancel { source_issi: *source_issi }
            },
            TelemetryEvent::SdsLog {
                direction,
                source_issi,
                dest_issi,
                is_group,
                protocol_id,
                text,
            } => TelemetryEventView::SdsLog {
                direction: direction@,
                source_issi: *source_issi,
                dest_issi: *dest_issi,
                is_group: *is_group,
                protocol_id: *protocol_id,
                text: text@,
            },
            TelemetryEvent::SdsActivity { source_issi, dest_issi } => {
                TelemetryEventView::SdsActivity { source_issi: *source_issi, dest_issi: *dest_issi }
            },
        }
    }
}

/// Takes events until the host collects them.
#[derive(Debug, PartialEq, Eq)]
pub struct TelemetrySink {
    pub events: Vec<TelemetryEvent>,
}

impl View for TelemetrySink {
    type V = Seq<TelemetryEventView>;

    open spec fn view(&self) -> Seq<TelemetryEventView> {
        self.events@.map_values(|e: TelemetryEvent| e@)
    }
}

impl TelemetrySink {
    /// A sink that holds no event.
    pub fn new() -> (r: Self)
        ensures
            r@ == Seq::<TelemetryEventView>::empty(),
    {
        let r = TelemetrySink { events: Vec::new() };
        assert(r@ =~= Seq::<TelemetryEventView>::empty());
        r
    }

    /// Takes `event`, after those that are there.
    pub fn send(&mut self, event: TelemetryEvent)
        ensures
            final(self)@ == old(self)@.push(event@),
    {
        self.events.push(event);
        assert(self@ =~= old(self)@.push(event@));
    }
}

} // verus!
