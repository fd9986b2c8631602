//! The Short Data Service sub-entity: its state, and what all of its parts use.

use std::collections::HashMap;

use crossbeam_channel::Sender;
use vstd::prelude::*;

use crate::config::SharedConfig;
use crate::control::ControlCommand;
use crate::pdu::{SdsUserData, SdsUserDataView};
use crate::sds_tl::{extract_sds_text, protocol_id, protocol_identifier, sds_text};
use crate::telemetry::{TelemetryEvent, TelemetryEventView, TelemetrySink};

verus! {

/// Sending half of a channel; the library carries it and never looks inside.
///
/// Declares `crossbeam_channel::Sender`.
#[verifier::external_type_specification]
#[verifier::external_body]
#[verifier::reject_recursive_types(T)]
pub struct ExSender<T>(crossbeam_channel::Sender<T>);

/// Actions that need other parts of the system; queued here and collected by the owner.
#[derive(Debug, Clone, Copy, PartialEq, Eq, Structural)]
pub enum SdsPendingAction {
    KickAll,
}

/// An individual SDS whose delivery waits until its destination listens to the main control channel
/// again: it is in a call, or asleep outside its energy economy window.
#[derive(Debug, Clone, PartialEq, Eq)]
pub struct PendingSds {
    pub source_issi: u32,
    pub dest_ssi: u32,
    pub user_defined_data: SdsUserData,
    pub queued_at: u64,
}

/// The mathematical value of [`PendingSds`].
pub struct PendingSdsView {
    pub source_issi: u32,
    pub dest_ssi: u32,
    pub user_defined_data: SdsUserDataView,
    pub queued_at: u64,
}

impl View for PendingSds {
    type V = PendingSdsView;

    open spec fn view(&self) -> PendingSdsView {
        PendingSdsView {
            source_issi: self.source_issi,
            dest_ssi: self.dest_ssi,
            user_defined_data: self.user_defined_data@,
            queued_at: self.queued_at,
        }
    }
}

/// A radio in emergency: whom it told, and when it last said so.
#[derive(Debug, Clone, Copy, PartialEq, Eq, Structural)]
pub struct EmergencySession {
    pub dest_ssi: u32,
    pub last_seen: u64,
}

/// The Short Data Service of one cell.
pub struct SdsBsSubentity {
    /// Configuration and live state of the cell. The host keeps it current.
    pub config: SharedConfig,
    pub telemetry: Option<TelemetrySink>,
    pub pending_actions: Vec<SdsPendingAction>,
    /// Individual SDS that wait for their destination.
    pub pending_sds: Vec<PendingSds>,
    /// Where replies of the weather service go, once wired.
    pub wx_cmd_tx: Option<Sender<ControlCommand>>,
    /// When the last periodic weather report was due.
    pub last_periodic_wx: Option<u64>,
    /// Radios in emergency, by ISSI.
    pub emergency_sessions: HashMap<u32, EmergencySession>,
    /// When each remote command was last seen, by [`crate::commands::command_key`].
    pub recent_commands: HashMap<u64, u64>,
}

/// The mathematical value of [`SdsBsSubentity`].
#[verifier::ext_equal]
pub struct SdsBsView {
    pub config: SharedConfig,
    pub telemetry: Option<Seq<TelemetryEventView>>,
    pub pending_actions: Seq<SdsPendingAction>,
    pub pending_sds: Seq<PendingSdsView>,
    pub wx_cmd_tx: Option<Sender<ControlCommand>>,
    pub last_periodic_wx: Option<u64>,
    pub emergency_sessions: Map<u32, EmergencySession>,
    pub recent_commands: Map<u64, u64>,
}

/// The values of a run of waiting SDS.
pub open spec fn pending_views(pending: Seq<PendingSds>) -> Seq<PendingSdsView> {
    pending.map_values(|p: PendingSds| p@)
}

impl View for SdsBsSubentity {
    type V = SdsBsView;

    open spec fn view(&self) -> SdsBsView {
        SdsBsView {
            config: self.config,
            telemetry: match self.telemetry {
                Some(sink) => Some(sink@),
                None => None,
            },
            pending_actions: self.pending_actions@,
            pending_sds: pending_views(self.pending_sds@),
            wx_cmd_tx: self.wx_cmd_tx,
            last_periodic_wx: self.last_periodic_wx,
            emergency_sessions: self.emergency_sessions@,
            recent_commands: self.recent_commands@,
        }
    }
}

impl SdsBsView {
    /// Afterwards the sink, if there is one, also holds `event`.
    pub open spec fn emitted(self, event: TelemetryEventView) -> Self {
        SdsBsView {
            telemetry: match self.telemetry {
                Some(events) => Some(events.push(event)),
                None => None,
            },
            ..self
        }
    }

    /// Afterwards the SDS is in the SDS log.
    pub open spec fn logged(
        self,
        direction: Seq<char>,
        source_issi: u32,
        dest_issi: u32,
        is_group: bool,
        data: SdsUserDataView,
    ) -> Self {
        self.emitted(
            TelemetryEventView::SdsLog {
                direction,
                source_issi,
                dest_issi,
                is_group,
                protocol_id: protocol_id(data),
                text: sds_text(data),
            },
        )
    }

    /// Afterwards the dashboard knows of SDS activity between the two.
    pub open spec fn active(self, source_issi: u32, dest_issi: u32) -> Self {
        self.emitted(TelemetryEventView::SdsActivity { source_issi, dest_issi })
    }
}

impl SdsBsSubentity {
    /// A service with nothing pending, no telemetry sink and no sender for weather replies.
    pub fn new(config: SharedConfig) -> (r: Self)
        ensures
            r@ == (SdsBsView {
                config,
                telemetry: None,
                pending_actions: Seq::empty(),
                pending_sds: Seq::empty(),
                wx_cmd_tx: None,
                last_periodic_wx: None,
                emergency_sessions: Map::empty(),
                recent_commands: Map::empty(),
            }),
    {
        let r = SdsBsSubentity {
            config,
            telemetry: None,
            pending_actions: Vec::new(),
            pending_sds: Vec::new(),
            wx_cmd_tx: None,
            last_periodic_wx: None,
            emergency_sessions: HashMap::new(),
            recent_commands: HashMap::new(),
        };
        assert(r@.pending_sds =~= Seq::empty());
        r
    }

    /// Sends telemetry to `sink` from now on.
    pub fn set_telemetry(&mut self, sink: TelemetrySink)
        ensures
            final(self)@ == (SdsBsView { telemetry: Some(sink@), ..old(self)@ }),
    {
        self.telemetry = Some(sink);
    }

    /// Provides the sender that takes the replies of the weather service.
    pub fn set_wx_cmd_sender(&mut self, tx: Sender<ControlCommand>)
        ensures
            final(self)@ == (SdsBsView { wx_cmd_tx: Some(tx), ..old(self)@ }),
    {
        self.wx_cmd_tx = Some(tx);
    }

    /// Configuration and live state of the cell.
    pub fn shared_config(&self) -> (r: &SharedConfig)
        ensures
            *r == self@.config,
    {
        &self.config
    }

    /// Hands `event` to the sink, if there is one.
    pub fn emit(&mut self, event: TelemetryEvent)
        ensures
            final(self)@ == old(self)@.emitted(event@),
    {
        match &mut self.telemetry {
            Some(sink) => sink.send(event),
            None => {},
        }
    }

    /// Records one SDS in the SDS log.
    pub fn log_sds(
        &mut self,
        direction: &str,
        source_issi: u32,
        dest_issi: u32,
        is_group: bool,
        data: &SdsUserData,
    )
        ensures
            final(self)@ == old(self)@.logged(
                direction@,
                source_issi,
                dest_issi,
                is_group,
                data@,
            ),
    {
        let event = TelemetryEvent::SdsLog {
            direction: direction.to_owned(),
            source_issi,
            dest_issi,
            is_group,
            protocol_id: protocol_identifier(data),
            text: extract_sds_text(data),
        };
        self.emit(event);
    }
}

} // verus!
