//! What the Short Data Service knows of its cell: configuration and live state.

use std::collections::HashMap;
use std::collections::HashSet;

use vstd::prelude::*;

use crate::pdu::SsiType;

verus! {

broadcast use vstd::std_specs::hash::group_hash_axioms;

/// The traffic timeslot of an active call.
#[derive(Debug, Clone, Copy, PartialEq, Eq, Structural)]
pub struct TrafficSlot {
    pub carrier: u16,
    pub timeslot: u8,
    pub usage: u8,
}

/// Live state of the cell.
pub struct CellState {
    /// ISSIs registered here.
    pub registered: HashSet<u32>,
    /// GSSIs with at least one locally affiliated member.
    pub groups_with_members: HashSet<u32>,
    /// The groups that an ISSI is attached to.
    pub attached_groups: HashMap<u32, Vec<u32>>,
    /// Traffic timeslot of every SSI, individual or group, with an active call.
    pub active_call_ts: HashMap<u32, TrafficSlot>,
    /// For every MS in energy economy, whether it is awake now on its downlink monitoring window
    /// (ETSI EN 300 392-2 cl. 16.7). An MS that is absent is always awake.
    pub ee_window_open: HashMap<u32, bool>,
}

/// The timeslot of the first of `groups` that has an active call.
pub open spec fn first_call(calls: Map<u32, TrafficSlot>, groups: Seq<u32>) -> Option<TrafficSlot>
    decreases groups.len(),
{
    if groups.len() == 0 {
        None
    } else if calls.contains_key(groups.first()) {
        Some(calls[groups.first()])
    } else {
        first_call(calls, groups.drop_first())
    }
}

impl CellState {
    /// The groups that `issi` is attached to.
    pub open spec fn groups_of(&self, issi: u32) -> Seq<u32> {
        if self.attached_groups@.contains_key(issi) {
            self.attached_groups@[issi]@
        } else {
            seq![]
        }
    }

    /// The traffic timeslot on which `ssi` is reached: that of its own call or, for an individual,
    /// that of the first group call that it is a member of.
    pub open spec fn traffic_of(&self, ssi: u32, ssi_type: SsiType) -> Option<TrafficSlot> {
        if self.active_call_ts@.contains_key(ssi) {
            Some(self.active_call_ts@[ssi])
        } else if ssi_type == SsiType::Issi {
            first_call(self.active_call_ts@, self.groups_of(ssi))
        } else {
            None
        }
    }

    /// True when `issi` is on a traffic timeslot: in a call of its own or a member of a group call.
    pub open spec fn on_traffic(&self, issi: u32) -> bool {
        ||| self.active_call_ts@.contains_key(issi)
        ||| exists|i: int|
            0 <= i < self.groups_of(issi).len() && self.active_call_ts@.contains_key(
                #[trigger] self.groups_of(issi)[i],
            )
    }

    /// True when `issi` is an energy economy MS outside its monitoring window.
    pub open spec fn asleep(&self, issi: u32) -> bool {
        self.ee_window_open@.contains_key(issi) && !self.ee_window_open@[issi]
    }

    /// True when `issi` listens to the main control channel now.
    pub open spec fn reachable(&self, issi: u32) -> bool {
        !self.on_traffic(issi) && !self.asleep(issi)
    }

    /// The traffic timeslot on which `ssi` is reached.
    pub fn traffic_slot(&self, ssi: u32, ssi_type: SsiType) -> (r: Option<TrafficSlot>)
        ensures
            r == self.traffic_of(ssi, ssi_type),
    {
        match self.active_call_ts.get(&ssi) {
            Some(slot) => return Some(*slot),
            None => {},
        }
        if ssi_type != SsiType::Issi {
            return None;
        }
        match self.attached_groups.get(&ssi) {
            None => {
                assert(self.groups_of(ssi).len() == 0);
                None
            },
            Some(groups) => {
                let mut i: usize = 0;
                assert(groups@.skip(0) =~= groups@);
                while i < groups.len()
                    invariant
                        i <= groups@.len(),
                        groups@ == self.groups_of(ssi),
                        !self.active_call_ts@.contains_key(ssi),
                        ssi_type == SsiType::Issi,
                        first_call(self.active_call_ts@, groups@) == first_call(
                            self.active_call_ts@,
                            groups@.skip(i as int),
                        ),
                    decreases groups@.len() - i,
                {
                    match self.active_call_ts.get(&groups[i]) {
                        Some(slot) => return Some(*slot),
                        None => {},
                    }
                    assert(groups@.skip(i as int).drop_first() =~= groups@.skip(i + 1));
                    i = i + 1;
                }
                None
            },
        }
    }
}

proof fn lemma_first_call(calls: Map<u32, TrafficSlot>, groups: Seq<u32>)
    ensures
        first_call(calls, groups) is Some <==> exists|i: int|
            0 <= i < groups.len() && calls.contains_key(#[trigger] groups[i]),
    decreases groups.len(),
{
    if groups.len() > 0 {
        let rest = groups.drop_first();
        lemma_first_call(calls, rest);
        assert forall|i: int| 0 <= i < rest.len() implies rest[i] == #[trigger] groups[i + 1] by {}
        if first_call(calls, groups) is Some {
            if calls.contains_key(groups[0]) {
            } else {
                let i = choose|i: int| 0 <= i < rest.len() && calls.contains_key(#[trigger] rest[i]);
                assert(calls.contains_key(groups[i + 1]));
            }
        } else {
            assert forall|i: int| 0 <= i < groups.len() implies !calls.contains_key(
                #[trigger] groups[i],
            ) by {
                if i > 0 {
                    assert(rest[i - 1] == groups[i]);
                }
            }
        }
    }
}

/// An individual is on a traffic timeslot exactly when there is a timeslot to reach it on.
pub proof fn lemma_on_traffic(state: &CellState, issi: u32)
    ensures
        state.on_traffic(issi) <==> state.traffic_of(issi, SsiType::Issi) is Some,
{
    lemma_first_call(state.active_call_ts@, state.groups_of(issi));
}

/// Settings of the built-in weather service.
#[derive(Debug, PartialEq, Eq)]
pub struct WxServiceConfig {
    /// Whether requests are answered.
    pub enabled: bool,
    /// The ISSI of the service.
    pub service_issi: u32,
    /// Whether a report is sent periodically.
    pub periodic_enabled: bool,
    /// Destination of the periodic report; 0 for none.
    pub periodic_issi: u32,
    pub periodic_is_group: bool,
    /// Station of the periodic report.
    pub periodic_icao: String,
    /// Seconds between two periodic reports.
    pub interval_secs: u64,
}

/// Settings of the emergency supervision.
#[derive(Debug, PartialEq, Eq)]
pub struct EmergencyConfig {
    /// Seconds of silence after which an emergency counts as over.
    pub clear_timeout_secs: u64,
    /// Whether an emergency status may leave over the network link.
    pub forward_to_brew: bool,
}

/// A remote command: the status that triggers it and the name of its action.
#[derive(Debug, PartialEq, Eq)]
pub struct SdsCommand {
    pub status_code: u16,
    pub action: String,
}

/// Remote control by status messages.
#[derive(Debug, PartialEq, Eq)]
pub struct SdsCommandControl {
    pub authorized_issis: Vec<u32>,
    pub commands: Vec<SdsCommand>,
}

/// Configuration and live state, as of now.
pub struct SharedConfig {
    pub state: CellState,
    pub wx: WxServiceConfig,
    pub emergency: EmergencyConfig,
    pub sds_command_control: Option<SdsCommandControl>,
    /// Whether the network link is up.
    pub brew_active: bool,
    /// Whether SDS may use the network link.
    pub brew_sds_enabled: bool,
}

} // verus!
