use std::collections::{HashMap, HashSet};

use tetra_sds::config::{CellState, EmergencyConfig, SharedConfig, TrafficSlot, WxServiceConfig};
use tetra_sds::delivery::forward_to_brew;
use tetra_sds::entity::{PendingSds, SdsBsSubentity};
use tetra_sds::pdu::{DSdsData, DStatus, PartyTypeIdentifier, PreCodedStatus, SdsUserData, SsiType, TetraAddress};
use tetra_sds::sap::{
    ChanAllocType, CmceChanAllocReq, CmceSdsData, DownlinkPdu, Layer2Service, LcmcMleUnitdataReq, MessageQueue, Sap,
    SapMsg, SapMsgInner, TetraEntity, UlDlAssignment,
};
use tetra_sds::telemetry::TelemetrySink;
use tetra_sds::tick::BroadcastSds;

const SEC: u64 = 1_000_000_000;

fn config() -> SharedConfig {
    SharedConfig {
        state: CellState {
            registered: HashSet::new(),
            groups_with_members: HashSet::new(),
            attached_groups: HashMap::new(),
            active_call_ts: HashMap::new(),
            ee_window_open: HashMap::new(),
        },
        wx: WxServiceConfig {
            enabled: false,
            service_issi: 7000,
            periodic_enabled: false,
            periodic_issi: 0,
            periodic_is_group: false,
            periodic_icao: String::new(),
            interval_secs: 60,
        },
        emergency: EmergencyConfig { clear_timeout_secs: 60, forward_to_brew: false },
        sds_command_control: None,
        brew_active: false,
        brew_sds_enabled: false,
    }
}

fn service() -> SdsBsSubentity {
    let mut s = SdsBsSubentity::new(config());
    s.set_telemetry(TelemetrySink::new());
    s
}

fn text(reference: u8) -> SdsUserData {
    SdsUserData::Type4(48, vec![0x82, 0x04, reference, 0x01, b'h', b'i'])
}

fn unitdata(
    source: u32,
    dest: u32,
    ssi_type: SsiType,
    data: SdsUserData,
    layer2service: Layer2Service,
    chan_alloc: Option<CmceChanAllocReq>,
) -> SapMsg {
    SapMsg {
        sap: Sap::LcmcSap,
        src: TetraEntity::Cmce,
        dest: TetraEntity::Mle,
        msg: SapMsgInner::LcmcMleUnitdataReq(LcmcMleUnitdataReq {
            sdu: DownlinkPdu::DSdsData(DSdsData {
                calling_party_type_identifier: PartyTypeIdentifier::Ssi,
                calling_party_address_ssi: source,
                calling_party_extension: None,
                external_subscriber_number: false,
                dm_ms_address: false,
                user_defined_data: data,
            }),
            handle: 0,
            endpoint_id: 0,
            link_id: 0,
            pdu_prio: 0,
            layer2_qos: 0,
            stealing_repeats_flag: false,
            tx_reporter: false,
            layer2service,
            stealing_permission: chan_alloc.is_some(),
            chan_alloc,
            main_address: TetraAddress { ssi: dest, ssi_type },
        }),
    }
}

fn on_mcch(source: u32, dest: u32, data: SdsUserData) -> SapMsg {
    unitdata(source, dest, SsiType::Issi, data, Layer2Service::Acknowledged, None)
}

fn slot(timeslot: u8) -> TrafficSlot {
    TrafficSlot { carrier: 1521, timeslot, usage: 5 }
}

fn stolen(timeslots: [bool; 4]) -> Option<CmceChanAllocReq> {
    Some(CmceChanAllocReq {
        usage: Some(5),
        carrier: Some(1521),
        timeslots,
        alloc_type: ChanAllocType::Replace,
        ul_dl_assigned: UlDlAssignment::Dl,
    })
}

#[test]
fn idle_radio_gets_it_on_the_main_channel() {
    let mut s = service();
    let mut q = MessageQueue::new();
    s.send_d_sds_data(&mut q, 0, 1, 2, SsiType::Issi, text(7));
    assert_eq!(q.messages, vec![on_mcch(1, 2, text(7))]);
    assert!(s.pending_sds.is_empty());
}

#[test]
fn radio_in_its_own_call_waits() {
    let mut s = service();
    let mut q = MessageQueue::new();
    s.config.state.active_call_ts.insert(2, slot(3));
    assert!(s.issi_on_local_traffic(2));
    s.send_d_sds_data(&mut q, 42, 1, 2, SsiType::Issi, text(7));
    assert!(q.messages.is_empty());
    assert_eq!(
        s.pending_sds,
        vec![PendingSds { source_issi: 1, dest_ssi: 2, user_defined_data: text(7), queued_at: 42 }]
    );
}

#[test]
fn member_of_a_group_call_waits() {
    let mut s = service();
    let mut q = MessageQueue::new();
    s.config.state.attached_groups.insert(2, vec![500, 600]);
    assert!(!s.issi_on_local_traffic(2));
    s.config.state.active_call_ts.insert(600, slot(2));
    assert!(s.issi_on_local_traffic(2));
    s.send_d_sds_data(&mut q, 0, 1, 2, SsiType::Issi, text(7));
    assert!(q.messages.is_empty());
    assert_eq!(s.pending_sds.len(), 1);
}

#[test]
fn sleeping_radio_waits_for_its_window() {
    let mut s = service();
    let mut q = MessageQueue::new();
    s.config.state.ee_window_open.insert(2, false);
    assert!(s.ee_window_blocks(2));
    assert!(!s.ee_window_blocks(3));
    s.send_d_sds_data(&mut q, 0, 1, 2, SsiType::Issi, text(7));
    assert!(q.messages.is_empty());
    s.flush_pending_sds(&mut q, SEC);
    assert!(q.messages.is_empty());
    s.config.state.ee_window_open.insert(2, true);
    assert!(!s.ee_window_blocks(2));
    s.flush_pending_sds(&mut q, 2 * SEC);
    assert_eq!(q.messages, vec![on_mcch(1, 2, text(7))]);
    assert!(s.pending_sds.is_empty());
}

#[test]
fn group_sds_is_stolen_onto_the_group_call() {
    let mut s = service();
    let mut q = MessageQueue::new();
    s.config.state.active_call_ts.insert(500, slot(4));
    s.send_d_sds_data(&mut q, 0, 1, 500, SsiType::Gssi, text(7));
    s.send_d_sds_data(&mut q, 0, 1, 501, SsiType::Gssi, text(8));
    assert_eq!(
        q.messages,
        vec![
            unitdata(
                1,
                500,
                SsiType::Gssi,
                text(7),
                Layer2Service::Unacknowledged,
                stolen([false, false, false, true]),
            ),
            unitdata(1, 501, SsiType::Gssi, text(8), Layer2Service::Unacknowledged, None),
        ]
    );
    assert!(s.pending_sds.is_empty());
}

#[test]
fn timeslots_out_of_range_are_not_stolen_from() {
    let s = service_with_slot(0);
    let mut q = MessageQueue::new();
    s.deliver_d_sds_data_now(&mut q, 1, 2, SsiType::Issi, text(7), false);
    let s = service_with_slot(5);
    s.deliver_d_sds_data_now(&mut q, 1, 2, SsiType::Issi, text(7), false);
    let s = service_with_slot(1);
    s.deliver_d_sds_data_now(&mut q, 1, 2, SsiType::Issi, text(7), true);
    s.deliver_d_sds_data_now(&mut q, 1, 2, SsiType::Issi, text(7), false);
    assert_eq!(
        q.messages,
        vec![
            on_mcch(1, 2, text(7)),
            on_mcch(1, 2, text(7)),
            on_mcch(1, 2, text(7)),
            unitdata(
                1,
                2,
                SsiType::Issi,
                text(7),
                Layer2Service::Unacknowledged,
                stolen([true, false, false, false]),
            ),
        ]
    );
}

fn service_with_slot(timeslot: u8) -> SdsBsSubentity {
    let mut s = service();
    s.config.state.active_call_ts.insert(2, slot(timeslot));
    s
}

#[test]
fn own_call_goes_before_group_call() {
    let mut s = service();
    s.config.state.attached_groups.insert(2, vec![500, 600]);
    s.config.state.active_call_ts.insert(600, slot(2));
    assert_eq!(s.config.state.traffic_slot(2, SsiType::Issi), Some(slot(2)));
    assert_eq!(s.config.state.traffic_slot(2, SsiType::Gssi), None);
    s.config.state.active_call_ts.insert(500, slot(3));
    assert_eq!(s.config.state.traffic_slot(2, SsiType::Issi), Some(slot(3)));
    s.config.state.active_call_ts.insert(2, slot(4));
    assert_eq!(s.config.state.traffic_slot(2, SsiType::Issi), Some(slot(4)));
    assert_eq!(s.config.state.traffic_slot(9, SsiType::Issi), None);
}

#[test]
fn status_is_stolen_onto_the_call() {
    let s = service_with_slot(2);
    let mut q = MessageQueue::new();
    s.send_d_status(&mut q, 1, 2, PreCodedStatus::Other(40_000));
    s.send_d_status(&mut q, 1, 3, PreCodedStatus::Other(40_000));
    let status = |dest, layer2service, chan_alloc: Option<CmceChanAllocReq>| SapMsg {
        sap: Sap::LcmcSap,
        src: TetraEntity::Cmce,
        dest: TetraEntity::Mle,
        msg: SapMsgInner::LcmcMleUnitdataReq(LcmcMleUnitdataReq {
            sdu: DownlinkPdu::DStatus(DStatus {
                calling_party_type_identifier: PartyTypeIdentifier::Ssi,
                calling_party_address_ssi: 1,
                calling_party_extension: None,
                external_subscriber_number: false,
                dm_ms_address: false,
                pre_coded_status: PreCodedStatus::Other(40_000),
            }),
            handle: 0,
            endpoint_id: 0,
            link_id: 0,
            pdu_prio: 0,
            layer2_qos: 0,
            stealing_repeats_flag: false,
            tx_reporter: false,
            layer2service,
            stealing_permission: chan_alloc.is_some(),
            chan_alloc,
            main_address: TetraAddress { ssi: dest, ssi_type: SsiType::Issi },
        }),
    };
    assert_eq!(
        q.messages,
        vec![
            status(2, Layer2Service::Unacknowledged, stolen([false, true, false, false])),
            status(3, Layer2Service::Todo, None),
        ]
    );
}

#[test]
fn waiting_sds_is_delivered_when_the_call_ends() {
    let mut s = service_with_slot(2);
    let mut q = MessageQueue::new();
    s.send_d_sds_data(&mut q, 0, 1, 2, SsiType::Issi, text(7));
    assert_eq!(s.tick_start(&mut q, 10 * SEC, None, None, None), 1);
    assert!(q.messages.is_empty());
    s.config.state.active_call_ts.clear();
    assert_eq!(s.tick_start(&mut q, 10 * SEC, None, None, None), 0);
    assert_eq!(q.messages, vec![on_mcch(1, 2, text(7))]);
}

#[test]
fn past_the_deadline_the_sender_is_told() {
    let mut s = service_with_slot(2);
    let mut q = MessageQueue::new();
    s.send_d_sds_data(&mut q, 0, 1, 2, SsiType::Issi, text(7));
    s.flush_pending_sds(&mut q, 10 * SEC);
    assert_eq!(s.pending_sds.len(), 1);
    s.flush_pending_sds(&mut q, 10 * SEC + 1);
    assert!(s.pending_sds.is_empty());
    assert_eq!(q.messages, vec![on_mcch(2, 1, SdsUserData::Type4(32, vec![0x82, 0x10, 0x02, 7]))]);
    s.config.state.active_call_ts.clear();
    s.flush_pending_sds(&mut q, 11 * SEC);
    assert_eq!(q.messages.len(), 1);
}

#[test]
fn failure_is_reported_on_the_main_channel_to_a_sender_in_a_call() {
    let mut s = service_with_slot(2);
    let mut q = MessageQueue::new();
    s.config.state.active_call_ts.insert(1, slot(3));
    s.config.state.attached_groups.insert(4, vec![500]);
    s.config.state.active_call_ts.insert(500, slot(4));
    s.send_d_sds_data(&mut q, 0, 1, 2, SsiType::Issi, text(7));
    s.send_d_sds_data(&mut q, 0, 4, 2, SsiType::Issi, text(8));
    s.flush_pending_sds(&mut q, 11 * SEC);
    assert_eq!(
        q.messages,
        vec![
            on_mcch(2, 1, SdsUserData::Type4(32, vec![0x82, 0x10, 0x02, 7])),
            on_mcch(2, 4, SdsUserData::Type4(32, vec![0x82, 0x10, 0x02, 8])),
        ]
    );
}

#[test]
fn a_tick_runs_in_two_parts() {
    let mut s = service_with_slot(2);
    let mut q = MessageQueue::new();
    s.send_d_sds_data(&mut q, 0, 1, 2, SsiType::Issi, text(7));
    assert_eq!(s.tick_waiting(&mut q, SEC), 1);
    assert!(q.messages.is_empty());
    s.tick_broadcast(&mut q, SEC, None);
    assert!(q.messages.is_empty());
    s.tick_broadcast(&mut q, SEC, Some(BroadcastSds { source_issi: 50, dest_gssi: 501, payload: text(1) }));
    assert_eq!(
        q.messages,
        vec![unitdata(50, 501, SsiType::Gssi, text(1), Layer2Service::Unacknowledged, None)]
    );
}

#[test]
fn nothing_is_delivered_late() {
    let mut s = service_with_slot(2);
    let mut q = MessageQueue::new();
    s.send_d_sds_data(&mut q, 0, 1, 2, SsiType::Issi, text(7));
    s.config.state.active_call_ts.clear();
    s.flush_pending_sds(&mut q, 11 * SEC);
    assert!(s.pending_sds.is_empty());
    assert_eq!(q.messages, vec![on_mcch(2, 1, SdsUserData::Type4(32, vec![0x82, 0x10, 0x02, 7]))]);
}

#[test]
fn failure_without_reference_is_silent() {
    let mut s = service_with_slot(2);
    let mut q = MessageQueue::new();
    s.send_d_sds_data(&mut q, 0, 1, 2, SsiType::Issi, SdsUserData::Type1(5));
    s.send_d_sds_data(&mut q, 0, 1, 2, SsiType::Issi, SdsUserData::Type4(32, vec![0x82, 0x10, 0, 9]));
    s.flush_pending_sds(&mut q, 11 * SEC);
    assert!(s.pending_sds.is_empty());
    assert!(q.messages.is_empty());
}

#[test]
fn flush_keeps_the_order() {
    let mut s = service();
    let mut q = MessageQueue::new();
    for (dest, reference, at) in [(2, 1, 0), (3, 2, 5 * SEC), (2, 3, 5 * SEC), (3, 4, 0)] {
        s.pending_sds.push(PendingSds {
            source_issi: 1,
            dest_ssi: dest,
            user_defined_data: text(reference),
            queued_at: at,
        });
    }
    s.config.state.active_call_ts.insert(3, slot(2));
    s.flush_pending_sds(&mut q, 9 * SEC);
    assert_eq!(q.messages, vec![on_mcch(1, 2, text(1)), on_mcch(1, 2, text(3))]);
    let left: Vec<SdsUserData> = s.pending_sds.iter().map(|p| p.user_defined_data.clone()).collect();
    assert_eq!(left, vec![text(2), text(4)]);
    s.flush_pending_sds(&mut q, 12 * SEC);
    assert_eq!(q.messages[2], on_mcch(3, 1, SdsUserData::Type4(32, vec![0x82, 0x10, 0x02, 4])));
    assert_eq!(s.pending_sds.len(), 1);
}

#[test]
fn tick_sends_broadcasts_after_the_flush() {
    let mut s = service_with_slot(2);
    let mut q = MessageQueue::new();
    s.send_d_sds_data(&mut q, 0, 1, 2, SsiType::Issi, text(7));
    s.config.state.active_call_ts.clear();
    let broadcast = |dest_gssi, reference| {
        Some(BroadcastSds { source_issi: 50, dest_gssi, payload: text(reference) })
    };
    let depth = s.tick_start(&mut q, SEC, broadcast(501, 1), broadcast(502, 2), broadcast(503, 3));
    assert_eq!(depth, 0);
    let group = |dest, reference| {
        unitdata(50, dest, SsiType::Gssi, text(reference), Layer2Service::Unacknowledged, None)
    };
    assert_eq!(q.messages, vec![on_mcch(1, 2, text(7)), group(501, 1), group(502, 2), group(503, 3)]);
}

#[test]
fn network_message_carries_the_data() {
    let mut q = MessageQueue::new();
    forward_to_brew(&mut q, 1, 2, text(7));
    assert_eq!(
        q.messages,
        vec![SapMsg {
            sap: Sap::Control,
            src: TetraEntity::Cmce,
            dest: TetraEntity::Brew,
            msg: SapMsgInner::CmceSdsData(CmceSdsData {
                source_issi: 1,
                dest_issi: 2,
                user_defined_data: text(7),
            }),
        }]
    );
}
