use std::collections::{HashMap, HashSet};

use tetra_sds::config::{CellState, EmergencyConfig, SharedConfig, WxServiceConfig};
use tetra_sds::entity::{EmergencySession, SdsBsSubentity};
use tetra_sds::pdu::{
    DStatus, PartyTypeIdentifier, PreCodedStatus, SdsUserData, ShortReport, ShortReportType, SsiType, TetraAddress, UStatus,
};
use tetra_sds::sap::{
    CmceSdsData, DownlinkPdu, Layer2Service, LcmcMleUnitdataInd, LcmcMleUnitdataReq, MessageQueue, Sap,
    SapMsg, SapMsgInner, TetraEntity, UplinkPdu,
};
use tetra_sds::telemetry::{TelemetryEvent, TelemetrySink};

const SEC: u64 = 1_000_000_000;

fn service() -> SdsBsSubentity {
    let config = SharedConfig {
        state: CellState {
            registered: HashSet::new(),
            groups_with_members: HashSet::new(),
            attached_groups: HashMap::new(),
            active_call_ts: HashMap::new(),
            ee_window_open: HashMap::new(),
        },
        wx: WxServiceConfig {
            enabled: false,
            service_issi: 7000,
            periodic_enabled: false,
            periodic_issi: 0,
            periodic_is_group: false,
            periodic_icao: String::new(),
            interval_secs: 60,
        },
        emergency: EmergencyConfig { clear_timeout_secs: 60, forward_to_brew: false },
        sds_command_control: None,
        brew_active: false,
        brew_sds_enabled: false,
    };
    let mut s = SdsBsSubentity::new(config);
    s.set_telemetry(TelemetrySink::new());
    s
}

fn status(source: u32, dest: u64, status: PreCodedStatus) -> SapMsg {
    SapMsg {
        sap: Sap::LcmcSap,
        src: TetraEntity::Mle,
        dest: TetraEntity::Cmce,
        msg: SapMsgInner::LcmcMleUnitdataInd(LcmcMleUnitdataInd {
            received_tetra_address: TetraAddress { ssi: source, ssi_type: SsiType::Issi },
            sdu: UplinkPdu::UStatus(UStatus {
                called_party_ssi: Some(dest),
                called_party_short_number_address: None,
                called_party_extension: None,
                external_subscriber_number: false,
                dm_ms_address: false,
                pre_coded_status: status,
            }),
        }),
    }
}

fn short_report() -> PreCodedStatus {
    PreCodedStatus::SdsTl(ShortReport {
        raw: 0x7C05,
        short_report_type: ShortReportType::MessageReceived,
        message_reference: 5,
    })
}

fn events(s: &SdsBsSubentity) -> &Vec<TelemetryEvent> {
    &s.telemetry.as_ref().unwrap().events
}

fn alarm(source_issi: u32, dest_ssi: u32) -> TelemetryEvent {
    TelemetryEvent::EmergencyAlarm { source_issi, dest_ssi }
}

fn cancel(source_issi: u32) -> TelemetryEvent {
    TelemetryEvent::EmergencyCancel { source_issi }
}

#[test]
fn alarm_is_raised_once_and_session_refreshed() {
    let mut s = service();
    let mut q = MessageQueue::new();
    s.route_status_deliver(&mut q, SEC, status(100, 200, PreCodedStatus::Emergency));
    s.route_status_deliver(&mut q, 5 * SEC, status(100, 201, PreCodedStatus::Emergency));
    assert_eq!(*events(&s), vec![alarm(100, 200)]);
    assert_eq!(
        s.emergency_sessions.get(&100),
        Some(&EmergencySession { dest_ssi: 201, last_seen: 5 * SEC })
    );
    assert!(q.messages.is_empty());
}

#[test]
fn normal_status_cancels_once() {
    let mut s = service();
    let mut q = MessageQueue::new();
    s.emergency_enter(0, 100, 200);
    s.emergency_enter(0, 101, 200);
    s.route_status_deliver(&mut q, SEC, status(100, 200, PreCodedStatus::Other(40_000)));
    s.route_status_deliver(&mut q, SEC, status(100, 200, PreCodedStatus::Other(40_000)));
    assert_eq!(*events(&s), vec![alarm(100, 200), alarm(101, 200), cancel(100)]);
    assert!(s.emergency_sessions.contains_key(&101));
    assert!(!s.emergency_sessions.contains_key(&100));
}

#[test]
fn short_report_does_not_cancel() {
    let mut s = service();
    let mut q = MessageQueue::new();
    s.emergency_enter(0, 100, 200);
    s.route_status_deliver(&mut q, SEC, status(100, 200, short_report()));
    assert_eq!(*events(&s), vec![alarm(100, 200)]);
    assert!(s.emergency_sessions.contains_key(&100));
}

#[test]
fn command_channel_does_not_touch_emergency() {
    let mut s = service();
    let mut q = MessageQueue::new();
    s.emergency_enter(0, 100, 200);
    s.route_status_deliver(&mut q, SEC, status(100, 9999, PreCodedStatus::Other(40_000)));
    s.route_status_deliver(&mut q, SEC, status(101, 9999, PreCodedStatus::Emergency));
    assert_eq!(*events(&s), vec![alarm(100, 200)]);
    assert_eq!(s.emergency_sessions.len(), 1);
}

#[test]
fn operator_clears_one_or_all() {
    let mut s = service();
    s.emergency_enter(0, 100, 200);
    s.emergency_enter(0, 101, 200);
    s.emergency_enter(0, 102, 200);
    s.clear_emergency_command(101);
    s.clear_emergency_command(555);
    assert_eq!(events(&s)[3..], [cancel(101)]);
    s.clear_emergency_command(0);
    assert!(s.emergency_sessions.is_empty());
    assert_eq!(events(&s).len(), 6);
    assert!(events(&s)[4..].contains(&cancel(100)));
    assert!(events(&s)[4..].contains(&cancel(102)));
    s.clear_emergency_command(0);
    assert_eq!(events(&s).len(), 6);
}

#[test]
fn silence_past_the_timeout_clears() {
    let mut s = service();
    let mut q = MessageQueue::new();
    s.emergency_enter(0, 100, 200);
    s.emergency_enter(10 * SEC, 101, 200);
    s.tick_start(&mut q, 60 * SEC, None, None, None);
    assert_eq!(s.emergency_sessions.len(), 2);
    s.tick_start(&mut q, 60 * SEC + 1, None, None, None);
    assert_eq!(events(&s)[2..], [cancel(100)]);
    s.tick_start(&mut q, 70 * SEC + 1, None, None, None);
    assert_eq!(events(&s)[2..], [cancel(100), cancel(101)]);
    assert!(s.emergency_sessions.is_empty());
}

#[test]
fn a_session_from_the_future_is_not_silent() {
    let mut s = service();
    s.emergency_enter(500 * SEC, 100, 200);
    s.expire_emergency_sessions(0);
    assert!(s.emergency_sessions.contains_key(&100));
}

#[test]
fn huge_timeout_never_expires() {
    let mut s = service();
    s.config.emergency.clear_timeout_secs = u64::MAX;
    s.emergency_enter(0, 100, 200);
    s.expire_emergency_sessions(u64::MAX);
    assert!(s.emergency_sessions.contains_key(&100));
}

#[test]
fn emergency_stays_local_unless_opted_in() {
    let mut s = service();
    let mut q = MessageQueue::new();
    s.config.brew_active = true;
    s.route_status_deliver(&mut q, 0, status(100, 200, PreCodedStatus::Emergency));
    assert!(q.messages.is_empty());
    s.config.emergency.forward_to_brew = true;
    s.route_status_deliver(&mut q, 0, status(100, 200, PreCodedStatus::Emergency));
    assert_eq!(
        q.messages,
        vec![SapMsg {
            sap: Sap::Control,
            src: TetraEntity::Cmce,
            dest: TetraEntity::Brew,
            msg: SapMsgInner::CmceSdsData(CmceSdsData {
                source_issi: 100,
                dest_issi: 200,
                user_defined_data: SdsUserData::Type1(0),
            }),
        }]
    );
}

#[test]
fn emergency_to_a_local_radio_is_delivered() {
    let mut s = service();
    let mut q = MessageQueue::new();
    s.config.state.registered.insert(200);
    s.route_status_deliver(&mut q, 0, status(100, 200, PreCodedStatus::Emergency));
    assert_eq!(
        q.messages,
        vec![SapMsg {
            sap: Sap::LcmcSap,
            src: TetraEntity::Cmce,
            dest: TetraEntity::Mle,
            msg: SapMsgInner::LcmcMleUnitdataReq(LcmcMleUnitdataReq {
                sdu: DownlinkPdu::DStatus(DStatus {
                    calling_party_type_identifier: PartyTypeIdentifier::Ssi,
                    calling_party_address_ssi: 100,
                    calling_party_extension: None,
                    external_subscriber_number: false,
                    dm_ms_address: false,
                    pre_coded_status: PreCodedStatus::Emergency,
                }),
                handle: 0,
                endpoint_id: 0,
                link_id: 0,
                pdu_prio: 0,
                layer2_qos: 0,
                stealing_repeats_flag: false,
                tx_reporter: false,
                layer2service: Layer2Service::Todo,
                stealing_permission: false,
                chan_alloc: None,
                main_address: TetraAddress { ssi: 200, ssi_type: SsiType::Issi },
            }),
        }]
    );
}

#[test]
fn without_sink_sessions_work_silently() {
    let mut s = service();
    s.telemetry = None;
    s.emergency_enter(0, 100, 200);
    assert!(s.emergency_sessions.contains_key(&100));
    s.emergency_clear(100);
    assert!(s.emergency_sessions.is_empty());
    assert!(s.telemetry.is_none());
}
