use std::collections::{HashMap, HashSet};

use tetra_sds::config::{CellState, EmergencyConfig, SharedConfig, TrafficSlot, WxServiceConfig};
use tetra_sds::control::ControlCommand;
use tetra_sds::entity::SdsBsSubentity;
use tetra_sds::pdu::{
    DSdsData, DStatus, PartyTypeIdentifier, PreCodedStatus, SdsUserData, ShortReport, ShortReportType, SsiType, TetraAddress,
    USdsData, UStatus,
};
use tetra_sds::routing::ssi_pair_is_valid;
use tetra_sds::sap::{
    CmceSdsData, DownlinkPdu, Layer2Service, LcmcMleUnitdataInd, LcmcMleUnitdataReq, MessageQueue, Sap,
    SapMsg, SapMsgInner, TetraEntity, UplinkPdu,
};
use tetra_sds::sds_tl::MessageReferences;
use tetra_sds::telemetry::{TelemetryEvent, TelemetrySink};

fn config() -> SharedConfig {
    SharedConfig {
        state: CellState {
            registered: HashSet::new(),
            groups_with_members: HashSet::new(),
            attached_groups: HashMap::new(),
            active_call_ts: HashMap::new(),
            ee_window_open: HashMap::new(),
        },
        wx: WxServiceConfig {
            enabled: false,
            service_issi: 7000,
            periodic_enabled: false,
            periodic_issi: 0,
            periodic_is_group: false,
            periodic_icao: String::new(),
            interval_secs: 60,
        },
        emergency: EmergencyConfig { clear_timeout_secs: 60, forward_to_brew: false },
        sds_command_control: None,
        brew_active: false,
        brew_sds_enabled: false,
    }
}

fn service() -> SdsBsSubentity {
    let mut s = SdsBsSubentity::new(config());
    s.set_telemetry(TelemetrySink::new());
    s
}

fn events(s: &SdsBsSubentity) -> &Vec<TelemetryEvent> {
    &s.telemetry.as_ref().unwrap().events
}

fn text(reference: u8) -> SdsUserData {
    SdsUserData::Type4(48, vec![0x82, 0x04, reference, 0x01, b'h', b'i'])
}

fn log(direction: &str, source: u32, dest: u32, is_group: bool, body: &str) -> TelemetryEvent {
    TelemetryEvent::SdsLog {
        direction: direction.to_string(),
        source_issi: source,
        dest_issi: dest,
        is_group,
        protocol_id: 0x82,
        text: body.to_string(),
    }
}

fn activity(source_issi: u32, dest_issi: u32) -> TelemetryEvent {
    TelemetryEvent::SdsActivity { source_issi, dest_issi }
}

fn uplink(source: u32, sdu: UplinkPdu) -> SapMsg {
    SapMsg {
        sap: Sap::LcmcSap,
        src: TetraEntity::Mle,
        dest: TetraEntity::Cmce,
        msg: SapMsgInner::LcmcMleUnitdataInd(LcmcMleUnitdataInd {
            received_tetra_address: TetraAddress { ssi: source, ssi_type: SsiType::Issi },
            sdu,
        }),
    }
}

fn u_sds_data(called_party_ssi: Option<u64>, data: SdsUserData) -> USdsData {
    USdsData {
        called_party_ssi,
        called_party_short_number_address: None,
        called_party_extension: None,
        external_subscriber_number: false,
        dm_ms_address: false,
        user_defined_data: data,
    }
}

fn u_status(called_party_ssi: Option<u64>, status: PreCodedStatus) -> UStatus {
    UStatus {
        called_party_ssi,
        called_party_short_number_address: None,
        called_party_extension: None,
        external_subscriber_number: false,
        dm_ms_address: false,
        pre_coded_status: status,
    }
}

fn from_radio(source: u32, dest: u64, data: SdsUserData) -> SapMsg {
    uplink(source, UplinkPdu::USdsData(u_sds_data(Some(dest), data)))
}

fn status_from_radio(source: u32, dest: u64, status: PreCodedStatus) -> SapMsg {
    uplink(source, UplinkPdu::UStatus(u_status(Some(dest), status)))
}

fn brew(source_issi: u32, dest_issi: u32, user_defined_data: SdsUserData) -> SapMsg {
    SapMsg {
        sap: Sap::Control,
        src: TetraEntity::Cmce,
        dest: TetraEntity::Brew,
        msg: SapMsgInner::CmceSdsData(CmceSdsData { source_issi, dest_issi, user_defined_data }),
    }
}

fn down(source: u32, dest: u32, ssi_type: SsiType, data: SdsUserData) -> SapMsg {
    SapMsg {
        sap: Sap::LcmcSap,
        src: TetraEntity::Cmce,
        dest: TetraEntity::Mle,
        msg: SapMsgInner::LcmcMleUnitdataReq(LcmcMleUnitdataReq {
            sdu: DownlinkPdu::DSdsData(DSdsData {
                calling_party_type_identifier: PartyTypeIdentifier::Ssi,
                calling_party_address_ssi: source,
                calling_party_extension: None,
                external_subscriber_number: false,
                dm_ms_address: false,
                user_defined_data: data,
            }),
            handle: 0,
            endpoint_id: 0,
            link_id: 0,
            pdu_prio: 0,
            layer2_qos: 0,
            stealing_repeats_flag: false,
            tx_reporter: false,
            layer2service: match ssi_type {
                SsiType::Issi => Layer2Service::Acknowledged,
                SsiType::Gssi => Layer2Service::Unacknowledged,
            },
            stealing_permission: false,
            chan_alloc: None,
            main_address: TetraAddress { ssi: dest, ssi_type },
        }),
    }
}

fn down_status(source: u32, dest: u32, status: PreCodedStatus) -> SapMsg {
    SapMsg {
        sap: Sap::LcmcSap,
        src: TetraEntity::Cmce,
        dest: TetraEntity::Mle,
        msg: SapMsgInner::LcmcMleUnitdataReq(LcmcMleUnitdataReq {
            sdu: DownlinkPdu::DStatus(DStatus {
                calling_party_type_identifier: PartyTypeIdentifier::Ssi,
                calling_party_address_ssi: source,
                calling_party_extension: None,
                external_subscriber_number: false,
                dm_ms_address: false,
                pre_coded_status: status,
            }),
            handle: 0,
            endpoint_id: 0,
            link_id: 0,
            pdu_prio: 0,
            layer2_qos: 0,
            stealing_repeats_flag: false,
            tx_reporter: false,
            layer2service: Layer2Service::Todo,
            stealing_permission: false,
            chan_alloc: None,
            main_address: TetraAddress { ssi: dest, ssi_type: SsiType::Issi },
        }),
    }
}

fn short_report(short_report_type: ShortReportType) -> PreCodedStatus {
    PreCodedStatus::SdsTl(ShortReport { raw: 0x7C2A, short_report_type, message_reference: 0x2A })
}

fn send_sds(source_ssi: u32, dest_ssi: u32, dest_is_group: bool, payload: Vec<u8>) -> ControlCommand {
    ControlCommand::SendSds {
        handle: 1,
        source_ssi,
        dest_ssi,
        dest_is_group,
        len_bits: (payload.len() * 8) as u16,
        payload,
    }
}

fn send_raw(source_ssi: u32, dest_ssi: u32, len_bits: u16, payload: Vec<u8>) -> ControlCommand {
    ControlCommand::SendRawSdsType4 { handle: 1, source_ssi, dest_ssi, dest_is_group: false, len_bits, payload }
}

#[test]
fn a_fresh_service_holds_nothing() {
    let s = SdsBsSubentity::new(config());
    assert!(s.telemetry.is_none());
    assert!(s.pending_actions.is_empty());
    assert!(s.pending_sds.is_empty());
    assert!(s.wx_cmd_tx.is_none());
    assert_eq!(s.last_periodic_wx, None);
    assert!(s.emergency_sessions.is_empty());
    assert!(s.recent_commands.is_empty());
    assert_eq!(MessageReferences::new(), MessageReferences { control: 1, text: 1 });
    assert_eq!(s.shared_config().wx.service_issi, 7000);
}

#[test]
fn radio_to_local_radio() {
    let mut s = service();
    let mut q = MessageQueue::new();
    s.config.state.registered.insert(2);
    s.config.state.groups_with_members.insert(2);
    assert_eq!(s.route_rf_deliver(&mut q, 0, from_radio(1, 2, text(7))), None);
    assert_eq!(q.messages, vec![down(1, 2, SsiType::Issi, text(7))]);
    assert_eq!(*events(&s), vec![log("rx", 1, 2, true, "hi"), activity(1, 2)]);
}

#[test]
fn radio_to_local_group() {
    let mut s = service();
    let mut q = MessageQueue::new();
    s.config.state.groups_with_members.insert(500);
    s.config.brew_sds_enabled = true;
    assert_eq!(s.route_rf_deliver(&mut q, 0, from_radio(1, 500, text(7))), None);
    assert_eq!(q.messages, vec![down(1, 500, SsiType::Gssi, text(7))]);
    assert_eq!(*events(&s), vec![log("rx", 1, 500, true, "hi"), activity(1, 500)]);
}

#[test]
fn radio_to_the_network_or_nowhere() {
    let mut s = service();
    let mut q = MessageQueue::new();
    s.route_rf_deliver(&mut q, 0, from_radio(1, 800, text(7)));
    assert!(q.messages.is_empty());
    s.config.brew_sds_enabled = true;
    s.route_rf_deliver(&mut q, 0, from_radio(1, 800, text(8)));
    assert_eq!(q.messages, vec![brew(1, 800, text(8))]);
    assert_eq!(*events(&s), vec![log("rx", 1, 800, false, "hi"), log("rx", 1, 800, false, "hi")]);
}

#[test]
fn sds_to_the_station_is_absorbed() {
    let mut s = service();
    let mut q = MessageQueue::new();
    s.config.state.registered.insert(9999);
    s.config.brew_sds_enabled = true;
    assert_eq!(s.route_rf_deliver(&mut q, 0, from_radio(1, 9999, text(7))), None);
    assert!(q.messages.is_empty());
    assert_eq!(*events(&s), vec![log("rx", 1, 9999, false, "hi")]);
}

#[test]
fn what_is_no_sds_is_ignored() {
    let mut s = service();
    let mut q = MessageQueue::new();
    s.config.brew_sds_enabled = true;
    s.config.brew_active = true;
    s.route_rf_deliver(&mut q, 0, uplink(1, UplinkPdu::Malformed));
    s.route_rf_deliver(&mut q, 0, status_from_radio(1, 2, PreCodedStatus::Emergency));
    s.route_rf_deliver(&mut q, 0, brew(1, 2, text(7)));
    s.route_rf_deliver(&mut q, 0, uplink(1, UplinkPdu::USdsData(u_sds_data(None, text(7)))));
    s.route_status_deliver(&mut q, 0, uplink(1, UplinkPdu::Malformed));
    s.route_status_deliver(&mut q, 0, from_radio(1, 2, text(7)));
    s.route_status_deliver(&mut q, 0, uplink(1, UplinkPdu::UStatus(u_status(None, PreCodedStatus::Emergency))));
    s.rx_sds_from_brew(&mut q, 0, from_radio(1, 2, text(7)));
    assert!(q.messages.is_empty());
    assert!(events(&s).is_empty());
}

#[test]
fn destination_must_be_an_ssi() {
    let mut pdu = u_sds_data(None, text(1));
    pdu.called_party_short_number_address = Some(5);
    assert!(!SdsBsSubentity::feature_check_u_sds_data(&pdu));
    pdu.called_party_ssi = Some(2);
    pdu.called_party_extension = Some(1);
    pdu.external_subscriber_number = true;
    pdu.dm_ms_address = true;
    assert!(SdsBsSubentity::feature_check_u_sds_data(&pdu));
    let mut pdu = u_status(None, PreCodedStatus::Other(1));
    pdu.called_party_short_number_address = Some(5);
    assert!(!SdsBsSubentity::feature_check_u_status(&pdu));
    pdu.called_party_ssi = Some(2);
    assert!(SdsBsSubentity::feature_check_u_status(&pdu));
}

#[test]
fn only_the_low_half_of_the_address_counts() {
    let mut s = service();
    let mut q = MessageQueue::new();
    s.config.state.registered.insert(2);
    s.route_rf_deliver(&mut q, 0, from_radio(1, 0x7_0000_0002, text(7)));
    assert_eq!(q.messages, vec![down(1, 2, SsiType::Issi, text(7))]);
}

#[test]
fn network_to_local_radio_before_group() {
    let mut s = service();
    let mut q = MessageQueue::new();
    s.config.state.groups_with_members.insert(2);
    s.rx_sds_from_brew(&mut q, 0, brew(1, 2, text(7)));
    s.config.state.registered.insert(2);
    s.rx_sds_from_brew(&mut q, 0, brew(1, 2, text(8)));
    s.rx_sds_from_brew(&mut q, 0, brew(1, 3, text(9)));
    assert_eq!(q.messages, vec![down(1, 2, SsiType::Gssi, text(7)), down(1, 2, SsiType::Issi, text(8))]);
    assert_eq!(
        *events(&s),
        vec![
            log("net", 1, 2, true, "hi"),
            log("net", 1, 2, false, "hi"),
            log("net", 1, 3, false, "hi"),
        ]
    );
}

#[test]
fn control_text_is_framed_and_numbered() {
    let mut s = service();
    let mut q = MessageQueue::new();
    let mut refs = MessageReferences::new();
    assert!(s.rx_sds_from_control(&mut q, &mut refs, 0, send_sds(9999, 2, false, b"hi".to_vec())));
    assert!(s.rx_sds_from_control(&mut q, &mut refs, 0, send_sds(9999, 500, true, b"hi".to_vec())));
    assert_eq!(
        q.messages,
        vec![down(9999, 2, SsiType::Issi, text(1)), down(9999, 500, SsiType::Gssi, text(2))]
    );
    assert_eq!(*events(&s), vec![log("tx", 9999, 2, false, "hi"), log("tx", 9999, 500, true, "hi")]);
}

#[test]
fn successive_texts_never_share_a_reference() {
    let mut s = service();
    let mut q = MessageQueue::new();
    let mut refs = MessageReferences::new();
    for i in 0..600u32 {
        assert!(s.rx_sds_from_control(&mut q, &mut refs, 0, send_sds(9999, 2, false, b"hi".to_vec())));
        assert_eq!(q.messages[i as usize], down(9999, 2, SsiType::Issi, text((i % 255 + 1) as u8)));
    }
}

#[test]
fn a_second_service_goes_on_counting() {
    let mut first = service();
    let mut second = service();
    let mut q = MessageQueue::new();
    let mut refs = MessageReferences::new();
    assert!(first.rx_sds_from_control(&mut q, &mut refs, 0, send_sds(9999, 2, false, b"hi".to_vec())));
    assert!(second.rx_sds_from_control(&mut q, &mut refs, 0, send_sds(9999, 2, false, b"hi".to_vec())));
    assert_eq!(
        q.messages,
        vec![down(9999, 2, SsiType::Issi, text(1)), down(9999, 2, SsiType::Issi, text(2))]
    );
    assert_eq!(refs, MessageReferences { control: 3, text: 1 });
}

#[test]
fn dashboard_text_to_a_remote_radio_goes_to_the_network() {
    let mut s = service();
    let mut q = MessageQueue::new();
    let mut refs = MessageReferences::new();
    s.config.brew_sds_enabled = true;
    s.config.state.registered.insert(2);
    s.config.state.groups_with_members.insert(500);
    assert!(s.rx_sds_from_control(&mut q, &mut refs, 0, send_sds(9999, 2, false, b"hi".to_vec())));
    assert!(s.rx_sds_from_control(&mut q, &mut refs, 0, send_sds(9999, 500, true, b"hi".to_vec())));
    assert!(s.rx_sds_from_control(&mut q, &mut refs, 0, send_sds(9999, 500, false, b"hi".to_vec())));
    assert!(s.rx_sds_from_control(&mut q, &mut refs, 0, send_sds(9999, 2, true, b"hi".to_vec())));
    assert!(s.rx_sds_from_control(&mut q, &mut refs, 0, send_sds(7000, 3, false, b"hi".to_vec())));
    assert_eq!(
        q.messages,
        vec![
            down(9999, 2, SsiType::Issi, text(1)),
            down(9999, 500, SsiType::Gssi, text(2)),
            brew(9999, 500, text(3)),
            brew(9999, 2, text(4)),
            down(7000, 3, SsiType::Issi, text(5)),
        ]
    );
}

#[test]
fn control_text_is_refused() {
    let mut s = service();
    let mut q = MessageQueue::new();
    let mut refs = MessageReferences::new();
    assert!(!s.rx_sds_from_control(&mut q, &mut refs, 0, send_sds(0, 2, false, b"hi".to_vec())));
    assert!(!s.rx_sds_from_control(&mut q, &mut refs, 0, send_sds(1, 0x100_0000, false, b"hi".to_vec())));
    assert!(!s.rx_sds_from_control(&mut q, &mut refs, 0, send_raw(1, 2, 16, b"hi".to_vec())));
    assert_eq!(refs.control, 1);
    assert!(!s.rx_sds_from_control(&mut q, &mut refs, 0, send_sds(1, 2, false, vec![b'x'; 252])));
    assert_eq!(refs.control, 2);
    assert!(q.messages.is_empty());
    assert!(events(&s).is_empty());
    assert!(s.rx_sds_from_control(&mut q, &mut refs, 0, send_sds(1, 2, false, vec![b'x'; 251])));
    match &q.messages[0].msg {
        SapMsgInner::LcmcMleUnitdataReq(req) => match &req.sdu {
            DownlinkPdu::DSdsData(pdu) => match &pdu.user_defined_data {
                SdsUserData::Type4(len_bits, octets) => {
                    assert_eq!((*len_bits, octets.len(), octets[2]), (2040, 255, 2));
                }
                _ => panic!("not type 4"),
            },
            _ => panic!("not an SDS"),
        },
        _ => panic!("not a downlink message"),
    }
}

#[test]
fn raw_sds_goes_out_as_it_is() {
    let mut s = service();
    let mut q = MessageQueue::new();
    assert!(s.rx_raw_sds_type4_from_control(&mut q, 0, send_raw(1, 2, 2047, vec![0xC3, 1, 2])));
    assert_eq!(
        q.messages,
        vec![down(1, 2, SsiType::Issi, SdsUserData::Type4(2047, vec![0xC3, 1, 2]))]
    );
    assert_eq!(
        *events(&s),
        vec![TelemetryEvent::SdsLog {
            direction: "tx".to_string(),
            source_issi: 1,
            dest_issi: 2,
            is_group: false,
            protocol_id: 0xC3,
            text: String::new(),
        }]
    );
    s.config.brew_sds_enabled = true;
    assert!(s.rx_raw_sds_type4_from_control(&mut q, 0, send_raw(9999, 2, 24, vec![0xC3, 1, 2])));
    assert_eq!(q.messages[1], brew(9999, 2, SdsUserData::Type4(24, vec![0xC3, 1, 2])));
}

#[test]
fn raw_sds_is_refused() {
    let mut s = service();
    let mut q = MessageQueue::new();
    assert!(!s.rx_raw_sds_type4_from_control(&mut q, 0, send_raw(1, 2, 2048, vec![0xC3])));
    assert!(!s.rx_raw_sds_type4_from_control(&mut q, 0, send_raw(1, 0, 8, vec![0xC3])));
    assert!(!s.rx_raw_sds_type4_from_control(&mut q, 0, send_raw(0x100_0000, 1, 8, vec![0xC3])));
    assert!(!s.rx_raw_sds_type4_from_control(&mut q, 0, send_sds(1, 2, false, vec![0xC3])));
    assert!(q.messages.is_empty());
    assert!(events(&s).is_empty());
}

#[test]
fn ssi_bounds() {
    assert!(ssi_pair_is_valid(1, 0xFF_FFFF));
    assert!(!ssi_pair_is_valid(0, 1));
    assert!(!ssi_pair_is_valid(1, 0));
    assert!(!ssi_pair_is_valid(0x100_0000, 1));
    assert!(!ssi_pair_is_valid(1, 0x100_0000));
}

#[test]
fn status_to_a_local_radio_stays_a_status() {
    let mut s = service();
    let mut q = MessageQueue::new();
    s.config.brew_active = true;
    s.config.state.registered.insert(2);
    let report = short_report(ShortReportType::MessageReceived);
    assert_eq!(s.route_status_deliver(&mut q, 0, status_from_radio(1, 2, report)), None);
    s.route_status_deliver(&mut q, 0, status_from_radio(1, 2, PreCodedStatus::Other(33_000)));
    assert_eq!(
        q.messages,
        vec![down_status(1, 2, report), down_status(1, 2, PreCodedStatus::Other(33_000))]
    );
}

#[test]
fn status_to_the_network_becomes_user_data() {
    let mut s = service();
    let mut q = MessageQueue::new();
    s.route_status_deliver(&mut q, 0, status_from_radio(1, 800, PreCodedStatus::Other(33_000)));
    assert!(q.messages.is_empty());
    s.config.brew_active = true;
    s.route_status_deliver(&mut q, 0, status_from_radio(1, 800, PreCodedStatus::Other(33_000)));
    for t in [
        ShortReportType::MessageReceived,
        ShortReportType::MessageConsumed,
        ShortReportType::DestMemFull,
        ShortReportType::ProtOrEncodingNotSupported,
    ] {
        s.route_status_deliver(&mut q, 0, status_from_radio(1, 800, short_report(t)));
    }
    let report = |status| brew(1, 800, SdsUserData::Type4(32, vec![0x82, 0x10, status, 0x2A]));
    assert_eq!(
        q.messages,
        vec![
            brew(1, 800, SdsUserData::Type1(33_000)),
            report(0x00),
            report(0x00),
            report(0x02),
            report(0x01),
        ]
    );
}

#[test]
fn status_to_the_station_is_echoed() {
    let mut s = service();
    let mut q = MessageQueue::new();
    for _ in 0..2 {
        s.route_status_deliver(&mut q, 0, status_from_radio(1, 9999, PreCodedStatus::Other(33_000)));
    }
    s.route_status_deliver(&mut q, 0, status_from_radio(1, 9999, PreCodedStatus::Emergency));
    let report = short_report(ShortReportType::MessageReceived);
    s.route_status_deliver(&mut q, 0, status_from_radio(1, 9999, report));
    let echo = || down_status(9999, 1, PreCodedStatus::Other(33_000));
    assert_eq!(q.messages, vec![echo(), echo()]);
    assert!(s.emergency_sessions.is_empty());
}

#[test]
fn what_is_queued_stays_queued() {
    let mut s = service();
    let mut q = MessageQueue::new();
    let mut refs = MessageReferences::new();
    s.config.brew_sds_enabled = true;
    s.config.state.active_call_ts.insert(2, TrafficSlot { carrier: 1, timeslot: 2, usage: 3 });
    q.push_back(brew(5, 6, text(1)));
    s.route_rf_deliver(&mut q, 0, from_radio(1, 800, text(2)));
    s.rx_sds_from_brew(&mut q, 0, brew(1, 2, text(3)));
    s.rx_sds_from_control(&mut q, &mut refs, 0, send_sds(1, 2, false, b"hi".to_vec()));
    assert_eq!(q.messages, vec![brew(5, 6, text(1)), brew(1, 800, text(2))]);
    assert_eq!(s.pending_sds.len(), 1);
}
