use std::collections::{HashMap, HashSet};

use crossbeam_channel::unbounded;

use tetra_sds::channel::ControlLink;
use tetra_sds::config::{CellState, EmergencyConfig, SharedConfig, WxServiceConfig};
use tetra_sds::control::ControlCommand;
use tetra_sds::entity::SdsBsSubentity;
use tetra_sds::pdu::{DSdsData, PartyTypeIdentifier, SdsUserData, SsiType, TetraAddress, USdsData};
use tetra_sds::sap::{
    DownlinkPdu, Layer2Service, LcmcMleUnitdataInd, LcmcMleUnitdataReq, MessageQueue, Sap, SapMsg,
    SapMsgInner, TetraEntity, UplinkPdu,
};
use tetra_sds::sds_tl::MessageReferences;
use tetra_sds::telemetry::{TelemetryEvent, TelemetrySink};
use tetra_sds::wx::{
    periodic_wx_command, queue_periodic_wx, queue_wx_reply, wx_reply_command, wx_reply_text,
    PeriodicWxJob, WxJob,
};

const SEC: u64 = 1_000_000_000;

fn config() -> SharedConfig {
    SharedConfig {
        state: CellState {
            registered: HashSet::new(),
            groups_with_members: HashSet::new(),
            attached_groups: HashMap::new(),
            active_call_ts: HashMap::new(),
            ee_window_open: HashMap::new(),
        },
        wx: WxServiceConfig {
            enabled: false,
            service_issi: 7000,
            periodic_enabled: false,
            periodic_issi: 0,
            periodic_is_group: false,
            periodic_icao: String::new(),
            interval_secs: 60,
        },
        emergency: EmergencyConfig { clear_timeout_secs: 60, forward_to_brew: false },
        sds_command_control: None,
        brew_active: false,
        brew_sds_enabled: false,
    }
}

fn service() -> SdsBsSubentity {
    let mut s = SdsBsSubentity::new(config());
    s.set_telemetry(TelemetrySink::new());
    s
}

fn to_service(source: u32, data: SdsUserData) -> SapMsg {
    SapMsg {
        sap: Sap::LcmcSap,
        src: TetraEntity::Mle,
        dest: TetraEntity::Cmce,
        msg: SapMsgInner::LcmcMleUnitdataInd(LcmcMleUnitdataInd {
            received_tetra_address: TetraAddress { ssi: source, ssi_type: SsiType::Issi },
            sdu: UplinkPdu::USdsData(USdsData {
                called_party_ssi: Some(7000),
                called_party_short_number_address: None,
                called_party_extension: None,
                external_subscriber_number: false,
                dm_ms_address: false,
                user_defined_data: data,
            }),
        }),
    }
}

fn report(status: u8, reference: u8) -> SdsUserData {
    SdsUserData::Type4(32, vec![0x82, 0x10, status, reference])
}

fn request(reference: u8) -> SdsUserData {
    let mut octets = vec![0x82, 0x04, reference, 0x01];
    octets.extend_from_slice(b" METAR LOWW ");
    SdsUserData::Type4((octets.len() * 8) as u16, octets)
}

fn confirmation(dest: u32, reference: u8) -> SapMsg {
    SapMsg {
        sap: Sap::LcmcSap,
        src: TetraEntity::Cmce,
        dest: TetraEntity::Mle,
        msg: SapMsgInner::LcmcMleUnitdataReq(LcmcMleUnitdataReq {
            sdu: DownlinkPdu::DSdsData(DSdsData {
                calling_party_type_identifier: PartyTypeIdentifier::Ssi,
                calling_party_address_ssi: 7000,
                calling_party_extension: None,
                external_subscriber_number: false,
                dm_ms_address: false,
                user_defined_data: report(0, reference),
            }),
            handle: 0,
            endpoint_id: 0,
            link_id: 0,
            pdu_prio: 0,
            layer2_qos: 0,
            stealing_repeats_flag: false,
            tx_reporter: false,
            layer2service: Layer2Service::Acknowledged,
            stealing_permission: false,
            chan_alloc: None,
            main_address: TetraAddress { ssi: dest, ssi_type: SsiType::Issi },
        }),
    }
}

fn send_sds(dest_ssi: u32, dest_is_group: bool, payload: &[u8]) -> ControlCommand {
    ControlCommand::SendSds {
        handle: 0,
        source_ssi: 7000,
        dest_ssi,
        dest_is_group,
        len_bits: (payload.len() * 8) as u16,
        payload: payload.to_vec(),
    }
}

fn periodic() -> PeriodicWxJob {
    PeriodicWxJob { icao: "LOWW".to_string(), dest: 500, is_group: true, source_issi: 7000 }
}

#[test]
fn request_is_confirmed_and_becomes_a_job() {
    let mut s = service();
    let mut q = MessageQueue::new();
    let (tx, _rx) = unbounded();
    s.config.wx.enabled = true;
    s.set_wx_cmd_sender(tx);
    let job = s.route_rf_deliver(&mut q, 0, to_service(100, request(9)));
    assert_eq!(
        job,
        Some(WxJob { requester_issi: 100, service_issi: 7000, text: "METAR LOWW".to_string() })
    );
    assert_eq!(q.messages, vec![confirmation(100, 9)]);
    let events = &s.telemetry.as_ref().unwrap().events;
    assert_eq!(events.len(), 2);
    assert_eq!(events[1], TelemetryEvent::SdsActivity { source_issi: 100, dest_issi: 7000 });
}

#[test]
fn without_a_sender_there_is_no_job() {
    let mut s = service();
    let mut q = MessageQueue::new();
    s.config.wx.enabled = true;
    assert_eq!(s.route_rf_deliver(&mut q, 0, to_service(100, request(9))), None);
    assert_eq!(q.messages, vec![confirmation(100, 9)]);
    assert_eq!(s.telemetry.as_ref().unwrap().events.len(), 2);
}

#[test]
fn request_without_reference_is_not_confirmed() {
    let mut s = service();
    let mut q = MessageQueue::new();
    let (tx, _rx) = unbounded();
    s.config.wx.enabled = true;
    s.set_wx_cmd_sender(tx);
    let bare = SdsUserData::Type4(48, vec![0x01, b'W', b'X', b' ', b'G', b'Z']);
    let job = s.route_rf_deliver(&mut q, 0, to_service(100, bare));
    assert_eq!(job.map(|j| j.text), Some("WX GZ".to_string()));
    assert!(q.messages.is_empty());
}

#[test]
fn reports_to_the_service_are_absorbed() {
    let mut s = service();
    let mut q = MessageQueue::new();
    let (tx, _rx) = unbounded();
    s.config.wx.enabled = true;
    s.set_wx_cmd_sender(tx);
    assert_eq!(s.route_rf_deliver(&mut q, 0, to_service(100, report(0, 9))), None);
    assert!(q.messages.is_empty());
    assert_eq!(s.telemetry.as_ref().unwrap().events.len(), 1);
}

#[test]
fn a_disabled_service_is_an_ordinary_destination() {
    let mut s = service();
    let mut q = MessageQueue::new();
    let (tx, _rx) = unbounded();
    s.set_wx_cmd_sender(tx);
    s.config.brew_sds_enabled = true;
    assert_eq!(s.route_rf_deliver(&mut q, 0, to_service(100, request(9))), None);
    assert_eq!(q.messages.len(), 1);
    assert_eq!(q.messages[0].dest, TetraEntity::Brew);
}

#[test]
fn replies_say_what_was_found() {
    assert_eq!(wx_reply_text("LOWW", Some("10 C".to_string())), "10 C");
    assert_eq!(wx_reply_text("LOWW", Some(String::new())), "LOWW: no data");
    assert_eq!(wx_reply_text("LOWW", None), "LOWW: unavailable");
}

#[test]
fn replies_are_cut_to_size() {
    assert_eq!(wx_reply_command(7000, 100, "10 C"), send_sds(100, false, b"10 C"));
    assert_eq!(wx_reply_command(7000, 100, ""), send_sds(100, false, b"(no data)"));
    let long = "x".repeat(221);
    assert_eq!(wx_reply_command(7000, 100, &long), send_sds(100, false, &[b'x'; 220]));
    let wide = "\u{e9}".repeat(111);
    assert_eq!(wx_reply_command(7000, 100, &wide), send_sds(100, false, &wide.as_bytes()[..220]));
}

#[test]
fn replies_arrive_on_the_channel() {
    let (tx, rx) = unbounded();
    let mut link = ControlLink::new(tx);
    assert!(queue_wx_reply(&mut link, 7000, 100, "10 C").is_ok());
    assert_eq!(rx.try_recv(), Ok(send_sds(100, false, b"10 C")));
    assert!(rx.try_recv().is_err());
    drop(rx);
    assert_eq!(queue_wx_reply(&mut link, 7000, 100, "10 C").err(), Some(send_sds(100, false, b"10 C")));
}

#[test]
fn replies_are_accepted_for_sending() {
    let (tx, rx) = unbounded();
    let mut link = ControlLink::new(tx);
    let mut s = service();
    let mut q = MessageQueue::new();
    let mut refs = MessageReferences::new();
    queue_wx_reply(&mut link, 7000, 100, &"x".repeat(500)).unwrap();
    queue_wx_reply(&mut link, 7000, 100, "").unwrap();
    while let Ok(command) = rx.try_recv() {
        assert!(s.rx_sds_from_control(&mut q, &mut refs, 0, command));
    }
    assert_eq!(q.messages.len(), 2);
}

#[test]
fn periodic_reports_are_sent_when_there_is_one() {
    assert_eq!(
        periodic_wx_command(&periodic(), Some("10 C".to_string())),
        Some(send_sds(500, true, b"10 C"))
    );
    assert_eq!(periodic_wx_command(&periodic(), Some(String::new())), None);
    assert_eq!(periodic_wx_command(&periodic(), None), None);
    assert_eq!(
        periodic_wx_command(&periodic(), Some("x".repeat(300))),
        Some(send_sds(500, true, &[b'x'; 220]))
    );
    let (tx, rx) = unbounded();
    let mut link = ControlLink::new(tx);
    assert_eq!(queue_periodic_wx(&mut link, &periodic(), None), Ok(()));
    assert_eq!(queue_periodic_wx(&mut link, &periodic(), Some(String::new())), Ok(()));
    assert!(rx.try_recv().is_err());
    assert_eq!(queue_periodic_wx(&mut link, &periodic(), Some("10 C".to_string())), Ok(()));
    assert_eq!(rx.try_recv(), Ok(send_sds(500, true, b"10 C")));
    assert!(rx.try_recv().is_err());
    drop(rx);
    assert_eq!(
        queue_periodic_wx(&mut link, &periodic(), Some("10 C".to_string())).err(),
        Some(send_sds(500, true, b"10 C"))
    );
}

fn with_periodic() -> SdsBsSubentity {
    let mut s = service();
    s.config.wx.periodic_enabled = true;
    s.config.wx.periodic_issi = 500;
    s.config.wx.periodic_is_group = true;
    s.config.wx.periodic_icao = "LOWW".to_string();
    s
}

#[test]
fn periodic_reports_keep_their_distance() {
    let mut s = with_periodic();
    let (tx, _rx) = unbounded();
    s.set_wx_cmd_sender(tx);
    assert_eq!(s.tick_periodic_wx(5 * SEC), Some(periodic()));
    assert_eq!(s.tick_periodic_wx(65 * SEC - 1), None);
    assert_eq!(s.last_periodic_wx, Some(5 * SEC));
    assert_eq!(s.tick_periodic_wx(65 * SEC), Some(periodic()));
    assert_eq!(s.last_periodic_wx, Some(65 * SEC));
    s.config.wx.interval_secs = u64::MAX;
    assert_eq!(s.tick_periodic_wx(u64::MAX), None);
}

#[test]
fn periodic_reports_need_settings() {
    let (tx, _rx) = unbounded();
    let mut s = with_periodic();
    assert_eq!(s.tick_periodic_wx(0), None);
    assert_eq!(s.last_periodic_wx, Some(0));

    let mut s = with_periodic();
    s.set_wx_cmd_sender(tx);
    s.config.wx.periodic_enabled = false;
    assert_eq!(s.tick_periodic_wx(0), None);
    s.config.wx.periodic_enabled = true;
    s.config.wx.periodic_issi = 0;
    assert_eq!(s.tick_periodic_wx(0), None);
    s.config.wx.periodic_issi = 500;
    s.config.wx.periodic_icao = " \t".to_string();
    assert_eq!(s.tick_periodic_wx(0), None);
    assert_eq!(s.last_periodic_wx, None);
    s.config.wx.periodic_icao = " LOWW".to_string();
    assert_eq!(s.tick_periodic_wx(0).map(|j| j.icao), Some(" LOWW".to_string()));
}
