use std::collections::{HashMap, HashSet};

use tetra_sds::commands::{
    host_reply_text, parse_action, CommandAction, HostAction, HostInfo, HostQuery, ServiceAction,
};
use tetra_sds::config::{
    CellState, EmergencyConfig, SdsCommand, SdsCommandControl, SharedConfig, TrafficSlot, WxServiceConfig,
};
use tetra_sds::entity::{SdsBsSubentity, SdsPendingAction};
use tetra_sds::pdu::{DSdsData, PartyTypeIdentifier, PreCodedStatus, SdsUserData, SsiType, TetraAddress, UStatus};
use tetra_sds::sap::{
    DownlinkPdu, Layer2Service, LcmcMleUnitdataInd, LcmcMleUnitdataReq, MessageQueue, Sap, SapMsg,
    SapMsgInner, TetraEntity, UplinkPdu,
};
use tetra_sds::sds_tl::MessageReferences;
use tetra_sds::telemetry::TelemetrySink;

const SEC: u64 = 1_000_000_000;

fn config() -> SharedConfig {
    SharedConfig {
        state: CellState {
            registered: HashSet::new(),
            groups_with_members: HashSet::new(),
            attached_groups: HashMap::new(),
            active_call_ts: HashMap::new(),
            ee_window_open: HashMap::new(),
        },
        wx: WxServiceConfig {
            enabled: false,
            service_issi: 7000,
            periodic_enabled: false,
            periodic_issi: 0,
            periodic_is_group: false,
            periodic_icao: String::new(),
            interval_secs: 60,
        },
        emergency: EmergencyConfig { clear_timeout_secs: 60, forward_to_brew: false },
        sds_command_control: None,
        brew_active: false,
        brew_sds_enabled: false,
    }
}

fn service() -> SdsBsSubentity {
    let mut s = SdsBsSubentity::new(config());
    s.set_telemetry(TelemetrySink::new());
    s
}

fn command(status_code: u16, action: &str) -> SdsCommand {
    SdsCommand { status_code, action: action.to_string() }
}

fn controlled() -> SdsBsSubentity {
    let mut s = service();
    s.config.sds_command_control = Some(SdsCommandControl {
        authorized_issis: vec![100, 101],
        commands: vec![
            command(40_001, "restart"),
            command(40_002, "shutdown"),
            command(40_003, "kick_all"),
            command(40_004, "ip"),
            command(40_005, "temp"),
            command(40_006, "info"),
            command(40_007, "dance"),
            command(40_001, "shutdown"),
            command(0, "ip"),
        ],
    });
    s
}

fn run(s: &mut SdsBsSubentity, now: u64, source: u32, code: u16) -> Option<HostAction> {
    s.handle_sds_command_status(now, source, PreCodedStatus::Other(code))
}

fn query(requester_issi: u32, query: HostQuery) -> Option<HostAction> {
    Some(HostAction::Query { requester_issi, query })
}

fn service_action(action: ServiceAction) -> Option<HostAction> {
    Some(HostAction::Service { action, delay_ms: 500 })
}

fn host() -> HostInfo {
    HostInfo {
        ip: Some("192.0.2.7".to_string()),
        temp: Some("48.5".to_string()),
        version: "1.2.3".to_string(),
    }
}

fn reply(reference: u8, text: &str) -> SapMsg {
    let mut octets = vec![0x82, 0x04, reference, 0x01];
    octets.extend_from_slice(text.as_bytes());
    SapMsg {
        sap: Sap::LcmcSap,
        src: TetraEntity::Cmce,
        dest: TetraEntity::Mle,
        msg: SapMsgInner::LcmcMleUnitdataReq(LcmcMleUnitdataReq {
            sdu: DownlinkPdu::DSdsData(DSdsData {
                calling_party_type_identifier: PartyTypeIdentifier::Ssi,
                calling_party_address_ssi: 9999,
                calling_party_extension: None,
                external_subscriber_number: false,
                dm_ms_address: false,
                user_defined_data: SdsUserData::Type4((octets.len() * 8) as u16, octets),
            }),
            handle: 0,
            endpoint_id: 0,
            link_id: 0,
            pdu_prio: 0,
            layer2_qos: 0,
            stealing_repeats_flag: false,
            tx_reporter: false,
            layer2service: Layer2Service::Acknowledged,
            stealing_permission: false,
            chan_alloc: None,
            main_address: TetraAddress { ssi: 100, ssi_type: SsiType::Issi },
        }),
    }
}

#[test]
fn actions_have_their_names() {
    let named = |name: &str| parse_action(&name.to_string());
    assert_eq!(named("restart"), CommandAction::Restart);
    assert_eq!(named("shutdown"), CommandAction::Shutdown);
    assert_eq!(named("kick_all"), CommandAction::KickAll);
    assert_eq!(named("ip"), CommandAction::Query(HostQuery::Ip));
    assert_eq!(named("temp"), CommandAction::Query(HostQuery::Temp));
    assert_eq!(named("info"), CommandAction::Query(HostQuery::Info));
    assert_eq!(named("Restart"), CommandAction::Unknown);
    assert_eq!(named(""), CommandAction::Unknown);
}

#[test]
fn each_command_does_its_action() {
    let mut s = controlled();
    assert_eq!(run(&mut s, 0, 100, 40_001), service_action(ServiceAction::Restart));
    assert_eq!(run(&mut s, 0, 100, 40_002), service_action(ServiceAction::Stop));
    assert_eq!(run(&mut s, 0, 100, 40_004), query(100, HostQuery::Ip));
    assert_eq!(run(&mut s, 0, 101, 40_005), query(101, HostQuery::Temp));
    assert_eq!(run(&mut s, 0, 100, 40_006), query(100, HostQuery::Info));
    assert!(s.pending_actions.is_empty());
    assert_eq!(run(&mut s, 0, 100, 40_003), None);
    assert_eq!(s.pending_actions, vec![SdsPendingAction::KickAll]);
    assert_eq!(run(&mut s, 0, 100, 40_007), None);
    assert_eq!(s.recent_commands.len(), 7);
    assert_eq!(s.handle_sds_command_status(0, 100, PreCodedStatus::Emergency), query(100, HostQuery::Ip));
}

#[test]
fn only_permitted_commands_run() {
    let mut s = service();
    assert_eq!(run(&mut s, 0, 100, 40_001), None);
    let mut c = controlled();
    assert_eq!(run(&mut c, 0, 102, 40_001), None);
    assert_eq!(run(&mut c, 0, 100, 50_000), None);
    assert!(c.recent_commands.is_empty());
    assert!(s.recent_commands.is_empty());
}

#[test]
fn repetitions_run_once() {
    let mut s = controlled();
    assert!(run(&mut s, 0, 100, 40_001).is_some());
    // Every repetition starts the window anew.
    for i in 1..=20u64 {
        assert_eq!(run(&mut s, i * 29 * SEC, 100, 40_001), None);
    }
    let last = 20 * 29 * SEC;
    assert_eq!(run(&mut s, last + 30 * SEC - 1, 100, 40_001), None);
    assert!(run(&mut s, last + 60 * SEC - 1, 100, 40_001).is_some());
}

#[test]
fn other_commands_do_not_interrupt_a_campaign() {
    let mut s = controlled();
    assert!(run(&mut s, 0, 100, 40_001).is_some());
    for i in 1..=10u64 {
        run(&mut s, i * 20 * SEC - 1, 101, 40_004);
        run(&mut s, i * 20 * SEC, 100, 50_000);
        assert_eq!(run(&mut s, i * 20 * SEC, 100, 40_001), None);
    }
}

#[test]
fn commands_of_different_radios_are_different() {
    let mut s = controlled();
    assert!(run(&mut s, 0, 100, 40_001).is_some());
    assert!(run(&mut s, 0, 101, 40_001).is_some());
    assert!(run(&mut s, 0, 100, 40_002).is_some());
    assert_eq!(run(&mut s, 0, 101, 40_001), None);
}

#[test]
fn kick_all_is_not_repeated() {
    let mut s = controlled();
    for i in 0..5u64 {
        run(&mut s, i * SEC, 100, 40_003);
    }
    assert_eq!(s.pending_actions, vec![SdsPendingAction::KickAll]);
}

#[test]
fn memory_is_bounded_and_forgets_the_oldest() {
    let mut s = service();
    for i in 0..64u32 {
        assert!(s.sds_command_is_new(1000 + i as u64, i, 7));
    }
    assert_eq!(s.recent_commands.len(), 64);
    // A repetition needs no room, also of the oldest.
    assert!(!s.sds_command_is_new(2000, 5, 7));
    assert!(!s.sds_command_is_new(2001, 0, 7));
    assert_eq!(s.recent_commands.len(), 64);
    // A new command takes the place of the oldest, now 1.
    assert!(s.sds_command_is_new(2002, 64, 7));
    assert_eq!(s.recent_commands.len(), 64);
    assert!(!s.sds_command_is_new(2003, 2, 7));
    assert!(!s.sds_command_is_new(2004, 0, 7));
    assert!(s.sds_command_is_new(2005, 1, 7));
    assert_eq!(s.recent_commands.len(), 64);
}

#[test]
fn the_oldest_command_of_a_full_memory_runs_once() {
    let mut s = controlled();
    assert_eq!(run(&mut s, 1000, 100, 40_001), service_action(ServiceAction::Restart));
    for i in 0..63u32 {
        s.sds_command_is_new(2000 + i as u64, 200 + i, 7);
    }
    assert_eq!(run(&mut s, 3000, 100, 40_001), None);
    assert_eq!(s.recent_commands.len(), 64);
}

#[test]
fn old_commands_are_forgotten() {
    let mut s = service();
    for i in 0..10u32 {
        s.sds_command_is_new(0, i, 7);
    }
    s.sds_command_is_new(15 * SEC, 50, 7);
    assert!(s.sds_command_is_new(30 * SEC, 51, 7));
    assert_eq!(s.recent_commands.len(), 2);
}

#[test]
fn host_replies_read_as_they_should() {
    assert_eq!(host_reply_text(HostQuery::Ip, &host()), "Host IP: 192.0.2.7");
    assert_eq!(host_reply_text(HostQuery::Temp, &host()), "Host temp: 48.5 C");
    assert_eq!(host_reply_text(HostQuery::Info, &host()), "FlowStation v1.2.3 | IP 192.0.2.7 | 48.5C");
    let unknown = HostInfo { ip: None, temp: None, version: "1.2.3".to_string() };
    assert_eq!(host_reply_text(HostQuery::Ip, &unknown), "Host IP: n/a");
    assert_eq!(host_reply_text(HostQuery::Temp, &unknown), "Host temp: n/a");
    assert_eq!(host_reply_text(HostQuery::Info, &unknown), "FlowStation v1.2.3 | IP n/a | n/a");
}

#[test]
fn answers_go_out_on_the_main_channel() {
    let mut s = controlled();
    let mut q = MessageQueue::new();
    let mut refs = MessageReferences::new();
    s.config.state.active_call_ts.insert(100, TrafficSlot { carrier: 1, timeslot: 2, usage: 3 });
    s.answer_host_query(&mut q, &mut refs, 100, HostQuery::Ip, &host());
    s.answer_host_query(&mut q, &mut refs, 100, HostQuery::Temp, &host());
    assert_eq!(q.messages, vec![reply(1, "Host IP: 192.0.2.7"), reply(2, "Host temp: 48.5 C")]);
    assert!(s.pending_sds.is_empty());
    assert_eq!(refs, MessageReferences { control: 1, text: 3 });
}

#[test]
fn answers_keep_text_octets_only() {
    let s = controlled();
    let mut q = MessageQueue::new();
    let mut refs = MessageReferences::new();
    s.send_text_sds(&mut q, &mut refs, 9999, 100, "a\u{e9}\nb\tc");
    assert_eq!(q.messages, vec![reply(1, "ab\tc")]);
}

#[test]
fn a_status_to_the_station_is_a_command() {
    let mut s = controlled();
    let mut q = MessageQueue::new();
    let message = || SapMsg {
        sap: Sap::LcmcSap,
        src: TetraEntity::Mle,
        dest: TetraEntity::Cmce,
        msg: SapMsgInner::LcmcMleUnitdataInd(LcmcMleUnitdataInd {
            received_tetra_address: TetraAddress { ssi: 100, ssi_type: SsiType::Issi },
            sdu: UplinkPdu::UStatus(UStatus {
                called_party_ssi: Some(9999),
                called_party_short_number_address: None,
                called_party_extension: None,
                external_subscriber_number: false,
                dm_ms_address: false,
                pre_coded_status: PreCodedStatus::Other(40_004),
            }),
        }),
    };
    assert_eq!(s.route_status_deliver(&mut q, 0, message()), query(100, HostQuery::Ip));
    assert_eq!(s.route_status_deliver(&mut q, SEC, message()), None);
    assert_eq!(q.messages.len(), 2);
}
