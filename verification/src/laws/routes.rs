//! Laws of routing: what becomes of an SDS or a status in every state of the cell.

use vstd::prelude::*;

use crate::entity::SdsBsView;
use crate::laws::messages::{
    carries_status, carries_to_network, goes_where, is_kept, law_sending_keeps_the_sds,
    law_status_message, one_more, same_but_waiting, stolen_onto,
};
use crate::pdu::{PreCodedStatus, SdsUserDataView, ShortReportType, SsiType};
use crate::routing::{
    echo_messages, routed_from_brew, routed_from_control, routed_from_rf, ssi_of, status_data,
    status_messages, valid_ssi,
};
use crate::sap::{Layer2Service, SapMsgView};
use crate::sds_tl::{protocol_id, sds_text};
use crate::telemetry::TelemetryEventView;

verus! {

/// True when the sink of `before`, if there is one, has got exactly `events` more in `after`.
pub open spec fn tells(
    before: SdsBsView,
    after: SdsBsView,
    events: Seq<TelemetryEventView>,
) -> bool {
    match before.telemetry {
        Some(sink) => after.telemetry == Some(sink + events),
        None => after.telemetry is None,
    }
}

/// `next`, but with what the sink of `s` holds.
pub open spec fn untold(s: SdsBsView, next: SdsBsView) -> SdsBsView {
    SdsBsView { telemetry: s.telemetry, ..next }
}

/// True when nothing but the sink has changed.
pub open spec fn only_tells(s: SdsBsView, next: SdsBsView) -> bool {
    &&& same_but_waiting(s, untold(s, next))
    &&& next.pending_sds == s.pending_sds
}

/// The log entry of an SDS.
pub open spec fn log_entry(
    direction: Seq<char>,
    source: u32,
    dest: u32,
    is_group: bool,
    data: SdsUserDataView,
) -> TelemetryEventView {
    TelemetryEventView::SdsLog {
        direction,
        source_issi: source,
        dest_issi: dest,
        is_group,
        protocol_id: protocol_id(data),
        text: sds_text(data),
    }
}

/// The event that two parties exchange SDS.
pub open spec fn activity_of(source: u32, dest: u32) -> TelemetryEventView {
    TelemetryEventView::SdsActivity { source_issi: source, dest_issi: dest }
}

/// True when `dest` is the weather service, and the service is on.
pub open spec fn is_weather_service(s: SdsBsView, dest: u32) -> bool {
    s.config.wx.enabled && s.config.wx.service_issi == dest
}

proof fn lemma_told_once(s: SdsBsView, e: TelemetryEventView)
    ensures
        tells(s, s.emitted(e), seq![e]),
        untold(s, s.emitted(e)) == s,
{
    if let Some(sink) = s.telemetry {
        assert(sink.push(e) =~= sink + seq![e]);
    }
}

proof fn lemma_told_twice(s: SdsBsView, mid: SdsBsView, e1: TelemetryEventView, e2: TelemetryEventView)
    requires
        mid.telemetry == s.emitted(e1).telemetry,
    ensures
        tells(s, mid.emitted(e2), seq![e1, e2]),
{
    if let Some(sink) = s.telemetry {
        assert(sink.push(e1).push(e2) =~= sink + seq![e1, e2]);
    }
}

/// An SDS of a radio to a radio that is registered here is kept, in every state of the cell: it
/// leaves as the one new message or waits as the one new waiting SDS, with its source and user data.
/// It is logged, and the activity announced.
pub proof fn law_sds_to_local_radio_is_kept(
    s: SdsBsView,
    queue: Seq<SapMsgView>,
    now: u64,
    source: u32,
    dest: u32,
    data: SdsUserDataView,
)
    requires
        s.config.state.registered@.contains(dest),
        dest != 9999,
        !is_weather_service(s, dest),
    ensures
        ({
            let (next, after, job) = routed_from_rf(s, queue, now, source, dest, data);
            let is_group = s.config.state.groups_with_members@.contains(dest);
            &&& is_kept(s, queue, untold(s, next), after, now, source, dest, SsiType::Issi, data)
            &&& tells(
                s,
                next,
                seq![log_entry("rx"@, source, dest, is_group, data), activity_of(source, dest)],
            )
            &&& job is None
        }),
{
    let is_group = s.config.state.groups_with_members@.contains(dest);
    let e = log_entry("rx"@, source, dest, is_group, data);
    let logged = s.logged("rx"@, source, dest, is_group, data);
    lemma_told_once(s, e);
    law_sending_keeps_the_sds(logged, queue, now, source, dest, SsiType::Issi, data);
    let mid = crate::delivery::sent(logged, queue, now, source, dest, SsiType::Issi, data).0;
    lemma_told_twice(s, mid, e, activity_of(source, dest));
}

/// An SDS of a radio to a group with members here, whose number is no radio's, is kept as the one new
/// message. It is logged, and the activity announced.
pub proof fn law_sds_to_local_group_is_kept(
    s: SdsBsView,
    queue: Seq<SapMsgView>,
    now: u64,
    source: u32,
    dest: u32,
    data: SdsUserDataView,
)
    requires
        !s.config.state.registered@.contains(dest),
        s.config.state.groups_with_members@.contains(dest),
        dest != 9999,
        !is_weather_service(s, dest),
    ensures
        ({
            let (next, after, job) = routed_from_rf(s, queue, now, source, dest, data);
            &&& is_kept(s, queue, untold(s, next), after, now, source, dest, SsiType::Gssi, data)
            &&& tells(
                s,
                next,
                seq![log_entry("rx"@, source, dest, true, data), activity_of(source, dest)],
            )
            &&& job is None
        }),
{
    let e = log_entry("rx"@, source, dest, true, data);
    let logged = s.logged("rx"@, source, dest, true, data);
    lemma_told_once(s, e);
    law_sending_keeps_the_sds(logged, queue, now, source, dest, SsiType::Gssi, data);
    let mid = crate::delivery::sent(logged, queue, now, source, dest, SsiType::Gssi, data).0;
    lemma_told_twice(s, mid, e, activity_of(source, dest));
}

/// An SDS of a radio to a destination that is not here goes to the network where SDS may use it, with
/// its source and user data, and else nowhere. It is logged.
pub proof fn law_sds_to_remote(
    s: SdsBsView,
    queue: Seq<SapMsgView>,
    now: u64,
    source: u32,
    dest: u32,
    data: SdsUserDataView,
)
    requires
        !s.config.state.registered@.contains(dest),
        !s.config.state.groups_with_members@.contains(dest),
        dest != 9999,
        !is_weather_service(s, dest),
    ensures
        ({
            let (next, after, job) = routed_from_rf(s, queue, now, source, dest, data);
            &&& if s.config.brew_sds_enabled {
                one_more(queue, after) && carries_to_network(after.last(), source, dest, data)
            } else {
                after == queue
            }
            &&& only_tells(s, next)
            &&& tells(s, next, seq![log_entry("rx"@, source, dest, false, data)])
            &&& job is None
        }),
{
    lemma_told_once(s, log_entry("rx"@, source, dest, false, data));
}

/// An SDS of a radio to the station itself is logged and goes no further.
pub proof fn law_sds_to_station_is_absorbed(
    s: SdsBsView,
    queue: Seq<SapMsgView>,
    now: u64,
    source: u32,
    data: SdsUserDataView,
)
    requires
        !is_weather_service(s, 9999),
    ensures
        ({
            let (next, after, job) = routed_from_rf(s, queue, now, source, 9999, data);
            let is_group = s.config.state.groups_with_members@.contains(9999);
            &&& after == queue
            &&& only_tells(s, next)
            &&& tells(s, next, seq![log_entry("rx"@, source, 9999, is_group, data)])
            &&& job is None
        }),
{
    let is_group = s.config.state.groups_with_members@.contains(9999);
    lemma_told_once(s, log_entry("rx"@, source, 9999, is_group, data));
}

/// A text to the weather service, other than a report, becomes a job where a reply can be sent, for
/// the radio that asked and with the text that it sent; the activity is announced. Where the text has
/// a message reference the radio is told, in the name of the service, that it was delivered; else
/// nothing is sent. A report to the service is logged and goes no further.
pub proof fn law_sds_to_weather_service(
    s: SdsBsView,
    queue: Seq<SapMsgView>,
    now: u64,
    source: u32,
    dest: u32,
    data: SdsUserDataView,
)
    requires
        is_weather_service(s, dest),
    ensures
        ({
            let (next, after, job) = routed_from_rf(s, queue, now, source, dest, data);
            let is_group = s.config.state.groups_with_members@.contains(dest);
            let e = log_entry("rx"@, source, dest, is_group, data);
            let octets = data.octets();
            let headed = octets.len() >= 4 && (octets[0] == 0x82 || octets[0] == 0x89);
            if headed && octets[1] == 0x10 {
                after == queue && only_tells(s, next) && tells(s, next, seq![e]) && job is None
            } else {
                &&& tells(s, next, seq![e, activity_of(source, dest)])
                &&& if headed {
                    is_kept(
                        s,
                        queue,
                        untold(s, next),
                        after,
                        now,
                        dest,
                        source,
                        SsiType::Issi,
                        SdsUserDataView::Type4(32, seq![0x82u8, 0x10u8, 0x00u8, octets[2]]),
                    )
                } else {
                    after == queue && only_tells(s, next)
                }
                &&& job is Some <==> s.wx_cmd_tx is Some
                &&& job is Some ==> job->0.requester_issi == source && job->0.service_issi == dest
                    && job->0.text == sds_text(data)
            }
        }),
{
    let is_group = s.config.state.groups_with_members@.contains(dest);
    let e = log_entry("rx"@, source, dest, is_group, data);
    let logged = s.logged("rx"@, source, dest, is_group, data);
    let octets = data.octets();
    lemma_told_once(s, e);
    let report = SdsUserDataView::Type4(32, seq![0x82u8, 0x10u8, 0x00u8, octets[2]]);
    law_sending_keeps_the_sds(logged, queue, now, dest, source, SsiType::Issi, report);
    let mid = crate::delivery::sent(logged, queue, now, dest, source, SsiType::Issi, report).0;
    lemma_told_twice(s, mid, e, activity_of(source, dest));
    lemma_told_twice(s, logged, e, activity_of(source, dest));
}

/// An SDS from the network is kept where its destination is a radio registered here, for that radio,
/// or else a group with members here, for that group. Any other is dropped. Each is logged.
pub proof fn law_sds_from_network(
    s: SdsBsView,
    queue: Seq<SapMsgView>,
    now: u64,
    source: u32,
    dest: u32,
    data: SdsUserDataView,
)
    ensures
        ({
            let (next, after) = routed_from_brew(s, queue, now, source, dest, data);
            let is_radio = s.config.state.registered@.contains(dest);
            let is_group = !is_radio && s.config.state.groups_with_members@.contains(dest);
            &&& tells(s, next, seq![log_entry("net"@, source, dest, is_group, data)])
            &&& is_radio ==> is_kept(
                s,
                queue,
                untold(s, next),
                after,
                now,
                source,
                dest,
                SsiType::Issi,
                data,
            )
            &&& is_group ==> is_kept(
                s,
                queue,
                untold(s, next),
                after,
                now,
                source,
                dest,
                SsiType::Gssi,
                data,
            )
            &&& !is_radio && !is_group ==> after == queue && only_tells(s, next)
        }),
{
    let is_radio = s.config.state.registered@.contains(dest);
    let is_group = !is_radio && s.config.state.groups_with_members@.contains(dest);
    let logged = s.logged("net"@, source, dest, is_group, data);
    lemma_told_once(s, log_entry("net"@, source, dest, is_group, data));
    law_sending_keeps_the_sds(logged, queue, now, source, dest, SsiType::Issi, data);
    law_sending_keeps_the_sds(logged, queue, now, source, dest, SsiType::Gssi, data);
}

/// An SDS from a control link is kept for its radio or group, registered or not, unless it is the
/// dashboard's to one that is not here while SDS may use the network: then it goes there, with its
/// source and user data. Each is logged.
pub proof fn law_sds_from_control(
    s: SdsBsView,
    queue: Seq<SapMsgView>,
    now: u64,
    source: u32,
    dest: u32,
    is_group: bool,
    data: SdsUserDataView,
)
    ensures
        ({
            let (next, after) = routed_from_control(s, queue, now, source, dest, is_group, data);
            let state = s.config.state;
            let here = (is_group && state.groups_with_members@.contains(dest)) || (!is_group
                && state.registered@.contains(dest));
            &&& tells(s, next, seq![log_entry("tx"@, source, dest, is_group, data)])
            &&& if source == 9999 && !here && s.config.brew_sds_enabled {
                &&& one_more(queue, after)
                &&& carries_to_network(after.last(), source, dest, data)
                &&& only_tells(s, next)
            } else {
                &&& is_group ==> is_kept(
                    s,
                    queue,
                    untold(s, next),
                    after,
                    now,
                    source,
                    dest,
                    SsiType::Gssi,
                    data,
                )
                &&& !is_group ==> is_kept(
                    s,
                    queue,
                    untold(s, next),
                    after,
                    now,
                    source,
                    dest,
                    SsiType::Issi,
                    data,
                )
            }
        }),
{
    let logged = s.logged("tx"@, source, dest, is_group, data);
    lemma_told_once(s, log_entry("tx"@, source, dest, is_group, data));
    law_sending_keeps_the_sds(logged, queue, now, source, dest, SsiType::Issi, data);
    law_sending_keeps_the_sds(logged, queue, now, source, dest, SsiType::Gssi, data);
}

/// A status to a radio that is registered here brings exactly one message, whatever calls are up: a
/// D-STATUS for that radio with the status and its sender. While the radio is in a call, on one of
/// the four timeslots, it is stolen onto the timeslot of that call.
pub proof fn law_status_to_local_radio_is_delivered(
    s: SdsBsView,
    source: u32,
    dest: u32,
    status: PreCodedStatus,
)
    requires
        s.config.state.registered@.contains(dest),
    ensures
        ({
            let out = status_messages(s, source, dest, status);
            let slot = s.config.state.traffic_of(dest, SsiType::Issi);
            &&& out.len() == 1
            &&& carries_status(out[0], source, dest, status)
            &&& goes_where(out[0], slot, Layer2Service::Todo)
            &&& slot is Some && 1 <= slot->0.timeslot <= 4 ==> stolen_onto(out[0], slot->0)
        }),
{
    law_status_message(&s.config.state, source, dest, status);
}

/// A status to a radio that is not here goes to the network while the link is up, unless it is an
/// Emergency that the operator keeps local; then, and while the link is down, it brings nothing.
pub proof fn law_status_to_remote(s: SdsBsView, source: u32, dest: u32, status: PreCodedStatus)
    requires
        !s.config.state.registered@.contains(dest),
    ensures
        ({
            let out = status_messages(s, source, dest, status);
            if s.config.brew_active && (!(status is Emergency)
                || s.config.emergency.forward_to_brew) {
                out.len() == 1 && carries_to_network(out[0], source, dest, status_data(status))
            } else {
                out.len() == 0
            }
        }),
{
}

/// For the network a short report is the SDS-TL report on its message, with the delivery status that
/// it stands for; any other status is user data of type 1 with its value, 0 for Emergency.
pub proof fn law_status_as_user_data(status: PreCodedStatus)
    ensures
        match status {
            PreCodedStatus::Emergency => status_data(status) == SdsUserDataView::Type1(0),
            PreCodedStatus::Other(raw) => status_data(status) == SdsUserDataView::Type1(raw),
            PreCodedStatus::SdsTl(report) => {
                let outcome: u8 = match report.short_report_type {
                    ShortReportType::MessageReceived | ShortReportType::MessageConsumed => 0x00,
                    ShortReportType::ProtOrEncodingNotSupported => 0x01,
                    ShortReportType::DestMemFull => 0x02,
                };
                status_data(status) == SdsUserDataView::Type4(
                    32,
                    seq![0x82u8, 0x10u8, outcome, report.message_reference],
                )
            },
        },
        match status {
            PreCodedStatus::Emergency => status.raw() == 0,
            PreCodedStatus::Other(raw) => status.raw() == raw,
            PreCodedStatus::SdsTl(report) => status.raw() == report.raw,
        },
{
}

/// A status to the station brings its echo, to its sender and from the station, where its sender
/// listens; Emergency and a short report bring nothing.
pub proof fn law_echo_goes_to_sender(s: SdsBsView, source: u32, status: PreCodedStatus)
    ensures
        ({
            let out = echo_messages(s, source, status);
            match status {
                PreCodedStatus::Other(_) => {
                    &&& out.len() == 1
                    &&& carries_status(out[0], 9999, source, status)
                    &&& goes_where(
                        out[0],
                        s.config.state.traffic_of(source, SsiType::Issi),
                        Layer2Service::Todo,
                    )
                },
                _ => out.len() == 0,
            }
        }),
{
    law_status_message(&s.config.state, 9999, source, status);
}

/// An identity can be carried when it is 1 to 16777215; an address element names the identity in its
/// low 32 bits.
pub proof fn law_identities(ssi: u32, element: u64)
    ensures
        valid_ssi(ssi) <==> ssi != 0 && ssi <= 16_777_215,
        (element - ssi_of(element)) % 0x1_0000_0000 == 0,
{
}

/// An event reaches the sink, if there is one, after those that it holds, and changes nothing else.
pub proof fn law_event_is_told(s: SdsBsView, event: TelemetryEventView)
    ensures
        tells(s, s.emitted(event), seq![event]),
        only_tells(s, s.emitted(event)),
{
    lemma_told_once(s, event);
}

/// A log entry says which way the SDS went, from whom to whom, whether to a group, its protocol
/// identifier and what it reads as; an activity says between whom it was. Neither changes anything
/// else.
pub proof fn law_log_says_what_was_sent(
    s: SdsBsView,
    direction: Seq<char>,
    source: u32,
    dest: u32,
    is_group: bool,
    data: SdsUserDataView,
)
    ensures
        ({
            let logged = s.logged(direction, source, dest, is_group, data);
            tells(s, logged, seq![log_entry(direction, source, dest, is_group, data)]) && only_tells(
                s,
                logged,
            )
        }),
        tells(s, s.active(source, dest), seq![activity_of(source, dest)]),
        only_tells(s, s.active(source, dest)),
{
    lemma_told_once(s, log_entry(direction, source, dest, is_group, data));
    lemma_told_once(s, activity_of(source, dest));
}

} // verus!
