//! Laws of the mathematical values: a value shows all that its record holds.

use vstd::prelude::*;

use crate::control::{ControlCommand, ControlCommandView};
use crate::entity::{PendingSds, SdsBsSubentity};
use crate::pdu::{DSdsData, SdsUserData, SdsUserDataView};
use crate::sap::{
    CmceChanAllocReq, CmceSdsData, DownlinkPdu, DownlinkPduView, LcmcMleUnitdataReq, MessageQueue,
    SapMsg, SapMsgInner, SapMsgInnerView,
};
use crate::telemetry::{TelemetryEvent, TelemetryEventView, TelemetrySink};
use crate::wx::{job_view, WxJob};

verus! {

/// User data shows its type, its number or its length and octets.
pub proof fn law_user_data_shows_all(data: SdsUserData)
    ensures
        match data {
            SdsUserData::Type1(v) => data@ == SdsUserDataView::Type1(v),
            SdsUserData::Type2(v) => data@ == SdsUserDataView::Type2(v),
            SdsUserData::Type3(v) => data@ == SdsUserDataView::Type3(v),
            SdsUserData::Type4(n, octets) => data@ == SdsUserDataView::Type4(n, octets@),
        },
{
}

/// A D-SDS-DATA PDU shows each of its elements.
pub proof fn law_sds_pdu_shows_all(pdu: DSdsData)
    ensures
        pdu@.calling_party_type_identifier == pdu.calling_party_type_identifier,
        pdu@.calling_party_address_ssi == pdu.calling_party_address_ssi,
        pdu@.calling_party_extension == pdu.calling_party_extension,
        pdu@.user_defined_data == pdu.user_defined_data@,
        pdu@.external_subscriber_number == pdu.external_subscriber_number,
        pdu@.dm_ms_address == pdu.dm_ms_address,
{
}

/// A channel allocation shows each of its elements.
pub proof fn law_allocation_shows_all(alloc: CmceChanAllocReq)
    ensures
        alloc@.usage == alloc.usage,
        alloc@.carrier == alloc.carrier,
        alloc@.timeslots == alloc.timeslots@,
        alloc@.alloc_type == alloc.alloc_type,
        alloc@.ul_dl_assigned == alloc.ul_dl_assigned,
{
}

/// A request to send a PDU shows each of its elements.
pub proof fn law_request_shows_all(req: LcmcMleUnitdataReq)
    ensures
        match req.sdu {
            DownlinkPdu::DSdsData(pdu) => req@.sdu == DownlinkPduView::DSdsData(pdu@),
            DownlinkPdu::DStatus(pdu) => req@.sdu == DownlinkPduView::DStatus(pdu),
        },
        req@.handle == req.handle,
        req@.endpoint_id == req.endpoint_id,
        req@.link_id == req.link_id,
        req@.layer2service == req.layer2service,
        req@.pdu_prio == req.pdu_prio,
        req@.layer2_qos == req.layer2_qos,
        req@.stealing_permission == req.stealing_permission,
        req@.stealing_repeats_flag == req.stealing_repeats_flag,
        req@.chan_alloc is Some <==> req.chan_alloc is Some,
        req.chan_alloc is Some ==> req@.chan_alloc->0 == req.chan_alloc->0@,
        req@.main_address == req.main_address,
        req@.tx_reporter == req.tx_reporter,
{
}

/// An SDS for the network shows each of its elements.
pub proof fn law_network_sds_shows_all(sds: CmceSdsData)
    ensures
        sds@.source_issi == sds.source_issi,
        sds@.dest_issi == sds.dest_issi,
        sds@.user_defined_data == sds.user_defined_data@,
{
}

/// A message shows where it comes from, where it goes and what it holds.
pub proof fn law_message_shows_all(m: SapMsg)
    ensures
        m@.sap == m.sap,
        m@.src == m.src,
        m@.dest == m.dest,
        match m.msg {
            SapMsgInner::LcmcMleUnitdataInd(ind) => m@.msg == SapMsgInnerView::LcmcMleUnitdataInd(
                ind,
            ),
            SapMsgInner::LcmcMleUnitdataReq(req) => m@.msg == SapMsgInnerView::LcmcMleUnitdataReq(
                req@,
            ),
            SapMsgInner::CmceSdsData(sds) => m@.msg == SapMsgInnerView::CmceSdsData(sds@),
        },
{
}

/// A queue shows its messages, each in its place.
pub proof fn law_queue_shows_all(queue: MessageQueue, i: int)
    ensures
        queue@.len() == queue.messages@.len(),
        0 <= i < queue.messages@.len() ==> queue@[i] == queue.messages@[i]@,
{
}

/// An event shows what happened, and to whom.
pub proof fn law_event_shows_all(event: TelemetryEvent)
    ensures
        match event {
            TelemetryEvent::EmergencyAlarm { source_issi, dest_ssi } => event@
                == (TelemetryEventView::EmergencyAlarm { source_issi, dest_ssi }),
            TelemetryEvent::EmergencyCancel { source_issi } => event@
                == (TelemetryEventView::EmergencyCancel { source_issi }),
            TelemetryEvent::SdsLog {
                direction,
                source_issi,
                dest_issi,
                is_group,
                protocol_id,
                text,
            } => event@ == (TelemetryEventView::SdsLog {
                direction: direction@,
                source_issi,
                dest_issi,
                is_group,
                protocol_id,
                text: text@,
            }),
            TelemetryEvent::SdsActivity { source_issi, dest_issi } => event@
                == (TelemetryEventView::SdsActivity { source_issi, dest_issi }),
        },
{
}

/// A sink shows its events, each in its place.
pub proof fn law_sink_shows_all(sink: TelemetrySink, i: int)
    ensures
        sink@.len() == sink.events@.len(),
        0 <= i < sink.events@.len() ==> sink@[i] == sink.events@[i]@,
{
}

/// A waiting SDS shows each of its elements.
pub proof fn law_waiting_sds_shows_all(p: PendingSds)
    ensures
        p@.source_issi == p.source_issi,
        p@.dest_ssi == p.dest_ssi,
        p@.user_defined_data == p.user_defined_data@,
        p@.queued_at == p.queued_at,
{
}

/// A service shows each part of its state.
pub proof fn law_service_shows_all(s: SdsBsSubentity, i: int)
    ensures
        s@.config == s.config,
        s@.telemetry is Some <==> s.telemetry is Some,
        s.telemetry is Some ==> s@.telemetry->0 == s.telemetry->0@,
        s@.pending_actions == s.pending_actions@,
        s@.pending_sds.len() == s.pending_sds@.len(),
        0 <= i < s.pending_sds@.len() ==> s@.pending_sds[i] == s.pending_sds@[i]@,
        s@.wx_cmd_tx == s.wx_cmd_tx,
        s@.last_periodic_wx == s.last_periodic_wx,
        s@.emergency_sessions == s.emergency_sessions@,
        s@.recent_commands == s.recent_commands@,
{
}

/// A command shows each of its elements.
pub proof fn law_command_shows_all(command: ControlCommand)
    ensures
        match command {
            ControlCommand::SendSds {
                handle,
                source_ssi,
                dest_ssi,
                dest_is_group,
                len_bits,
                payload,
            } => command@ == (ControlCommandView::SendSds {
                handle,
                source_ssi,
                dest_ssi,
                dest_is_group,
                len_bits,
                payload: payload@,
            }),
            ControlCommand::SendRawSdsType4 {
                handle,
                source_ssi,
                dest_ssi,
                dest_is_group,
                len_bits,
                payload,
            } => command@ == (ControlCommandView::SendRawSdsType4 {
                handle,
                source_ssi,
                dest_ssi,
                dest_is_group,
                len_bits,
                payload: payload@,
            }),
        },
{
}

/// A weather job shows each of its elements, and no job shows as none.
pub proof fn law_job_shows_all(job: Option<WxJob>)
    ensures
        job_view(job) is Some <==> job is Some,
        job is Some ==> {
            &&& job_view(job)->0.requester_issi == job->0.requester_issi
            &&& job_view(job)->0.service_issi == job->0.service_issi
            &&& job_view(job)->0.text == job->0.text@
        },
{
}

} // verus!
