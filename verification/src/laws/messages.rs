//! Laws of the messages that leave the service, and of the SDS that wait.

use vstd::prelude::*;

use crate::config::{lemma_on_traffic, CellState, TrafficSlot};
use crate::delivery::{
    d_sds_data, d_status, failure_report, fate, fate_messages, flush_messages, sent, still_waiting,
    to_brew,
};
use crate::entity::{PendingSdsView, SdsBsView};
use crate::laws::cell::{law_elapsed, law_radio_reachable, law_timeslot_of};
use crate::pdu::{PartyTypeIdentifier, PreCodedStatus, SdsUserDataView, SsiType, TetraAddress};
use crate::sap::{
    ChanAllocType, DownlinkPduView, Layer2Service, Sap, SapMsgInnerView, SapMsgView, TetraEntity,
    UlDlAssignment,
};
use crate::tick::{broadcast_messages, BroadcastSds};

verus! {

/// True when `m` hands the MLE a D-SDS-DATA for `dest` that carries `data` from `source` and nothing
/// else.
pub open spec fn carries_sds(
    m: SapMsgView,
    source: u32,
    dest: u32,
    ssi_type: SsiType,
    data: SdsUserDataView,
) -> bool {
    &&& m.sap == Sap::LcmcSap
    &&& m.src == TetraEntity::Cmce
    &&& m.dest == TetraEntity::Mle
    &&& m.msg matches SapMsgInnerView::LcmcMleUnitdataReq(req)
    &&& req.main_address == (TetraAddress { ssi: dest, ssi_type })
    &&& req.sdu matches DownlinkPduView::DSdsData(pdu)
    &&& pdu.calling_party_type_identifier == PartyTypeIdentifier::Ssi
    &&& pdu.calling_party_address_ssi == source
    &&& pdu.calling_party_extension is None
    &&& pdu.user_defined_data == data
    &&& !pdu.external_subscriber_number
    &&& !pdu.dm_ms_address
}

/// True when `m` hands the MLE a D-STATUS for the radio `dest` that carries `status` from `source`
/// and nothing else.
pub open spec fn carries_status(m: SapMsgView, source: u32, dest: u32, status: PreCodedStatus) -> bool {
    &&& m.sap == Sap::LcmcSap
    &&& m.src == TetraEntity::Cmce
    &&& m.dest == TetraEntity::Mle
    &&& m.msg matches SapMsgInnerView::LcmcMleUnitdataReq(req)
    &&& req.main_address == (TetraAddress { ssi: dest, ssi_type: SsiType::Issi })
    &&& req.sdu matches DownlinkPduView::DStatus(pdu)
    &&& pdu.calling_party_type_identifier == PartyTypeIdentifier::Ssi
    &&& pdu.calling_party_address_ssi == source
    &&& pdu.calling_party_extension is None
    &&& pdu.pre_coded_status == status
    &&& !pdu.external_subscriber_number
    &&& !pdu.dm_ms_address
}

/// True when `m` hands the network link `data` from `source` to `dest`.
pub open spec fn carries_to_network(
    m: SapMsgView,
    source: u32,
    dest: u32,
    data: SdsUserDataView,
) -> bool {
    &&& m.sap == Sap::Control
    &&& m.src == TetraEntity::Cmce
    &&& m.dest == TetraEntity::Brew
    &&& m.msg matches SapMsgInnerView::CmceSdsData(sds)
    &&& sds.source_issi == source
    &&& sds.dest_issi == dest
    &&& sds.user_defined_data == data
}

/// True when `m` goes out on the main control channel with the service `service`.
pub open spec fn on_mcch(m: SapMsgView, service: Layer2Service) -> bool {
    &&& m.msg matches SapMsgInnerView::LcmcMleUnitdataReq(req)
    &&& !req.stealing_permission
    &&& !req.stealing_repeats_flag
    &&& req.chan_alloc is None
    &&& req.layer2service == service
    &&& req.handle == 0 && req.endpoint_id == 0 && req.link_id == 0
    &&& req.pdu_prio == 0 && req.layer2_qos == 0
    &&& !req.tx_reporter
}

/// True when `m` is stolen, unacknowledged, onto the timeslot of `slot` and onto no other.
pub open spec fn stolen_onto(m: SapMsgView, slot: TrafficSlot) -> bool {
    &&& m.msg matches SapMsgInnerView::LcmcMleUnitdataReq(req)
    &&& req.stealing_permission
    &&& !req.stealing_repeats_flag
    &&& req.chan_alloc matches Some(alloc)
    &&& alloc.usage == Some(slot.usage)
    &&& alloc.carrier == Some(slot.carrier)
    &&& alloc.timeslots.len() == 4
    &&& forall|i: int| 0 <= i < 4 ==> (#[trigger] alloc.timeslots[i] <==> i + 1 == slot.timeslot)
    &&& alloc.alloc_type == ChanAllocType::Replace
    &&& alloc.ul_dl_assigned == UlDlAssignment::Dl
    &&& req.layer2service == Layer2Service::Unacknowledged
    &&& req.handle == 0 && req.endpoint_id == 0 && req.link_id == 0
    &&& req.pdu_prio == 0 && req.layer2_qos == 0
    &&& !req.tx_reporter
}

/// True when `m` goes where its destination listens: onto the timeslot `slot`, if there is one and it
/// is one of the four of a carrier, and else out on the main control channel with `service`.
pub open spec fn goes_where(m: SapMsgView, slot: Option<TrafficSlot>, service: Layer2Service) -> bool {
    if slot is Some && 1 <= slot->0.timeslot <= 4 {
        stolen_onto(m, slot->0)
    } else {
        on_mcch(m, service)
    }
}

/// An SDS message carries its user data from its source to its destination. A forced one goes out on
/// the main control channel, any other where its destination listens; on the main control channel an
/// individual SDS is acknowledged and a group SDS is not.
pub proof fn law_sds_message(
    state: &CellState,
    source: u32,
    dest: u32,
    ssi_type: SsiType,
    data: SdsUserDataView,
    force_mcch: bool,
)
    ensures
        ({
            let m = d_sds_data(state, source, dest, ssi_type, data, force_mcch);
            let service = if ssi_type == SsiType::Issi {
                Layer2Service::Acknowledged
            } else {
                Layer2Service::Unacknowledged
            };
            &&& carries_sds(m, source, dest, ssi_type, data)
            &&& force_mcch ==> on_mcch(m, service)
            &&& !force_mcch ==> goes_where(m, state.traffic_of(dest, ssi_type), service)
        }),
{
}

/// A status message carries its status from its source to its destination, and goes where its
/// destination listens.
pub proof fn law_status_message(state: &CellState, source: u32, dest: u32, status: PreCodedStatus)
    ensures
        ({
            let m = d_status(state, source, dest, status);
            &&& carries_status(m, source, dest, status)
            &&& goes_where(m, state.traffic_of(dest, SsiType::Issi), Layer2Service::Todo)
        }),
{
}

/// A message to the network carries its user data from its source to its destination.
pub proof fn law_network_message(source: u32, dest: u32, data: SdsUserDataView)
    ensures
        carries_to_network(to_brew(source, dest, data), source, dest, data),
{
}

/// True when `after` is `before` with one message more, at its end.
pub open spec fn one_more(before: Seq<SapMsgView>, after: Seq<SapMsgView>) -> bool {
    &&& after.len() == before.len() + 1
    &&& forall|i: int| 0 <= i < before.len() ==> #[trigger] after[i] == before[i]
}

/// True when `after` is `before` with the SDS waiting at its end, since `now`, and no other change.
pub open spec fn waits_in(
    before: SdsBsView,
    after: SdsBsView,
    now: u64,
    source: u32,
    dest: u32,
    data: SdsUserDataView,
) -> bool {
    &&& after.pending_sds.len() == before.pending_sds.len() + 1
    &&& forall|i: int|
        0 <= i < before.pending_sds.len() ==> #[trigger] after.pending_sds[i]
            == before.pending_sds[i]
    &&& after.pending_sds.last().source_issi == source
    &&& after.pending_sds.last().dest_ssi == dest
    &&& after.pending_sds.last().user_defined_data == data
    &&& after.pending_sds.last().queued_at == now
    &&& same_but_waiting(before, after)
}

/// True when `after` differs from `before` at most in the SDS that wait.
pub open spec fn same_but_waiting(before: SdsBsView, after: SdsBsView) -> bool {
    &&& after.config == before.config
    &&& after.telemetry == before.telemetry
    &&& after.pending_actions == before.pending_actions
    &&& after.wx_cmd_tx == before.wx_cmd_tx
    &&& after.last_periodic_wx == before.last_periodic_wx
    &&& after.emergency_sessions == before.emergency_sessions
    &&& after.recent_commands == before.recent_commands
}

/// True when an SDS that was to be sent is neither lost nor doubled: it waits where it is individual
/// and its destination does not listen; else it is the one new message, for that destination and with
/// its source and user data, and nothing else has changed.
pub open spec fn is_kept(
    before: SdsBsView,
    queue: Seq<SapMsgView>,
    after: SdsBsView,
    queue_after: Seq<SapMsgView>,
    now: u64,
    source: u32,
    dest: u32,
    ssi_type: SsiType,
    data: SdsUserDataView,
) -> bool {
    if ssi_type == SsiType::Issi && !before.config.state.reachable(dest) {
        &&& queue_after == queue
        &&& waits_in(before, after, now, source, dest, data)
    } else {
        &&& one_more(queue, queue_after)
        &&& carries_sds(queue_after.last(), source, dest, ssi_type, data)
        &&& ssi_type == SsiType::Issi ==> on_mcch(queue_after.last(), Layer2Service::Acknowledged)
        &&& ssi_type == SsiType::Gssi ==> goes_where(
            queue_after.last(),
            before.config.state.traffic_of(dest, ssi_type),
            Layer2Service::Unacknowledged,
        )
        &&& after.pending_sds == before.pending_sds
        &&& same_but_waiting(before, after)
    }
}

/// Sending neither loses an SDS nor doubles it, in every state of the cell.
pub proof fn law_sending_keeps_the_sds(
    s: SdsBsView,
    queue: Seq<SapMsgView>,
    now: u64,
    source: u32,
    dest: u32,
    ssi_type: SsiType,
    data: SdsUserDataView,
)
    ensures
        ({
            let (next, after) = sent(s, queue, now, source, dest, ssi_type, data);
            is_kept(s, queue, next, after, now, source, dest, ssi_type, data)
        }),
{
    law_timeslot_of(&s.config.state, dest, ssi_type);
    lemma_on_traffic(&s.config.state, dest);
    law_sds_message(&s.config.state, source, dest, ssi_type, data, false);
}

/// A waiting SDS fails once more than ten seconds have passed, is delivered before that as soon as
/// its destination listens, and waits otherwise.
pub proof fn law_fate(state: &CellState, now: u64, p: PendingSdsView)
    ensures
        fate(state, now, p) is Fail <==> now > p.queued_at + 10_000_000_000,
        fate(state, now, p) is Deliver <==> now <= p.queued_at + 10_000_000_000 && state.reachable(
            p.dest_ssi,
        ),
        fate(state, now, p) is Wait <==> now <= p.queued_at + 10_000_000_000 && !state.reachable(
            p.dest_ssi,
        ),
{
    law_elapsed(now, p.queued_at);
}

/// The report on a failed SDS says that it could not be delivered, never that it was: whatever the
/// state of the cell, the sender of an SDS-TL message gets, from its destination and on the main
/// control channel, the octets 82, 10, 02 and the message reference. Nothing else is reported on.
pub proof fn law_failure_is_reported_as_failure(state: &CellState, p: PendingSdsView)
    ensures
        ({
            let octets = p.user_defined_data.octets();
            let told = failure_report(state, p);
            if octets.len() >= 4 && (octets[0] == 0x82 || octets[0] == 0x89) && octets[1] != 0x10 {
                &&& told.len() == 1
                &&& carries_sds(
                    told[0],
                    p.dest_ssi,
                    p.source_issi,
                    SsiType::Issi,
                    SdsUserDataView::Type4(32, seq![0x82u8, 0x10u8, 0x02u8, octets[2]]),
                )
                &&& on_mcch(told[0], Layer2Service::Acknowledged)
            } else {
                told.len() == 0
            }
        }),
{
}

/// What the fate of one waiting SDS brings: its delivery, verbatim and on the main control channel;
/// the report on its failure; or nothing.
pub proof fn law_fate_of_one(state: &CellState, now: u64, p: PendingSdsView)
    ensures
        ({
            let out = fate_messages(state, now, p);
            &&& fate(state, now, p) is Deliver ==> {
                &&& out.len() == 1
                &&& carries_sds(
                    out[0],
                    p.source_issi,
                    p.dest_ssi,
                    SsiType::Issi,
                    p.user_defined_data,
                )
                &&& on_mcch(out[0], Layer2Service::Acknowledged)
            }
            &&& fate(state, now, p) is Fail ==> out == failure_report(state, p)
            &&& fate(state, now, p) is Wait ==> out.len() == 0
        }),
{
    lemma_on_traffic(state, p.dest_ssi);
}

/// Each waiting SDS meets its fate by itself: the messages of two groups of them are those of the
/// first and then those of the second, and so with those that go on waiting.
pub proof fn law_fates_are_separate(
    state: &CellState,
    now: u64,
    first: Seq<PendingSdsView>,
    second: Seq<PendingSdsView>,
)
    ensures
        flush_messages(state, now, first + second) == flush_messages(state, now, first)
            + flush_messages(state, now, second),
        still_waiting(state, now, first + second) == still_waiting(state, now, first)
            + still_waiting(state, now, second),
    decreases second.len(),
{
    reveal(Seq::filter);
    if second.len() == 0 {
        assert(first + second =~= first);
        assert(flush_messages(state, now, first) + flush_messages(state, now, second)
            =~= flush_messages(state, now, first));
        assert(still_waiting(state, now, first) + still_waiting(state, now, second)
            =~= still_waiting(state, now, first));
    } else {
        let rest = second.drop_last();
        law_fates_are_separate(state, now, first, rest);
        assert((first + second).drop_last() =~= first + rest);
        assert((first + second).last() == second.last());
        assert(flush_messages(state, now, first + second) =~= flush_messages(state, now, first) + (
        flush_messages(state, now, rest) + fate_messages(state, now, second.last())));
        assert(still_waiting(state, now, first + second) =~= still_waiting(state, now, first)
            + still_waiting(state, now, second));
    }
}

/// One waiting SDS alone brings the messages of its fate, and goes on waiting exactly when that is
/// its fate; where none waits nothing comes.
pub proof fn law_one_waiting_sds(state: &CellState, now: u64, p: PendingSdsView)
    ensures
        flush_messages(state, now, seq![p]) == fate_messages(state, now, p),
        fate(state, now, p) is Wait ==> still_waiting(state, now, seq![p]) == seq![p],
        !(fate(state, now, p) is Wait) ==> still_waiting(state, now, seq![p]).len() == 0,
        flush_messages(state, now, Seq::empty()).len() == 0,
        still_waiting(state, now, Seq::empty()).len() == 0,
{
    reveal(Seq::filter);
    let one = seq![p];
    assert(one.drop_last() =~= Seq::empty());
    assert(flush_messages(state, now, one.drop_last()) =~= Seq::empty());
    assert(flush_messages(state, now, one) =~= fate_messages(state, now, p));
    assert(still_waiting(state, now, one.drop_last()) =~= Seq::empty());
    if fate(state, now, p) is Wait {
        assert(still_waiting(state, now, one) =~= seq![p]);
    }
}

/// A flush changes nothing but which SDS wait, and leaves those that go on waiting.
pub proof fn law_flush_changes_only_waiting(s: SdsBsView, now: u64)
    ensures
        same_but_waiting(s, s.flushed(now)),
        s.flushed(now).pending_sds == still_waiting(&s.config.state, now, s.pending_sds),
{
}

/// A broadcast that is due brings one message, for its group, with its source and payload and where
/// the group listens; without one there is none.
pub proof fn law_broadcast_message(state: &CellState, broadcast_sds: Option<BroadcastSds>)
    ensures
        match broadcast_sds {
            Some(tx) => {
                let out = broadcast_messages(state, broadcast_sds);
                &&& out.len() == 1
                &&& carries_sds(
                    out[0],
                    tx.source_issi,
                    tx.dest_gssi,
                    SsiType::Gssi,
                    tx.payload@,
                )
                &&& goes_where(
                    out[0],
                    state.traffic_of(tx.dest_gssi, SsiType::Gssi),
                    Layer2Service::Unacknowledged,
                )
            },
            None => broadcast_messages(state, broadcast_sds).len() == 0,
        },
{
}

/// An SDS that waits for a radio which has no call, is attached to no group and has no energy economy
/// window is delivered by the next flush in time.
pub proof fn law_idle_radio_gets_its_sds(state: &CellState, now: u64, p: PendingSdsView)
    requires
        !state.active_call_ts@.contains_key(p.dest_ssi),
        !state.attached_groups@.contains_key(p.dest_ssi),
        !state.ee_window_open@.contains_key(p.dest_ssi),
        now <= p.queued_at + 10_000_000_000,
    ensures
        fate(state, now, p) is Deliver,
{
    law_radio_reachable(state, p.dest_ssi);
    law_fate(state, now, p);
}

} // verus!
