//! Delivery to mobile stations.
//!
//! An MS in a call follows the associated control channel of its traffic timeslot and does not
//! listen to the main control channel (ETSI EN 300 392-2 cl. 23.5); an MS in energy economy listens
//! only in its monitoring window. Field terminals accept an individual SDS on the main control
//! channel alone, so such an SDS waits until its destination is back there. It waits no longer than
//! [`SDS_DEFER_DEADLINE_SECS`]: from then on it has failed and its sender is told so, so that an SDS
//! is never reported as failed and delivered afterwards.

use vstd::prelude::*;

use crate::config::{lemma_on_traffic, CellState, TrafficSlot};
use crate::entity::{pending_views, PendingSds, PendingSdsView, SdsBsSubentity, SdsBsView};
use crate::pdu::{
    DSdsData, DSdsDataView, DStatus, PartyTypeIdentifier, PreCodedStatus, SdsUserData,
    SdsUserDataView, SsiType, TetraAddress,
};
use crate::sap::{
    ChanAllocType, ChanAllocView, CmceChanAllocReq, CmceSdsData, CmceSdsDataView, DownlinkPdu,
    DownlinkPduView, Layer2Service, LcmcMleUnitdataReq, MessageQueue, Sap, SapMsg, SapMsgInner,
    SapMsgInnerView, SapMsgView, TetraEntity, UlDlAssignment, UnitdataReqView,
};
use crate::sds_tl::{
    message_reference, report_data, sds_tl_message_reference, sds_tl_report,
    SDS_TL_STATUS_UNDELIVERABLE,
};
use crate::time::{elapsed, is_over, NANOS_PER_SEC};

verus! {

broadcast use vstd::std_specs::hash::group_hash_axioms;

/// How long an SDS may wait for its destination. Shorter than the time after which a terminal gives
/// up on the delivery report, so that both sides come to the same outcome.
pub const SDS_DEFER_DEADLINE_SECS: u64 = 10;

/// The allocation that steals a half-slot on a traffic timeslot, 1 to 4. It replaces, and covers the
/// downlink only.
pub open spec fn stealing(traffic: Option<TrafficSlot>) -> Option<ChanAllocView> {
    match traffic {
        Some(slot) if 1 <= slot.timeslot <= 4 => Some(
            ChanAllocView {
                usage: Some(slot.usage),
                carrier: Some(slot.carrier),
                timeslots: Seq::new(4, |i: int| i == slot.timeslot - 1),
                alloc_type: ChanAllocType::Replace,
                ul_dl_assigned: UlDlAssignment::Dl,
            },
        ),
        _ => None,
    }
}

/// The message that sends `sdu` down to `main_address`. With an allocation it steals from the
/// traffic channel, which the LLC does only on the unacknowledged basic link; without one it goes
/// out on the main control channel with the service `idle_service`. Handle, endpoint, link, priority
/// and QoS are zero, stealing is not repeated and the transmission is not reported on.
pub open spec fn downlink(
    sdu: DownlinkPduView,
    chan_alloc: Option<ChanAllocView>,
    idle_service: Layer2Service,
    main_address: TetraAddress,
) -> SapMsgView {
    SapMsgView {
        sap: Sap::LcmcSap,
        src: TetraEntity::Cmce,
        dest: TetraEntity::Mle,
        msg: SapMsgInnerView::LcmcMleUnitdataReq(
            UnitdataReqView {
                sdu,
                handle: 0,
                endpoint_id: 0,
                link_id: 0,
                layer2service: if chan_alloc is Some {
                    Layer2Service::Unacknowledged
                } else {
                    idle_service
                },
                pdu_prio: 0,
                layer2_qos: 0,
                stealing_permission: chan_alloc is Some,
                stealing_repeats_flag: false,
                chan_alloc,
                main_address,
                tx_reporter: false,
            },
        ),
    }
}

/// The PDU that carries `data` from `source_issi`, which it names by its SSI. Its optional elements
/// are absent.
pub open spec fn sds_pdu(source_issi: u32, data: SdsUserDataView) -> DownlinkPduView {
    DownlinkPduView::DSdsData(
        DSdsDataView {
            calling_party_type_identifier: PartyTypeIdentifier::Ssi,
            calling_party_address_ssi: source_issi,
            calling_party_extension: None,
            user_defined_data: data,
            external_subscriber_number: false,
            dm_ms_address: false,
        },
    )
}

/// The PDU that carries `status` from `source_issi`, which it names by its SSI. Its optional elements
/// are absent.
pub open spec fn status_pdu(source_issi: u32, status: PreCodedStatus) -> DownlinkPduView {
    DownlinkPduView::DStatus(
        DStatus {
            calling_party_type_identifier: PartyTypeIdentifier::Ssi,
            calling_party_address_ssi: source_issi,
            calling_party_extension: None,
            pre_coded_status: status,
            external_subscriber_number: false,
            dm_ms_address: false,
        },
    )
}

/// The D-SDS-DATA from `source_issi` to `dest_ssi`. With `force_mcch` the destination is known to
/// listen to the main control channel.
pub open spec fn d_sds_data(
    state: &CellState,
    source_issi: u32,
    dest_ssi: u32,
    ssi_type: SsiType,
    data: SdsUserDataView,
    force_mcch: bool,
) -> SapMsgView {
    downlink(
        sds_pdu(source_issi, data),
        if force_mcch {
            None
        } else {
            stealing(state.traffic_of(dest_ssi, ssi_type))
        },
        if ssi_type == SsiType::Issi {
            Layer2Service::Acknowledged
        } else {
            Layer2Service::Unacknowledged
        },
        TetraAddress { ssi: dest_ssi, ssi_type },
    )
}

/// The D-STATUS from `source_issi` to `dest_issi`.
pub open spec fn d_status(
    state: &CellState,
    source_issi: u32,
    dest_issi: u32,
    status: PreCodedStatus,
) -> SapMsgView {
    downlink(
        status_pdu(source_issi, status),
        stealing(state.traffic_of(dest_issi, SsiType::Issi)),
        Layer2Service::Todo,
        TetraAddress { ssi: dest_issi, ssi_type: SsiType::Issi },
    )
}

/// The message that hands an SDS to the network link.
pub open spec fn to_brew(source_issi: u32, dest_issi: u32, data: SdsUserDataView) -> SapMsgView {
    SapMsgView {
        sap: Sap::Control,
        src: TetraEntity::Cmce,
        dest: TetraEntity::Brew,
        msg: SapMsgInnerView::CmceSdsData(
            CmceSdsDataView { source_issi, dest_issi, user_defined_data: data },
        ),
    }
}

/// State and outgoing messages after an SDS was sent: an individual SDS to an unreachable
/// destination waits, any other leaves at once.
pub open spec fn sent(
    s: SdsBsView,
    queue: Seq<SapMsgView>,
    now: u64,
    source_issi: u32,
    dest_ssi: u32,
    ssi_type: SsiType,
    data: SdsUserDataView,
) -> (SdsBsView, Seq<SapMsgView>) {
    if ssi_type == SsiType::Issi && !s.config.state.reachable(dest_ssi) {
        (
            SdsBsView {
                pending_sds: s.pending_sds.push(
                    PendingSdsView {
                        source_issi,
                        dest_ssi,
                        user_defined_data: data,
                        queued_at: now,
                    },
                ),
                ..s
            },
            queue,
        )
    } else {
        (
            s,
            queue.push(d_sds_data(&s.config.state, source_issi, dest_ssi, ssi_type, data, false)),
        )
    }
}

/// What becomes of a waiting SDS.
pub enum Fate {
    /// Its destination is back in time: it is delivered.
    Deliver,
    /// Its deadline is over: it is dropped and its sender told.
    Fail,
    /// It goes on waiting.
    Wait,
}

/// What becomes of `p` at `now`.
pub open spec fn fate(state: &CellState, now: u64, p: PendingSdsView) -> Fate {
    if elapsed(now, p.queued_at) > SDS_DEFER_DEADLINE_SECS * NANOS_PER_SEC {
        Fate::Fail
    } else if state.reachable(p.dest_ssi) {
        Fate::Deliver
    } else {
        Fate::Wait
    }
}

/// The report that `p` failed: from its destination to its sender, under its message reference. It
/// goes out on the main control channel also while its sender is in a call; a sender that misses it
/// there gives up by its own timeout. An SDS without a message reference has nothing to report on.
pub open spec fn failure_report(state: &CellState, p: PendingSdsView) -> Seq<SapMsgView> {
    match message_reference(p.user_defined_data) {
        Some(reference) => seq![
            d_sds_data(
                state,
                p.dest_ssi,
                p.source_issi,
                SsiType::Issi,
                report_data(SDS_TL_STATUS_UNDELIVERABLE, reference),
                true,
            ),
        ],
        None => seq![],
    }
}

/// The messages that the fate of `p` brings.
pub open spec fn fate_messages(state: &CellState, now: u64, p: PendingSdsView) -> Seq<SapMsgView> {
    match fate(state, now, p) {
        Fate::Deliver => seq![
            d_sds_data(
                state,
                p.source_issi,
                p.dest_ssi,
                SsiType::Issi,
                p.user_defined_data,
                false,
            ),
        ],
        Fate::Fail => failure_report(state, p),
        Fate::Wait => seq![],
    }
}

/// The messages that the fates of `pending` bring, in order.
pub open spec fn flush_messages(
    state: &CellState,
    now: u64,
    pending: Seq<PendingSdsView>,
) -> Seq<SapMsgView>
    decreases pending.len(),
{
    if pending.len() == 0 {
        seq![]
    } else {
        flush_messages(state, now, pending.drop_last()) + fate_messages(state, now, pending.last())
    }
}

/// Those of `pending` that go on waiting, in order.
pub open spec fn still_waiting(
    state: &CellState,
    now: u64,
    pending: Seq<PendingSdsView>,
) -> Seq<PendingSdsView> {
    pending.filter(|p: PendingSdsView| fate(state, now, p) is Wait)
}

impl SdsBsView {
    /// Afterwards only those SDS wait that are neither delivered nor failed.
    pub open spec fn flushed(self, now: u64) -> Self {
        SdsBsView {
            pending_sds: still_waiting(&self.config.state, now, self.pending_sds),
            ..self
        }
    }
}

fn channel_for(traffic: Option<TrafficSlot>) -> (r: Option<CmceChanAllocReq>)
    ensures
        r is Some == stealing(traffic) is Some,
        r matches Some(alloc) ==> stealing(traffic) == Some(alloc@),
{
    match traffic {
        Some(slot) => {
            if 1 <= slot.timeslot && slot.timeslot <= 4 {
                let timeslots: [bool; 4] = [
                    slot.timeslot == 1,
                    slot.timeslot == 2,
                    slot.timeslot == 3,
                    slot.timeslot == 4,
                ];
                assert(timeslots@ =~= Seq::new(4, |i: int| i == slot.timeslot - 1));
                Some(
                    CmceChanAllocReq {
                        usage: Some(slot.usage),
                        carrier: Some(slot.carrier),
                        timeslots,
                        alloc_type: ChanAllocType::Replace,
                        ul_dl_assigned: UlDlAssignment::Dl,
                    },
                )
            } else {
                None
            }
        },
        None => None,
    }
}

fn push_downlink(
    queue: &mut MessageQueue,
    sdu: DownlinkPdu,
    chan_alloc: Option<CmceChanAllocReq>,
    idle_service: Layer2Service,
    main_address: TetraAddress,
)
    ensures
        final(queue)@ == old(queue)@.push(
            downlink(
                sdu@,
                match chan_alloc {
                    Some(alloc) => Some(alloc@),
                    None => None,
                },
                idle_service,
                main_address,
            ),
        ),
{
    let steal = chan_alloc.is_some();
    queue.push_back(
        SapMsg {
            sap: Sap::LcmcSap,
            src: TetraEntity::Cmce,
            dest: TetraEntity::Mle,
            msg: SapMsgInner::LcmcMleUnitdataReq(
                LcmcMleUnitdataReq {
                    sdu,
                    handle: 0,
                    endpoint_id: 0,
                    link_id: 0,
                    layer2service: if steal {
                        Layer2Service::Unacknowledged
                    } else {
                        idle_service
                    },
                    pdu_prio: 0,
                    layer2_qos: 0,
                    stealing_permission: steal,
                    stealing_repeats_flag: false,
                    chan_alloc,
                    main_address,
                    tx_reporter: false,
                },
            ),
        },
    );
}

/// Hands an SDS to the network link.
pub fn forward_to_brew(
    queue: &mut MessageQueue,
    source_issi: u32,
    dest_issi: u32,
    user_defined_data: SdsUserData,
)
    ensures
        final(queue)@ == old(queue)@.push(to_brew(source_issi, dest_issi, user_defined_data@)),
{
    queue.push_back(
        SapMsg {
            sap: Sap::Control,
            src: TetraEntity::Cmce,
            dest: TetraEntity::Brew,
            msg: SapMsgInner::CmceSdsData(
                CmceSdsData { source_issi, dest_issi, user_defined_data },
            ),
        },
    );
}

impl SdsBsSubentity {
    /// True when `dest_ssi` is on a traffic timeslot of this cell.
    pub fn issi_on_local_traffic(&self, dest_ssi: u32) -> (r: bool)
        ensures
            r == self@.config.state.on_traffic(dest_ssi),
    {
        proof {
            lemma_on_traffic(&self.config.state, dest_ssi);
        }
        self.config.state.traffic_slot(dest_ssi, SsiType::Issi).is_some()
    }

    /// True when `dest_ssi` is an energy economy MS outside its monitoring window.
    pub fn ee_window_blocks(&self, dest_ssi: u32) -> (r: bool)
        ensures
            r == self@.config.state.asleep(dest_ssi),
    {
        match self.config.state.ee_window_open.get(&dest_ssi) {
            Some(open) => !*open,
            None => false,
        }
    }

    /// Sends a D-STATUS to an MS: by stealing on its traffic timeslot while it is in a call, else on
    /// the main control channel.
    pub fn send_d_status(
        &self,
        queue: &mut MessageQueue,
        source_issi: u32,
        dest_issi: u32,
        pre_coded_status: PreCodedStatus,
    )
        ensures
            final(queue)@ == old(queue)@.push(
                d_status(&self@.config.state, source_issi, dest_issi, pre_coded_status),
            ),
    {
        let traffic = self.config.state.traffic_slot(dest_issi, SsiType::Issi);
        push_downlink(
            queue,
            DownlinkPdu::DStatus(
                DStatus {
                    calling_party_type_identifier: PartyTypeIdentifier::Ssi,
                    calling_party_address_ssi: source_issi,
                    calling_party_extension: None,
                    pre_coded_status,
                    external_subscriber_number: false,
                    dm_ms_address: false,
                },
            ),
            channel_for(traffic),
            Layer2Service::Todo,
            TetraAddress { ssi: dest_issi, ssi_type: SsiType::Issi },
        );
    }

    /// Sends a D-SDS-DATA at once.
    pub fn deliver_d_sds_data_now(
        &self,
        queue: &mut MessageQueue,
        source_issi: u32,
        dest_ssi: u32,
        dest_ssi_type: SsiType,
        user_defined_data: SdsUserData,
        force_mcch: bool,
    )
        ensures
            final(queue)@ == old(queue)@.push(
                d_sds_data(
                    &self@.config.state,
                    source_issi,
                    dest_ssi,
                    dest_ssi_type,
                    user_defined_data@,
                    force_mcch,
                ),
            ),
    {
        let traffic = if force_mcch {
            None
        } else {
            self.config.state.traffic_slot(dest_ssi, dest_ssi_type)
        };
        push_downlink(
            queue,
            DownlinkPdu::DSdsData(
                DSdsData {
                    calling_party_type_identifier: PartyTypeIdentifier::Ssi,
                    calling_party_address_ssi: source_issi,
                    calling_party_extension: None,
                    user_defined_data,
                    external_subscriber_number: false,
                    dm_ms_address: false,
                },
            ),
            channel_for(traffic),
            match dest_ssi_type {
                SsiType::Issi => Layer2Service::Acknowledged,
                SsiType::Gssi => Layer2Service::Unacknowledged,
            },
            TetraAddress { ssi: dest_ssi, ssi_type: dest_ssi_type },
        );
    }

    /// Sends a D-SDS-DATA to an MS or a group. An individual SDS waits while its destination does
    /// not listen to the main control channel.
    pub fn send_d_sds_data(
        &mut self,
        queue: &mut MessageQueue,
        now: u64,
        source_issi: u32,
        dest_ssi: u32,
        dest_ssi_type: SsiType,
        user_defined_data: SdsUserData,
    )
        ensures
            (final(self)@, final(queue)@) == sent(
                old(self)@,
                old(queue)@,
                now,
                source_issi,
                dest_ssi,
                dest_ssi_type,
                user_defined_data@,
            ),
    {
        if dest_ssi_type == SsiType::Issi && (self.issi_on_local_traffic(dest_ssi)
            || self.ee_window_blocks(dest_ssi)) {
            let p = PendingSds { source_issi, dest_ssi, user_defined_data, queued_at: now };
            self.pending_sds.push(p);
            assert(self@.pending_sds =~= old(self)@.pending_sds.push(p@));
            return;
        }
        self.deliver_d_sds_data_now(
            queue,
            source_issi,
            dest_ssi,
            dest_ssi_type,
            user_defined_data,
            false,
        );
    }

    /// Tells the sender of `p` that it was not delivered, where `p` has a message reference: at once
    /// and on the main control channel.
    pub fn report_sds_failure(&self, queue: &mut MessageQueue, p: &PendingSds)
        ensures
            final(queue)@ == old(queue)@ + failure_report(&self@.config.state, p@),
    {
        match sds_tl_message_reference(&p.user_defined_data) {
            Some(reference) => {
                let report = sds_tl_report(SDS_TL_STATUS_UNDELIVERABLE, reference);
                self.deliver_d_sds_data_now(
                    queue,
                    p.dest_ssi,
                    p.source_issi,
                    SsiType::Issi,
                    report,
                    true,
                );
            },
            None => {},
        }
    }

    /// Delivers the waiting SDS whose destination is back, and fails those whose deadline is over.
    pub fn flush_pending_sds(&mut self, queue: &mut MessageQueue, now: u64)
        ensures
            final(self)@ == old(self)@.flushed(now),
            final(queue)@ == old(queue)@ + flush_messages(
                &old(self)@.config.state,
                now,
                old(self)@.pending_sds,
            ),
    {
        let mut waiting: Vec<PendingSds> = Vec::new();
        std::mem::swap(&mut waiting, &mut self.pending_sds);
        let ghost all = waiting@;
        let ghost state = old(self)@.config.state;
        let ghost views = pending_views(all);
        proof {
            reveal(Seq::filter);
            assert(views == old(self)@.pending_sds);
            assert(views.take(0) =~= Seq::empty());
            assert(self@.pending_sds =~= still_waiting(&state, now, views.take(0)));
            assert(queue@ =~= old(queue)@ + flush_messages(&state, now, views.take(0)));
        }
        for p in it: waiting
            invariant
                it.seq() == all,
                views == pending_views(all),
                state == old(self)@.config.state,
                self@ == (SdsBsView {
                    pending_sds: still_waiting(&state, now, views.take(it.index())),
                    ..old(self)@
                }),
                queue@ == old(queue)@ + flush_messages(&state, now, views.take(it.index())),
        {
            proof {
                reveal(Seq::filter);
                assert(p@ == views[it.index()]);
                assert(views.take(it.index() + 1).drop_last() =~= views.take(it.index()));
                assert(views.take(it.index() + 1).last() == p@);
            }
            let ghost before = self@.pending_sds;
            if is_over(now, p.queued_at, SDS_DEFER_DEADLINE_SECS) {
                self.report_sds_failure(queue, &p);
            } else if !self.issi_on_local_traffic(p.dest_ssi) && !self.ee_window_blocks(p.dest_ssi) {
                self.deliver_d_sds_data_now(
                    queue,
                    p.source_issi,
                    p.dest_ssi,
                    SsiType::Issi,
                    p.user_defined_data,
                    false,
                );
            } else {
                self.pending_sds.push(p);
                assert(self@.pending_sds =~= before.push(p@));
            }
            assert(queue@ =~= old(queue)@ + flush_messages(&state, now, views.take(it.index() + 1)));
        }
        assert(views.take(all.len() as int) =~= views);
    }
}

} // verus!
