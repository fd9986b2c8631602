//! Laws of delivery and of the SDS that wait.

use vstd::prelude::*;

use crate::commands::{text_data, DASHBOARD_ISSI, MAX_TEXT_OCTETS};
use crate::config::{lemma_on_traffic, CellState};
use crate::delivery::{
    d_sds_data, d_status, failure_report, fate, fate_messages, flush_messages, sds_pdu, sent,
    still_waiting, to_brew, SDS_DEFER_DEADLINE_SECS,
};
use crate::entity::{PendingSdsView, SdsBsView};
use crate::pdu::{PreCodedStatus, SdsUserDataView, SsiType, TetraAddress};
use crate::routing::{
    routed_from_brew, routed_from_control, routed_from_rf, valid_ssi, MAX_TETRA_SSI,
};
use crate::sap::{DownlinkPduView, Layer2Service, SapMsgInnerView, SapMsgView};
use crate::sds_tl::{is_report, message_reference, protocol_id, sds_text};
use crate::telemetry::TelemetryEventView;
use crate::time::{elapsed, NANOS_PER_SEC};

verus! {

/// True when the PDU in the message, if there is one, can be serialised: its identities fit 24 bits
/// and its length fits the length indicator.
pub open spec fn carriable(m: SapMsgView) -> bool {
    match m.msg {
        SapMsgInnerView::LcmcMleUnitdataReq(req) => {
            &&& req.main_address.ssi <= MAX_TETRA_SSI
            &&& match req.sdu {
                DownlinkPduView::DSdsData(pdu) => pdu.calling_party_address_ssi <= MAX_TETRA_SSI
                    && pdu.user_defined_data.length_fits(),
                DownlinkPduView::DStatus(pdu) => pdu.calling_party_address_ssi <= MAX_TETRA_SSI,
            }
        },
        _ => true,
    }
}

/// True when the PDU of a waiting SDS, and that of the report on it, can be serialised.
pub open spec fn carriable_later(p: PendingSdsView) -> bool {
    p.source_issi <= MAX_TETRA_SSI && p.dest_ssi <= MAX_TETRA_SSI && p.user_defined_data.length_fits()
}

/// The message at the end of the queue or the SDS at the end of the waiting ones, whichever sending
/// added, carries `data` from `source` to `dest`.
pub open spec fn carries(
    before: SdsBsView,
    queue: Seq<SapMsgView>,
    after: SdsBsView,
    queue_after: Seq<SapMsgView>,
    source: u32,
    dest: u32,
    data: SdsUserDataView,
) -> bool {
    ||| {
        &&& queue_after == queue
        &&& after.pending_sds.len() == before.pending_sds.len() + 1
        &&& after.pending_sds.last().source_issi == source
        &&& after.pending_sds.last().dest_ssi == dest
        &&& after.pending_sds.last().user_defined_data == data
    }
    ||| {
        &&& after.pending_sds == before.pending_sds
        &&& queue_after.len() == queue.len() + 1
        &&& queue_after.drop_last() == queue
        &&& match queue_after.last().msg {
            SapMsgInnerView::LcmcMleUnitdataReq(req) => req.main_address.ssi == dest && req.sdu
                == sds_pdu(source, data),
            SapMsgInnerView::CmceSdsData(sds) => sds.source_issi == source && sds.dest_issi == dest
                && sds.user_defined_data == data,
            _ => false,
        }
    }
}

/// An SDS from a control link that is accepted never makes a PDU that cannot be serialised, neither
/// now nor when it has waited.
pub proof fn law_control_sds_is_carriable(
    s: SdsBsView,
    queue: Seq<SapMsgView>,
    now: u64,
    source: u32,
    dest: u32,
    is_group: bool,
    data: SdsUserDataView,
)
    requires
        valid_ssi(source),
        valid_ssi(dest),
        data.length_fits(),
        forall|i: int| 0 <= i < queue.len() ==> carriable(#[trigger] queue[i]),
        forall|i: int| 0 <= i < s.pending_sds.len() ==> carriable_later(#[trigger] s.pending_sds[i]),
    ensures
        ({
            let (next, after) = routed_from_control(s, queue, now, source, dest, is_group, data);
            &&& forall|i: int| 0 <= i < after.len() ==> carriable(#[trigger] after[i])
            &&& forall|i: int|
                0 <= i < next.pending_sds.len() ==> carriable_later(#[trigger] next.pending_sds[i])
        }),
{
}

/// A text that a control link may send fits the length indicator.
pub proof fn law_accepted_text_fits(reference: u8, text: Seq<u8>)
    requires
        text.len() <= MAX_TEXT_OCTETS,
    ensures
        text_data(reference, text).length_fits(),
{
}

/// What the fates of waiting SDS bring can be serialised, the reports on those that failed
/// included.
pub proof fn law_flush_is_carriable(state: &CellState, now: u64, pending: Seq<PendingSdsView>)
    requires
        forall|i: int| 0 <= i < pending.len() ==> carriable_later(#[trigger] pending[i]),
    ensures
        forall|i: int|
            0 <= i < flush_messages(state, now, pending).len() ==> carriable(
                #[trigger] flush_messages(state, now, pending)[i],
            ),
    decreases pending.len(),
{
    if pending.len() > 0 {
        let rest = pending.drop_last();
        assert forall|i: int| 0 <= i < rest.len() implies carriable_later(#[trigger] rest[i]) by {
            assert(rest[i] == pending[i]);
        }
        law_flush_is_carriable(state, now, rest);
        assert(carriable_later(pending[pending.len() - 1]));
        let more = fate_messages(state, now, pending.last());
        assert forall|i: int| 0 <= i < more.len() implies carriable(#[trigger] more[i]) by {}
        let head = flush_messages(state, now, rest);
        assert forall|i: int| 0 <= i < (head + more).len() implies carriable(
            #[trigger] (head + more)[i],
        ) by {
            if i < head.len() {
                assert(carriable(head[i]));
            } else {
                assert(carriable(more[i - head.len()]));
            }
        }
    }
}

/// Sending carries the user data unchanged from the source to the destination, now or later.
pub proof fn law_sending_is_verbatim(
    s: SdsBsView,
    queue: Seq<SapMsgView>,
    now: u64,
    source: u32,
    dest: u32,
    ssi_type: SsiType,
    data: SdsUserDataView,
)
    ensures
        ({
            let (next, after) = sent(s, queue, now, source, dest, ssi_type, data);
            carries(s, queue, next, after, source, dest, data)
        }),
{
    let (next, after) = sent(s, queue, now, source, dest, ssi_type, data);
    if after != queue {
        assert(after.drop_last() =~= queue);
    }
}

/// An SDS from a control link is carried unchanged: a complete user data goes out as it came.
pub proof fn law_control_sds_is_verbatim(
    s: SdsBsView,
    queue: Seq<SapMsgView>,
    now: u64,
    source: u32,
    dest: u32,
    is_group: bool,
    data: SdsUserDataView,
)
    ensures
        ({
            let (next, after) = routed_from_control(s, queue, now, source, dest, is_group, data);
            carries(s, queue, next, after, source, dest, data)
        }),
{
    let (next, after) = routed_from_control(s, queue, now, source, dest, is_group, data);
    if after != queue {
        assert(after.drop_last() =~= queue);
    }
}

/// True when the message goes to a mobile station on the main control channel, acknowledged, and
/// steals from no traffic channel.
pub open spec fn on_main_channel(m: SapMsgView) -> bool {
    &&& m.msg matches SapMsgInnerView::LcmcMleUnitdataReq(req)
    &&& !req.stealing_permission
    &&& req.chan_alloc is None
    &&& req.layer2service == Layer2Service::Acknowledged
}

/// An individual SDS that leaves at once does so on the main control channel, acknowledged; it is
/// never stolen onto a traffic channel.
pub proof fn law_individual_sds_is_not_stolen(
    s: SdsBsView,
    queue: Seq<SapMsgView>,
    now: u64,
    source: u32,
    dest: u32,
    data: SdsUserDataView,
)
    ensures
        ({
            let (next, after) = sent(s, queue, now, source, dest, SsiType::Issi, data);
            if s.config.state.reachable(dest) {
                &&& next == s
                &&& after.len() == queue.len() + 1
                &&& after.drop_last() == queue
                &&& on_main_channel(after.last())
            } else {
                after == queue
            }
        }),
{
    lemma_on_traffic(&s.config.state, dest);
    let (next, after) = sent(s, queue, now, source, dest, SsiType::Issi, data);
    if s.config.state.reachable(dest) {
        assert(after.drop_last() =~= queue);
    }
}

/// An SDS that has waited is not stolen onto a traffic channel either, nor is the report on one that
/// failed, whatever calls its sender is in.
pub proof fn law_waiting_sds_is_not_stolen(state: &CellState, now: u64, pending: Seq<PendingSdsView>)
    ensures
        forall|i: int|
            0 <= i < flush_messages(state, now, pending).len() ==> on_main_channel(
                #[trigger] flush_messages(state, now, pending)[i],
            ),
    decreases pending.len(),
{
    if pending.len() > 0 {
        let rest = pending.drop_last();
        law_waiting_sds_is_not_stolen(state, now, rest);
        let head = flush_messages(state, now, rest);
        let more = fate_messages(state, now, pending.last());
        lemma_on_traffic(state, pending.last().dest_ssi);
        law_failure_report_uses_main_channel(state, pending.last());
        assert forall|i: int| 0 <= i < (head + more).len() implies on_main_channel(
            #[trigger] (head + more)[i],
        ) by {
            if i < head.len() {
                assert(on_main_channel(head[i]));
            } else {
                assert(on_main_channel(more[i - head.len()]));
            }
        }
    }
}

/// The report on a failed SDS goes out on the main control channel, whatever calls are up.
pub proof fn law_failure_report_uses_main_channel(state: &CellState, p: PendingSdsView)
    ensures
        forall|i: int|
            0 <= i < failure_report(state, p).len() ==> on_main_channel(
                #[trigger] failure_report(state, p)[i],
            ),
{
}

/// An individual SDS to a destination that does not listen makes no message: it waits.
pub proof fn law_unreachable_waits(
    s: SdsBsView,
    queue: Seq<SapMsgView>,
    now: u64,
    source: u32,
    dest: u32,
    data: SdsUserDataView,
)
    requires
        !s.config.state.reachable(dest),
    ensures
        ({
            let (next, after) = sent(s, queue, now, source, dest, SsiType::Issi, data);
            &&& after == queue
            &&& next.pending_sds.drop_last() == s.pending_sds
            &&& next.pending_sds.last() == (PendingSdsView {
                source_issi: source,
                dest_ssi: dest,
                user_defined_data: data,
                queued_at: now,
            })
        }),
{
    let (next, after) = sent(s, queue, now, source, dest, SsiType::Issi, data);
    assert(next.pending_sds.drop_last() =~= s.pending_sds);
}

/// An SDS to a group never waits.
pub proof fn law_group_sds_never_waits(
    s: SdsBsView,
    queue: Seq<SapMsgView>,
    now: u64,
    source: u32,
    dest: u32,
    data: SdsUserDataView,
)
    ensures
        ({
            let (next, after) = sent(s, queue, now, source, dest, SsiType::Gssi, data);
            next == s && after.len() == queue.len() + 1
        }),
{
}

/// The reply to a radio that has just been heard on the main control channel goes out there,
/// whatever calls are up.
pub proof fn law_forced_reply_uses_main_channel(
    state: &CellState,
    source: u32,
    dest: u32,
    data: SdsUserDataView,
)
    ensures
        on_main_channel(d_sds_data(state, source, dest, SsiType::Issi, data, true)),
{
}

/// No SDS is delivered after its deadline, nor to a destination that does not listen.
pub proof fn law_no_late_delivery(state: &CellState, now: u64, p: PendingSdsView)
    ensures
        fate(state, now, p) is Deliver ==> elapsed(now, p.queued_at) <= SDS_DEFER_DEADLINE_SECS
            * NANOS_PER_SEC && state.reachable(p.dest_ssi),
{
}

/// What has failed is never delivered, whenever its destination comes back.
pub proof fn law_failed_is_never_delivered(
    before: &CellState,
    first: u64,
    after: &CellState,
    second: u64,
    p: PendingSdsView,
)
    requires
        first <= second,
        fate(before, first, p) is Fail,
    ensures
        fate(after, second, p) is Fail,
{
}

/// Within the deadline an SDS is delivered as soon as its destination listens.
pub proof fn law_delivery_as_soon_as_reachable(state: &CellState, now: u64, p: PendingSdsView)
    requires
        elapsed(now, p.queued_at) <= SDS_DEFER_DEADLINE_SECS * NANOS_PER_SEC,
        state.reachable(p.dest_ssi),
    ensures
        fate_messages(state, now, p) == seq![
            d_sds_data(state, p.source_issi, p.dest_ssi, SsiType::Issi, p.user_defined_data, false),
        ],
{
}

/// An SDS waits after a tick exactly when it waited before and is neither delivered nor failed: its
/// outcome is final, and what has failed is not delivered by any later tick.
pub proof fn law_outcome_is_final(s: SdsBsView, now: u64, p: PendingSdsView)
    ensures
        s.flushed(now).pending_sds.contains(p) <==> s.pending_sds.contains(p) && fate(
            &s.config.state,
            now,
            p,
        ) is Wait,
{
    lemma_still_waiting(&s.config.state, now, s.pending_sds, p);
}

/// After a tick no SDS waits whose deadline is over.
pub proof fn law_waiting_is_bounded(s: SdsBsView, now: u64, i: int)
    requires
        0 <= i < s.flushed(now).pending_sds.len(),
    ensures
        elapsed(now, s.flushed(now).pending_sds[i].queued_at) <= SDS_DEFER_DEADLINE_SECS
            * NANOS_PER_SEC,
{
    let p = s.flushed(now).pending_sds[i];
    assert(s.flushed(now).pending_sds.contains(p));
    law_outcome_is_final(s, now, p);
}

/// Every waiting SDS that is delivered or fails at a tick has its message, or its report, among
/// those of the tick.
pub proof fn law_every_outcome_is_sent(
    state: &CellState,
    now: u64,
    pending: Seq<PendingSdsView>,
    i: int,
    j: int,
)
    requires
        0 <= i < pending.len(),
        0 <= j < fate_messages(state, now, pending[i]).len(),
    ensures
        flush_messages(state, now, pending).contains(fate_messages(state, now, pending[i])[j]),
    decreases pending.len(),
{
    let rest = pending.drop_last();
    let head = flush_messages(state, now, rest);
    let more = fate_messages(state, now, pending.last());
    let m = fate_messages(state, now, pending[i])[j];
    if i < rest.len() {
        assert(rest[i] == pending[i]);
        law_every_outcome_is_sent(state, now, rest, i, j);
        let k = choose|k: int| 0 <= k < head.len() && head[k] == m;
        assert((head + more)[k] == m);
    } else {
        assert((head + more)[head.len() + j] == m);
    }
}

/// A tick brings at most one message for each SDS that waited, and none for those that go on
/// waiting.
pub proof fn law_one_message_per_outcome(state: &CellState, now: u64, pending: Seq<PendingSdsView>)
    ensures
        flush_messages(state, now, pending).len() + still_waiting(state, now, pending).len()
            <= pending.len(),
    decreases pending.len(),
{
    reveal(Seq::filter);
    if pending.len() > 0 {
        law_one_message_per_outcome(state, now, pending.drop_last());
    }
}

/// True when `m` is a report to the sender of `p`, in the name of its destination and under its
/// message reference, that has no message reference of its own.
pub open spec fn reports_on(m: SapMsgView, p: PendingSdsView) -> bool {
    match m.msg {
        SapMsgInnerView::LcmcMleUnitdataReq(req) => match req.sdu {
            DownlinkPduView::DSdsData(pdu) => {
                &&& req.main_address == (TetraAddress {
                    ssi: p.source_issi,
                    ssi_type: SsiType::Issi,
                })
                &&& pdu.calling_party_address_ssi == p.dest_ssi
                &&& is_report(pdu.user_defined_data)
                &&& message_reference(pdu.user_defined_data) is None
                &&& message_reference(p.user_defined_data) == Some(
                    pdu.user_defined_data.octets()[3],
                )
            },
            _ => false,
        },
        _ => false,
    }
}

/// The report on a failed SDS goes from its destination to its sender, under its message reference,
/// and is itself a report: its own failure would be reported to nobody.
pub proof fn law_failure_report(state: &CellState, p: PendingSdsView)
    ensures
        failure_report(state, p).len() == if message_reference(p.user_defined_data) is Some {
            1int
        } else {
            0int
        },
        forall|i: int|
            0 <= i < failure_report(state, p).len() ==> reports_on(
                #[trigger] failure_report(state, p)[i],
                p,
            ),
{
}

proof fn lemma_still_waiting(
    state: &CellState,
    now: u64,
    pending: Seq<PendingSdsView>,
    p: PendingSdsView,
)
    ensures
        still_waiting(state, now, pending).contains(p) <==> pending.contains(p) && fate(
            state,
            now,
            p,
        ) is Wait,
    decreases pending.len(),
{
    reveal(Seq::filter);
    if pending.len() > 0 {
        let rest = pending.drop_last();
        let last = pending.last();
        lemma_still_waiting(state, now, rest, p);
        assert(pending =~= rest.push(last));
        broadcast use vstd::seq_lib::group_seq_properties;

        assert(pending.contains(p) <==> rest.contains(p) || p == last);
    }
}

/// A radio registered here gets an SDS from the network or from another radio individually, also
/// where a group has the same number.
pub proof fn law_individual_before_group(
    s: SdsBsView,
    queue: Seq<SapMsgView>,
    now: u64,
    source: u32,
    dest: u32,
    data: SdsUserDataView,
)
    requires
        s.config.state.registered@.contains(dest),
    ensures
        routed_from_brew(s, queue, now, source, dest, data) == sent(
            s.logged("net"@, source, dest, false, data),
            queue,
            now,
            source,
            dest,
            SsiType::Issi,
            data,
        ),
        dest != DASHBOARD_ISSI && !(s.config.wx.enabled && dest == s.config.wx.service_issi)
            ==> routed_from_rf(s, queue, now, source, dest, data).1 == sent(
            s.logged("rx"@, source, dest, s.config.state.groups_with_members@.contains(dest), data),
            queue,
            now,
            source,
            dest,
            SsiType::Issi,
            data,
        ).1,
{
}

/// Only what the dashboard itself sends is diverted to the network; all else that a control link
/// sends goes out over the air, also to a destination that is not registered.
pub proof fn law_only_dashboard_is_diverted(
    s: SdsBsView,
    queue: Seq<SapMsgView>,
    now: u64,
    source: u32,
    dest: u32,
    is_group: bool,
    data: SdsUserDataView,
)
    requires
        source != DASHBOARD_ISSI,
    ensures
        routed_from_control(s, queue, now, source, dest, is_group, data) == sent(
            s.logged("tx"@, source, dest, is_group, data),
            queue,
            now,
            source,
            dest,
            if is_group {
                SsiType::Gssi
            } else {
                SsiType::Issi
            },
            data,
        ),
{
}

/// What the dashboard sends to a destination that is not local reaches the network, where SDS may
/// use it, and nothing goes out over the air.
pub proof fn law_dashboard_reaches_remote(
    s: SdsBsView,
    queue: Seq<SapMsgView>,
    now: u64,
    dest: u32,
    is_group: bool,
    data: SdsUserDataView,
)
    requires
        is_group ==> !s.config.state.groups_with_members@.contains(dest),
        !is_group ==> !s.config.state.registered@.contains(dest),
        s.config.brew_sds_enabled,
    ensures
        routed_from_control(s, queue, now, DASHBOARD_ISSI, dest, is_group, data).1 == queue.push(
            to_brew(DASHBOARD_ISSI, dest, data),
        ),
{
}

/// True when the message, if it goes to a mobile station, may pass the LLC: it steals exactly where
/// it names a timeslot to steal on, and what steals is unacknowledged.
pub open spec fn passes_llc(m: SapMsgView) -> bool {
    m.msg matches SapMsgInnerView::LcmcMleUnitdataReq(req) ==> {
        &&& req.stealing_permission <==> req.chan_alloc is Some
        &&& req.stealing_permission ==> req.layer2service == Layer2Service::Unacknowledged
    }
}

/// Nothing is sent that the LLC would drop because it steals on an acknowledged link.
pub proof fn law_stealing_is_unacknowledged(
    state: &CellState,
    source: u32,
    dest: u32,
    ssi_type: SsiType,
    data: SdsUserDataView,
    force_mcch: bool,
    status: PreCodedStatus,
)
    ensures
        passes_llc(d_sds_data(state, source, dest, ssi_type, data, force_mcch)),
        passes_llc(d_status(state, source, dest, status)),
{
}

/// A status reaches a radio in a call on the timeslot of that call, and on no other.
pub proof fn law_status_reaches_radio_in_call(
    state: &CellState,
    source: u32,
    dest: u32,
    status: PreCodedStatus,
    i: int,
)
    requires
        state.on_traffic(dest),
        1 <= state.traffic_of(dest, SsiType::Issi)->0.timeslot <= 4,
        0 <= i < 4,
    ensures
        ({
            &&& d_status(state, source, dest, status).msg matches SapMsgInnerView::LcmcMleUnitdataReq(
                req,
            )
            &&& req.stealing_permission
            &&& req.chan_alloc matches Some(alloc)
            &&& alloc.timeslots[i] <==> i == state.traffic_of(dest, SsiType::Issi)->0.timeslot - 1
        }),
{
    lemma_on_traffic(state, dest);
}

/// Routing an SDS, wherever it comes from, takes no message out of the queue and changes none.
pub proof fn law_queue_only_grows(
    s: SdsBsView,
    queue: Seq<SapMsgView>,
    now: u64,
    source: u32,
    dest: u32,
    is_group: bool,
    data: SdsUserDataView,
)
    ensures
        queue.is_prefix_of(routed_from_rf(s, queue, now, source, dest, data).1),
        queue.is_prefix_of(routed_from_brew(s, queue, now, source, dest, data).1),
        queue.is_prefix_of(routed_from_control(s, queue, now, source, dest, is_group, data).1),
{
    assert forall|m: SapMsgView| queue.is_prefix_of(#[trigger] queue.push(m)) by {
        assert(queue.push(m).take(queue.len() as int) =~= queue);
    }
    assert(queue.take(queue.len() as int) =~= queue);
}

/// True when the telemetry of `after` goes on from that of `before` with the log entry of an SDS.
pub open spec fn logs_first(
    before: SdsBsView,
    after: SdsBsView,
    direction: Seq<char>,
    source: u32,
    dest: u32,
    data: SdsUserDataView,
) -> bool {
    before.telemetry matches Some(events) ==> {
        &&& after.telemetry matches Some(more)
        &&& more.len() > events.len()
        &&& more.take(events.len() as int) == events
        &&& more[events.len() as int] matches TelemetryEventView::SdsLog {
            direction: d,
            source_issi,
            dest_issi,
            protocol_id: p,
            text,
            ..
        }
        &&& d == direction
        &&& source_issi == source
        &&& dest_issi == dest
        &&& p == protocol_id(data)
        &&& text == sds_text(data)
    }
}

/// Every SDS is in the SDS log, wherever it comes from and whatever becomes of it.
pub proof fn law_every_sds_is_logged(
    s: SdsBsView,
    queue: Seq<SapMsgView>,
    now: u64,
    source: u32,
    dest: u32,
    is_group: bool,
    data: SdsUserDataView,
)
    ensures
        logs_first(
            s,
            routed_from_rf(s, queue, now, source, dest, data).0,
            "rx"@,
            source,
            dest,
            data,
        ),
        logs_first(
            s,
            routed_from_brew(s, queue, now, source, dest, data).0,
            "net"@,
            source,
            dest,
            data,
        ),
        logs_first(
            s,
            routed_from_control(s, queue, now, source, dest, is_group, data).0,
            "tx"@,
            source,
            dest,
            data,
        ),
{
    if let Some(events) = s.telemetry {
        let n = events.len() as int;
        assert forall|e: TelemetryEventView| (#[trigger] events.push(e)).take(n) == events by {
            assert(events.push(e).take(n) =~= events);
        }
        assert forall|e: TelemetryEventView, a: TelemetryEventView|
            (#[trigger] events.push(e).push(a)).take(n) == events by {
            assert(events.push(e).push(a).take(n) =~= events);
        }
    }
}

} // verus!
