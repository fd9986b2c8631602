//! Laws of the emergency supervision.

use vstd::prelude::*;

use crate::commands::{command_outcome, HostAction};
use crate::delivery::sent;
use crate::emergency::{cancels, lists};
use crate::entity::{EmergencySession, SdsBsView};
use crate::laws::routes::tells;
use crate::pdu::{PreCodedStatus, SdsUserDataView, ShortReport, SsiType};
use crate::routing::{routed_from_brew, routed_from_control, routed_from_rf, status_messages};
use crate::sap::{SapMsgView, TetraEntity};
use crate::telemetry::TelemetryEventView;
use crate::time::{elapsed, NANOS_PER_SEC};

verus! {

/// What `event` adds to the balance of alarms and ends of `issi`.
pub open spec fn alarm_weight(event: TelemetryEventView, issi: u32) -> int {
    match event {
        TelemetryEventView::EmergencyAlarm { source_issi, .. } => if source_issi == issi {
            1
        } else {
            0
        },
        TelemetryEventView::EmergencyCancel { source_issi } => if source_issi == issi {
            -1
        } else {
            0
        },
        _ => 0,
    }
}

/// Alarms raised for `issi` minus ends announced for it.
pub open spec fn alarm_balance(events: Seq<TelemetryEventView>, issi: u32) -> int
    decreases events.len(),
{
    if events.len() == 0 {
        0
    } else {
        alarm_balance(events.drop_last(), issi) + alarm_weight(events.last(), issi)
    }
}

/// 1 for a radio in emergency, 0 for any other.
pub open spec fn in_emergency(s: SdsBsView, issi: u32) -> int {
    if s.emergency_sessions.contains_key(issi) {
        1
    } else {
        0
    }
}

/// True when the dashboard's account of emergencies is right: one alarm more than ends for a radio
/// in emergency, as many for any other.
pub open spec fn accounted(s: SdsBsView) -> bool {
    s.telemetry matches Some(events) ==> forall|issi: u32| #[trigger]
        alarm_balance(events, issi) == in_emergency(s, issi)
}

proof fn lemma_balance_push(events: Seq<TelemetryEventView>, event: TelemetryEventView, issi: u32)
    ensures
        alarm_balance(events.push(event), issi) == alarm_balance(events, issi) + alarm_weight(
            event,
            issi,
        ),
{
    assert(events.push(event).drop_last() =~= events);
}

proof fn lemma_emitted(s: SdsBsView, next: SdsBsView, event: TelemetryEventView)
    requires
        accounted(s),
        next.telemetry == s.emitted(event).telemetry,
        forall|issi: u32|
            #![trigger alarm_weight(event, issi)]
            in_emergency(next, issi) == in_emergency(s, issi) + alarm_weight(event, issi),
    ensures
        accounted(next),
{
    if let Some(events) = s.telemetry {
        assert forall|issi: u32| #[trigger]
            alarm_balance(events.push(event), issi) == in_emergency(next, issi) by {
            lemma_balance_push(events, event, issi);
            assert(alarm_balance(events, issi) == in_emergency(s, issi));
        }
    }
}

/// A service without emergencies whose sink holds no events yet is accounted.
pub proof fn law_account_starts_right(s: SdsBsView)
    requires
        s.emergency_sessions == Map::<u32, EmergencySession>::empty(),
        s.telemetry matches Some(events) ==> events.len() == 0,
    ensures
        accounted(s),
{
}

/// A status keeps the account right: alarms and ends are announced when an emergency starts and
/// ends, and only then.
pub proof fn law_status_keeps_account(
    s: SdsBsView,
    now: u64,
    source: u32,
    dest: u32,
    status: PreCodedStatus,
)
    requires
        accounted(s),
    ensures
        accounted(s.supervised(now, source, dest, status)),
{
    match status {
        PreCodedStatus::Emergency => {
            let next = s.entered(now, source, dest);
            if !s.emergency_sessions.contains_key(source) {
                lemma_emitted(
                    s,
                    next,
                    TelemetryEventView::EmergencyAlarm { source_issi: source, dest_ssi: dest },
                );
            } else if let Some(events) = s.telemetry {
                assert forall|issi: u32| #[trigger]
                    alarm_balance(events, issi) == in_emergency(next, issi) by {
                    assert(in_emergency(next, issi) == in_emergency(s, issi));
                }
            }
        },
        PreCodedStatus::SdsTl(_) => {},
        PreCodedStatus::Other(_) => law_clear_keeps_account(s, source),
    }
}

/// Ending an emergency keeps the account right.
pub proof fn law_clear_keeps_account(s: SdsBsView, source: u32)
    requires
        accounted(s),
    ensures
        accounted(s.cleared(source)),
{
    if s.emergency_sessions.contains_key(source) {
        lemma_emitted(
            s,
            s.cleared(source),
            TelemetryEventView::EmergencyCancel { source_issi: source },
        );
    }
}

/// Ending several emergencies, as an operator does and as silence does, keeps the account right.
pub proof fn law_clear_each_keeps_account(s: SdsBsView, order: Seq<u32>)
    requires
        accounted(s),
        order.no_duplicates(),
        order.to_set().subset_of(s.emergency_sessions.dom()),
    ensures
        accounted(s.cleared_each(order)),
    decreases order.len(),
{
    if order.len() == 0 {
        assert(order.to_set() =~= Set::empty()) by {
            assert(forall|x: u32| !order.contains(x));
        }
        assert(s.cleared_each(order) =~= s);
    } else {
        let rest = order.drop_last();
        let last = order.last();
        assert(order =~= rest.push(last));
        assert(rest.to_set().insert(last) =~= order.to_set()) by {
            rest.lemma_push_to_set_commute(last);
        }
        assert(!rest.contains(last)) by {
            if rest.contains(last) {
                let i = choose|i: int| 0 <= i < rest.len() && rest[i] == last;
                assert(order[i] == order[order.len() - 1]);
            }
        }
        assert(rest.no_duplicates());
        assert(rest.to_set().subset_of(s.emergency_sessions.dom()));
        assert(order.to_set().contains(last));
        law_clear_each_keeps_account(s, rest);
        law_clear_keeps_account(s.cleared_each(rest), last);
        assert(cancels(order) =~= cancels(rest).push(
            TelemetryEventView::EmergencyCancel { source_issi: last },
        ));
        assert(s.cleared_each(rest).cleared(last) =~= s.cleared_each(order));
    }
}

/// Events other than alarms and ends keep the account right.
pub proof fn law_other_events_keep_account(s: SdsBsView, event: TelemetryEventView)
    requires
        accounted(s),
        event is SdsLog || event is SdsActivity,
    ensures
        accounted(s.emitted(event)),
{
    lemma_emitted(s, s.emitted(event), event);
}

/// Sending keeps the account right.
pub proof fn law_sending_keeps_account(
    s: SdsBsView,
    queue: Seq<SapMsgView>,
    now: u64,
    source: u32,
    dest: u32,
    ssi_type: SsiType,
    data: SdsUserDataView,
)
    requires
        accounted(s),
    ensures
        accounted(sent(s, queue, now, source, dest, ssi_type, data).0),
{
    let next = sent(s, queue, now, source, dest, ssi_type, data).0;
    assert(forall|issi: u32| in_emergency(next, issi) == in_emergency(s, issi));
}

/// A tick's dealing with the waiting SDS keeps the account right.
pub proof fn law_flush_keeps_account(s: SdsBsView, now: u64)
    requires
        accounted(s),
    ensures
        accounted(s.flushed(now)),
{
    let next = s.flushed(now);
    assert(forall|issi: u32| in_emergency(next, issi) == in_emergency(s, issi));
}

/// A tick keeps the account right.
pub proof fn law_tick_keeps_account(s: SdsBsView, now: u64, order: Seq<u32>)
    requires
        accounted(s),
        lists(order, s.expired(now)),
    ensures
        accounted(s.cleared_each(order).flushed(now)),
{
    law_clear_each_keeps_account(s, order);
    law_flush_keeps_account(s.cleared_each(order), now);
}

/// Routing an SDS, wherever it comes from, keeps the account right.
pub proof fn law_routing_keeps_account(
    s: SdsBsView,
    queue: Seq<SapMsgView>,
    now: u64,
    source: u32,
    dest: u32,
    is_group: bool,
    data: SdsUserDataView,
)
    requires
        accounted(s),
    ensures
        accounted(routed_from_rf(s, queue, now, source, dest, data).0),
        accounted(routed_from_brew(s, queue, now, source, dest, data).0),
        accounted(routed_from_control(s, queue, now, source, dest, is_group, data).0),
{
    assert forall|a: SdsBsView, e: TelemetryEventView|
        accounted(a) && (e is SdsLog || e is SdsActivity) implies accounted(
        #[trigger] a.emitted(e),
    ) by {
        law_other_events_keep_account(a, e);
    }
    assert forall|
        a: SdsBsView,
        q: Seq<SapMsgView>,
        from: u32,
        to: u32,
        t: SsiType,
        d: SdsUserDataView,
    | accounted(a) implies accounted((#[trigger] sent(a, q, now, from, to, t, d)).0) by {
        law_sending_keeps_account(a, q, now, from, to, t, d);
    }
}

/// A status to the station itself, command or not, touches no emergency and announces nothing.
pub proof fn law_command_leaves_emergencies_alone(
    s: SdsBsView,
    now: u64,
    source: u32,
    status_code: u16,
    next: SdsBsView,
    asked: Option<HostAction>,
)
    requires
        command_outcome(s, now, source, status_code, next, asked),
    ensures
        next.emergency_sessions == s.emergency_sessions,
        next.telemetry == s.telemetry,
{
}

/// A short report, by which a radio acknowledges a text, does not end the emergency of the radio.
pub proof fn law_short_report_is_no_cancel(
    s: SdsBsView,
    now: u64,
    source: u32,
    dest: u32,
    report: ShortReport,
)
    ensures
        s.supervised(now, source, dest, PreCodedStatus::SdsTl(report)) == s,
{
}

/// After a status that is neither Emergency nor a short report its sender is not in emergency; after
/// Emergency it is, last seen now.
pub proof fn law_status_decides_emergency(
    s: SdsBsView,
    now: u64,
    source: u32,
    dest: u32,
    status: PreCodedStatus,
)
    ensures
        ({
            let next = s.supervised(now, source, dest, status).emergency_sessions;
            &&& status is Other ==> !next.contains_key(source)
            &&& status is Emergency ==> next.contains_key(source) && next[source]
                == (EmergencySession { dest_ssi: dest, last_seen: now })
        }),
{
}

/// A status changes no other radio's emergency.
pub proof fn law_status_concerns_its_sender(
    s: SdsBsView,
    now: u64,
    source: u32,
    dest: u32,
    status: PreCodedStatus,
    other: u32,
)
    requires
        other != source,
    ensures
        ({
            let before = s.emergency_sessions;
            let after = s.supervised(now, source, dest, status).emergency_sessions;
            &&& after.contains_key(other) <==> before.contains_key(other)
            &&& before.contains_key(other) ==> after[other] == before[other]
        }),
{
}

/// A repeated emergency status keeps the session alive and raises no second alarm.
pub proof fn law_repeated_emergency_is_silent(
    s: SdsBsView,
    first: u64,
    second: u64,
    source: u32,
    dest1: u32,
    dest2: u32,
)
    ensures
        ({
            let once = s.entered(first, source, dest1);
            let twice = once.entered(second, source, dest2);
            &&& twice.telemetry == once.telemetry
            &&& twice.emergency_sessions == s.emergency_sessions.insert(
                source,
                EmergencySession { dest_ssi: dest2, last_seen: second },
            )
        }),
{
    assert(s.entered(first, source, dest1).entered(second, source, dest2).emergency_sessions
        =~= s.emergency_sessions.insert(
        source,
        EmergencySession { dest_ssi: dest2, last_seen: second },
    ));
}

/// Ending an emergency twice is ending it once: the end is announced once.
pub proof fn law_clear_is_idempotent(s: SdsBsView, source: u32)
    ensures
        s.cleared(source).cleared(source) == s.cleared(source),
        !s.cleared(source).emergency_sessions.contains_key(source),
{
}

/// An emergency that starts and ends leaves the sessions as they were, and the dashboard hears of
/// the start and the end, in this order.
pub proof fn law_enter_then_clear(s: SdsBsView, now: u64, source: u32, dest: u32)
    requires
        !s.emergency_sessions.contains_key(source),
    ensures
        s.entered(now, source, dest).cleared(source) == s.emitted(
            TelemetryEventView::EmergencyAlarm { source_issi: source, dest_ssi: dest },
        ).emitted(TelemetryEventView::EmergencyCancel { source_issi: source }),
{
    assert(s.entered(now, source, dest).cleared(source) =~= s.emitted(
        TelemetryEventView::EmergencyAlarm { source_issi: source, dest_ssi: dest },
    ).emitted(TelemetryEventView::EmergencyCancel { source_issi: source }));
}

/// Silence ends an emergency exactly when it lasts longer than the timeout; a radio that keeps
/// repeating its status stays in emergency.
pub proof fn law_silence_ends_emergency(s: SdsBsView, now: u64, order: Seq<u32>, issi: u32)
    requires
        lists(order, s.expired(now)),
    ensures
        ({
            let after = s.cleared_each(order).emergency_sessions;
            &&& after.contains_key(issi) <==> s.emergency_sessions.contains_key(issi) && elapsed(
                now,
                s.emergency_sessions[issi].last_seen,
            ) <= s.config.emergency.clear_timeout_secs * NANOS_PER_SEC
            &&& after.contains_key(issi) ==> after[issi] == s.emergency_sessions[issi]
        }),
{
}

/// An emergency status stays in the cell unless the operator lets it out.
pub proof fn law_emergency_is_local(s: SdsBsView, source: u32, dest: u32)
    requires
        !s.config.emergency.forward_to_brew,
    ensures
        forall|i: int|
            0 <= i < status_messages(s, source, dest, PreCodedStatus::Emergency).len() ==> (
            #[trigger] status_messages(s, source, dest, PreCodedStatus::Emergency)[i]).dest
                != TetraEntity::Brew,
{
}

/// True when `after` differs from `before` at most in the emergencies and in what the sink holds.
pub open spec fn same_but_emergencies(before: SdsBsView, after: SdsBsView) -> bool {
    &&& after.config == before.config
    &&& after.pending_actions == before.pending_actions
    &&& after.pending_sds == before.pending_sds
    &&& after.wx_cmd_tx == before.wx_cmd_tx
    &&& after.last_periodic_wx == before.last_periodic_wx
    &&& after.recent_commands == before.recent_commands
}

/// An Emergency of a radio puts it in emergency, with whom it told and when, and leaves every other
/// radio as it was. The alarm names both parties, and is raised only where the radio was not in
/// emergency.
pub proof fn law_emergency_starts(s: SdsBsView, now: u64, source: u32, dest: u32, other: u32)
    ensures
        ({
            let next = s.entered(now, source, dest);
            &&& next.emergency_sessions.contains_key(source)
            &&& next.emergency_sessions[source].dest_ssi == dest
            &&& next.emergency_sessions[source].last_seen == now
            &&& other != source ==> (next.emergency_sessions.contains_key(other)
                <==> s.emergency_sessions.contains_key(other))
            &&& other != source && s.emergency_sessions.contains_key(other)
                ==> next.emergency_sessions[other] == s.emergency_sessions[other]
            &&& s.emergency_sessions.contains_key(source) ==> next.telemetry == s.telemetry
            &&& !s.emergency_sessions.contains_key(source) ==> tells(
                s,
                next,
                seq![
                    TelemetryEventView::EmergencyAlarm { source_issi: source, dest_ssi: dest },
                ],
            )
            &&& same_but_emergencies(s, next)
        }),
{
    let alarm = TelemetryEventView::EmergencyAlarm { source_issi: source, dest_ssi: dest };
    if let Some(events) = s.telemetry {
        assert(events.push(alarm) =~= events + seq![alarm]);
    }
}

/// The end of an emergency takes the radio out of emergency and leaves every other radio as it was.
/// It is announced only where the radio was in emergency.
pub proof fn law_emergency_ends(s: SdsBsView, source: u32, other: u32)
    ensures
        ({
            let next = s.cleared(source);
            &&& !next.emergency_sessions.contains_key(source)
            &&& other != source ==> (next.emergency_sessions.contains_key(other)
                <==> s.emergency_sessions.contains_key(other))
            &&& other != source && s.emergency_sessions.contains_key(other)
                ==> next.emergency_sessions[other] == s.emergency_sessions[other]
            &&& !s.emergency_sessions.contains_key(source) ==> next.telemetry == s.telemetry
            &&& s.emergency_sessions.contains_key(source) ==> tells(
                s,
                next,
                seq![TelemetryEventView::EmergencyCancel { source_issi: source }],
            )
            &&& same_but_emergencies(s, next)
        }),
{
    let cancel = TelemetryEventView::EmergencyCancel { source_issi: source };
    if let Some(events) = s.telemetry {
        assert(events.push(cancel) =~= events + seq![cancel]);
    }
}

/// The end of several emergencies takes each of these radios out of emergency, leaves every other
/// radio as it was, and is announced once for each, in order.
pub proof fn law_emergencies_end_together(s: SdsBsView, order: Seq<u32>, issi: u32, i: int)
    ensures
        ({
            let next = s.cleared_each(order);
            &&& next.emergency_sessions.contains_key(issi) <==> s.emergency_sessions.contains_key(
                issi,
            ) && !order.contains(issi)
            &&& next.emergency_sessions.contains_key(issi) ==> next.emergency_sessions[issi]
                == s.emergency_sessions[issi]
            &&& s.telemetry is None ==> next.telemetry is None
            &&& s.telemetry is Some ==> {
                &&& next.telemetry is Some
                &&& next.telemetry->0.len() == s.telemetry->0.len() + order.len()
                &&& 0 <= i < s.telemetry->0.len() ==> next.telemetry->0[i] == s.telemetry->0[i]
                &&& 0 <= i < order.len() ==> next.telemetry->0[s.telemetry->0.len() + i]
                    == (TelemetryEventView::EmergencyCancel { source_issi: order[i] })
            }
            &&& same_but_emergencies(s, next)
        }),
{
}

/// An emergency is over by silence exactly when its radio has not been heard for more than the
/// configured number of seconds.
pub proof fn law_over_by_silence(s: SdsBsView, now: u64, issi: u32)
    ensures
        s.expired(now).contains(issi) <==> s.emergency_sessions.contains_key(issi) && now
            > s.emergency_sessions[issi].last_seen + s.config.emergency.clear_timeout_secs
            * 1_000_000_000,
{
    assert(s.config.emergency.clear_timeout_secs * 1_000_000_000 >= 0) by (nonlinear_arith);
}

/// A list of radios has each of them once and no other.
pub proof fn law_list_is_complete(order: Seq<u32>, set: Set<u32>, issi: u32, i: int, j: int)
    requires
        lists(order, set),
    ensures
        order.contains(issi) <==> set.contains(issi),
        0 <= i < j < order.len() ==> order[i] != order[j],
{
    assert(order.to_set().contains(issi) <==> order.contains(issi));
}

/// Emergency starts an emergency or keeps it alive, a short report changes nothing at all, and any
/// other status ends it.
pub proof fn law_status_supervises(s: SdsBsView, now: u64, source: u32, dest: u32, status: PreCodedStatus)
    ensures
        match status {
            PreCodedStatus::Emergency => s.supervised(now, source, dest, status) == s.entered(
                now,
                source,
                dest,
            ),
            PreCodedStatus::SdsTl(_) => s.supervised(now, source, dest, status) == s,
            PreCodedStatus::Other(_) => s.supervised(now, source, dest, status) == s.cleared(source),
        },
{
}

} // verus!
