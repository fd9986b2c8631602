//! Laws of what the cell says about its radios.

use vstd::prelude::*;

use crate::config::{first_call, lemma_on_traffic, CellState, TrafficSlot};
use crate::pdu::SsiType;
use crate::time::{elapsed, NANOS_PER_SEC};

verus! {

/// A radio is on traffic exactly when it has a call of its own or some group that it is attached to
/// has a call.
pub proof fn law_radio_on_traffic(state: &CellState, issi: u32)
    ensures
        state.on_traffic(issi) <==> state.active_call_ts@.contains_key(issi) || exists|group: u32|
            {
                &&& state.attached_groups@.contains_key(issi)
                &&& state.attached_groups@[issi]@.contains(group)
                &&& #[trigger] state.active_call_ts@.contains_key(group)
            },
{
    let groups = state.groups_of(issi);
    if state.on_traffic(issi) && !state.active_call_ts@.contains_key(issi) {
        let i = choose|i: int|
            0 <= i < groups.len() && state.active_call_ts@.contains_key(#[trigger] groups[i]);
        assert(state.attached_groups@[issi]@.contains(groups[i]));
        assert(state.active_call_ts@.contains_key(groups[i]));
    }
    if exists|group: u32|
        {
            &&& state.attached_groups@.contains_key(issi)
            &&& state.attached_groups@[issi]@.contains(group)
            &&& #[trigger] state.active_call_ts@.contains_key(group)
        } {
        let group = choose|group: u32|
            {
                &&& state.attached_groups@.contains_key(issi)
                &&& state.attached_groups@[issi]@.contains(group)
                &&& #[trigger] state.active_call_ts@.contains_key(group)
            };
        let i = choose|i: int| 0 <= i < groups.len() && groups[i] == group;
        assert(state.active_call_ts@.contains_key(groups[i]));
    }
}

/// A radio without an energy economy window is never asleep; one with a window sleeps exactly while
/// the window is closed.
pub proof fn law_radio_asleep(state: &CellState, issi: u32)
    ensures
        !state.ee_window_open@.contains_key(issi) ==> !state.asleep(issi),
        state.ee_window_open@.contains_key(issi) ==> state.asleep(issi)
            != state.ee_window_open@[issi],
{
}

/// A radio listens to the main control channel exactly when it has no call of its own, no group that
/// it is attached to has a call, and its energy economy window, if it has one, is open.
pub proof fn law_radio_reachable(state: &CellState, issi: u32)
    ensures
        state.reachable(issi) <==> {
            &&& !state.active_call_ts@.contains_key(issi)
            &&& state.attached_groups@.contains_key(issi) ==> forall|group: u32|
                #![trigger state.active_call_ts@.contains_key(group)]
                state.attached_groups@[issi]@.contains(group)
                    ==> !state.active_call_ts@.contains_key(group)
            &&& state.ee_window_open@.contains_key(issi) ==> state.ee_window_open@[issi]
        },
{
    law_radio_on_traffic(state, issi);
    law_radio_asleep(state, issi);
}

/// An SSI with a call of its own is reached on the timeslot of that call. Without one a group is
/// reached on no timeslot, and an individual on that of the first of its groups that has a call, if
/// there is such a group.
pub proof fn law_timeslot_of(state: &CellState, ssi: u32, ssi_type: SsiType)
    ensures
        state.active_call_ts@.contains_key(ssi) ==> state.traffic_of(ssi, ssi_type) == Some(
            state.active_call_ts@[ssi],
        ),
        !state.active_call_ts@.contains_key(ssi) && ssi_type == SsiType::Gssi ==> state.traffic_of(
            ssi,
            ssi_type,
        ) is None,
        !state.active_call_ts@.contains_key(ssi) && !state.attached_groups@.contains_key(ssi)
            ==> state.traffic_of(ssi, ssi_type) is None,
        !state.active_call_ts@.contains_key(ssi) && state.attached_groups@.contains_key(ssi)
            && ssi_type == SsiType::Issi ==> {
            let groups = state.attached_groups@[ssi]@;
            match state.traffic_of(ssi, ssi_type) {
                Some(slot) => exists|i: int|
                    #![trigger groups[i]]
                    {
                        &&& 0 <= i < groups.len()
                        &&& state.active_call_ts@.contains_key(groups[i])
                        &&& state.active_call_ts@[groups[i]] == slot
                        &&& forall|j: int|
                            0 <= j < i ==> !state.active_call_ts@.contains_key(#[trigger] groups[j])
                    },
                None => forall|i: int|
                    0 <= i < groups.len() ==> !state.active_call_ts@.contains_key(
                        #[trigger] groups[i],
                    ),
            }
        },
        ssi_type == SsiType::Issi ==> (state.traffic_of(ssi, ssi_type) is Some
            <==> state.on_traffic(ssi)),
{
    lemma_first_of(state.active_call_ts@, state.groups_of(ssi));
    lemma_on_traffic(state, ssi);
}

proof fn lemma_first_of(calls: Map<u32, TrafficSlot>, groups: Seq<u32>)
    ensures
        match first_call(calls, groups) {
            Some(slot) => exists|i: int|
                #![trigger groups[i]]
                {
                    &&& 0 <= i < groups.len()
                    &&& calls.contains_key(groups[i])
                    &&& calls[groups[i]] == slot
                    &&& forall|j: int| 0 <= j < i ==> !calls.contains_key(#[trigger] groups[j])
                },
            None => forall|i: int|
                0 <= i < groups.len() ==> !calls.contains_key(#[trigger] groups[i]),
        },
    decreases groups.len(),
{
    if groups.len() > 0 {
        if calls.contains_key(groups[0]) {
            assert(groups[0] == groups.first());
        } else {
            let rest = groups.drop_first();
            lemma_first_of(calls, rest);
            assert forall|i: int| 0 <= i < rest.len() implies rest[i] == #[trigger] groups[i + 1] by {}
            match first_call(calls, groups) {
                Some(slot) => {
                    let i = choose|i: int|
                        #![trigger rest[i]]
                        {
                            &&& 0 <= i < rest.len()
                            &&& calls.contains_key(rest[i])
                            &&& calls[rest[i]] == slot
                            &&& forall|j: int| 0 <= j < i ==> !calls.contains_key(#[trigger] rest[j])
                        };
                    assert(calls.contains_key(groups[i + 1]));
                    assert forall|j: int| 0 <= j < i + 1 implies !calls.contains_key(
                        #[trigger] groups[j],
                    ) by {
                        if j > 0 {
                            assert(!calls.contains_key(rest[j - 1]));
                        }
                    }
                },
                None => {
                    assert forall|i: int| 0 <= i < groups.len() implies !calls.contains_key(
                        #[trigger] groups[i],
                    ) by {
                        if i > 0 {
                            assert(!calls.contains_key(rest[i - 1]));
                        }
                    }
                },
            }
        }
    }
}

/// Time is counted in nanoseconds and does not run backwards: what lies ahead has not elapsed.
pub proof fn law_elapsed(now: u64, then: u64)
    ensures
        then <= now ==> then + elapsed(now, then) == now,
        now <= then ==> elapsed(now, then) == 0,
        NANOS_PER_SEC == 1_000_000_000,
{
}

} // verus!
