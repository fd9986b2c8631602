//! Emergency supervision.
//!
//! A radio signals emergency with a pre-coded status that it repeats while the emergency lasts; it
//! says nothing when the emergency ends. A session starts with the first such status of an ISSI. It
//! ends when the ISSI sends another status, when it stays silent for too long, or when an operator
//! ends it. The dashboard hears of the start and the end, not of the repetitions.

use vstd::prelude::*;

use crate::entity::{EmergencySession, SdsBsSubentity, SdsBsView};
use crate::telemetry::{TelemetryEvent, TelemetryEventView};
use crate::time::{elapsed, is_over, NANOS_PER_SEC};

verus! {

broadcast use vstd::std_specs::hash::group_hash_axioms;

/// The end of the emergency of each of `issis`, in order.
pub open spec fn cancels(issis: Seq<u32>) -> Seq<TelemetryEventView> {
    issis.map_values(|issi: u32| TelemetryEventView::EmergencyCancel { source_issi: issi })
}

/// True when `order` lists the members of `set`, each once.
pub open spec fn lists(order: Seq<u32>, set: Set<u32>) -> bool {
    order.no_duplicates() && order.to_set() == set
}

impl SdsBsView {
    /// Afterwards `source_issi` is in emergency, last seen at `now`. The alarm is raised only where
    /// it was not before.
    pub open spec fn entered(self, now: u64, source_issi: u32, dest_ssi: u32) -> Self {
        let next = SdsBsView {
            emergency_sessions: self.emergency_sessions.insert(
                source_issi,
                EmergencySession { dest_ssi, last_seen: now },
            ),
            ..self
        };
        if self.emergency_sessions.contains_key(source_issi) {
            next
        } else {
            next.emitted(TelemetryEventView::EmergencyAlarm { source_issi, dest_ssi })
        }
    }

    /// Afterwards `source_issi` is not in emergency. The end is announced only where it was.
    pub open spec fn cleared(self, source_issi: u32) -> Self {
        if self.emergency_sessions.contains_key(source_issi) {
            SdsBsView {
                emergency_sessions: self.emergency_sessions.remove(source_issi),
                ..self
            }.emitted(TelemetryEventView::EmergencyCancel { source_issi })
        } else {
            self
        }
    }

    /// Afterwards none of `issis` is in emergency, and the end of each is announced, in order.
    pub open spec fn cleared_each(self, issis: Seq<u32>) -> Self {
        SdsBsView {
            emergency_sessions: self.emergency_sessions.remove_keys(issis.to_set()),
            telemetry: match self.telemetry {
                Some(events) => Some(events + cancels(issis)),
                None => None,
            },
            ..self
        }
    }

    /// The radios that have been silent for more than `timeout_secs` seconds.
    pub open spec fn silent(self, now: u64, timeout_secs: u64) -> Set<u32> {
        self.emergency_sessions.dom().filter(
            |issi: u32|
                elapsed(now, self.emergency_sessions[issi].last_seen) > timeout_secs
                    * NANOS_PER_SEC,
        )
    }

    /// The radios whose emergency counts as over: silent for longer than the configured timeout.
    pub open spec fn expired(self, now: u64) -> Set<u32> {
        self.silent(now, self.config.emergency.clear_timeout_secs)
    }
}

impl SdsBsSubentity {
    /// Starts the emergency of `source_issi`, or keeps it alive.
    pub fn emergency_enter(&mut self, now: u64, source_issi: u32, dest_ssi: u32)
        ensures
            final(self)@ == old(self)@.entered(now, source_issi, dest_ssi),
    {
        let known = self.emergency_sessions.contains_key(&source_issi);
        self.emergency_sessions.insert(source_issi, EmergencySession { dest_ssi, last_seen: now });
        if !known {
            self.emit(TelemetryEvent::EmergencyAlarm { source_issi, dest_ssi });
        }
    }

    /// Ends the emergency of `source_issi`, if there is one.
    pub fn emergency_clear(&mut self, source_issi: u32)
        ensures
            final(self)@ == old(self)@.cleared(source_issi),
    {
        if self.emergency_sessions.remove(&source_issi).is_some() {
            self.emit(TelemetryEvent::EmergencyCancel { source_issi });
        }
    }

    fn issis_in_emergency(&self) -> (r: Vec<u32>)
        ensures
            lists(r@, self@.emergency_sessions.dom()),
    {
        let mut all: Vec<u32> = Vec::new();
        for key in it: self.emergency_sessions.keys()
            invariant
                it.seq().unref().to_set() == self@.emergency_sessions.dom(),
                it.seq().no_duplicates(),
                all@ == it.seq().unref().take(it.index()),
                it.index() == it.seq().len() ==> all@ == it.seq().unref(),
        {
            all.push(*key);
            assert(it.seq().unref().take(it.index() + 1) =~= it.seq().unref().take(
                it.index(),
            ).push(*key));
        }
        all
    }

    fn silent_issis(&self, now: u64, timeout_secs: u64) -> (r: Vec<u32>)
        ensures
            lists(r@, self@.silent(now, timeout_secs)),
    {
        let all = self.issis_in_emergency();
        let mut found: Vec<u32> = Vec::new();
        let ghost silent = self@.silent(now, timeout_secs);
        let mut i: usize = 0;
        while i < all.len()
            invariant
                i <= all@.len(),
                lists(all@, self@.emergency_sessions.dom()),
                silent == self@.silent(now, timeout_secs),
                found@.no_duplicates(),
                forall|issi: u32| #[trigger]
                    found@.contains(issi) ==> silent.contains(issi) && all@.take(
                        i as int,
                    ).contains(issi),
                forall|j: int|
                    0 <= j < i && silent.contains(#[trigger] all@[j]) ==> found@.contains(all@[j]),
            decreases all@.len() - i,
        {
            let ghost before = found@;
            let issi: u32 = all[i];
            proof {
                assert(all@.to_set().contains(issi));
                assert(!all@.take(i as int).contains(issi));
                assert(all@.take(i + 1) =~= all@.take(i as int).push(issi));
                assert(!before.contains(issi));
                assert(forall|j: int| 0 <= j < before.len() ==> before.contains(before[j]));
            }
            match self.emergency_sessions.get(&issi) {
                Some(session) => {
                    if is_over(now, session.last_seen, timeout_secs) {
                        found.push(issi);
                        assert(found@[before.len() as int] == issi);
                    }
                },
                None => {},
            }
            proof {
                broadcast use vstd::seq_lib::group_seq_properties;

                assert(forall|x: u32| #[trigger] before.contains(x) ==> found@.contains(x));
            }
            i = i + 1;
        }
        assert forall|x: u32| silent.contains(x) implies found@.to_set().contains(x) by {
            assert(all@.to_set().contains(x));
        }
        assert(found@.to_set() =~= silent);
        found
    }

    /// Ends the emergency of every radio that has been silent for longer than the configured
    /// timeout. In which order they end is left open.
    pub fn expire_emergency_sessions(&mut self, now: u64)
        ensures
            exists|order: Seq<u32>|
                lists(order, old(self)@.expired(now)) && final(self)@ == #[trigger] old(
                    self,
                )@.cleared_each(order),
    {
        let timeout_secs: u64 = self.config.emergency.clear_timeout_secs;
        let silent = self.silent_issis(now, timeout_secs);
        self.clear_each(&silent);
    }

    fn clear_each(&mut self, issis: &Vec<u32>)
        requires
            issis@.no_duplicates(),
            issis@.to_set().subset_of(old(self)@.emergency_sessions.dom()),
        ensures
            final(self)@ == old(self)@.cleared_each(issis@),
    {
        let mut i: usize = 0;
        assert(self@ =~= old(self)@.cleared_each(issis@.take(0)));
        while i < issis.len()
            invariant
                i <= issis@.len(),
                issis@.no_duplicates(),
                issis@.to_set().subset_of(old(self)@.emergency_sessions.dom()),
                self@ == old(self)@.cleared_each(issis@.take(i as int)),
            decreases issis@.len() - i,
        {
            let ghost done = issis@.take(i as int);
            let ghost issi = issis@[i as int];
            proof {
                assert(issis@.to_set().contains(issi));
                assert(!done.contains(issi));
                assert(issis@.take(i + 1) =~= done.push(issi));
                assert(done.push(issi).to_set() =~= done.to_set().insert(issi)) by {
                    broadcast use vstd::seq_lib::group_seq_properties;

                }
                assert(cancels(done.push(issi)) =~= cancels(done).push(
                    TelemetryEventView::EmergencyCancel { source_issi: issi },
                ));
            }
            self.emergency_clear(issis[i]);
            assert(self@ =~= old(self)@.cleared_each(issis@.take(i + 1)));
            i = i + 1;
        }
        assert(issis@.take(i as int) =~= issis@);
    }

    /// An operator ends the emergency of `issi`; 0 ends every emergency. In which order all of them
    /// end is left open.
    pub fn clear_emergency_command(&mut self, issi: u32)
        ensures
            issi != 0 ==> final(self)@ == old(self)@.cleared(issi),
            issi == 0 ==> exists|order: Seq<u32>|
                lists(order, old(self)@.emergency_sessions.dom()) && final(self)@
                    == #[trigger] old(self)@.cleared_each(order),
            issi == 0 ==> final(self)@.emergency_sessions == Map::<u32, EmergencySession>::empty(),
    {
        if issi == 0 {
            let all = self.issis_in_emergency();
            self.clear_each(&all);
            assert(self@.emergency_sessions =~= Map::<u32, EmergencySession>::empty());
        } else {
            self.emergency_clear(issi);
        }
    }
}

} // verus!
