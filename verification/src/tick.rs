//! What happens on every tick of the downlink.

use vstd::prelude::*;

use crate::config::CellState;
use crate::delivery::{d_sds_data, flush_messages};
use crate::emergency::lists;
use crate::entity::SdsBsSubentity;
use crate::pdu::{SdsUserData, SsiType};
use crate::sap::{MessageQueue, SapMsgView};

verus! {

/// An SDS that the host wants broadcast to a group now.
#[derive(Debug, PartialEq, Eq)]
pub struct BroadcastSds {
    pub source_issi: u32,
    pub dest_gssi: u32,
    pub payload: SdsUserData,
}

/// The message of a broadcast, if there is one.
pub open spec fn broadcast_messages(
    state: &CellState,
    broadcast_sds: Option<BroadcastSds>,
) -> Seq<SapMsgView> {
    match broadcast_sds {
        Some(tx) => seq![
            d_sds_data(state, tx.source_issi, tx.dest_gssi, SsiType::Gssi, tx.payload@, false),
        ],
        None => seq![],
    }
}

impl SdsBsSubentity {
    /// First part of a tick: ends the emergencies that have gone silent and deals with the waiting
    /// SDS. Returns how many SDS still wait.
    pub fn tick_waiting(&mut self, queue: &mut MessageQueue, now: u64) -> (r: usize)
        ensures
            exists|order: Seq<u32>|
                lists(order, old(self)@.expired(now)) && final(self)@ == (#[trigger] old(
                    self,
                )@.cleared_each(order)).flushed(now),
            final(queue)@ == old(queue)@ + flush_messages(
                &old(self)@.config.state,
                now,
                old(self)@.pending_sds,
            ),
            r == final(self)@.pending_sds.len(),
    {
        self.expire_emergency_sessions(now);
        self.flush_pending_sds(queue, now);
        self.pending_sds.len()
    }

    /// Second part of a tick, once for each kind of broadcast: sends the broadcast, if one is due.
    pub fn tick_broadcast(
        &mut self,
        queue: &mut MessageQueue,
        now: u64,
        broadcast_sds: Option<BroadcastSds>,
    )
        ensures
            final(self)@ == old(self)@,
            final(queue)@ == old(queue)@ + broadcast_messages(
                &old(self)@.config.state,
                broadcast_sds,
            ),
    {
        match broadcast_sds {
            Some(tx) => {
                self.send_d_sds_data(
                    queue,
                    now,
                    tx.source_issi,
                    tx.dest_gssi,
                    SsiType::Gssi,
                    tx.payload,
                );
            },
            None => {},
        }
    }

    /// Runs one tick: ends the emergencies that have gone silent, deals with the waiting SDS and
    /// sends the broadcasts that are due, Home Mode Display first. Returns how many SDS still wait. A
    /// host that asks for broadcasts only after the waiting SDS are dealt with runs the two parts.
    pub fn tick_start(
        &mut self,
        queue: &mut MessageQueue,
        now: u64,
        home_mode_display: Option<BroadcastSds>,
        sds_broadcast: Option<BroadcastSds>,
        live_sds: Option<BroadcastSds>,
    ) -> (r: usize)
        ensures
            exists|order: Seq<u32>|
                lists(order, old(self)@.expired(now)) && final(self)@ == (#[trigger] old(
                    self,
                )@.cleared_each(order)).flushed(now),
            final(queue)@ == old(queue)@ + flush_messages(
                &old(self)@.config.state,
                now,
                old(self)@.pending_sds,
            ) + broadcast_messages(&old(self)@.config.state, home_mode_display)
                + broadcast_messages(&old(self)@.config.state, sds_broadcast) + broadcast_messages(
                &old(self)@.config.state,
                live_sds,
            ),
            r == final(self)@.pending_sds.len(),
    {
        let depth: usize = self.tick_waiting(queue, now);
        self.tick_broadcast(queue, now, home_mode_display);
        self.tick_broadcast(queue, now, sds_broadcast);
        self.tick_broadcast(queue, now, live_sds);
        depth
    }
}

} // verus!
