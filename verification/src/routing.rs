//! Routing: where an SDS or a status goes that comes from a radio, from the network link or from a
//! control link.

use vstd::prelude::*;

use crate::commands::{
    command_outcome, text_data, HostAction, DASHBOARD_ISSI, MAX_TEXT_OCTETS,
};
use crate::control::ControlCommand;
use crate::delivery::{d_status, forward_to_brew, sent, to_brew};
use crate::entity::{SdsBsSubentity, SdsBsView};
use crate::pdu::{
    PreCodedStatus, SdsUserData, SdsUserDataView, ShortReportType, SsiType, USdsData, UStatus,
    MAX_TYPE4_BITS,
};
use crate::sap::{MessageQueue, SapMsg, SapMsgInner, SapMsgView, UplinkPdu};
use crate::sds_tl::{
    frame_text, is_report, is_sds_tl_report, message_reference, next_reference, reference_after,
    reference_at, report_data, sds_tl_message_reference, sds_tl_report, MessageReferences,
    SDS_TL_STATUS_DELIVERED, SDS_TL_STATUS_UNDELIVERABLE, SDS_TL_STATUS_UNSUPPORTED,
};
use crate::telemetry::TelemetryEvent;
use crate::wx::{job_view, wx_job, WxJob, WxJobView};

verus! {

broadcast use vstd::std_specs::hash::group_hash_axioms;

/// Greatest SSI: an SSI is a 24-bit identity.
pub const MAX_TETRA_SSI: u32 = 0xFF_FFFF;

/// An SSI that a PDU can carry. 0 stands for no identity.
pub open spec fn valid_ssi(ssi: u32) -> bool {
    1 <= ssi <= MAX_TETRA_SSI
}

/// The SSI in an address element.
pub open spec fn ssi_of(element: u64) -> u32 {
    (element % 0x1_0000_0000) as u32
}

/// State, outgoing messages and weather job after a radio's SDS to `dest` was routed: to the
/// weather service, to the station itself, to a local radio, to a local group or to the network.
pub open spec fn routed_from_rf(
    s: SdsBsView,
    queue: Seq<SapMsgView>,
    now: u64,
    source: u32,
    dest: u32,
    data: SdsUserDataView,
) -> (SdsBsView, Seq<SapMsgView>, Option<WxJobView>) {
    let config = s.config;
    let logged = s.logged(
        "rx"@,
        source,
        dest,
        config.state.groups_with_members@.contains(dest),
        data,
    );
    if config.wx.enabled && dest == config.wx.service_issi {
        if is_report(data) {
            (logged, queue, None)
        } else {
            let (confirmed, queue) = match message_reference(data) {
                Some(reference) => sent(
                    logged,
                    queue,
                    now,
                    dest,
                    source,
                    SsiType::Issi,
                    report_data(SDS_TL_STATUS_DELIVERED, reference),
                ),
                None => (logged, queue),
            };
            (confirmed.active(source, dest), queue, wx_job(s, source, data))
        }
    } else if dest == DASHBOARD_ISSI {
        (logged, queue, None)
    } else if config.state.registered@.contains(dest) {
        let (delivered, queue) = sent(logged, queue, now, source, dest, SsiType::Issi, data);
        (delivered.active(source, dest), queue, None)
    } else if config.state.groups_with_members@.contains(dest) {
        let (delivered, queue) = sent(logged, queue, now, source, dest, SsiType::Gssi, data);
        (delivered.active(source, dest), queue, None)
    } else if config.brew_sds_enabled {
        (logged, queue.push(to_brew(source, dest, data)), None)
    } else {
        (logged, queue, None)
    }
}

/// State and outgoing messages after an SDS from the network was routed: to a local radio, else to
/// a local group, else nowhere.
pub open spec fn routed_from_brew(
    s: SdsBsView,
    queue: Seq<SapMsgView>,
    now: u64,
    source: u32,
    dest: u32,
    data: SdsUserDataView,
) -> (SdsBsView, Seq<SapMsgView>) {
    let is_issi = s.config.state.registered@.contains(dest);
    let is_group = !is_issi && s.config.state.groups_with_members@.contains(dest);
    let logged = s.logged("net"@, source, dest, is_group, data);
    if is_issi {
        sent(logged, queue, now, source, dest, SsiType::Issi, data)
    } else if is_group {
        sent(logged, queue, now, source, dest, SsiType::Gssi, data)
    } else {
        (logged, queue)
    }
}

/// State and outgoing messages after an SDS from a control link was routed. What the dashboard
/// sends to a destination that is not local goes to the network, where SDS may use it; all else
/// goes out over the air, registered or not.
pub open spec fn routed_from_control(
    s: SdsBsView,
    queue: Seq<SapMsgView>,
    now: u64,
    source: u32,
    dest: u32,
    is_group: bool,
    data: SdsUserDataView,
) -> (SdsBsView, Seq<SapMsgView>) {
    let logged = s.logged("tx"@, source, dest, is_group, data);
    let local = if is_group {
        s.config.state.groups_with_members@.contains(dest)
    } else {
        s.config.state.registered@.contains(dest)
    };
    if source == DASHBOARD_ISSI && !local && s.config.brew_sds_enabled {
        (logged, queue.push(to_brew(source, dest, data)))
    } else {
        sent(
            logged,
            queue,
            now,
            source,
            dest,
            if is_group {
                SsiType::Gssi
            } else {
                SsiType::Issi
            },
            data,
        )
    }
}

/// Delivery status of a report, given what the short report said.
pub open spec fn delivery_status(short_report_type: ShortReportType) -> u8 {
    match short_report_type {
        ShortReportType::MessageReceived => SDS_TL_STATUS_DELIVERED,
        ShortReportType::MessageConsumed => SDS_TL_STATUS_DELIVERED,
        ShortReportType::DestMemFull => SDS_TL_STATUS_UNDELIVERABLE,
        ShortReportType::ProtOrEncodingNotSupported => SDS_TL_STATUS_UNSUPPORTED,
    }
}

/// A status as user data for the network: a short report as the full SDS-TL report (ETSI EN 300
/// 392-2 cl. 29.3.3.4.4), any other status by its value.
pub open spec fn status_data(status: PreCodedStatus) -> SdsUserDataView {
    match status {
        PreCodedStatus::SdsTl(report) => report_data(
            delivery_status(report.short_report_type),
            report.message_reference,
        ),
        _ => SdsUserDataView::Type1(status.raw()),
    }
}

impl SdsBsView {
    /// What a status of `source` does to its emergency: Emergency starts it or keeps it alive, a
    /// short report leaves it alone, any other status ends it.
    pub open spec fn supervised(
        self,
        now: u64,
        source: u32,
        dest: u32,
        status: PreCodedStatus,
    ) -> Self {
        match status {
            PreCodedStatus::Emergency => self.entered(now, source, dest),
            PreCodedStatus::SdsTl(_) => self,
            PreCodedStatus::Other(_) => self.cleared(source),
        }
    }

    /// True when `status` may leave over the network link.
    pub open spec fn status_may_leave(self, status: PreCodedStatus) -> bool {
        self.config.brew_active && (status is Emergency ==> self.config.emergency.forward_to_brew)
    }
}

/// The messages that a radio's status to `dest` brings, other than to the station itself.
pub open spec fn status_messages(
    s: SdsBsView,
    source: u32,
    dest: u32,
    status: PreCodedStatus,
) -> Seq<SapMsgView> {
    if s.config.state.registered@.contains(dest) {
        seq![d_status(&s.config.state, source, dest, status)]
    } else if s.status_may_leave(status) {
        seq![to_brew(source, dest, status_data(status))]
    } else {
        seq![]
    }
}

/// The messages that acknowledge a status sent to the station itself: the status goes back to its
/// sender, unless it would mean something to the sender.
pub open spec fn echo_messages(
    s: SdsBsView,
    source: u32,
    status: PreCodedStatus,
) -> Seq<SapMsgView> {
    if status is Other {
        seq![d_status(&s.config.state, DASHBOARD_ISSI, source, status)]
    } else {
        seq![]
    }
}

/// True when both are identities that a PDU can carry.
pub fn ssi_pair_is_valid(source_ssi: u32, dest_ssi: u32) -> (r: bool)
    ensures
        r <==> valid_ssi(source_ssi) && valid_ssi(dest_ssi),
{
    source_ssi != 0 && source_ssi <= MAX_TETRA_SSI && dest_ssi != 0 && dest_ssi <= MAX_TETRA_SSI
}

fn read_ssi(element: u64) -> (r: u32)
    ensures
        r == ssi_of(element),
{
    assert(element as u32 == element % 0x1_0000_0000) by (bit_vector);
    #[verifier::truncate]
    (element as u32)
}

impl SdsBsSubentity {
    /// True when the PDU can be routed: it names its destination by an SSI. Its other optional
    /// elements are ignored.
    pub fn feature_check_u_sds_data(pdu: &USdsData) -> (r: bool)
        ensures
            r == pdu.called_party_ssi is Some,
    {
        pdu.called_party_ssi.is_some()
    }

    /// True when the PDU can be routed: it names its destination by an SSI. Its other optional
    /// elements are ignored.
    pub fn feature_check_u_status(pdu: &UStatus) -> (r: bool)
        ensures
            r == pdu.called_party_ssi is Some,
    {
        pdu.called_party_ssi.is_some()
    }

    /// Routes an SDS from a radio. Anything else, and an SDS without an SSI for destination, is
    /// ignored.
    pub fn route_rf_deliver(&mut self, queue: &mut MessageQueue, now: u64, message: SapMsg) -> (r:
        Option<WxJob>)
        ensures
            match message.msg {
                SapMsgInner::LcmcMleUnitdataInd(ind) => match ind.sdu {
                    UplinkPdu::USdsData(pdu) => match pdu.called_party_ssi {
                        Some(element) => (final(self)@, final(queue)@, job_view(r))
                            == routed_from_rf(
                            old(self)@,
                            old(queue)@,
                            now,
                            ind.received_tetra_address.ssi,
                            ssi_of(element),
                            pdu.user_defined_data@,
                        ),
                        None => final(self)@ == old(self)@ && final(queue)@ == old(queue)@ && r is None,
                    },
                    _ => final(self)@ == old(self)@ && final(queue)@ == old(queue)@ && r is None,
                },
                _ => final(self)@ == old(self)@ && final(queue)@ == old(queue)@ && r is None,
            },
    {
        let ind = match message.msg {
            SapMsgInner::LcmcMleUnitdataInd(ind) => ind,
            _ => return None,
        };
        let source: u32 = ind.received_tetra_address.ssi;
        let pdu = match ind.sdu {
            UplinkPdu::USdsData(pdu) => pdu,
            _ => return None,
        };
        if !Self::feature_check_u_sds_data(&pdu) {
            return None;
        }
        let dest: u32 = match pdu.called_party_ssi {
            Some(element) => read_ssi(element),
            None => return None,
        };
        let data = pdu.user_defined_data;
        let has_members: bool = self.config.state.groups_with_members.contains(&dest);
        self.log_sds("rx", source, dest, has_members, &data);
        if self.config.wx.enabled && dest == self.config.wx.service_issi {
            if is_sds_tl_report(&data) {
                return None;
            }
            match sds_tl_message_reference(&data) {
                Some(reference) => {
                    let report = sds_tl_report(SDS_TL_STATUS_DELIVERED, reference);
                    self.send_d_sds_data(queue, now, dest, source, SsiType::Issi, report);
                },
                None => {},
            }
            let job = self.handle_wx_request(source, &data);
            self.emit(TelemetryEvent::SdsActivity { source_issi: source, dest_issi: dest });
            return job;
        }
        if dest == DASHBOARD_ISSI {
            return None;
        }
        if self.config.state.registered.contains(&dest) {
            self.send_d_sds_data(queue, now, source, dest, SsiType::Issi, data);
            self.emit(TelemetryEvent::SdsActivity { source_issi: source, dest_issi: dest });
        } else if has_members {
            self.send_d_sds_data(queue, now, source, dest, SsiType::Gssi, data);
            self.emit(TelemetryEvent::SdsActivity { source_issi: source, dest_issi: dest });
        } else if self.config.brew_sds_enabled {
            forward_to_brew(queue, source, dest, data);
        }
        None
    }

    /// Routes an SDS from the network link. Any other message is ignored.
    pub fn rx_sds_from_brew(&mut self, queue: &mut MessageQueue, now: u64, message: SapMsg)
        ensures
            match message.msg {
                SapMsgInner::CmceSdsData(sds) => (final(self)@, final(queue)@) == routed_from_brew(
                    old(self)@,
                    old(queue)@,
                    now,
                    sds.source_issi,
                    sds.dest_issi,
                    sds.user_defined_data@,
                ),
                _ => final(self)@ == old(self)@ && final(queue)@ == old(queue)@,
            },
    {
        let sds = match message.msg {
            SapMsgInner::CmceSdsData(sds) => sds,
            _ => return,
        };
        let is_issi: bool = self.config.state.registered.contains(&sds.dest_issi);
        let is_group: bool = !is_issi && self.config.state.groups_with_members.contains(
            &sds.dest_issi,
        );
        self.log_sds("net", sds.source_issi, sds.dest_issi, is_group, &sds.user_defined_data);
        if is_issi {
            self.send_d_sds_data(
                queue,
                now,
                sds.source_issi,
                sds.dest_issi,
                SsiType::Issi,
                sds.user_defined_data,
            );
        } else if is_group {
            self.send_d_sds_data(
                queue,
                now,
                sds.source_issi,
                sds.dest_issi,
                SsiType::Gssi,
                sds.user_defined_data,
            );
        }
    }

    fn route_from_control(
        &mut self,
        queue: &mut MessageQueue,
        now: u64,
        source: u32,
        dest: u32,
        is_group: bool,
        data: SdsUserData,
    )
        ensures
            (final(self)@, final(queue)@) == routed_from_control(
                old(self)@,
                old(queue)@,
                now,
                source,
                dest,
                is_group,
                data@,
            ),
    {
        self.log_sds("tx", source, dest, is_group, &data);
        let local: bool = if is_group {
            self.config.state.groups_with_members.contains(&dest)
        } else {
            self.config.state.registered.contains(&dest)
        };
        if source == DASHBOARD_ISSI && !local && self.config.brew_sds_enabled {
            forward_to_brew(queue, source, dest, data);
        } else {
            let ssi_type = if is_group {
                SsiType::Gssi
            } else {
                SsiType::Issi
            };
            self.send_d_sds_data(queue, now, source, dest, ssi_type, data);
        }
    }

    /// Sends a text for a control link, behind an SDS-TL header with the next message reference.
    /// Refused, with `false`: any other command, an SSI that no PDU can carry, and a text that the
    /// length indicator of the PDU cannot cover; the last takes up a message reference all the same.
    pub fn rx_sds_from_control(
        &mut self,
        queue: &mut MessageQueue,
        references: &mut MessageReferences,
        now: u64,
        message: ControlCommand,
    ) -> (r: bool)
        ensures
            match message {
                ControlCommand::SendSds { source_ssi, dest_ssi, dest_is_group, payload, .. } => {
                    let valid = valid_ssi(source_ssi) && valid_ssi(dest_ssi);
                    &&& *final(references) == if valid {
                        MessageReferences {
                            control: reference_after(old(references).control),
                            ..*old(references)
                        }
                    } else {
                        *old(references)
                    }
                    &&& if !valid || payload@.len() > MAX_TEXT_OCTETS {
                        !r && final(self)@ == old(self)@ && final(queue)@ == old(queue)@
                    } else {
                        r && (final(self)@, final(queue)@) == routed_from_control(
                            old(self)@,
                            old(queue)@,
                            now,
                            source_ssi,
                            dest_ssi,
                            dest_is_group,
                            text_data(reference_at(old(references).control), payload@),
                        )
                    }
                },
                _ => !r && final(self)@ == old(self)@ && final(queue)@ == old(queue)@
                    && *final(references) == *old(references),
            },
    {
        match message {
            ControlCommand::SendSds { source_ssi, dest_ssi, dest_is_group, payload, .. } => {
                if !ssi_pair_is_valid(source_ssi, dest_ssi) {
                    return false;
                }
                let reference: u8 = next_reference(&mut references.control);
                if payload.len() > MAX_TEXT_OCTETS {
                    return false;
                }
                let framed = frame_text(reference, payload.as_slice());
                let len_bits: u16 = (framed.len() * 8) as u16;
                self.route_from_control(
                    queue,
                    now,
                    source_ssi,
                    dest_ssi,
                    dest_is_group,
                    SdsUserData::Type4(len_bits, framed),
                );
                true
            },
            _ => false,
        }
    }

    /// Sends a complete user data of type 4 for a control link, as it is. Refused, with `false`:
    /// any other command, an SSI that no PDU can carry, and a length that the length indicator
    /// cannot carry.
    pub fn rx_raw_sds_type4_from_control(
        &mut self,
        queue: &mut MessageQueue,
        now: u64,
        message: ControlCommand,
    ) -> (r: bool)
        ensures
            match message {
                ControlCommand::SendRawSdsType4 {
                    source_ssi,
                    dest_ssi,
                    dest_is_group,
                    len_bits,
                    payload,
                    ..
                } => if valid_ssi(source_ssi) && valid_ssi(dest_ssi) && len_bits <= MAX_TYPE4_BITS {
                    r && (final(self)@, final(queue)@) == routed_from_control(
                        old(self)@,
                        old(queue)@,
                        now,
                        source_ssi,
                        dest_ssi,
                        dest_is_group,
                        SdsUserDataView::Type4(len_bits, payload@),
                    )
                } else {
                    !r && final(self)@ == old(self)@ && final(queue)@ == old(queue)@
                },
                _ => !r && final(self)@ == old(self)@ && final(queue)@ == old(queue)@,
            },
    {
        match message {
            ControlCommand::SendRawSdsType4 {
                source_ssi,
                dest_ssi,
                dest_is_group,
                len_bits,
                payload,
                ..
            } => {
                if !ssi_pair_is_valid(source_ssi, dest_ssi) || len_bits > MAX_TYPE4_BITS {
                    return false;
                }
                self.route_from_control(
                    queue,
                    now,
                    source_ssi,
                    dest_ssi,
                    dest_is_group,
                    SdsUserData::Type4(len_bits, payload),
                );
                true
            },
            _ => false,
        }
    }

    /// Routes a status from a radio. A status to the station itself is acknowledged and may be a
    /// command; what the host is to do for it is returned. Any other status first updates the
    /// emergency of its sender. Anything but a status, and a status without an SSI for destination,
    /// is ignored.
    pub fn route_status_deliver(
        &mut self,
        queue: &mut MessageQueue,
        now: u64,
        message: SapMsg,
    ) -> (r: Option<HostAction>)
        ensures
            match message.msg {
                SapMsgInner::LcmcMleUnitdataInd(ind) => match ind.sdu {
                    UplinkPdu::UStatus(pdu) => match pdu.called_party_ssi {
                        Some(element) => {
                            let source = ind.received_tetra_address.ssi;
                            let dest = ssi_of(element);
                            let status = pdu.pre_coded_status;
                            if dest == DASHBOARD_ISSI {
                                &&& final(queue)@ == old(queue)@ + echo_messages(
                                    old(self)@,
                                    source,
                                    status,
                                )
                                &&& command_outcome(
                                    old(self)@,
                                    now,
                                    source,
                                    status.raw(),
                                    final(self)@,
                                    r,
                                )
                            } else {
                                &&& final(self)@ == old(self)@.supervised(now, source, dest, status)
                                &&& final(queue)@ == old(queue)@ + status_messages(
                                    old(self)@,
                                    source,
                                    dest,
                                    status,
                                )
                                &&& r is None
                            }
                        },
                        None => final(self)@ == old(self)@ && final(queue)@ == old(queue)@ && r is None,
                    },
                    _ => final(self)@ == old(self)@ && final(queue)@ == old(queue)@ && r is None,
                },
                _ => final(self)@ == old(self)@ && final(queue)@ == old(queue)@ && r is None,
            },
    {
        let ind = match message.msg {
            SapMsgInner::LcmcMleUnitdataInd(ind) => ind,
            _ => return None,
        };
        let source: u32 = ind.received_tetra_address.ssi;
        let pdu = match ind.sdu {
            UplinkPdu::UStatus(pdu) => pdu,
            _ => return None,
        };
        if !Self::feature_check_u_status(&pdu) {
            return None;
        }
        let dest: u32 = match pdu.called_party_ssi {
            Some(element) => read_ssi(element),
            None => return None,
        };
        let status: PreCodedStatus = pdu.pre_coded_status;
        if dest == DASHBOARD_ISSI {
            match status {
                PreCodedStatus::Emergency | PreCodedStatus::SdsTl(_) => {},
                PreCodedStatus::Other(_) => self.send_d_status(queue, dest, source, status),
            }
            assert(queue@ =~= old(queue)@ + echo_messages(old(self)@, source, status));
            return self.handle_sds_command_status(now, source, status);
        }
        let is_emergency: bool = match status {
            PreCodedStatus::Emergency => {
                self.emergency_enter(now, source, dest);
                true
            },
            PreCodedStatus::SdsTl(_) => false,
            PreCodedStatus::Other(_) => {
                self.emergency_clear(source);
                false
            },
        };
        let may_leave: bool = self.config.brew_active && (!is_emergency
            || self.config.emergency.forward_to_brew);
        if self.config.state.registered.contains(&dest) {
            self.send_d_status(queue, source, dest, status);
        } else if may_leave {
            let data = match status {
                PreCodedStatus::SdsTl(report) => {
                    let delivered: u8 = match report.short_report_type {
                        ShortReportType::MessageReceived => SDS_TL_STATUS_DELIVERED,
                        ShortReportType::MessageConsumed => SDS_TL_STATUS_DELIVERED,
                        ShortReportType::DestMemFull => SDS_TL_STATUS_UNDELIVERABLE,
                        ShortReportType::ProtOrEncodingNotSupported => SDS_TL_STATUS_UNSUPPORTED,
                    };
                    sds_tl_report(delivered, report.message_reference)
                },
                _ => SdsUserData::Type1(status.into_raw()),
            };
            forward_to_brew(queue, source, dest, data);
        }
        assert(queue@ =~= old(queue)@ + status_messages(old(self)@, source, dest, status));
        None
    }
}

} // verus!
