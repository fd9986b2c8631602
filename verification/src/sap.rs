//! Messages exchanged with the neighbouring layers, and the queue that takes them.

use vstd::prelude::*;

use crate::pdu::{
    DSdsData, DSdsDataView, DStatus, SdsUserData, SdsUserDataView, TetraAddress, USdsData, UStatus,
};

verus! {

/// Service access points.
#[derive(Debug, Clone, Copy, PartialEq, Eq, Structural)]
pub enum Sap {
    Control,
    LcmcSap,
}

/// Entities of the stack.
#[derive(Debug, Clone, Copy, PartialEq, Eq, Structural)]
pub enum TetraEntity {
    Cmce,
    Mle,
    Brew,
}

/// Basic link service that the LLC is asked for.
#[derive(Debug, Clone, Copy, PartialEq, Eq, Structural)]
pub enum Layer2Service {
    Acknowledged,
    Unacknowledged,
    Todo,
}

/// What a channel allocation does to the channels that a mobile station has.
#[derive(Debug, Clone, Copy, PartialEq, Eq, Structural)]
pub enum ChanAllocType {
    Replace,
    Additional,
    QuitAndGo,
    ReplaceWithCarrierSignalling,
}

/// The directions that a channel allocation covers.
#[derive(Debug, Clone, Copy, PartialEq, Eq, Structural)]
pub enum UlDlAssignment {
    Augmented,
    Dl,
    Ul,
    Both,
}

/// Channel allocation that sends a PDU down on a traffic timeslot.
#[derive(Debug, Clone, Copy, PartialEq, Eq)]
pub struct CmceChanAllocReq {
    pub usage: Option<u8>,
    pub carrier: Option<u16>,
    pub timeslots: [bool; 4],
    pub alloc_type: ChanAllocType,
    pub ul_dl_assigned: UlDlAssignment,
}

/// The mathematical value of [`CmceChanAllocReq`].
pub struct ChanAllocView {
    pub usage: Option<u8>,
    pub carrier: Option<u16>,
    pub timeslots: Seq<bool>,
    pub alloc_type: ChanAllocType,
    pub ul_dl_assigned: UlDlAssignment,
}

impl View for CmceChanAllocReq {
    type V = ChanAllocView;

    open spec fn view(&self) -> ChanAllocView {
        ChanAllocView {
            usage: self.usage,
            carrier: self.carrier,
            timeslots: self.timeslots@,
            alloc_type: self.alloc_type,
            ul_dl_assigned: self.ul_dl_assigned,
        }
    }
}

/// A downlink PDU, to be serialised when the message leaves the queue.
#[derive(Debug, PartialEq, Eq)]
pub enum DownlinkPdu {
    DSdsData(DSdsData),
    DStatus(DStatus),
}

/// The mathematical value of [`DownlinkPdu`].
pub enum DownlinkPduView {
    DSdsData(DSdsDataView),
    DStatus(DStatus),
}

impl View for DownlinkPdu {
    type V = DownlinkPduView;

    open spec fn view(&self) -> DownlinkPduView {
        match self {
            DownlinkPdu::DSdsData(pdu) => DownlinkPduView::DSdsData(pdu@),
            DownlinkPdu::DStatus(pdu) => DownlinkPduView::DStatus(*pdu),
        }
    }
}

/// An uplink PDU as it was decoded on arrival.
#[derive(Debug, PartialEq, Eq)]
pub enum UplinkPdu {
    USdsData(USdsData),
    UStatus(UStatus),
    /// The PDU did not decode.
    Malformed,
}

/// A PDU received from a mobile station.
#[derive(Debug, PartialEq, Eq)]
pub struct LcmcMleUnitdataInd {
    pub received_tetra_address: TetraAddress,
    pub sdu: UplinkPdu,
}

/// A PDU to be sent to a mobile station.
#[derive(Debug, PartialEq, Eq)]
pub struct LcmcMleUnitdataReq {
    pub sdu: DownlinkPdu,
    pub handle: u32,
    pub endpoint_id: u32,
    pub link_id: u32,
    pub layer2service: Layer2Service,
    pub pdu_prio: u8,
    pub layer2_qos: u8,
    pub stealing_permission: bool,
    pub stealing_repeats_flag: bool,
    pub chan_alloc: Option<CmceChanAllocReq>,
    pub main_address: TetraAddress,
    /// Whether the transmission is reported on.
    pub tx_reporter: bool,
}

/// The mathematical value of [`LcmcMleUnitdataReq`].
pub struct UnitdataReqView {
    pub sdu: DownlinkPduView,
    pub handle: u32,
    pub endpoint_id: u32,
    pub link_id: u32,
    pub layer2service: Layer2Service,
    pub pdu_prio: u8,
    pub layer2_qos: u8,
    pub stealing_permission: bool,
    pub stealing_repeats_flag: bool,
    pub chan_alloc: Option<ChanAllocView>,
    pub main_address: TetraAddress,
    pub tx_reporter: bool,
}

impl View for LcmcMleUnitdataReq {
    type V = UnitdataReqView;

    open spec fn view(&self) -> UnitdataReqView {
        UnitdataReqView {
            sdu: self.sdu@,
            handle: self.handle,
            endpoint_id: self.endpoint_id,
            link_id: self.link_id,
            layer2service: self.layer2service,
            pdu_prio: self.pdu_prio,
            layer2_qos: self.layer2_qos,
            stealing_permission: self.stealing_permission,
            stealing_repeats_flag: self.stealing_repeats_flag,
            chan_alloc: match self.chan_alloc {
                Some(alloc) => Some(alloc@),
                None => None,
            },
            main_address: self.main_address,
            tx_reporter: self.tx_reporter,
        }
    }
}

/// An SDS exchanged with the network link.
#[derive(Debug, PartialEq, Eq)]
pub struct CmceSdsData {
    pub source_issi: u32,
    pub dest_issi: u32,
    pub user_defined_data: SdsUserData,
}

/// The mathematical value of [`CmceSdsData`].
pub struct CmceSdsDataView {
    pub source_issi: u32,
    pub dest_issi: u32,
    pub user_defined_data: SdsUserDataView,
}

impl View for CmceSdsData {
    type V = CmceSdsDataView;

    open spec fn view(&self) -> CmceSdsDataView {
        CmceSdsDataView {
            source_issi: self.source_issi,
            dest_issi: self.dest_issi,
            user_defined_data: self.user_defined_data@,
        }
    }
}

/// What a message holds.
#[derive(Debug, PartialEq, Eq)]
pub enum SapMsgInner {
    LcmcMleUnitdataInd(LcmcMleUnitdataInd),
    LcmcMleUnitdataReq(LcmcMleUnitdataReq),
    CmceSdsData(CmceSdsData),
}

/// The mathematical value of [`SapMsgInner`].
pub enum SapMsgInnerView {
    LcmcMleUnitdataInd(LcmcMleUnitdataInd),
    LcmcMleUnitdataReq(UnitdataReqView),
    CmceSdsData(CmceSdsDataView),
}

impl View for SapMsgInner {
    type V = SapMsgInnerView;

    open spec fn view(&self) -> SapMsgInnerView {
        match self {
            SapMsgInner::LcmcMleUnitdataInd(ind) => SapMsgInnerView::LcmcMleUnitdataInd(*ind),
            SapMsgInner::LcmcMleUnitdataReq(req) => SapMsgInnerView::LcmcMleUnitdataReq(req@),
            SapMsgInner::CmceSdsData(sds) => SapMsgInnerView::CmceSdsData(sds@),
        }
    }
}

/// A message between two entities.
#[derive(Debug, PartialEq, Eq)]
pub struct SapMsg {
    pub sap: Sap,
    pub src: TetraEntity,
    pub dest: TetraEntity,
    pub msg: SapMsgInner,
}

/// The mathematical value of [`SapMsg`].
pub struct SapMsgView {
    pub sap: Sap,
    pub src: TetraEntity,
    pub dest: TetraEntity,
    pub msg: SapMsgInnerView,
}

impl View for SapMsg {
    type V = SapMsgView;

    open spec fn view(&self) -> SapMsgView {
        SapMsgView { sap: self.sap, src: self.src, dest: self.dest, msg: self.msg@ }
    }
}

/// Messages on their way out, first in first out.
#[derive(Debug, PartialEq, Eq)]
pub struct MessageQueue {
    pub messages: Vec<SapMsg>,
}

impl View for MessageQueue {
    type V = Seq<SapMsgView>;

    open spec fn view(&self) -> Seq<SapMsgView> {
        self.messages@.map_values(|m: SapMsg| m@)
    }
}

impl MessageQueue {
    /// An empty queue.
    pub fn new() -> (r: Self)
        ensures
            r@ == Seq::<SapMsgView>::empty(),
    {
        let r = MessageQueue { messages: Vec::new() };
        assert(r@ =~= Seq::<SapMsgView>::empty());
        r
    }

    /// Puts `msg` at the end.
    pub fn push_back(&mut self, msg: SapMsg)
        ensures
            final(self)@ == old(self)@.push(msg@),
    {
        self.messages.push(msg);
        assert(self@ =~= old(self)@.push(msg@));
    }
}

} // verus!
