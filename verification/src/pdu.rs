//! Addresses, SDS user data, pre-coded statuses and the CMCE PDUs that carry them.

use vstd::prelude::*;

verus! {

/// How an SSI is to be read.
#[derive(Debug, Clone, Copy, PartialEq, Eq, Structural)]
pub enum SsiType {
    /// Individual short subscriber identity.
    Issi,
    /// Group short subscriber identity.
    Gssi,
}

/// An SSI with its type.
#[derive(Debug, Clone, Copy, PartialEq, Eq, Structural)]
pub struct TetraAddress {
    pub ssi: u32,
    pub ssi_type: SsiType,
}

/// The user data of an SDS. Types 1 to 3 have a fixed length of 16, 32 and 64 bits; type 4 carries
/// its length in bits and its octets.
#[derive(Debug, Clone, PartialEq, Eq)]
pub enum SdsUserData {
    Type1(u16),
    Type2(u32),
    Type3(u64),
    Type4(u16, Vec<u8>),
}

/// The mathematical value of [`SdsUserData`].
pub enum SdsUserDataView {
    Type1(u16),
    Type2(u32),
    Type3(u64),
    Type4(u16, Seq<u8>),
}

impl View for SdsUserData {
    type V = SdsUserDataView;

    open spec fn view(&self) -> SdsUserDataView {
        match self {
            SdsUserData::Type1(v) => SdsUserDataView::Type1(*v),
            SdsUserData::Type2(v) => SdsUserDataView::Type2(*v),
            SdsUserData::Type3(v) => SdsUserDataView::Type3(*v),
            SdsUserData::Type4(len_bits, octets) => SdsUserDataView::Type4(*len_bits, octets@),
        }
    }
}

/// The `count` low octets of `v`, most significant first.
pub open spec fn octets_msb(v: nat, count: nat) -> Seq<u8>
    decreases count,
{
    if count == 0 {
        seq![]
    } else {
        octets_msb(v / 256, (count - 1) as nat).push((v % 256) as u8)
    }
}

impl SdsUserDataView {
    /// The user data as octets in the order of transmission.
    pub open spec fn octets(self) -> Seq<u8> {
        match self {
            SdsUserDataView::Type1(v) => octets_msb(v as nat, 2),
            SdsUserDataView::Type2(v) => octets_msb(v as nat, 4),
            SdsUserDataView::Type3(v) => octets_msb(v as nat, 8),
            SdsUserDataView::Type4(_, octets) => octets,
        }
    }

    /// True when the length fits the 11-bit length indicator of user data type 4.
    pub open spec fn length_fits(self) -> bool {
        self matches SdsUserDataView::Type4(len_bits, _) ==> len_bits <= MAX_TYPE4_BITS
    }
}

/// Greatest length, in bits, that the length indicator of user data type 4 can carry.
pub const MAX_TYPE4_BITS: u16 = 2047;

fn push_octets_msb(out: &mut Vec<u8>, v: u64, count: u32)
    ensures
        final(out)@ == old(out)@ + octets_msb(v as nat, count as nat),
    decreases count,
{
    if count > 0 {
        push_octets_msb(out, v / 256, count - 1);
        out.push((v % 256) as u8);
    }
}

/// A copy of `octets` at the end of `out`.
pub fn push_all(out: &mut Vec<u8>, octets: &[u8])
    ensures
        final(out)@ == old(out)@ + octets@,
{
    let mut i: usize = 0;
    while i < octets.len()
        invariant
            i <= octets@.len(),
            out@ == old(out)@ + octets@.take(i as int),
        decreases octets@.len() - i,
    {
        out.push(octets[i]);
        assert(octets@.take(i + 1) =~= octets@.take(i as int).push(octets@[i as int]));
        i = i + 1;
    }
    assert(octets@.take(i as int) =~= octets@);
}

impl SdsUserData {
    /// The user data as octets in the order of transmission.
    pub fn to_arr(&self) -> (r: Vec<u8>)
        ensures
            r@ == self@.octets(),
    {
        let mut out: Vec<u8> = Vec::new();
        match self {
            SdsUserData::Type1(v) => push_octets_msb(&mut out, *v as u64, 2),
            SdsUserData::Type2(v) => push_octets_msb(&mut out, *v as u64, 4),
            SdsUserData::Type3(v) => push_octets_msb(&mut out, *v, 8),
            SdsUserData::Type4(_, octets) => push_all(&mut out, octets.as_slice()),
        }
        out
    }
}

/// What an SDS-TL short report says about its message.
#[derive(Debug, Clone, Copy, PartialEq, Eq, Structural)]
pub enum ShortReportType {
    MessageReceived,
    MessageConsumed,
    DestMemFull,
    ProtOrEncodingNotSupported,
}

/// An SDS-TL short report carried in a pre-coded status (ETSI EN 300 392-2 cl. 29.4.2.3).
#[derive(Debug, Clone, Copy, PartialEq, Eq, Structural)]
pub struct ShortReport {
    /// The status value that carries the report.
    pub raw: u16,
    pub short_report_type: ShortReportType,
    pub message_reference: u8,
}

/// A pre-coded status.
#[derive(Debug, Clone, Copy, PartialEq, Eq, Structural)]
pub enum PreCodedStatus {
    /// Emergency, status value 0.
    Emergency,
    /// An SDS-TL short report.
    SdsTl(ShortReport),
    /// Any other status, by its value.
    Other(u16),
}

impl PreCodedStatus {
    /// The status value.
    pub open spec fn raw(self) -> u16 {
        match self {
            PreCodedStatus::Emergency => 0,
            PreCodedStatus::SdsTl(report) => report.raw,
            PreCodedStatus::Other(raw) => raw,
        }
    }

    /// The status value.
    pub fn into_raw(self) -> (r: u16)
        ensures
            r == self.raw(),
    {
        match self {
            PreCodedStatus::Emergency => 0,
            PreCodedStatus::SdsTl(report) => report.raw,
            PreCodedStatus::Other(raw) => raw,
        }
    }
}

/// A decoded U-SDS-DATA PDU.
#[derive(Debug, PartialEq, Eq)]
pub struct USdsData {
    pub called_party_ssi: Option<u64>,
    pub called_party_short_number_address: Option<u64>,
    pub called_party_extension: Option<u64>,
    /// Whether an external subscriber number is present.
    pub external_subscriber_number: bool,
    /// Whether a DM-MS address is present.
    pub dm_ms_address: bool,
    pub user_defined_data: SdsUserData,
}

/// A decoded U-STATUS PDU.
#[derive(Debug, PartialEq, Eq)]
pub struct UStatus {
    pub called_party_ssi: Option<u64>,
    pub called_party_short_number_address: Option<u64>,
    pub called_party_extension: Option<u64>,
    /// Whether an external subscriber number is present.
    pub external_subscriber_number: bool,
    /// Whether a DM-MS address is present.
    pub dm_ms_address: bool,
    pub pre_coded_status: PreCodedStatus,
}

/// How a PDU names a party.
#[derive(Debug, Clone, Copy, PartialEq, Eq, Structural)]
pub enum PartyTypeIdentifier {
    /// By a short number.
    Sna,
    /// By an SSI.
    Ssi,
    /// By an SSI and an extension.
    Tsi,
}

/// A D-SDS-DATA PDU.
#[derive(Debug, PartialEq, Eq)]
pub struct DSdsData {
    pub calling_party_type_identifier: PartyTypeIdentifier,
    pub calling_party_address_ssi: u32,
    pub calling_party_extension: Option<u64>,
    pub user_defined_data: SdsUserData,
    /// Whether an external subscriber number is present.
    pub external_subscriber_number: bool,
    /// Whether a DM-MS address is present.
    pub dm_ms_address: bool,
}

/// The mathematical value of [`DSdsData`].
pub struct DSdsDataView {
    pub calling_party_type_identifier: PartyTypeIdentifier,
    pub calling_party_address_ssi: u32,
    pub calling_party_extension: Option<u64>,
    pub user_defined_data: SdsUserDataView,
    pub external_subscriber_number: bool,
    pub dm_ms_address: bool,
}

impl View for DSdsData {
    type V = DSdsDataView;

    open spec fn view(&self) -> DSdsDataView {
        DSdsDataView {
            calling_party_type_identifier: self.calling_party_type_identifier,
            calling_party_address_ssi: self.calling_party_address_ssi,
            calling_party_extension: self.calling_party_extension,
            user_defined_data: self.user_defined_data@,
            external_subscriber_number: self.external_subscriber_number,
            dm_ms_address: self.dm_ms_address,
        }
    }
}

/// A D-STATUS PDU.
#[derive(Debug, Clone, Copy, PartialEq, Eq, Structural)]
pub struct DStatus {
    pub calling_party_type_identifier: PartyTypeIdentifier,
    pub calling_party_address_ssi: u32,
    pub calling_party_extension: Option<u64>,
    pub pre_coded_status: PreCodedStatus,
    /// Whether an external subscriber number is present.
    pub external_subscriber_number: bool,
    /// Whether a DM-MS address is present.
    pub dm_ms_address: bool,
}

} // verus!
