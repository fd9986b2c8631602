//! SDS-TL framing: text messages, delivery reports and what can be read out of user data.

use vstd::prelude::*;

use crate::lip::{decode_lip_short_location, format_position, lip_steps, position_text, LIP_PROTOCOL_ID};
use crate::pdu::{push_all, SdsUserData, SdsUserDataView};
use crate::text::{read_text, readable};

verus! {

/// Protocol identifier of SDS-TL text messaging.
pub const SDS_TL_TEXT: u8 = 0x82;

/// The other SDS-TL protocol identifier under which text and reports arrive.
pub const SDS_TL_TEXT_ALT: u8 = 0x89;

/// Message type of an SDS-TL report.
pub const SDS_TL_REPORT: u8 = 0x10;

/// Message type of a text message that asks for an acknowledgement.
pub const SDS_TL_SIMPLE_TEXT: u8 = 0x04;

/// Text coding scheme ISO-8859-1.
pub const ENCODING_LATIN1: u8 = 0x01;

/// Delivery status: the message was delivered.
pub const SDS_TL_STATUS_DELIVERED: u8 = 0x00;

/// Delivery status: protocol or encoding not supported.
pub const SDS_TL_STATUS_UNSUPPORTED: u8 = 0x01;

/// Delivery status: the message could not be delivered.
pub const SDS_TL_STATUS_UNDELIVERABLE: u8 = 0x02;

/// True for an SDS-TL header of at least four octets.
pub open spec fn has_sds_tl_header(octets: Seq<u8>) -> bool {
    octets.len() >= 4 && (octets[0] == SDS_TL_TEXT || octets[0] == SDS_TL_TEXT_ALT)
}

/// True when the user data is an SDS-TL report: a delivery confirmation, not a message.
pub open spec fn is_report(data: SdsUserDataView) -> bool {
    has_sds_tl_header(data.octets()) && data.octets()[1] == SDS_TL_REPORT
}

/// The message reference of an SDS-TL message; `None` where there is no SDS-TL header or the user
/// data is itself a report.
pub open spec fn message_reference(data: SdsUserDataView) -> Option<u8> {
    if has_sds_tl_header(data.octets()) && data.octets()[1] != SDS_TL_REPORT {
        Some(data.octets()[2])
    } else {
        None
    }
}

/// The SDS-TL report on the message with reference `reference`.
pub open spec fn report_data(status: u8, reference: u8) -> SdsUserDataView {
    SdsUserDataView::Type4(32, seq![SDS_TL_TEXT, SDS_TL_REPORT, status, reference])
}

/// A text message: SDS-TL header and text.
pub open spec fn text_frame(reference: u8, text: Seq<u8>) -> Seq<u8> {
    seq![SDS_TL_TEXT, SDS_TL_SIMPLE_TEXT, reference, ENCODING_LATIN1] + text
}

/// The protocol identifier of user data: its first octet, 0 where there is none.
pub open spec fn protocol_id(data: SdsUserDataView) -> u8 {
    if data.octets().len() > 0 {
        data.octets()[0]
    } else {
        0
    }
}

/// The text that user data holds for people: a position for a short location report, the text of
/// an SDS-TL text message or of a text with only a coding scheme in front, and nothing for the rest.
pub open spec fn sds_text(data: SdsUserDataView) -> Seq<char> {
    let octets = data.octets();
    if octets.len() > 0 && octets[0] == LIP_PROTOCOL_ID {
        match lip_steps(octets) {
            Some((latitude, longitude)) => position_text(latitude, longitude),
            None => Seq::empty(),
        }
    } else if octets.len() > 4 && (octets[0] == SDS_TL_TEXT || octets[0] == 0x80 || octets[0]
        == 0x8A) {
        readable(octets.skip(4))
    } else if octets.len() > 1 && 0x01 <= octets[0] <= 0x03 {
        readable(octets.skip(1))
    } else {
        Seq::empty()
    }
}

/// The message reference that a counter at `counter` gives out: never 0.
pub open spec fn reference_at(counter: u8) -> u8 {
    if counter == 0 {
        1
    } else {
        counter
    }
}

/// Where a counter at `counter` stands after it gave out a reference: 1 follows on 255.
pub open spec fn reference_after(counter: u8) -> u8 {
    (reference_at(counter) % 255 + 1) as u8
}

/// The counters of message references: one for texts from the control links, one for replies to
/// remote commands. They count for the process, not for one service: the host keeps them and hands
/// them to whichever service sends a text.
#[derive(Debug, Clone, Copy, PartialEq, Eq, Structural)]
pub struct MessageReferences {
    pub control: u8,
    pub text: u8,
}

impl MessageReferences {
    /// Counters at the start of a process: both give out 1 first.
    pub fn new() -> (r: Self)
        ensures
            r == (MessageReferences { control: 1, text: 1 }),
    {
        MessageReferences { control: 1, text: 1 }
    }
}

/// Gives out the next message reference: 1 to 255, and then 1 again.
pub fn next_reference(counter: &mut u8) -> (r: u8)
    ensures
        r == reference_at(*old(counter)),
        *final(counter) == reference_after(*old(counter)),
{
    let reference: u8 = if *counter == 0 {
        1
    } else {
        *counter
    };
    *counter = reference % 255 + 1;
    reference
}

/// True when the user data is an SDS-TL report.
pub fn is_sds_tl_report(data: &SdsUserData) -> (r: bool)
    ensures
        r == is_report(data@),
{
    let octets = data.to_arr();
    octets.len() >= 4 && (octets[0] == SDS_TL_TEXT || octets[0] == SDS_TL_TEXT_ALT) && octets[1]
        == SDS_TL_REPORT
}

/// The message reference of an SDS-TL message.
pub fn sds_tl_message_reference(data: &SdsUserData) -> (r: Option<u8>)
    ensures
        r == message_reference(data@),
{
    let octets = data.to_arr();
    if octets.len() >= 4 && (octets[0] == SDS_TL_TEXT || octets[0] == SDS_TL_TEXT_ALT) && octets[1]
        != SDS_TL_REPORT {
        Some(octets[2])
    } else {
        None
    }
}

/// Builds the SDS-TL report on the message with reference `reference`.
pub fn sds_tl_report(status: u8, reference: u8) -> (r: SdsUserData)
    ensures
        r@ == report_data(status, reference),
{
    let octets = vec![SDS_TL_TEXT, SDS_TL_REPORT, status, reference];
    assert(octets@ =~= seq![SDS_TL_TEXT, SDS_TL_REPORT, status, reference]);
    SdsUserData::Type4(32, octets)
}

/// Puts the SDS-TL text header in front of `text`.
pub fn frame_text(reference: u8, text: &[u8]) -> (r: Vec<u8>)
    ensures
        r@ == text_frame(reference, text@),
{
    let mut octets = vec![SDS_TL_TEXT, SDS_TL_SIMPLE_TEXT, reference, ENCODING_LATIN1];
    assert(octets@ =~= seq![SDS_TL_TEXT, SDS_TL_SIMPLE_TEXT, reference, ENCODING_LATIN1]);
    push_all(&mut octets, text);
    octets
}

/// The protocol identifier of user data.
pub fn protocol_identifier(data: &SdsUserData) -> (r: u8)
    ensures
        r == protocol_id(data@),
{
    let octets = data.to_arr();
    if octets.len() > 0 {
        octets[0]
    } else {
        0
    }
}

/// The text that user data holds for people.
pub fn extract_sds_text(data: &SdsUserData) -> (r: String)
    ensures
        r@ == sds_text(data@),
{
    let octets = data.to_arr();
    if octets.len() > 0 && octets[0] == LIP_PROTOCOL_ID {
        match decode_lip_short_location(octets.as_slice()) {
            Some((latitude, longitude)) => format_position(latitude, longitude),
            None => String::new(),
        }
    } else if octets.len() > 4 && (octets[0] == SDS_TL_TEXT || octets[0] == 0x80 || octets[0]
        == 0x8A) {
        let text = vstd::slice::slice_subrange(octets.as_slice(), 4, octets.len());
        assert(text@ =~= octets@.skip(4));
        read_text(text)
    } else if octets.len() > 1 && 0x01 <= octets[0] && octets[0] <= 0x03 {
        let text = vstd::slice::slice_subrange(octets.as_slice(), 1, octets.len());
        assert(text@ =~= octets@.skip(1));
        read_text(text)
    } else {
        String::new()
    }
}

} // verus!
