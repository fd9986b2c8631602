//! Commands from the control links.

use vstd::prelude::*;

verus! {

/// A command to the Short Data Service.
#[derive(Debug, PartialEq, Eq)]
pub enum ControlCommand {
    /// Send `payload` as a text message.
    SendSds {
        handle: u32,
        source_ssi: u32,
        dest_ssi: u32,
        dest_is_group: bool,
        len_bits: u16,
        payload: Vec<u8>,
    },
    /// Send `payload`, a complete user data of type 4, as it is.
    SendRawSdsType4 {
        handle: u32,
        source_ssi: u32,
        dest_ssi: u32,
        dest_is_group: bool,
        len_bits: u16,
        payload: Vec<u8>,
    },
}

/// The mathematical value of [`ControlCommand`].
pub enum ControlCommandView {
    SendSds {
        handle: u32,
        source_ssi: u32,
        dest_ssi: u32,
        dest_is_group: bool,
        len_bits: u16,
        payload: Seq<u8>,
    },
    SendRawSdsType4 {
        handle: u32,
        source_ssi: u32,
        dest_ssi: u32,
        dest_is_group: bool,
        len_bits: u16,
        payload: Seq<u8>,
    },
}

impl View for ControlCommand {
    type V = ControlCommandView;

    open spec fn view(&self) -> ControlCommandView {
        match self {
            ControlCommand::SendSds {
                handle,
                source_ssi,
                dest_ssi,
                dest_is_group,
                len_bits,
                payload,
            } => ControlCommandView::SendSds {
                handle: *handle,
                source_ssi: *source_ssi,
                dest_ssi: *dest_ssi,
                dest_is_group: *dest_is_group,
                len_bits: *len_bits,
                payload: payload@,
            },
            ControlCommand::SendRawSdsType4 {
                handle,
                source_ssi,
                dest_ssi,
                dest_is_group,
                len_bits,
                payload,
            } => ControlCommandView::SendRawSdsType4 {
                handle: *handle,
                source_ssi: *source_ssi,
                dest_ssi: *dest_ssi,
                dest_is_group: *dest_is_group,
                len_bits: *len_bits,
                payload: payload@,
            },
        }
    }
}

} // verus!
