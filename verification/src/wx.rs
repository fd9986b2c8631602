//! Built-in weather service.
//!
//! A text addressed to the service is a request; the host looks the weather up and the reply goes
//! back through the control channel as a text to send. A report can also be sent periodically.

use vstd::prelude::*;
use vstd::string::*;
use vstd::utf8::encode_utf8;

use crate::channel::ControlLink;
use crate::config::WxServiceConfig;
use crate::control::{ControlCommand, ControlCommandView};
use crate::entity::{SdsBsSubentity, SdsBsView};
use crate::pdu::{push_all, SdsUserData, SdsUserDataView};
use crate::sds_tl::{extract_sds_text, sds_text};
use crate::text::{is_blank, is_white_space};
use crate::time::{elapsed, since, NANOS_PER_SEC};

verus! {

/// Greatest number of octets of a reply.
pub const MAX_REPLY_OCTETS: usize = 220;

/// A request to look up and answer.
#[derive(Debug, PartialEq, Eq)]
pub struct WxJob {
    pub requester_issi: u32,
    pub service_issi: u32,
    pub text: String,
}

/// The mathematical value of [`WxJob`].
pub struct WxJobView {
    pub requester_issi: u32,
    pub service_issi: u32,
    pub text: Seq<char>,
}

impl View for WxJob {
    type V = WxJobView;

    open spec fn view(&self) -> WxJobView {
        WxJobView {
            requester_issi: self.requester_issi,
            service_issi: self.service_issi,
            text: self.text@,
        }
    }
}

/// A periodic report to look up and send.
#[derive(Debug, PartialEq, Eq)]
pub struct PeriodicWxJob {
    pub icao: String,
    pub dest: u32,
    pub is_group: bool,
    pub source_issi: u32,
}

/// The value of a job, if there is one.
pub open spec fn job_view(job: Option<WxJob>) -> Option<WxJobView> {
    match job {
        Some(job) => Some(job@),
        None => None,
    }
}

/// The job that a request brings; without a sender for the reply there is none.
pub open spec fn wx_job(
    s: SdsBsView,
    requester_issi: u32,
    data: SdsUserDataView,
) -> Option<WxJobView> {
    if s.wx_cmd_tx is Some {
        Some(
            WxJobView {
                requester_issi,
                service_issi: s.config.wx.service_issi,
                text: sds_text(data),
            },
        )
    } else {
        None
    }
}

/// What is answered about `subject`, given what was looked up (`None` where that failed).
pub open spec fn reply_text(subject: Seq<char>, fetched: Option<Seq<char>>) -> Seq<char> {
    match fetched {
        Some(found) => if found.len() > 0 {
            found
        } else {
            subject + ": no data"@
        },
        None => subject + ": unavailable"@,
    }
}

/// The first octets of a text, as many as a reply holds.
pub open spec fn reply_octets(text: Seq<char>) -> Seq<u8> {
    let octets = encode_utf8(text);
    if octets.len() <= MAX_REPLY_OCTETS {
        octets
    } else {
        octets.take(MAX_REPLY_OCTETS as int)
    }
}

/// The command that sends `payload` as a text.
pub open spec fn text_command(
    source_ssi: u32,
    dest_ssi: u32,
    dest_is_group: bool,
    payload: Seq<u8>,
) -> ControlCommandView {
    ControlCommandView::SendSds {
        handle: 0,
        source_ssi,
        dest_ssi,
        dest_is_group,
        len_bits: (8 * payload.len()) as u16,
        payload,
    }
}

/// The command that sends the reply `text`; an empty reply becomes "(no data)".
pub open spec fn wx_reply(source_issi: u32, dest_issi: u32, text: Seq<char>) -> ControlCommandView {
    text_command(
        source_issi,
        dest_issi,
        false,
        if text.len() == 0 {
            encode_utf8("(no data)"@)
        } else {
            reply_octets(text)
        },
    )
}

/// The command that sends a periodic report; nothing is sent where the look-up failed or found
/// nothing.
pub open spec fn periodic_reply(
    job: PeriodicWxJob,
    fetched: Option<Seq<char>>,
) -> Option<ControlCommandView> {
    match fetched {
        Some(found) => if found.len() > 0 {
            Some(text_command(job.source_issi, job.dest, job.is_group, reply_octets(found)))
        } else {
            None
        },
        None => None,
    }
}

/// True when a periodic report is configured: switched on, with a destination and a station.
pub open spec fn periodic_configured(wx: WxServiceConfig) -> bool {
    &&& wx.periodic_enabled
    &&& wx.periodic_issi != 0
    &&& exists|i: int|
        0 <= i < wx.periodic_icao@.len() && !is_white_space(#[trigger] wx.periodic_icao@[i])
}

/// True when a periodic report is due at `now`.
pub open spec fn periodic_due(s: SdsBsView, now: u64) -> bool {
    match s.last_periodic_wx {
        Some(last) => elapsed(now, last) >= s.config.wx.interval_secs * NANOS_PER_SEC,
        None => true,
    }
}

pub proof fn lemma_encode_nonempty(text: Seq<char>)
    requires
        text.len() > 0,
    ensures
        encode_utf8(text).len() > 0,
{
    if encode_utf8(text).len() == 0 {
        vstd::utf8::encode_utf8_decode_utf8(text);
        assert(encode_utf8(text) =~= Seq::empty());
        assert(vstd::utf8::decode_utf8(Seq::<u8>::empty()) =~= Seq::empty());
    }
}

fn first_octets(text: &str) -> (r: Vec<u8>)
    ensures
        r@ == reply_octets(text@),
        r@.len() <= MAX_REPLY_OCTETS,
{
    let octets = text.as_bytes();
    let mut out: Vec<u8> = Vec::new();
    if octets.len() <= MAX_REPLY_OCTETS {
        push_all(&mut out, octets);
    } else {
        let head = vstd::slice::slice_subrange(octets, 0, MAX_REPLY_OCTETS);
        push_all(&mut out, head);
        assert(head@ =~= octets@.take(MAX_REPLY_OCTETS as int));
    }
    out
}

/// What is answered about `subject`, given what was looked up (`None` where that failed).
pub fn wx_reply_text(subject: &str, fetched: Option<String>) -> (r: String)
    ensures
        r@ == reply_text(
            subject@,
            match fetched {
                Some(found) => Some(found@),
                None => None,
            },
        ),
{
    match fetched {
        Some(found) => {
            if found.as_str().is_empty() {
                subject.to_owned().concat(": no data")
            } else {
                found
            }
        },
        None => subject.to_owned().concat(": unavailable"),
    }
}

/// Builds the command that sends the reply `text`.
pub fn wx_reply_command(source_issi: u32, dest_issi: u32, text: &str) -> (r: ControlCommand)
    ensures
        r@ == wx_reply(source_issi, dest_issi, text@),
{
    let mut payload = first_octets(text);
    if payload.len() == 0 {
        payload = first_octets("(no data)");
        proof {
            if text@.len() > 0 {
                lemma_encode_nonempty(text@);
            }
            reveal_strlit("(no data)");
            vstd::utf8::is_ascii_chars_encode_utf8("(no data)"@);
        }
    } else {
        proof {
            if text@.len() == 0 {
                assert(encode_utf8(text@) =~= Seq::empty());
            }
        }
    }
    let len_bits: u16 = (payload.len() * 8) as u16;
    ControlCommand::SendSds {
        handle: 0,
        source_ssi: source_issi,
        dest_ssi: dest_issi,
        dest_is_group: false,
        len_bits,
        payload,
    }
}

/// Builds the command that sends a periodic report, given what was looked up.
pub fn periodic_wx_command(job: &PeriodicWxJob, fetched: Option<String>) -> (r: Option<
    ControlCommand,
>)
    ensures
        match r {
            Some(command) => periodic_reply(
                *job,
                match fetched {
                    Some(found) => Some(found@),
                    None => None,
                },
            ) == Some(command@),
            None => periodic_reply(
                *job,
                match fetched {
                    Some(found) => Some(found@),
                    None => None,
                },
            ) is None,
        },
{
    match fetched {
        Some(found) => {
            if found.as_str().is_empty() {
                None
            } else {
                let payload = first_octets(found.as_str());
                let len_bits: u16 = (payload.len() * 8) as u16;
                Some(
                    ControlCommand::SendSds {
                        handle: 0,
                        source_ssi: job.source_issi,
                        dest_ssi: job.dest,
                        dest_is_group: job.is_group,
                        len_bits,
                        payload,
                    },
                )
            }
        },
        None => None,
    }
}

/// Puts the command that sends the reply `text` on the control channel, and nothing else. Either the
/// channel takes it or the command comes back.
pub fn queue_wx_reply(
    link: &mut ControlLink,
    source_issi: u32,
    dest_issi: u32,
    text: &str,
) -> (r: Result<(), ControlCommand>)
    ensures
        final(link).offers() == old(link).offers().push(wx_reply(source_issi, dest_issi, text@)),
        match r {
            Ok(()) => final(link)@ == old(link)@.push(wx_reply(source_issi, dest_issi, text@)),
            Err(refused) => {
                &&& refused@ == wx_reply(source_issi, dest_issi, text@)
                &&& final(link)@ == old(link)@
            },
        },
{
    link.put(wx_reply_command(source_issi, dest_issi, text))
}

/// Puts the command that sends a periodic report on the control channel, where there is something
/// to report, and nothing else. Either the channel takes it or the command comes back.
pub fn queue_periodic_wx(
    link: &mut ControlLink,
    job: &PeriodicWxJob,
    fetched: Option<String>,
) -> (r: Result<(), ControlCommand>)
    ensures
        ({
            let reply = periodic_reply(
                *job,
                match fetched {
                    Some(found) => Some(found@),
                    None => None,
                },
            );
            &&& final(link).offers() == match reply {
                Some(command) => old(link).offers().push(command),
                None => old(link).offers(),
            }
            &&& match r {
                Ok(()) => final(link)@ == match reply {
                    Some(command) => old(link)@.push(command),
                    None => old(link)@,
                },
                Err(refused) => reply == Some(refused@) && final(link)@ == old(link)@,
            }
        }),
{
    match periodic_wx_command(job, fetched) {
        Some(command) => link.put(command),
        None => Ok(()),
    }
}

impl SdsBsSubentity {
    /// Turns a text to the weather service into a job for the host.
    pub fn handle_wx_request(&self, requester_issi: u32, data: &SdsUserData) -> (r: Option<WxJob>)
        ensures
            job_view(r) == wx_job(self@, requester_issi, data@),
    {
        if self.wx_cmd_tx.is_none() {
            return None;
        }
        Some(
            WxJob {
                requester_issi,
                service_issi: self.config.wx.service_issi,
                text: extract_sds_text(data),
            },
        )
    }

    /// Starts a periodic weather report where one is due. It counts as sent even where there is no
    /// sender to take it.
    pub fn tick_periodic_wx(&mut self, now: u64) -> (r: Option<PeriodicWxJob>)
        ensures
            final(self)@ == (SdsBsView {
                last_periodic_wx: if periodic_configured(old(self)@.config.wx) && periodic_due(
                    old(self)@,
                    now,
                ) {
                    Some(now)
                } else {
                    old(self)@.last_periodic_wx
                },
                ..old(self)@
            }),
            r is Some <==> periodic_configured(old(self)@.config.wx) && periodic_due(
                old(self)@,
                now,
            ) && old(self)@.wx_cmd_tx is Some,
            r matches Some(job) ==> {
                let wx = old(self)@.config.wx;
                &&& job.icao@ == wx.periodic_icao@
                &&& job.dest == wx.periodic_issi
                &&& job.is_group == wx.periodic_is_group
                &&& job.source_issi == wx.service_issi
            },
    {
        if !self.config.wx.periodic_enabled || self.config.wx.periodic_issi == 0 || is_blank(
            self.config.wx.periodic_icao.as_str(),
        ) {
            return None;
        }
        let due: bool = match self.last_periodic_wx {
            Some(last) => since(now, last) as u128 >= self.config.wx.interval_secs as u128
                * NANOS_PER_SEC as u128,
            None => true,
        };
        if !due {
            return None;
        }
        self.last_periodic_wx = Some(now);
        if self.wx_cmd_tx.is_none() {
            return None;
        }
        Some(
            PeriodicWxJob {
                icao: self.config.wx.periodic_icao.clone(),
                dest: self.config.wx.periodic_issi,
                is_group: self.config.wx.periodic_is_group,
                source_issi: self.config.wx.service_issi,
            },
        )
    }
}

} // verus!
