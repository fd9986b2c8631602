//! Laws of the weather service.

use vstd::prelude::*;
use vstd::utf8::encode_utf8;

use crate::commands::MAX_TEXT_OCTETS;
use crate::config::WxServiceConfig;
use crate::control::ControlCommandView;
use crate::entity::SdsBsView;
use crate::pdu::SdsUserDataView;
use crate::routing::routed_from_rf;
use crate::sap::SapMsgView;
use crate::sds_tl::{is_report, report_data, sds_text, SDS_TL_STATUS_DELIVERED};
use crate::time::{elapsed, NANOS_PER_SEC};
use crate::text::is_white_space;
use crate::wx::{
    lemma_encode_nonempty, periodic_configured, periodic_due, periodic_reply, reply_octets, reply_text,
    wx_job, wx_reply, PeriodicWxJob, MAX_REPLY_OCTETS,
};

verus! {

/// A report to the weather service is absorbed: it is answered with nothing, so that answers and
/// reports cannot chase each other.
pub proof fn law_report_is_absorbed(
    s: SdsBsView,
    queue: Seq<SapMsgView>,
    now: u64,
    source: u32,
    data: SdsUserDataView,
)
    requires
        s.config.wx.enabled,
        is_report(data),
    ensures
        ({
            let (next, after, job) = routed_from_rf(
                s,
                queue,
                now,
                source,
                s.config.wx.service_issi,
                data,
            );
            after == queue && next.pending_sds == s.pending_sds && job is None
        }),
{
}

/// The confirmation that the service sends for a request, sent back to the service, is absorbed.
pub proof fn law_confirmation_is_absorbed(
    s: SdsBsView,
    queue: Seq<SapMsgView>,
    now: u64,
    source: u32,
    reference: u8,
)
    requires
        s.config.wx.enabled,
    ensures
        ({
            let (next, after, job) = routed_from_rf(
                s,
                queue,
                now,
                source,
                s.config.wx.service_issi,
                report_data(SDS_TL_STATUS_DELIVERED, reference),
            );
            after == queue && next.pending_sds == s.pending_sds && job is None
        }),
{
    law_report_is_absorbed(s, queue, now, source, report_data(SDS_TL_STATUS_DELIVERED, reference));
}

/// A reply is never empty and short enough to be accepted as a text.
pub proof fn law_reply_is_accepted(source: u32, dest: u32, text: Seq<char>)
    ensures
        wx_reply(source, dest, text) matches ControlCommandView::SendSds {
            source_ssi,
            dest_ssi,
            dest_is_group,
            len_bits,
            payload,
            ..
        } && source_ssi == source && dest_ssi == dest && !dest_is_group && 0 < payload.len()
            <= MAX_REPLY_OCTETS && payload.len() <= MAX_TEXT_OCTETS && len_bits == 8 * payload.len(),
{
    if text.len() == 0 {
        reveal_strlit("(no data)");
        vstd::utf8::is_ascii_chars_encode_utf8("(no data)"@);
    } else {
        lemma_encode_nonempty(text);
    }
}

/// After a periodic report is due, the next one is due no sooner than an interval later.
pub proof fn law_periodic_reports_keep_distance(s: SdsBsView, then: u64, now: u64)
    requires
        s.last_periodic_wx == Some(then),
        elapsed(now, then) < s.config.wx.interval_secs * NANOS_PER_SEC,
    ensures
        !periodic_due(s, now),
{
}

/// True when `payload` is the beginning of `octets`: all of it, or its first 220.
pub open spec fn is_beginning(payload: Seq<u8>, octets: Seq<u8>) -> bool {
    &&& payload.len() == if octets.len() < 220 {
        octets.len()
    } else {
        220
    }
    &&& forall|i: int| 0 <= i < payload.len() ==> #[trigger] payload[i] == octets[i]
}

/// A reply carries the beginning of its text, as UTF-8, and never its end without it: all of it where
/// it has up to 220 octets, else the first 220. An empty text is replaced by "(no data)". It goes from
/// the service to the one radio and says how many bits it has.
pub proof fn law_reply_carries_the_beginning(source: u32, dest: u32, text: Seq<char>)
    ensures
        ({
            let octets = if text.len() == 0 {
                encode_utf8("(no data)"@)
            } else {
                encode_utf8(text)
            };
            &&& wx_reply(source, dest, text) matches ControlCommandView::SendSds {
                handle,
                source_ssi,
                dest_ssi,
                dest_is_group,
                len_bits,
                payload,
            }
            &&& is_beginning(payload, octets)
            &&& len_bits == 8 * payload.len()
            &&& handle == 0 && source_ssi == source && dest_ssi == dest && !dest_is_group
        }),
{
    if text.len() == 0 {
        reveal_strlit("(no data)");
        vstd::utf8::is_ascii_chars_encode_utf8("(no data)"@);
    }
}

/// A periodic report is sent exactly where something was found. It carries the beginning of what was
/// found, as UTF-8: all of it up to 220 octets, else the first 220. It goes from and to whom the job
/// names and says how many bits it has.
pub proof fn law_periodic_report_carries_the_beginning(job: PeriodicWxJob, fetched: Option<Seq<char>>)
    ensures
        periodic_reply(job, fetched) is Some <==> fetched is Some && fetched->0.len() > 0,
        periodic_reply(job, fetched) is Some ==> {
            &&& periodic_reply(job, fetched)->0 matches ControlCommandView::SendSds {
                handle,
                source_ssi,
                dest_ssi,
                dest_is_group,
                len_bits,
                payload,
            }
            &&& is_beginning(payload, encode_utf8(fetched->0))
            &&& len_bits == 8 * payload.len()
            &&& handle == 0 && source_ssi == job.source_issi && dest_ssi == job.dest
            &&& dest_is_group == job.is_group
        },
{
}

/// What a reply has of a text is the beginning of its octets.
pub proof fn law_reply_octets_are_the_beginning(text: Seq<char>)
    ensures
        is_beginning(reply_octets(text), encode_utf8(text)),
{
}

/// What was found is answered as it is. Where nothing was found, or the look-up failed, the answer
/// names the subject and says which of the two it was.
pub proof fn law_answer_says_what_was_found(subject: Seq<char>, fetched: Option<Seq<char>>)
    ensures
        match fetched {
            Some(found) if found.len() > 0 => reply_text(subject, fetched) == found,
            Some(_) => reply_text(subject, fetched) == subject + ": no data"@,
            None => reply_text(subject, fetched) == subject + ": unavailable"@,
        },
{
}

/// A request becomes a job exactly where there is a sender for the reply: for the radio that asked,
/// in the name of the configured service, with what the request reads as.
pub proof fn law_request_becomes_a_job(s: SdsBsView, requester: u32, data: SdsUserDataView)
    ensures
        wx_job(s, requester, data) is Some <==> s.wx_cmd_tx is Some,
        wx_job(s, requester, data) is Some ==> {
            &&& wx_job(s, requester, data)->0.requester_issi == requester
            &&& wx_job(s, requester, data)->0.service_issi == s.config.wx.service_issi
            &&& wx_job(s, requester, data)->0.text == sds_text(data)
        },
{
}

/// Periodic reports are sent when they are switched on and have a destination other than 0 and a
/// station whose name is not only white space.
pub proof fn law_periodic_settings(wx: WxServiceConfig, i: int)
    ensures
        periodic_configured(wx) ==> wx.periodic_enabled && wx.periodic_issi != 0,
        wx.periodic_enabled && wx.periodic_issi != 0 && 0 <= i < wx.periodic_icao@.len()
            && !is_white_space(wx.periodic_icao@[i]) ==> periodic_configured(wx),
        (forall|j: int|
            0 <= j < wx.periodic_icao@.len() ==> is_white_space(#[trigger] wx.periodic_icao@[j]))
            ==> !periodic_configured(wx),
{
}

/// A periodic report is due where none was sent yet, and else once the configured number of seconds
/// has passed since the last one.
pub proof fn law_periodic_report_is_due(s: SdsBsView, now: u64)
    ensures
        s.last_periodic_wx is None ==> periodic_due(s, now),
        s.last_periodic_wx is Some && s.config.wx.interval_secs > 0 ==> (periodic_due(s, now)
            <==> now >= s.last_periodic_wx->0 + s.config.wx.interval_secs * 1_000_000_000),
        s.config.wx.interval_secs == 0 ==> periodic_due(s, now),
{
    assert(s.config.wx.interval_secs > 0 ==> s.config.wx.interval_secs * 1_000_000_000 > 0)
        by (nonlinear_arith);
}

/// White space is what Unicode calls so: in ASCII the space and the characters 9 to 13, and beyond it
/// next line, the no-break spaces, the Ogham space mark, the spaces of general punctuation, the line
/// and paragraph separators, the mathematical space and the ideographic space.
pub proof fn law_white_space(c: char)
    ensures
        (c as u32) < 128 ==> (is_white_space(c) <==> c == ' ' || 9 <= c as u32 <= 13),
        (c as u32) >= 128 ==> (is_white_space(c) <==> c == '\u{85}' || c == '\u{A0}' || c
            == '\u{1680}' || ('\u{2000}' <= c && c <= '\u{200A}') || c == '\u{2028}' || c
            == '\u{2029}' || c == '\u{202F}' || c == '\u{205F}' || c == '\u{3000}'),
{
}

} // verus!
