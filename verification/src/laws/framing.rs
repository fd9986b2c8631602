//! Laws of SDS-TL framing.

use vstd::prelude::*;

use crate::commands::{text_data, text_fits};
use crate::lip::{lip_steps, position_text};
use crate::pdu::{octets_msb, PreCodedStatus, SdsUserDataView, ShortReport};
use crate::routing::{delivery_status, status_data};
use crate::sds_tl::{
    is_report, message_reference, protocol_id, reference_after, reference_at, report_data, sds_text,
    text_frame,
};
use crate::text::{
    as_chars, is_blank_octet, is_text_octet, readable, text_octets, trim_end, trim_start,
};

verus! {

/// What has a message reference is no report: a report is never confirmed by a report.
pub proof fn law_report_has_no_reference(data: SdsUserDataView)
    ensures
        message_reference(data) is Some ==> !is_report(data),
        is_report(data) ==> message_reference(data) is None,
{
}

/// Reports that are built here are recognised as reports.
pub proof fn law_report_is_recognised(status: u8, reference: u8)
    ensures
        is_report(report_data(status, reference)),
        message_reference(report_data(status, reference)) is None,
{
}

/// A text message that is framed here reads back as its text, under its message reference.
pub proof fn law_text_reads_back(reference: u8, text: Seq<u8>)
    ensures
        sds_text(text_data(reference, text)) == readable(text),
        message_reference(text_data(reference, text)) == Some(reference),
        !is_report(text_data(reference, text)),
{
    let octets = text_data(reference, text).octets();
    assert(octets == text_frame(reference, text));
    assert(octets.skip(4) =~= text);
    if text.len() == 0 {
        lemma_all_kept(text);
        assert(readable(text) =~= Seq::empty());
    }
}

/// Text without blanks at its ends and without other octets reads back unchanged.
pub proof fn law_plain_text_reads_back(text: Seq<u8>)
    requires
        forall|i: int| 0 <= i < text.len() ==> is_text_octet(#[trigger] text[i]),
        text.len() > 0 ==> !is_blank_octet(text.first()) && !is_blank_octet(text.last()),
    ensures
        readable(text) == as_chars(text),
{
    lemma_all_kept(text);
}

proof fn lemma_all_kept(text: Seq<u8>)
    requires
        forall|i: int| 0 <= i < text.len() ==> is_text_octet(#[trigger] text[i]),
    ensures
        text_octets(text) == text,
    decreases text.len(),
{
    reveal(Seq::filter);
    if text.len() > 0 {
        assert forall|i: int| 0 <= i < text.drop_last().len() implies is_text_octet(
            #[trigger] text.drop_last()[i],
        ) by {
            assert(text.drop_last()[i] == text[i]);
        }
        lemma_all_kept(text.drop_last());
        assert(is_text_octet(text[text.len() - 1]));
        assert(text.drop_last().push(text.last()) =~= text);
    }
}

/// A message reference is never 0: a counter gives out where it stands, and 1 where it stands at 0.
pub proof fn law_reference_is_never_zero(counter: u8)
    ensures
        reference_at(counter) != 0,
        counter != 0 ==> reference_at(counter) == counter,
        counter == 0 ==> reference_at(counter) == 1,
{
}

/// Each message reference is the one before plus one, up to 255; then the count starts again at 1.
pub proof fn law_references_count_up(counter: u8)
    ensures
        reference_at(reference_after(counter)) == reference_at(counter) % 255 + 1,
{
}

/// Of two texts one after the other the second is under the reference that follows on that of the
/// first, so that no two successive texts share a reference.
pub proof fn law_successive_texts_count_up(counter: u8, first: Seq<u8>, second: Seq<u8>)
    ensures
        ({
            let one = message_reference(text_data(reference_at(counter), first));
            let two = message_reference(text_data(reference_at(reference_after(counter)), second));
            &&& one is Some && two is Some
            &&& two->0 == one->0 % 255 + 1
            &&& two != one
        }),
{
}

/// A short report that leaves over the network link is recognised there as a report on the same
/// message.
pub proof fn law_short_report_stays_a_report(report: ShortReport)
    ensures
        is_report(status_data(PreCodedStatus::SdsTl(report))),
        status_data(PreCodedStatus::SdsTl(report)).octets()[2] == delivery_status(
            report.short_report_type,
        ),
        status_data(PreCodedStatus::SdsTl(report)).octets()[3] == report.message_reference,
{
}

/// The octets of user data of fixed length spell its number, most significant octet first; those of
/// type 4 are the ones that it carries.
pub proof fn law_octets_spell_the_number(data: SdsUserDataView)
    ensures
        ({
            let o = data.octets();
            match data {
                SdsUserDataView::Type1(v) => o.len() == 2 && v == 0x100 * o[0] + o[1],
                SdsUserDataView::Type2(v) => o.len() == 4 && v == 0x100_0000 * o[0] + 0x1_0000
                    * o[1] + 0x100 * o[2] + o[3],
                SdsUserDataView::Type3(v) => o.len() == 8 && v == 0x100_0000_0000_0000 * o[0]
                    + 0x1_0000_0000_0000 * o[1] + 0x100_0000_0000 * o[2] + 0x1_0000_0000 * o[3]
                    + 0x100_0000 * o[4] + 0x1_0000 * o[5] + 0x100 * o[6] + o[7],
                SdsUserDataView::Type4(_, octets) => o == octets,
            }
        }),
{
    reveal_with_fuel(octets_msb, 9);
}

/// The SDS-TL header decides: behind the protocol identifiers 82 and 89, in four octets or more, the
/// second octet tells a report, with 10, from a message, and the third octet of a message is its
/// reference. Anything else is neither.
pub proof fn law_header_decides(data: SdsUserDataView)
    ensures
        ({
            let o = data.octets();
            let headed = o.len() >= 4 && (o[0] == 0x82 || o[0] == 0x89);
            &&& is_report(data) <==> headed && o[1] == 0x10
            &&& message_reference(data) is Some <==> headed && o[1] != 0x10
            &&& message_reference(data) is Some ==> message_reference(data)->0 == o[2]
        }),
{
}

/// A report that is built here is the four octets 82, 10, its status and its reference, and says that
/// it is 32 bits long.
pub proof fn law_report_octets(status: u8, reference: u8)
    ensures
        report_data(status, reference) == SdsUserDataView::Type4(
            32,
            seq![0x82u8, 0x10u8, status, reference],
        ),
{
}

/// A text message that is built here is the octets 82, 04, its reference and 01, and then the text;
/// it says how many bits these are.
pub proof fn law_text_message_octets(reference: u8, text: Seq<u8>, i: int)
    requires
        text.len() <= 251,
    ensures
        text_data(reference, text) matches SdsUserDataView::Type4(len_bits, o) && o.len() == text.len()
            + 4 && len_bits == 8 * o.len() && o[0] == 0x82 && o[1] == 0x04 && o[2] == reference
            && o[3] == 0x01 && (0 <= i < text.len() ==> o[i + 4] == text[i]),
{
}

/// Framing puts the octets 82, 04, the reference and 01 in front of a text of any length, and leaves
/// the text as it is.
pub proof fn law_frame_keeps_the_text(reference: u8, text: Seq<u8>, i: int)
    ensures
        ({
            let o = text_frame(reference, text);
            &&& o.len() == text.len() + 4
            &&& o[0] == 0x82 && o[1] == 0x04 && o[2] == reference && o[3] == 0x01
            &&& 0 <= i < text.len() ==> o[i + 4] == text[i]
        }),
{
}

/// The protocol identifier is the first octet, and 0 where there is no octet.
pub proof fn law_protocol_identifier(data: SdsUserDataView)
    ensures
        data.octets().len() > 0 ==> protocol_id(data) == data.octets()[0],
        data.octets().len() == 0 ==> protocol_id(data) == 0,
{
}

/// What user data reads as goes by its protocol identifier: a position for 0A, the text behind four
/// octets for 82, 80 and 8A, the text behind one octet for 01 to 03. A position that does not decode,
/// a header without text and all other user data read as nothing.
pub proof fn law_text_by_protocol(data: SdsUserDataView)
    ensures
        ({
            let o = data.octets();
            let id: int = if o.len() > 0 {
                o[0] as int
            } else {
                -1
            };
            &&& id == 0x0A ==> match lip_steps(o) {
                Some((latitude, longitude)) => sds_text(data) == position_text(latitude, longitude),
                None => sds_text(data).len() == 0,
            }
            &&& (id == 0x82 || id == 0x80 || id == 0x8A) && o.len() > 4 ==> sds_text(data)
                == readable(o.subrange(4, o.len() as int))
            &&& (id == 0x82 || id == 0x80 || id == 0x8A) && o.len() <= 4 ==> sds_text(data).len()
                == 0
            &&& (id == 0x01 || id == 0x02 || id == 0x03) && o.len() > 1 ==> sds_text(data)
                == readable(o.subrange(1, o.len() as int))
            &&& (id == 0x01 || id == 0x02 || id == 0x03) && o.len() <= 1 ==> sds_text(data).len()
                == 0
            &&& id != 0x0A && id != 0x82 && id != 0x80 && id != 0x8A && id != 0x01 && id != 0x02
                && id != 0x03 ==> sds_text(data).len() == 0
        }),
{
    let o = data.octets();
    if o.len() > 4 {
        assert(o.skip(4) =~= o.subrange(4, o.len() as int));
    }
    if o.len() > 1 {
        assert(o.skip(1) =~= o.subrange(1, o.len() as int));
    }
}

/// Text octets are kept one by one: those of two runs are those of the first and then those of the
/// second; of a single octet it is kept when it is a tab or printable, 20 to 7E.
pub proof fn law_text_octets_are_kept(first: Seq<u8>, second: Seq<u8>, b: u8)
    ensures
        text_octets(first + second) == text_octets(first) + text_octets(second),
        b == 0x09 || 0x20 <= b <= 0x7E ==> text_octets(seq![b]) == seq![b],
        !(b == 0x09 || 0x20 <= b <= 0x7E) ==> text_octets(seq![b]).len() == 0,
        text_octets(Seq::empty()).len() == 0,
    decreases second.len(),
{
    reveal(Seq::filter);
    let one = seq![b];
    assert(one.drop_last() =~= Seq::empty());
    assert(text_octets(one.drop_last()) =~= Seq::empty());
    if b == 0x09 || 0x20 <= b <= 0x7E {
        assert(text_octets(one) =~= one);
    }
    if second.len() == 0 {
        assert(first + second =~= first);
        assert(text_octets(first) + text_octets(second) =~= text_octets(first));
    } else {
        law_text_octets_are_kept(first, second.drop_last(), b);
        assert((first + second).drop_last() =~= first + second.drop_last());
        assert((first + second).last() == second.last());
        assert(text_octets(first + second) =~= text_octets(first) + text_octets(second));
    }
}

/// True when nothing but tabs and spaces stands in `octets`.
pub open spec fn all_blank(octets: Seq<u8>) -> bool {
    forall|i: int| 0 <= i < octets.len() ==> #[trigger] octets[i] == 0x09 || octets[i] == 0x20
}

/// True when `r` is, character by octet, what is left of `octets` between its first `left` and its
/// last `right` octets, which are all blank, and neither begins nor ends with a blank.
pub open spec fn is_core(octets: Seq<u8>, left: int, right: int, r: Seq<char>) -> bool {
    let core = octets.subrange(left, octets.len() - right);
    &&& 0 <= left && 0 <= right && left + right <= octets.len()
    &&& all_blank(octets.take(left))
    &&& all_blank(octets.skip(octets.len() - right))
    &&& r.len() == core.len()
    &&& forall|i: int| 0 <= i < r.len() ==> #[trigger] r[i] == core[i] as char
    &&& core.len() > 0 ==> core.first() != 0x09 && core.first() != 0x20 && core.last() != 0x09
        && core.last() != 0x20
}

/// Coded text reads as its text octets without the blanks at either end, and keeps all others in
/// their order.
pub proof fn law_text_is_trimmed(octets: Seq<u8>)
    ensures
        exists|left: int, right: int|
            #[trigger] is_core(text_octets(octets), left, right, readable(octets)),
{
    let kept = text_octets(octets);
    let left = lemma_trim_start(kept);
    let rest = trim_start(kept);
    let right = lemma_trim_end(rest);
    let core = trim_end(rest);
    assert(kept.subrange(left, kept.len() - right) =~= core);
    assert(kept.skip(kept.len() - right) =~= rest.skip(rest.len() - right));
    if core.len() > 0 {
        assert(core.first() == rest.first());
    }
    assert(is_core(kept, left, right, readable(octets)));
}

proof fn lemma_trim_start(octets: Seq<u8>) -> (left: int)
    ensures
        0 <= left <= octets.len(),
        trim_start(octets) == octets.skip(left),
        all_blank(octets.take(left)),
        trim_start(octets).len() > 0 ==> !is_blank_octet(trim_start(octets).first()),
    decreases octets.len(),
{
    if octets.len() > 0 && is_blank_octet(octets.first()) {
        let rest = octets.drop_first();
        let more = lemma_trim_start(rest);
        assert(rest.skip(more) =~= octets.skip(more + 1));
        assert forall|i: int| 0 <= i < more + 1 implies #[trigger] octets.take(more + 1)[i] == 0x09
            || octets.take(more + 1)[i] == 0x20 by {
            if i > 0 {
                assert(rest.take(more)[i - 1] == octets[i]);
            }
        }
        more + 1
    } else {
        assert(octets.skip(0) =~= octets);
        0
    }
}

proof fn lemma_trim_end(octets: Seq<u8>) -> (right: int)
    ensures
        0 <= right <= octets.len(),
        trim_end(octets) == octets.take(octets.len() - right),
        all_blank(octets.skip(octets.len() - right)),
        trim_end(octets).len() > 0 ==> !is_blank_octet(trim_end(octets).last()),
    decreases octets.len(),
{
    if octets.len() > 0 && is_blank_octet(octets.last()) {
        let rest = octets.drop_last();
        let more = lemma_trim_end(rest);
        let right = more + 1;
        assert(rest.take(rest.len() - more) =~= octets.take(octets.len() - right));
        let tail = octets.skip(octets.len() - right);
        assert forall|i: int| 0 <= i < tail.len() implies #[trigger] tail[i] == 0x09 || tail[i]
            == 0x20 by {
            if i < more {
                assert(rest.skip(rest.len() - more)[i] == tail[i]);
            }
        }
        right
    } else {
        assert(octets.take(octets.len() as int) =~= octets);
        0
    }
}

/// A text fits when it has at most 251 text octets.
pub proof fn law_text_fits(text: Seq<char>)
    ensures
        text_fits(text) <==> text_octets(vstd::utf8::encode_utf8(text)).len() <= 251,
{
}

} // verus!
