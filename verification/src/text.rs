//! Text handling shared by the SDS services.

use vstd::prelude::*;

verus! {

/// Appends one character to a string.
///
/// Specifies `String::push`: afterwards the string is what it was with `c` at its end.
pub assume_specification[ String::push ](s: &mut String, c: char)
    ensures
        final(s)@ == old(s)@.push(c),
;

/// Octets that stand for text in an ISO-8859-1/ASCII coded SDS: tab and the printable characters.
pub open spec fn is_text_octet(b: u8) -> bool {
    b == 0x09 || 0x20 <= b <= 0x7E
}

/// The text octets of `octets`, in order.
pub open spec fn text_octets(octets: Seq<u8>) -> Seq<u8> {
    octets.filter(|b: u8| is_text_octet(b))
}

/// `octets` as characters.
pub open spec fn as_chars(octets: Seq<u8>) -> Seq<char> {
    octets.map_values(|b: u8| b as char)
}

/// White space among text octets.
pub open spec fn is_blank_octet(b: u8) -> bool {
    b == 0x09 || b == 0x20
}

/// `octets` from its first octet that is not blank on.
pub open spec fn trim_start(octets: Seq<u8>) -> Seq<u8>
    decreases octets.len(),
{
    if octets.len() > 0 && is_blank_octet(octets.first()) {
        trim_start(octets.drop_first())
    } else {
        octets
    }
}

/// `octets` up to its last octet that is not blank.
pub open spec fn trim_end(octets: Seq<u8>) -> Seq<u8>
    decreases octets.len(),
{
    if octets.len() > 0 && is_blank_octet(octets.last()) {
        trim_end(octets.drop_last())
    } else {
        octets
    }
}

/// What a coded text reads as: its text octets without blanks at either end.
pub open spec fn readable(octets: Seq<u8>) -> Seq<char> {
    as_chars(trim_end(trim_start(text_octets(octets))))
}

/// The characters with the Unicode property White_Space.
pub open spec fn is_white_space(c: char) -> bool {
    let u = c as u32;
    ||| 0x09 <= u <= 0x0D
    ||| u == 0x20
    ||| u == 0x85
    ||| u == 0xA0
    ||| u == 0x1680
    ||| 0x2000 <= u <= 0x200A
    ||| u == 0x2028
    ||| u == 0x2029
    ||| u == 0x202F
    ||| u == 0x205F
    ||| u == 0x3000
}

/// The text octets of `octets`, in order.
pub fn keep_text_octets(octets: &[u8]) -> (r: Vec<u8>)
    ensures
        r@ == text_octets(octets@),
{
    let mut kept: Vec<u8> = Vec::new();
    let mut i: usize = 0;
    while i < octets.len()
        invariant
            i <= octets@.len(),
            kept@ == text_octets(octets@.take(i as int)),
        decreases octets@.len() - i,
    {
        let b: u8 = octets[i];
        proof {
            reveal(Seq::filter);
            assert(octets@.take(i + 1).drop_last() =~= octets@.take(i as int));
        }
        if b == 0x09 || (0x20 <= b && b <= 0x7E) {
            kept.push(b);
        }
        i = i + 1;
    }
    assert(octets@.take(i as int) =~= octets@);
    kept
}

/// Reads coded text: keeps its text octets and trims blanks at both ends.
pub fn read_text(octets: &[u8]) -> (r: String)
    ensures
        r@ == readable(octets@),
{
    let kept = keep_text_octets(octets);
    let mut start: usize = 0;
    assert(kept@.skip(0) =~= kept@);
    while start < kept.len() && (kept[start] == 0x09 || kept[start] == 0x20)
        invariant
            start <= kept@.len(),
            trim_start(kept@) == trim_start(kept@.skip(start as int)),
        decreases kept@.len() - start,
    {
        assert(kept@.skip(start as int).drop_first() =~= kept@.skip(start + 1));
        start = start + 1;
    }
    let ghost rest = kept@.skip(start as int);
    assert(trim_start(kept@) == rest);
    let mut end: usize = kept.len();
    assert(kept@.subrange(start as int, end as int) =~= rest);
    while end > start && (kept[end - 1] == 0x09 || kept[end - 1] == 0x20)
        invariant
            start <= end <= kept@.len(),
            trim_end(rest) == trim_end(kept@.subrange(start as int, end as int)),
        decreases end,
    {
        assert(kept@.subrange(start as int, end as int).drop_last() =~= kept@.subrange(
            start as int,
            end - 1,
        ));
        end = end - 1;
    }
    let ghost body = kept@.subrange(start as int, end as int);
    assert(trim_end(rest) == body);
    let mut out = String::new();
    let mut i: usize = start;
    while i < end
        invariant
            start <= i <= end <= kept@.len(),
            body == kept@.subrange(start as int, end as int),
            out@ == as_chars(body).take(i - start),
        decreases end - i,
    {
        out.push(kept[i] as char);
        assert(as_chars(body).take(i + 1 - start) =~= as_chars(body).take(i - start).push(
            as_chars(body)[i - start],
        ));
        i = i + 1;
    }
    assert(as_chars(body).take(end - start) =~= as_chars(body));
    out
}

/// True when nothing but white space stands in `text`.
pub fn is_blank(text: &str) -> (r: bool)
    ensures
        r <==> forall|i: int| 0 <= i < text@.len() ==> is_white_space(#[trigger] text@[i]),
{
    let n: usize = text.unicode_len();
    let mut i: usize = 0;
    while i < n
        invariant
            i <= n == text@.len(),
            forall|j: int| 0 <= j < i ==> is_white_space(#[trigger] text@[j]),
        decreases n - i,
    {
        let u: u32 = text.get_char(i) as u32;
        let white: bool = (0x09 <= u && u <= 0x0D) || u == 0x20 || u == 0x85 || u == 0xA0 || u == 0x1680
            || (0x2000 <= u && u <= 0x200A) || u == 0x2028 || u == 0x2029 || u == 0x202F || u == 0x205F
            || u == 0x3000;
        if !white {
            return false;
        }
        i = i + 1;
    }
    true
}

} // verus!
