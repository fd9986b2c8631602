use tetra_sds::pdu::SdsUserData;
use tetra_sds::sds_tl::{
    extract_sds_text, frame_text, is_sds_tl_report, next_reference, protocol_identifier,
    sds_tl_message_reference, sds_tl_report,
};
use tetra_sds::text::{is_blank, keep_text_octets, read_text};

fn type4(octets: &[u8]) -> SdsUserData {
    SdsUserData::Type4((octets.len() * 8) as u16, octets.to_vec())
}

#[test]
fn user_data_octets_are_in_order_of_transmission() {
    assert_eq!(SdsUserData::Type1(0x1234).to_arr(), vec![0x12, 0x34]);
    assert_eq!(SdsUserData::Type2(0x1234_5678).to_arr(), vec![0x12, 0x34, 0x56, 0x78]);
    assert_eq!(
        SdsUserData::Type3(0x0102_0304_0506_0708).to_arr(),
        vec![1, 2, 3, 4, 5, 6, 7, 8]
    );
    assert_eq!(type4(&[9, 8, 7]).to_arr(), vec![9, 8, 7]);
}

#[test]
fn reports_are_recognised() {
    assert!(is_sds_tl_report(&type4(&[0x82, 0x10, 0x00, 0x07])));
    assert!(is_sds_tl_report(&type4(&[0x89, 0x10, 0x00, 0x07])));
    assert!(!is_sds_tl_report(&type4(&[0x82, 0x10, 0x00])));
    assert!(!is_sds_tl_report(&type4(&[0x82, 0x04, 0x07, 0x01])));
    assert!(!is_sds_tl_report(&type4(&[0x80, 0x10, 0x00, 0x07])));
    assert!(!is_sds_tl_report(&SdsUserData::Type1(0x8210)));
}

#[test]
fn message_reference_is_the_third_octet() {
    assert_eq!(sds_tl_message_reference(&type4(&[0x82, 0x04, 0x2A, 0x01, b'x'])), Some(0x2A));
    assert_eq!(sds_tl_message_reference(&type4(&[0x89, 0x00, 0x2B, 0x01])), Some(0x2B));
    assert_eq!(sds_tl_message_reference(&type4(&[0x82, 0x10, 0x00, 0x2A])), None);
    assert_eq!(sds_tl_message_reference(&type4(&[0x82, 0x04, 0x2A])), None);
    assert_eq!(sds_tl_message_reference(&type4(&[0x0A, 0x04, 0x2A, 0x01])), None);
}

#[test]
fn built_report_is_a_report_without_reference() {
    let report = sds_tl_report(0x02, 0x33);
    assert_eq!(report, SdsUserData::Type4(32, vec![0x82, 0x10, 0x02, 0x33]));
    assert!(is_sds_tl_report(&report));
    assert_eq!(sds_tl_message_reference(&report), None);
}

#[test]
fn framed_text_reads_back() {
    let framed = frame_text(0x11, b"hello there");
    assert_eq!(framed[..4], [0x82, 0x04, 0x11, 0x01]);
    let data = type4(&framed);
    assert_eq!(extract_sds_text(&data), "hello there");
    assert_eq!(sds_tl_message_reference(&data), Some(0x11));
    assert!(!is_sds_tl_report(&data));
}

#[test]
fn text_is_read_behind_each_header() {
    assert_eq!(extract_sds_text(&type4(&[0x82, 0x04, 1, 1, b'a'])), "a");
    assert_eq!(extract_sds_text(&type4(&[0x80, 0x04, 1, 1, b'b'])), "b");
    assert_eq!(extract_sds_text(&type4(&[0x8A, 0x04, 1, 1, b'c'])), "c");
    assert_eq!(extract_sds_text(&type4(&[0x01, b'd'])), "d");
    assert_eq!(extract_sds_text(&type4(&[0x02, b'e'])), "e");
    assert_eq!(extract_sds_text(&type4(&[0x03, b'f'])), "f");
}

#[test]
fn headers_without_text_and_binary_data_read_as_nothing() {
    assert_eq!(extract_sds_text(&type4(&[0x82, 0x04, 1, 1])), "");
    assert_eq!(extract_sds_text(&type4(&[0x01])), "");
    assert_eq!(extract_sds_text(&type4(&[])), "");
    assert_eq!(extract_sds_text(&type4(&[0xC3, b'a', b'b', b'c', b'd', b'e'])), "");
    assert_eq!(extract_sds_text(&type4(&[0x89, 0x04, 1, 1, b'a'])), "");
    assert_eq!(extract_sds_text(&type4(&[0x0A, 0x40, 0, 0, 0, 0, 0, 0])), "");
}

#[test]
fn location_report_reads_as_position() {
    let data = type4(&[0x0A, 0x01, 0x24, 0xDA, 0x52, 0xC4, 0x11, 0xE2, 0x00, 0x02, 0x00]);
    assert_eq!(extract_sds_text(&data), "LIP position: 62.232699, 25.739014");
}

#[test]
fn text_keeps_printable_octets_and_is_trimmed() {
    assert_eq!(read_text(b" \t a\x00b\x7F\tc\xE9 d \t"), "ab\tc d");
    assert_eq!(read_text(b"   "), "");
    assert_eq!(read_text(b"\n\r"), "");
    assert_eq!(keep_text_octets(b"a\n~\x7F\t"), b"a~\t".to_vec());
}

#[test]
fn protocol_identifier_is_the_first_octet() {
    assert_eq!(protocol_identifier(&type4(&[0xC3, 1])), 0xC3);
    assert_eq!(protocol_identifier(&type4(&[])), 0);
    assert_eq!(protocol_identifier(&SdsUserData::Type1(0x1234)), 0x12);
}

#[test]
fn references_count_from_one_and_skip_zero() {
    let mut counter: u8 = 1;
    for expected in 1..=255u8 {
        assert_eq!(next_reference(&mut counter), expected);
    }
    assert_eq!(next_reference(&mut counter), 1);
    assert_eq!(next_reference(&mut counter), 2);
    let mut zero: u8 = 0;
    assert_eq!(next_reference(&mut zero), 1);
    assert_eq!(next_reference(&mut zero), 2);
}

#[test]
fn blank_means_white_space_only() {
    assert!(is_blank(""));
    assert!(is_blank(" \t\u{2003}\u{3000}"));
    assert!(!is_blank(" LOWW "));
    for u in 0..=0x10_FFFFu32 {
        if let Some(c) = char::from_u32(u) {
            let s = String::from(c);
            assert_eq!(is_blank(&s), s.trim().is_empty());
        }
    }
}
