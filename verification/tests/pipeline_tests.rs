use espthen::errors::ElementError;
use espthen::errors::MacError;
use espthen::errors::PipelineError;
use espthen::errors::PrefixError;
use espthen::mac::payload_length;
use espthen::mac::MacFrameReader;
use espthen::parse_frame;
use espthen::radio::RadioPrefixReader;

/// A complete monitor-mode capture: a 41-byte radio prefix, the 24-byte MAC
/// header, the 59-byte ESP-NOW element and a 4-byte integrity trailer.
fn capture() -> Vec<u8> {
    vec![
        0x0, 0x0, 0x29, 0x0, 0xee, 0x48, 0x0, 0xa0, 0xa0, 0x8, 0x0, 0xa0, 0xa0, 0x8, 0x0, 0x0,
        0x10, 0x2, 0x6c, 0x9, 0xa0, 0x0, 0xd0, 0x0, 0x64, 0x0, 0x0, 0x0, 0x0, 0x34, 0x0, 0x0, 0x0,
        0x0, 0x0, 0x0, 0x1, 0x0, 0x0, 0x0, 0x2, 0xd0, 0x0, 0x0, 0x0, 0xff, 0xff, 0xff, 0xff, 0xff,
        0xff, 0x10, 0x52, 0x1c, 0x67, 0xd9, 0xc4, 0xff, 0xff, 0xff, 0xff, 0xff, 0xff, 0xc0, 0x1,
        0x7f, 0x18, 0xfe, 0x34, 0xd, 0x5f, 0x70, 0x4d, 0xdd, 0x31, 0x18, 0xfe, 0x34, 0x4, 0x1,
        0x54, 0x48, 0x49, 0x53, 0x20, 0x49, 0x53, 0x20, 0x41, 0x20, 0x43, 0x48, 0x41, 0x52, 0x0,
        0x0, 0x0, 0x0, 0x0, 0x0, 0x0, 0x0, 0x0, 0x0, 0x0, 0x0, 0x0, 0x0, 0x0, 0x0, 0x0, 0x0, 0x3,
        0x0, 0x0, 0x0, 0x9a, 0x99, 0x99, 0x3f, 0x0, 0x0, 0x0, 0x0, 0xcb, 0xe5, 0xca, 0x52,
    ]
}

#[test]
fn full_capture_parses() {
    let buf = capture();
    let (element, data) = parse_frame(&buf).unwrap();
    assert_eq!(element.catcode, 127);
    assert_eq!(element.element_id, 221);
    assert_eq!(element.ptype, 4);
    assert_eq!(element.length, 0x31);
    assert_eq!(element.orga, element.orga2);
    assert_eq!(data.len(), 44);
    assert_eq!(&data[..14], b"THIS IS A CHAR");
}

#[test]
fn parsing_twice_is_identical() {
    let buf = capture();
    assert_eq!(parse_frame(&buf), parse_frame(&buf));
    let garbage = vec![0x11u8; 40];
    assert_eq!(parse_frame(&garbage), parse_frame(&garbage));
}

#[test]
fn mac_frame_too_short() {
    for n in 0..28 {
        let buf = vec![0u8; n];
        assert_eq!(MacFrameReader::read(&buf), Err(MacError::BufferTooShort));
    }
}

#[test]
fn mac_fields_at_fixed_offsets() {
    let buf = capture();
    let mac = MacFrameReader::read(&buf[41..]).unwrap();
    assert_eq!(mac.framectrl, 0x00D0);
    assert_eq!(mac.dura_id, 0x0000);
    assert_eq!(mac.addr1, vec![0xFF; 6]);
    assert_eq!(mac.addr2, vec![0x10, 0x52, 0x1C, 0x67, 0xD9, 0xC4]);
    assert_eq!(mac.addr3, vec![0xFF; 6]);
    assert_eq!(mac.sequencectrl, 0x01C0);
    assert_eq!(mac.payload.len(), 59);
    assert_eq!(mac.payload[0], 0x7F);
    assert_eq!(mac.cksum, 0x52CAE5CB);
}

#[test]
fn payload_length_subtracts_fixed_regions() {
    assert_eq!(payload_length(87), 59);
    assert_eq!(payload_length(28), 0);
}

#[test]
fn zero_length_mac_payload_is_too_short_for_element() {
    let mac_only = vec![0u8; 28];
    let mac = MacFrameReader::read(&mac_only).unwrap();
    assert_eq!(mac.payload.len(), 0);
    let mut buf = vec![0x00, 0x00, 0x04, 0x00];
    buf.extend_from_slice(&mac_only);
    assert_eq!(
        parse_frame(&buf),
        Err(PipelineError::Element(ElementError::BufferTooShort))
    );
}

#[test]
fn prefix_too_short() {
    for n in 0..4 {
        let buf = vec![0u8; n];
        assert_eq!(
            parse_frame(&buf),
            Err(PipelineError::Prefix(PrefixError::BufferTooShort))
        );
    }
}

#[test]
fn prefix_longer_than_buffer_is_malformed() {
    let buf = vec![0x00, 0x00, 0x29, 0x00, 0x00, 0x00];
    assert_eq!(
        parse_frame(&buf),
        Err(PipelineError::Prefix(PrefixError::MalformedPrefix))
    );
}

#[test]
fn short_frame_after_prefix_rejected_by_mac_stage() {
    let mut buf = vec![0x00, 0x00, 0x04, 0x00];
    buf.extend_from_slice(&[0u8; 20]);
    assert_eq!(
        parse_frame(&buf),
        Err(PipelineError::Mac(MacError::BufferTooShort))
    );
}

#[test]
fn radio_metadata_decoded_from_prefix() {
    // Version 0, 13-byte header, present word with the channel and antenna
    // signal bits, a 2412 MHz channel and a -40 dBm signal.
    let buf = vec![
        0x00, 0x00, 0x0D, 0x00, 0x28, 0x00, 0x00, 0x00, 0x6C, 0x09, 0xA0, 0x00, 0xD8,
    ];
    let (meta, off) = RadioPrefixReader::read(&buf).unwrap();
    assert_eq!(off, 13);
    assert_eq!(meta.header_length, 13);
    assert_eq!(meta.channel_freq, Some(2412));
    assert_eq!(meta.antenna_signal, Some(-40));
}

#[test]
fn vendor_namespace_prefix_is_not_decoded() {
    // Version 0, 16-byte header, one present word with only the
    // vendor-namespace bit, an OUI and a skip length of 0xFFFF: the offset
    // logic still succeeds, but the content fields stay absent.
    let buf = vec![
        0x00, 0x00, 0x10, 0x00, 0x00, 0x00, 0x00, 0x40, 0xAA, 0xBB, 0xCC, 0x00, 0xFF, 0xFF, 0x00,
        0x00,
    ];
    let (meta, off) = RadioPrefixReader::read(&buf).unwrap();
    assert_eq!(off, 16);
    assert_eq!(meta.header_length, 16);
    assert_eq!(meta.channel_freq, None);
    assert_eq!(meta.antenna_signal, None);
}

#[test]
fn overlong_present_chain_is_not_decoded() {
    // Version 0, then nine chained present words: more than the decoder's
    // field numbering can count, so the content fields stay absent.
    let mut buf = vec![0x00, 0x00, 0x28, 0x00];
    for _ in 0..9 {
        buf.extend_from_slice(&[0x01, 0x00, 0x00, 0x80]);
    }
    let (meta, off) = RadioPrefixReader::read(&buf).unwrap();
    assert_eq!(off, 40);
    assert_eq!(meta.header_length, 40);
    assert_eq!(meta.channel_freq, None);
    assert_eq!(meta.antenna_signal, None);
}

#[test]
fn real_prefix_offset_and_channel() {
    let buf = capture();
    let (meta, off) = RadioPrefixReader::read(&buf).unwrap();
    assert_eq!(off, 41);
    assert_eq!(meta.header_length, 41);
    assert_eq!(meta.channel_freq, Some(2412));
}
