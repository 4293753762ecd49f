use meteo_link::shared::adv::{make_adv, parse_message_from_adv, ADV_OVERHEAD, COMPANY_ID};
use meteo_link::shared::data::MeteoData;
use meteo_link::shared::uart::{frame_message, FrameAssembler, UartMessage, BUF_SIZE};

fn sample_record() -> MeteoData {
    MeteoData {
        light_level: 42,
        temperature: -3,
        humidity: 61,
        pressure: 1013,
        precipitation_bits: 0.25f32.to_bits(),
        wind_direction_bits: 90.0f32.to_bits(),
        wind_speed_bits: 12.5f32.to_bits(),
    }
}

#[test]
fn default_record_is_zero() {
    let d = MeteoData::default();
    assert_eq!(d.light_level, 0);
    assert_eq!(d.temperature, 0);
    assert_eq!(d.humidity, 0);
    assert_eq!(d.pressure, 0);
    assert_eq!(f32::from_bits(d.precipitation_bits), 0.0);
    assert_eq!(f32::from_bits(d.wind_direction_bits), 0.0);
    assert_eq!(f32::from_bits(d.wind_speed_bits), 0.0);
    let _ = sample_record();
}

#[test]
fn frame_appends_line_feed_and_carriage_return() {
    assert_eq!(frame_message(b"null"), b"null\n\r".to_vec());
    assert_eq!(frame_message(b""), b"\n\r".to_vec());
}

#[test]
fn assembler_collects_until_carriage_return() {
    let mut a = FrameAssembler::new();
    assert_eq!(a.room(), BUF_SIZE);
    assert_eq!(a.push(b"{\"light"), None);
    assert_eq!(a.room(), BUF_SIZE - 7);
    assert_eq!(a.push(b"_level\":1}\n"), None);
    assert_eq!(a.push(b"\r"), Some(b"{\"light_level\":1}\n\r".to_vec()));
    assert_eq!(a.room(), BUF_SIZE);
}

#[test]
fn assembler_hands_over_everything_it_holds() {
    let mut a = FrameAssembler::new();
    // A carriage return in the middle still ends the frame there and then,
    // with whatever followed it in the same read.
    assert_eq!(a.push(b"ab\rcd"), Some(b"ab\rcd".to_vec()));
    assert_eq!(a.push(b""), None);
    assert_eq!(a.room(), BUF_SIZE);
}

#[test]
fn framed_message_arrives_whole_in_any_split() {
    let frame = frame_message(b"{\"pressure\":1013}");
    for cut in 1..frame.len() {
        let mut a = FrameAssembler::new();
        assert_eq!(a.push(&frame[..cut]), None);
        assert_eq!(a.push(&frame[cut..]), Some(frame.clone()));
        assert_eq!(a.room(), BUF_SIZE);
    }
    let mut a = FrameAssembler::new();
    let mut got = Vec::new();
    for b in frame.iter() {
        if let Some(f) = a.push(&[*b]) {
            got.push(f);
        }
    }
    assert_eq!(got, vec![frame.clone()]);
}

#[test]
fn uart_messages_compare() {
    assert_eq!(UartMessage::AskData, UartMessage::AskData);
    assert_ne!(UartMessage::AskData, UartMessage::Data(sample_record()));
}

#[test]
fn advertisement_layout() {
    let payload = b"{\"t\":1}";
    let mut buf = [0xAAu8; 40];
    let len = make_adv(payload, &mut buf);
    assert_eq!(len, payload.len() + ADV_OVERHEAD);
    let mut expected = vec![15u8, 0x09];
    expected.extend_from_slice(b"Trouble Beacon");
    expected.extend_from_slice(&[2, 0x01, 0x06]);
    expected.extend_from_slice(&[(payload.len() + 3) as u8, 0xFF, 0xFF, 0xFF]);
    expected.extend_from_slice(payload);
    assert_eq!(&buf[..len], expected.as_slice());
    assert!(buf[len..].iter().all(|b| *b == 0xAA));
}

#[test]
fn advertisement_roundtrip() {
    let payload = b"{\"light_level\":42,\"temperature\":-3}";
    let mut buf = [0u8; 128];
    let len = make_adv(payload, &mut buf);
    assert_eq!(parse_message_from_adv(&buf[..len]), Some(payload.to_vec()));
}

#[test]
fn advertisement_roundtrip_empty_payload() {
    let mut buf = [0u8; ADV_OVERHEAD];
    let len = make_adv(b"", &mut buf);
    assert_eq!(len, ADV_OVERHEAD);
    assert_eq!(parse_message_from_adv(&buf), Some(Vec::new()));
}

#[test]
fn parse_ignores_other_companies_and_takes_the_first_match() {
    let data = [
        5u8, 0xFF, 0x34, 0x12, b'x', b'y', // company 0x1234
        4, 0xFF, 0xFF, 0xFF, b'a', // ours: "a"
        4, 0xFF, 0xFF, 0xFF, b'b', // ours again: "b"
    ];
    assert_eq!(parse_message_from_adv(&data), Some(b"a".to_vec()));
    assert_eq!(COMPANY_ID, 0xFFFF);
}

#[test]
fn parse_without_our_record() {
    assert_eq!(parse_message_from_adv(&[]), None);
    assert_eq!(parse_message_from_adv(&[2, 0x01, 0x06]), None);
    // Manufacturer data too short to hold a company identifier.
    assert_eq!(parse_message_from_adv(&[2, 0xFF, 0xFF]), None);
}

#[test]
fn parse_skips_malformed_structures() {
    // A zero length byte is an error item; reading resumes after it.
    assert_eq!(
        parse_message_from_adv(&[0, 3, 0xFF, 0xFF, 0xFF]),
        Some(Vec::new())
    );
    // A truncated structure: length 9 but only a few bytes follow; reading
    // resumes after its type byte and finds the structure inside.
    assert_eq!(
        parse_message_from_adv(&[9, 0x16, 4, 0xFF, 0xFF, 0xFF, b'z']),
        Some(b"z".to_vec())
    );
}

#[test]
fn foreign_structure_does_not_change_the_result() {
    let mut buf = [0u8; 64];
    let len = make_adv(b"{\"p\":5}", &mut buf);
    let adv = &buf[..len];
    let foreign_msd = [5u8, 0xFF, 0x34, 0x12, b'x', b'y'];
    let name = [4u8, 0x09, b'a', b'b', b'c'];
    // Inserted after the name structure (16 bytes) and at the front.
    for insert in [&foreign_msd[..], &name[..]] {
        for at in [0usize, 16, 19, len] {
            let mut data = adv[..at].to_vec();
            data.extend_from_slice(insert);
            data.extend_from_slice(&adv[at..]);
            assert_eq!(parse_message_from_adv(&data), parse_message_from_adv(adv));
        }
    }
}

#[test]
fn empty_reads_do_not_disturb_a_frame() {
    let frame = frame_message(b"null");
    let mut a = FrameAssembler::new();
    assert_eq!(a.push(b""), None);
    assert_eq!(a.push(&frame[..2]), None);
    assert_eq!(a.push(b""), None);
    assert_eq!(a.push(&frame[2..]), Some(frame.clone()));
    assert_eq!(a.push(b""), None);
    assert_eq!(a.room(), BUF_SIZE);
}
