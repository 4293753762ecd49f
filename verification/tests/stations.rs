use meteo_link::hub::ble::{
    apply_read, decode_u32, link_start, link_step, LinkAction, LinkEvent, LinkState, MeteoField,
    RETRY_DELAY_SECS,
};
use meteo_link::hub::resources::{executor0 as hub_executor0, executor1};
use meteo_link::hub::station::{hub_route, HubEvent, Peer};
use meteo_link::sensor::resources::{dummy, executor0 as sensor_executor0};
use meteo_link::sensor::sensors::SensorDataUpdate;
use meteo_link::sensor::station::{apply_update, reply_to_hub};
use meteo_link::shared::data::MeteoData;
use meteo_link::shared::uart::UartMessage;

fn record(pressure: u32) -> MeteoData {
    MeteoData { pressure, ..MeteoData::default() }
}

#[test]
fn decode_u32_little_endian() {
    assert_eq!(decode_u32(&[0x78, 0x56, 0x34, 0x12]), Some(0x1234_5678));
    assert_eq!(decode_u32(&[0xFF; 4]), Some(u32::MAX));
    assert_eq!(decode_u32(&[1, 2, 3]), None);
    assert_eq!(decode_u32(&[1, 2, 3, 4, 5]), None);
    assert_eq!(decode_u32(&[]), None);
}

#[test]
fn float_characteristics_travel_as_bits() {
    let bytes = 12.5f32.to_le_bytes();
    assert_eq!(decode_u32(&bytes).map(f32::from_bits), Some(12.5));
}

#[test]
fn snapshot_reads() {
    let mut s = MeteoData::default();
    apply_read(&mut s, MeteoField::LightLevel, Some(1), &[77]);
    apply_read(&mut s, MeteoField::Temperature, Some(1), &[0xFB]);
    apply_read(&mut s, MeteoField::Humidity, Some(1), &[55]);
    apply_read(&mut s, MeteoField::Pressure, Some(4), &1013u32.to_le_bytes());
    apply_read(&mut s, MeteoField::Precipitation, Some(4), &0.5f32.to_le_bytes());
    apply_read(&mut s, MeteoField::WindDirection, Some(4), &180.0f32.to_le_bytes());
    apply_read(&mut s, MeteoField::WindSpeed, Some(4), &3.25f32.to_le_bytes());
    assert_eq!(
        s,
        MeteoData {
            light_level: 77,
            temperature: -5,
            humidity: 55,
            pressure: 1013,
            precipitation_bits: 0.5f32.to_bits(),
            wind_direction_bits: 180.0f32.to_bits(),
            wind_speed_bits: 3.25f32.to_bits(),
        }
    );
}

#[test]
fn snapshot_ignores_failed_or_short_reads() {
    let mut s = record(900);
    apply_read(&mut s, MeteoField::Pressure, None, &[1, 2, 3, 4]);
    apply_read(&mut s, MeteoField::Pressure, Some(3), &[1, 2, 3, 4]);
    apply_read(&mut s, MeteoField::LightLevel, Some(0), &[9]);
    apply_read(&mut s, MeteoField::Humidity, Some(4), &[9]);
    assert_eq!(s, record(900));
}

#[test]
fn field_widths() {
    assert_eq!(MeteoField::LightLevel.width(), 1);
    assert_eq!(MeteoField::Temperature.width(), 1);
    assert_eq!(MeteoField::Humidity.width(), 1);
    assert_eq!(MeteoField::Pressure.width(), 4);
    assert_eq!(MeteoField::WindSpeed.width(), 4);
}

#[test]
fn link_happy_path() {
    let (mut state, action) = link_start();
    assert_eq!((state, action), (LinkState::Connecting, LinkAction::Connect));
    let steps = [
        (LinkEvent::Connected, LinkState::CreatingClient, LinkAction::CreateClient),
        (LinkEvent::ClientCreated, LinkState::Discovering, LinkAction::DiscoverService),
        (LinkEvent::ServiceFound, LinkState::Listening, LinkAction::Subscribe),
        (LinkEvent::Notification, LinkState::Listening, LinkAction::ReadSnapshot),
        (LinkEvent::OtherConnectionEvent, LinkState::Listening, LinkAction::Idle),
        (LinkEvent::Notification, LinkState::Listening, LinkAction::ReadSnapshot),
        (LinkEvent::Disconnected, LinkState::Connecting, LinkAction::DisconnectAndRetry),
    ];
    for (event, next, act) in steps {
        let (s, a) = link_step(state, event);
        assert_eq!((s, a), (next, act));
        state = s;
    }
    assert_eq!(RETRY_DELAY_SECS, 2);
}

#[test]
fn link_failures_start_over() {
    assert_eq!(
        link_step(LinkState::Connecting, LinkEvent::ConnectFailed),
        (LinkState::Connecting, LinkAction::RetryAfterDelay)
    );
    assert_eq!(
        link_step(LinkState::CreatingClient, LinkEvent::ClientFailed),
        (LinkState::Connecting, LinkAction::DisconnectAndRetry)
    );
    assert_eq!(
        link_step(LinkState::Discovering, LinkEvent::ServiceUnavailable),
        (LinkState::Connecting, LinkAction::DisconnectAndRetry)
    );
    assert_eq!(
        link_step(LinkState::Listening, LinkEvent::ClientTaskEnded),
        (LinkState::Connecting, LinkAction::DisconnectAndRetry)
    );
    // Events that cannot occur in a state leave it alone.
    assert_eq!(
        link_step(LinkState::Connecting, LinkEvent::Notification),
        (LinkState::Connecting, LinkAction::Idle)
    );
}

#[test]
fn hub_executor_table() {
    let hello = *b"hello00000000000";
    let lol = *b"lol0000000000000";
    assert_eq!(hub_executor0(hello), Ok(hello));
    assert_eq!(hub_executor0(lol), Ok(*b"wow0000000000000"));
    assert_eq!(hub_executor0(*b"hello00000000001"), Err("Negative number!"));
    assert_eq!(hub_executor0([0; 16]), Err("Negative number!"));
}

#[test]
fn passthrough_executors() {
    let cmd = *b"anything at all!";
    assert_eq!(executor1(cmd), Ok(cmd));
    assert_eq!(dummy(cmd), Ok(cmd));
}

#[test]
fn sensor_executor_table() {
    let hello = *b"hello00000000000";
    let lol = *b"lol0000000000000";
    assert_eq!(sensor_executor0(hello), Ok(hello));
    assert_eq!(sensor_executor0(lol), Ok(lol));
    assert_eq!(sensor_executor0(*b"wow0000000000000"), Err("Negative number!"));
}

#[test]
fn sensor_updates() {
    let mut d = MeteoData::default();
    apply_update(&mut d, SensorDataUpdate::Temperature { temperature: -7 });
    apply_update(&mut d, SensorDataUpdate::Humidity { humidity: 80 });
    apply_update(&mut d, SensorDataUpdate::Pressure { pressure: 998 });
    apply_update(&mut d, SensorDataUpdate::Light { level: 12 });
    apply_update(&mut d, SensorDataUpdate::WindDirection { direction_bits: 45.0f32.to_bits() });
    apply_update(&mut d, SensorDataUpdate::WindSpeed { speed_bits: 7.5f32.to_bits() });
    apply_update(&mut d, SensorDataUpdate::Precipitation { mm_bits: 0.1f32.to_bits() });
    assert_eq!(
        d,
        MeteoData {
            light_level: 12,
            temperature: -7,
            humidity: 80,
            pressure: 998,
            precipitation_bits: 0.1f32.to_bits(),
            wind_direction_bits: 45.0f32.to_bits(),
            wind_speed_bits: 7.5f32.to_bits(),
        }
    );
}

#[test]
fn sensor_updates_commute_and_repeat() {
    let u = SensorDataUpdate::Pressure { pressure: 1001 };
    let v = SensorDataUpdate::Light { level: 3 };
    let mut a = record(5);
    apply_update(&mut a, u);
    apply_update(&mut a, v);
    let mut b = record(5);
    apply_update(&mut b, v);
    apply_update(&mut b, u);
    assert_eq!(a, b);
    let c = a;
    apply_update(&mut a, v);
    assert_eq!(a, c);
}

#[test]
fn sensor_answers_requests() {
    let d = record(1020);
    assert_eq!(reply_to_hub(&d, &UartMessage::AskData), Some(UartMessage::Data(d)));
    assert_eq!(reply_to_hub(&d, &UartMessage::Data(record(1))), None);
}

#[test]
fn hub_relays() {
    let mut held = record(1);
    assert_eq!(
        hub_route(&mut held, HubEvent::FromServer(UartMessage::AskData)),
        Some((Peer::Sensor, UartMessage::AskData))
    );
    assert_eq!(held, record(1));
    assert_eq!(
        hub_route(&mut held, HubEvent::FromSensor(UartMessage::Data(record(2)))),
        Some((Peer::Server, UartMessage::Data(record(2))))
    );
    assert_eq!(held, record(2));
    assert_eq!(
        hub_route(&mut held, HubEvent::BleSnapshot(record(3))),
        Some((Peer::Server, UartMessage::Data(record(3))))
    );
    assert_eq!(held, record(3));
    assert_eq!(hub_route(&mut held, HubEvent::FromServer(UartMessage::Data(record(9)))), None);
    assert_eq!(hub_route(&mut held, HubEvent::FromSensor(UartMessage::AskData)), None);
    assert_eq!(held, record(3));
}

#[test]
fn characteristic_values_read_back_as_written() {
    for x in [0u32, 1, 0x1234_5678, 0xDEAD_BEEF, u32::MAX] {
        assert_eq!(decode_u32(&x.to_le_bytes()), Some(x));
    }
    for t in [i8::MIN, -40, -1, 0, 1, 25, i8::MAX] {
        let mut s = MeteoData::default();
        apply_read(&mut s, MeteoField::Temperature, Some(1), &[t as u8]);
        assert_eq!(s.temperature, t);
    }
}
