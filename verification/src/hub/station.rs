//! Decisions of the hub's main loop: it keeps the latest weather record and
//! relays between the BLE link, the host computer and the sensor station.
use vstd::prelude::*;
use crate::shared::data::MeteoData;
use crate::shared::uart::UartMessage;
use crate::sensor::station::spec_reply_to_hub;

verus! {

/// Something the hub's main loop received.
#[derive(Debug, Clone, Copy, PartialEq, Eq, Structural)]
pub enum HubEvent {
    /// A snapshot read over BLE.
    BleSnapshot(MeteoData),
    /// A message from the host computer.
    FromServer(UartMessage),
    /// A message from the sensor station.
    FromSensor(UartMessage),
}

/// The UART peer a message goes to.
#[derive(Debug, Clone, Copy, PartialEq, Eq, Structural)]
pub enum Peer {
    Server,
    Sensor,
}

/// The hub's record after an event, and the message it sends: a record
/// from BLE or from the sensor station replaces the hub's own and goes on
/// to the server; a request from the server goes on to the sensor station;
/// anything else is dropped.
pub open spec fn spec_hub_route(data: MeteoData, event: HubEvent) -> (MeteoData, Option<(Peer, UartMessage)>) {
    match event {
        HubEvent::BleSnapshot(snapshot) => (snapshot, Some((Peer::Server, UartMessage::Data(snapshot)))),
        HubEvent::FromServer(UartMessage::AskData) => (data, Some((Peer::Sensor, UartMessage::AskData))),
        HubEvent::FromServer(UartMessage::Data(_)) => (data, None),
        HubEvent::FromSensor(UartMessage::Data(record)) => (record, Some((Peer::Server, UartMessage::Data(record)))),
        HubEvent::FromSensor(UartMessage::AskData) => (data, None),
    }
}

/// One step of the hub's main loop.
pub fn hub_route(data: &mut MeteoData, event: HubEvent) -> (out: Option<(Peer, UartMessage)>)
    ensures
        (*final(data), out) == spec_hub_route(*old(data), event),
        event matches HubEvent::BleSnapshot(s) ==> *final(data) == s && out == Some(
            (Peer::Server, UartMessage::Data(s)),
        ),
        event matches HubEvent::FromSensor(UartMessage::Data(r)) ==> *final(data) == r && out == Some(
            (Peer::Server, UartMessage::Data(r)),
        ),
        event == HubEvent::FromServer(UartMessage::AskData) ==> *final(data) == *old(data) && out == Some(
            (Peer::Sensor, UartMessage::AskData),
        ),
        event matches HubEvent::FromServer(UartMessage::Data(_)) ==> *final(data) == *old(data) && out is None,
        event == HubEvent::FromSensor(UartMessage::AskData) ==> *final(data) == *old(data) && out is None,
{
    match event {
        HubEvent::BleSnapshot(snapshot) => {
            *data = snapshot;
            Some((Peer::Server, UartMessage::Data(snapshot)))
        },
        HubEvent::FromServer(UartMessage::AskData) => Some((Peer::Sensor, UartMessage::AskData)),
        HubEvent::FromServer(UartMessage::Data(_)) => None,
        HubEvent::FromSensor(UartMessage::Data(record)) => {
            *data = record;
            Some((Peer::Server, UartMessage::Data(record)))
        },
        HubEvent::FromSensor(UartMessage::AskData) => None,
    }
}

/// A record that reaches the hub, from BLE or from the sensor station,
/// becomes the hub's record, every field of it, and goes to the server as
/// it came, whatever the hub held before; a request from the server goes
/// to the sensor station and leaves the record alone.
pub proof fn law_records_replace_and_forward(data: MeteoData, record: MeteoData)
    ensures
        spec_hub_route(data, HubEvent::BleSnapshot(record)) == (
            record,
            Some((Peer::Server, UartMessage::Data(record))),
        ),
        spec_hub_route(data, HubEvent::FromSensor(UartMessage::Data(record))) == (
            record,
            Some((Peer::Server, UartMessage::Data(record))),
        ),
        spec_hub_route(data, HubEvent::FromServer(UartMessage::AskData)) == (
            data,
            Some((Peer::Sensor, UartMessage::AskData)),
        ),
        spec_hub_route(data, HubEvent::FromServer(UartMessage::Data(record))) == (data, None::<(Peer, UartMessage)>),
        spec_hub_route(data, HubEvent::FromSensor(UartMessage::AskData)) == (data, None::<(Peer, UartMessage)>),
{
}

/// Every record the hub takes in, it keeps and forwards unchanged to the
/// server, and only records go to the server.
pub proof fn law_hub_forwards_records(data: MeteoData, event: HubEvent)
    ensures
        ({
            let (next, out) = spec_hub_route(data, event);
            &&& out matches Some((Peer::Server, m)) ==> m == UartMessage::Data(next)
            &&& out matches Some((Peer::Sensor, m)) ==> m == UartMessage::AskData && next == data
            &&& out is None ==> next == data
        }),
{
}

/// A request from the server is answered with the sensor station's current
/// record: the hub passes the request to the sensor station, the station
/// answers with its record, and the hub keeps that record and sends it to
/// the server.
pub proof fn law_request_answered_with_sensor_record(hub_data: MeteoData, sensor_data: MeteoData)
    ensures
        ({
            let (held, to_sensor) = spec_hub_route(hub_data, HubEvent::FromServer(UartMessage::AskData));
            &&& to_sensor == Some((Peer::Sensor, UartMessage::AskData))
            &&& spec_reply_to_hub(sensor_data, UartMessage::AskData) == Some(UartMessage::Data(sensor_data))
            &&& spec_hub_route(held, HubEvent::FromSensor(UartMessage::Data(sensor_data))) == (
                sensor_data,
                Some((Peer::Server, UartMessage::Data(sensor_data))),
            )
        }),
{
}

} // verus!
