//! The hub's BLE side: decoding characteristic values into a weather
//! record, and the decisions of its connection loop.
use vstd::prelude::*;
use crate::shared::data::MeteoData;

verus! {

/// A little-endian 32-bit word.
pub open spec fn spec_le_u32(b: Seq<u8>) -> u32
    recommends
        b.len() == 4,
{
    (b[0] + b[1] * 0x100 + b[2] * 0x1_0000 + b[3] * 0x100_0000) as u32
}

/// Reads a characteristic value of exactly four bytes as a little-endian
/// `u32`; any other length gives `None`.
pub fn decode_u32(value: &[u8]) -> (r: Option<u32>)
    ensures
        value@.len() == 4 ==> r == Some(spec_le_u32(value@)),
        value@.len() != 4 ==> r is None,
        r matches Some(x) ==> x % 0x100 == value@[0] && (x / 0x100) % 0x100 == value@[1] && (x / 0x1_0000)
            % 0x100 == value@[2] && x / 0x100_0000 == value@[3],
{
    if value.len() != 4 {
        return None;
    }
    let w = (value[0] as u32) + (value[1] as u32) * 0x100 + (value[2] as u32) * 0x1_0000 + (value[3] as u32)
        * 0x100_0000;
    Some(w)
}

/// A byte read as a two's-complement `i8`.
pub open spec fn spec_u8_as_i8(b: u8) -> i8 {
    if b < 128 {
        b as i8
    } else {
        (b - 256) as i8
    }
}

/// The characteristics of the environmental sensing service that make up
/// a snapshot, in the order in which the hub reads them.
#[derive(Debug, Clone, Copy, PartialEq, Eq, Structural)]
pub enum MeteoField {
    LightLevel,
    Temperature,
    Humidity,
    Pressure,
    Precipitation,
    WindDirection,
    WindSpeed,
}

/// Size in bytes of a characteristic's value.
pub open spec fn spec_field_width(field: MeteoField) -> usize {
    match field {
        MeteoField::LightLevel | MeteoField::Temperature | MeteoField::Humidity => 1,
        _ => 4,
    }
}

impl MeteoField {
    /// Size in bytes of this characteristic's value.
    pub fn width(self) -> (w: usize)
        ensures
            w == spec_field_width(self),
            (self == MeteoField::LightLevel || self == MeteoField::Temperature || self == MeteoField::Humidity)
                ==> w == 1,
            (self == MeteoField::Pressure || self == MeteoField::Precipitation || self == MeteoField::WindDirection
                || self == MeteoField::WindSpeed) ==> w == 4,
    {
        match self {
            MeteoField::LightLevel | MeteoField::Temperature | MeteoField::Humidity => 1,
            _ => 4,
        }
    }
}

/// The record after one characteristic read: when the read returned
/// exactly the value's size, `buf` holds the value and the field takes it
/// (a byte, a byte as `i8`, or a little-endian word); after a failed or
/// short read the record stays as it was.
pub open spec fn spec_apply_read(data: MeteoData, field: MeteoField, read: Option<usize>, buf: Seq<u8>) -> MeteoData {
    if read == Some(spec_field_width(field)) {
        match field {
            MeteoField::LightLevel => MeteoData { light_level: buf[0], ..data },
            MeteoField::Temperature => MeteoData { temperature: spec_u8_as_i8(buf[0]), ..data },
            MeteoField::Humidity => MeteoData { humidity: buf[0], ..data },
            MeteoField::Pressure => MeteoData { pressure: spec_le_u32(buf), ..data },
            MeteoField::Precipitation => MeteoData { precipitation_bits: spec_le_u32(buf), ..data },
            MeteoField::WindDirection => MeteoData { wind_direction_bits: spec_le_u32(buf), ..data },
            MeteoField::WindSpeed => MeteoData { wind_speed_bits: spec_le_u32(buf), ..data },
        }
    } else {
        data
    }
}

/// Folds the outcome of one characteristic read into the snapshot being
/// built: `read` is the length the read reported (`None` when it failed),
/// `buf` the value buffer of the characteristic's size.
pub fn apply_read(snapshot: &mut MeteoData, field: MeteoField, read: Option<usize>, buf: &[u8])
    requires
        buf@.len() == spec_field_width(field),
    ensures
        *final(snapshot) == spec_apply_read(*old(snapshot), field, read, buf@),
        read != Some(buf@.len() as usize) ==> *final(snapshot) == *old(snapshot),
        read == Some(buf@.len() as usize) ==> match field {
            MeteoField::LightLevel => *final(snapshot) == MeteoData { light_level: buf@[0], ..*old(snapshot) },
            MeteoField::Temperature => final(snapshot).temperature as u8 == buf@[0] && *final(snapshot)
                == MeteoData { temperature: final(snapshot).temperature, ..*old(snapshot) },
            MeteoField::Humidity => *final(snapshot) == MeteoData { humidity: buf@[0], ..*old(snapshot) },
            MeteoField::Pressure => *final(snapshot) == MeteoData { pressure: spec_le_u32(buf@), ..*old(snapshot) },
            MeteoField::Precipitation => *final(snapshot) == MeteoData {
                precipitation_bits: spec_le_u32(buf@),
                ..*old(snapshot)
            },
            MeteoField::WindDirection => *final(snapshot) == MeteoData {
                wind_direction_bits: spec_le_u32(buf@),
                ..*old(snapshot)
            },
            MeteoField::WindSpeed => *final(snapshot) == MeteoData {
                wind_speed_bits: spec_le_u32(buf@),
                ..*old(snapshot)
            },
        },
{
    let width = field.width();
    match read {
        Some(n) => {
            if n != width {
                return;
            }
        },
        None => {
            return;
        },
    }
    match field {
        MeteoField::LightLevel => snapshot.light_level = buf[0],
        MeteoField::Temperature => {
            let b = buf[0];
            let t = b as i8;
            assert(t == spec_u8_as_i8(b) && t as u8 == b) by (bit_vector)
                requires
                    t == b as i8,
            ;
            snapshot.temperature = t;
        },
        MeteoField::Humidity => snapshot.humidity = buf[0],
        _ => {
            if let Some(value) = decode_u32(buf) {
                match field {
                    MeteoField::Pressure => snapshot.pressure = value,
                    MeteoField::Precipitation => snapshot.precipitation_bits = value,
                    MeteoField::WindDirection => snapshot.wind_direction_bits = value,
                    _ => snapshot.wind_speed_bits = value,
                }
            }
        },
    }
}

/// The little-endian bytes of a word.
pub open spec fn spec_le_bytes(x: u32) -> Seq<u8> {
    seq![(x % 0x100) as u8, ((x / 0x100) % 0x100) as u8, ((x / 0x1_0000) % 0x100) as u8, (x / 0x100_0000) as u8]
}

/// A word that the sensor station publishes in little-endian order, and a
/// temperature that it publishes as its two's-complement byte, read back
/// as they were written.
pub proof fn law_characteristic_values_roundtrip(x: u32, t: i8)
    ensures
        spec_le_u32(spec_le_bytes(x)) == x,
        spec_u8_as_i8(t as u8) == t,
{
    assert(spec_u8_as_i8(t as u8) == t) by (bit_vector);
}

/// Seconds the hub waits before it tries to connect again.
pub const RETRY_DELAY_SECS: u64 = 2;

/// Where the hub's connection to the sensor station stands.
#[derive(Debug, Clone, Copy, PartialEq, Eq, Structural)]
pub enum LinkState {
    /// A connection attempt is under way.
    Connecting,
    /// Connected; the GATT client is being created.
    CreatingClient,
    /// The client looks for the environmental sensing service.
    Discovering,
    /// Subscribed to update notifications.
    Listening,
}

/// What the BLE stack reported.
#[derive(Debug, Clone, Copy, PartialEq, Eq, Structural)]
pub enum LinkEvent {
    Connected,
    ConnectFailed,
    ClientCreated,
    ClientFailed,
    /// The service was found; its characteristics are looked up and the
    /// update characteristic subscribed to.
    ServiceFound,
    /// Service discovery failed, or found no such service.
    ServiceUnavailable,
    /// An update notification arrived.
    Notification,
    /// The peer disconnected.
    Disconnected,
    /// Another connection event.
    OtherConnectionEvent,
    /// The GATT client's task returned.
    ClientTaskEnded,
}

/// What the hub does next.
#[derive(Debug, Clone, Copy, PartialEq, Eq, Structural)]
pub enum LinkAction {
    /// Start a connection attempt.
    Connect,
    /// Wait [`RETRY_DELAY_SECS`], then start a connection attempt.
    RetryAfterDelay,
    /// Create the GATT client.
    CreateClient,
    /// Look for the environmental sensing service.
    DiscoverService,
    /// Look up the characteristics and subscribe to updates.
    Subscribe,
    /// Read every characteristic and publish the snapshot.
    ReadSnapshot,
    /// Disconnect, wait [`RETRY_DELAY_SECS`], then start a connection attempt.
    DisconnectAndRetry,
    /// Nothing.
    Idle,
}

/// The hub's connection loop as a table: the state and action after an
/// event. An event that cannot occur in a state leaves it unchanged.
pub open spec fn spec_link_step(state: LinkState, event: LinkEvent) -> (LinkState, LinkAction) {
    match (state, event) {
        (LinkState::Connecting, LinkEvent::Connected) => (LinkState::CreatingClient, LinkAction::CreateClient),
        (LinkState::Connecting, LinkEvent::ConnectFailed) => (LinkState::Connecting, LinkAction::RetryAfterDelay),
        (LinkState::CreatingClient, LinkEvent::ClientCreated) => (LinkState::Discovering, LinkAction::DiscoverService),
        (LinkState::CreatingClient, LinkEvent::ClientFailed) => (LinkState::Connecting, LinkAction::DisconnectAndRetry),
        (LinkState::Discovering, LinkEvent::ServiceFound) => (LinkState::Listening, LinkAction::Subscribe),
        (LinkState::Discovering, LinkEvent::ServiceUnavailable) => (LinkState::Connecting, LinkAction::DisconnectAndRetry),
        (LinkState::Discovering, LinkEvent::ClientTaskEnded) => (LinkState::Connecting, LinkAction::DisconnectAndRetry),
        (LinkState::Listening, LinkEvent::Notification) => (LinkState::Listening, LinkAction::ReadSnapshot),
        (LinkState::Listening, LinkEvent::OtherConnectionEvent) => (LinkState::Listening, LinkAction::Idle),
        (LinkState::Listening, LinkEvent::Disconnected) => (LinkState::Connecting, LinkAction::DisconnectAndRetry),
        (LinkState::Listening, LinkEvent::ClientTaskEnded) => (LinkState::Connecting, LinkAction::DisconnectAndRetry),
        _ => (state, LinkAction::Idle),
    }
}

/// The state in which the loop starts, and its first action.
pub fn link_start() -> (r: (LinkState, LinkAction))
    ensures
        r == (LinkState::Connecting, LinkAction::Connect),
{
    (LinkState::Connecting, LinkAction::Connect)
}

/// One decision of the hub's connection loop.
pub fn link_step(state: LinkState, event: LinkEvent) -> (r: (LinkState, LinkAction))
    ensures
        r == spec_link_step(state, event),
        is_failure_in(state, event) && state == LinkState::Connecting ==> r == (
            LinkState::Connecting,
            LinkAction::RetryAfterDelay,
        ),
        is_failure_in(state, event) && state != LinkState::Connecting ==> r == (
            LinkState::Connecting,
            LinkAction::DisconnectAndRetry,
        ),
        state == LinkState::Connecting && event == LinkEvent::Connected ==> r == (
            LinkState::CreatingClient,
            LinkAction::CreateClient,
        ),
        state == LinkState::CreatingClient && event == LinkEvent::ClientCreated ==> r == (
            LinkState::Discovering,
            LinkAction::DiscoverService,
        ),
        state == LinkState::Discovering && event == LinkEvent::ServiceFound ==> r == (
            LinkState::Listening,
            LinkAction::Subscribe,
        ),
        state == LinkState::Listening && event == LinkEvent::Notification ==> r == (
            LinkState::Listening,
            LinkAction::ReadSnapshot,
        ),
        state == LinkState::Listening && event == LinkEvent::OtherConnectionEvent ==> r == (
            LinkState::Listening,
            LinkAction::Idle,
        ),
{
    match (state, event) {
        (LinkState::Connecting, LinkEvent::Connected) => (LinkState::CreatingClient, LinkAction::CreateClient),
        (LinkState::Connecting, LinkEvent::ConnectFailed) => (LinkState::Connecting, LinkAction::RetryAfterDelay),
        (LinkState::CreatingClient, LinkEvent::ClientCreated) => (LinkState::Discovering, LinkAction::DiscoverService),
        (LinkState::CreatingClient, LinkEvent::ClientFailed) => (LinkState::Connecting, LinkAction::DisconnectAndRetry),
        (LinkState::Discovering, LinkEvent::ServiceFound) => (LinkState::Listening, LinkAction::Subscribe),
        (LinkState::Discovering, LinkEvent::ServiceUnavailable) => (LinkState::Connecting, LinkAction::DisconnectAndRetry),
        (LinkState::Discovering, LinkEvent::ClientTaskEnded) => (LinkState::Connecting, LinkAction::DisconnectAndRetry),
        (LinkState::Listening, LinkEvent::Notification) => (LinkState::Listening, LinkAction::ReadSnapshot),
        (LinkState::Listening, LinkEvent::OtherConnectionEvent) => (LinkState::Listening, LinkAction::Idle),
        (LinkState::Listening, LinkEvent::Disconnected) => (LinkState::Connecting, LinkAction::DisconnectAndRetry),
        (LinkState::Listening, LinkEvent::ClientTaskEnded) => (LinkState::Connecting, LinkAction::DisconnectAndRetry),
        _ => (state, LinkAction::Idle),
    }
}

/// Whether `event` is a failure that can occur in `state`: the connection
/// attempt fails; the client cannot be created; the service cannot be
/// found; the client task ends while the client is in use; the peer
/// disconnects while subscribed.
pub open spec fn is_failure_in(state: LinkState, event: LinkEvent) -> bool {
    ||| state == LinkState::Connecting && event == LinkEvent::ConnectFailed
    ||| state == LinkState::CreatingClient && event == LinkEvent::ClientFailed
    ||| state == LinkState::Discovering && event == LinkEvent::ServiceUnavailable
    ||| state == LinkState::Discovering && event == LinkEvent::ClientTaskEnded
    ||| state == LinkState::Listening && event == LinkEvent::Disconnected
    ||| state == LinkState::Listening && event == LinkEvent::ClientTaskEnded
}

/// Every failure that can occur in a state restarts the loop: a failed
/// connection attempt is retried after the delay, and any failure once
/// connected disconnects, waits and starts connecting again.
pub proof fn law_every_failure_restarts(state: LinkState, event: LinkEvent)
    requires
        is_failure_in(state, event),
    ensures
        state == LinkState::Connecting ==> spec_link_step(state, event) == (
            LinkState::Connecting,
            LinkAction::RetryAfterDelay,
        ),
        state != LinkState::Connecting ==> spec_link_step(state, event) == (
            LinkState::Connecting,
            LinkAction::DisconnectAndRetry,
        ),
{
}

/// Each success moves the loop one stage on: connected, the client is
/// created; created, the service is looked for; found, the hub subscribes;
/// subscribed, every notification reads a snapshot and other connection
/// events change nothing.
pub proof fn law_successes_advance(state: LinkState, event: LinkEvent)
    ensures
        state == LinkState::Connecting && event == LinkEvent::Connected ==> spec_link_step(state, event) == (
            LinkState::CreatingClient,
            LinkAction::CreateClient,
        ),
        state == LinkState::CreatingClient && event == LinkEvent::ClientCreated ==> spec_link_step(state, event)
            == (LinkState::Discovering, LinkAction::DiscoverService),
        state == LinkState::Discovering && event == LinkEvent::ServiceFound ==> spec_link_step(state, event) == (
            LinkState::Listening,
            LinkAction::Subscribe,
        ),
        state == LinkState::Listening && event == LinkEvent::Notification ==> spec_link_step(state, event) == (
            LinkState::Listening,
            LinkAction::ReadSnapshot,
        ),
        state == LinkState::Listening && event == LinkEvent::OtherConnectionEvent ==> spec_link_step(
            state,
            event,
        ) == (LinkState::Listening, LinkAction::Idle),
{
}

/// Whether an event reports that the link failed or went away.
pub open spec fn is_failure(event: LinkEvent) -> bool {
    match event {
        LinkEvent::ConnectFailed | LinkEvent::ClientFailed | LinkEvent::ServiceUnavailable
        | LinkEvent::Disconnected | LinkEvent::ClientTaskEnded => true,
        _ => false,
    }
}

/// Whatever fails, the hub starts over: a failure that the current state
/// acts on leads back to `Connecting` with a delayed retry (after
/// disconnecting when a connection was up).
pub proof fn law_failures_reconnect(state: LinkState, event: LinkEvent)
    requires
        is_failure(event),
        spec_link_step(state, event).1 != LinkAction::Idle,
    ensures
        spec_link_step(state, event).0 == LinkState::Connecting,
        spec_link_step(state, event).1 == LinkAction::RetryAfterDelay || spec_link_step(state, event).1
            == LinkAction::DisconnectAndRetry,
{
}

/// A snapshot is read only when subscribed, on an update notification, and
/// reading it keeps the subscription.
pub proof fn law_snapshot_only_on_notification(state: LinkState, event: LinkEvent)
    ensures
        spec_link_step(state, event).1 == LinkAction::ReadSnapshot <==> (state == LinkState::Listening
            && event == LinkEvent::Notification),
        spec_link_step(state, event).1 == LinkAction::ReadSnapshot ==> spec_link_step(state, event).0
            == LinkState::Listening,
{
}

} // verus!
