//! Decisions of the sensor station's main loop.
use vstd::prelude::*;
use crate::sensor::sensors::SensorDataUpdate;
use crate::shared::data::MeteoData;
use crate::shared::uart::UartMessage;

verus! {

/// The record after one instrument update: the field that the update names
/// takes its value, every other field keeps its own.
pub open spec fn spec_apply_update(data: MeteoData, update: SensorDataUpdate) -> MeteoData {
    match update {
        SensorDataUpdate::Temperature { temperature } => MeteoData { temperature, ..data },
        SensorDataUpdate::Humidity { humidity } => MeteoData { humidity, ..data },
        SensorDataUpdate::Pressure { pressure } => MeteoData { pressure, ..data },
        SensorDataUpdate::Light { level } => MeteoData { light_level: level, ..data },
        SensorDataUpdate::WindDirection { direction_bits } => MeteoData {
            wind_direction_bits: direction_bits,
            ..data
        },
        SensorDataUpdate::WindSpeed { speed_bits } => MeteoData { wind_speed_bits: speed_bits, ..data },
        SensorDataUpdate::Precipitation { mm_bits } => MeteoData { precipitation_bits: mm_bits, ..data },
    }
}

/// Folds one instrument update into the station's current record.
pub fn apply_update(data: &mut MeteoData, update: SensorDataUpdate)
    ensures
        *final(data) == spec_apply_update(*old(data), update),
        field_of(*final(data), update_slot(update)) == update_value(update),
        forall|k: int|
            0 <= k < 7 && k != update_slot(update) ==> field_of(*final(data), k) == field_of(*old(data), k),
{
    proof {
        law_update_sets_its_field(*data, update);
    }
    match update {
        SensorDataUpdate::Temperature { temperature } => data.temperature = temperature,
        SensorDataUpdate::Humidity { humidity } => data.humidity = humidity,
        SensorDataUpdate::Pressure { pressure } => data.pressure = pressure,
        SensorDataUpdate::Light { level } => data.light_level = level,
        SensorDataUpdate::WindDirection { direction_bits } => data.wind_direction_bits = direction_bits,
        SensorDataUpdate::WindSpeed { speed_bits } => data.wind_speed_bits = speed_bits,
        SensorDataUpdate::Precipitation { mm_bits } => data.precipitation_bits = mm_bits,
    }
}

/// Which field of the record an update writes, numbered in declaration order.
pub open spec fn update_slot(update: SensorDataUpdate) -> int {
    match update {
        SensorDataUpdate::Temperature { .. } => 0,
        SensorDataUpdate::Humidity { .. } => 1,
        SensorDataUpdate::Pressure { .. } => 2,
        SensorDataUpdate::Light { .. } => 3,
        SensorDataUpdate::WindDirection { .. } => 4,
        SensorDataUpdate::WindSpeed { .. } => 5,
        SensorDataUpdate::Precipitation { .. } => 6,
    }
}

/// The value an update carries, as an integer (bit patterns for the
/// floating-point quantities).
pub open spec fn update_value(update: SensorDataUpdate) -> int {
    match update {
        SensorDataUpdate::Temperature { temperature } => temperature as int,
        SensorDataUpdate::Humidity { humidity } => humidity as int,
        SensorDataUpdate::Pressure { pressure } => pressure as int,
        SensorDataUpdate::Light { level } => level as int,
        SensorDataUpdate::WindDirection { direction_bits } => direction_bits as int,
        SensorDataUpdate::WindSpeed { speed_bits } => speed_bits as int,
        SensorDataUpdate::Precipitation { mm_bits } => mm_bits as int,
    }
}

/// Field number `k` of a record (in the numbering of [`update_slot`]).
pub open spec fn field_of(data: MeteoData, k: int) -> int {
    if k == 0 {
        data.temperature as int
    } else if k == 1 {
        data.humidity as int
    } else if k == 2 {
        data.pressure as int
    } else if k == 3 {
        data.light_level as int
    } else if k == 4 {
        data.wind_direction_bits as int
    } else if k == 5 {
        data.wind_speed_bits as int
    } else {
        data.precipitation_bits as int
    }
}

/// After an update, the field it names holds the update's value, whatever
/// that value is, and every other field holds what it held before.
pub proof fn law_update_sets_its_field(data: MeteoData, update: SensorDataUpdate)
    ensures
        field_of(spec_apply_update(data, update), update_slot(update)) == update_value(update),
        forall|k: int|
            0 <= k < 7 && k != update_slot(update) ==> field_of(spec_apply_update(data, update), k)
                == field_of(data, k),
{
}

/// Applying an update a second time changes nothing.
pub proof fn law_update_idempotent(data: MeteoData, update: SensorDataUpdate)
    ensures
        spec_apply_update(spec_apply_update(data, update), update) == spec_apply_update(data, update),
{
}

/// Updates of different instruments do not interfere: they may be applied
/// in either order.
pub proof fn law_updates_commute(data: MeteoData, u: SensorDataUpdate, v: SensorDataUpdate)
    requires
        update_slot(u) != update_slot(v),
    ensures
        spec_apply_update(spec_apply_update(data, u), v) == spec_apply_update(spec_apply_update(data, v), u),
{
}

/// The sensor station's answer to a message from the hub: a request for
/// data is answered with the current record; anything else gets no answer.
pub open spec fn spec_reply_to_hub(data: MeteoData, message: UartMessage) -> Option<UartMessage> {
    match message {
        UartMessage::AskData => Some(UartMessage::Data(data)),
        UartMessage::Data(_) => None,
    }
}

/// Answers a message from the hub.
pub fn reply_to_hub(data: &MeteoData, message: &UartMessage) -> (reply: Option<UartMessage>)
    ensures
        reply == spec_reply_to_hub(*data, *message),
        *message == UartMessage::AskData ==> reply == Some(UartMessage::Data(*data)),
        *message != UartMessage::AskData ==> reply is None,
{
    match message {
        UartMessage::AskData => Some(UartMessage::Data(*data)),
        UartMessage::Data(_) => None,
    }
}

} // verus!
