//! The night light: whether it is on, and its colour temperature.

use vstd::prelude::*;
use crate::store::{
    get_bool, get_unsigned, place, reset, set_bool, set_unsigned, BoolQuery, StoreRequest,
    StoreRequestView, UnsignedQuery,
};
use crate::text::{text_of_bool, text_of_unsigned};

verus! {

/// The read of whether the night light is on.
pub fn get_nightlight_active() -> (query: BoolQuery)
    ensures
        query.at@ == place("org.gnome.settings-daemon.plugins.color"@, "night-light-enabled"@),
{
    get_bool("org.gnome.settings-daemon.plugins.color", "night-light-enabled")
}

/// The request that turns the night light on or off.
pub fn set_nightlight_active(active: bool) -> (request: StoreRequest)
    ensures
        request@ == StoreRequestView::Write(
            place("org.gnome.settings-daemon.plugins.color"@, "night-light-enabled"@),
            text_of_bool(active),
        ),
{
    set_bool("org.gnome.settings-daemon.plugins.color", "night-light-enabled", active)
}

/// The read of the night light's colour temperature.
pub fn get_temperature() -> (query: UnsignedQuery)
    ensures
        query.at@ == place("org.gnome.settings-daemon.plugins.color"@, "night-light-temperature"@),
{
    get_unsigned("org.gnome.settings-daemon.plugins.color", "night-light-temperature")
}

/// The request that puts the default colour temperature back.
pub fn reset_temperature() -> (request: StoreRequest)
    ensures
        request@ == StoreRequestView::Reset(place("org.gnome.settings-daemon.plugins.color"@, "night-light-temperature"@)),
{
    reset("org.gnome.settings-daemon.plugins.color", "night-light-temperature")
}

/// The request that sets the night light's colour temperature.
pub fn set_temperature(temperature: u32) -> (request: StoreRequest)
    ensures
        request@ == StoreRequestView::Write(
            place("org.gnome.settings-daemon.plugins.color"@, "night-light-temperature"@),
            text_of_unsigned(temperature),
        ),
{
    set_unsigned("org.gnome.settings-daemon.plugins.color", "night-light-temperature", temperature)
}

} // verus!
