//! Settings of the keyboard, the mouse and the touchpad.

use vstd::prelude::*;
use crate::store::{
    get_bool, get_unsigned, place, reset, set_bool, set_unsigned, BoolQuery, StoreRequest,
    StoreRequestView, UnsignedQuery,
};
use crate::text::{text_of_bool, text_of_unsigned};

verus! {

/// The request that sets the delay before a held key repeats.
pub fn set_keyboard_press_delay(delay: u32) -> (request: StoreRequest)
    ensures
        request@ == StoreRequestView::Write(
            place("org.gnome.desktop.peripherals.keyboard"@, "delay"@),
            text_of_unsigned(delay),
        ),
{
    set_unsigned("org.gnome.desktop.peripherals.keyboard", "delay", delay)
}

/// The read of the delay before a held key repeats.
pub fn get_keyboard_press_delay() -> (query: UnsignedQuery)
    ensures
        query.at@ == place("org.gnome.desktop.peripherals.keyboard"@, "delay"@),
{
    get_unsigned("org.gnome.desktop.peripherals.keyboard", "delay")
}

/// The request that puts the default delay before a held key repeats back.
pub fn reset_keyboard_press_delay() -> (request: StoreRequest)
    ensures
        request@ == StoreRequestView::Reset(place("org.gnome.desktop.peripherals.keyboard"@, "delay"@)),
{
    reset("org.gnome.desktop.peripherals.keyboard", "delay")
}

/// The request that sets the interval between repeats of a held key.
pub fn set_keyboard_repeat_interval(interval: u32) -> (request: StoreRequest)
    ensures
        request@ == StoreRequestView::Write(
            place("org.gnome.desktop.peripherals.keyboard"@, "repeat-interval"@),
            text_of_unsigned(interval),
        ),
{
    set_unsigned("org.gnome.desktop.peripherals.keyboard", "repeat-interval", interval)
}

/// The read of the interval between repeats of a held key.
pub fn get_keyboard_repeat_interval() -> (query: UnsignedQuery)
    ensures
        query.at@ == place("org.gnome.desktop.peripherals.keyboard"@, "repeat-interval"@),
{
    get_unsigned("org.gnome.desktop.peripherals.keyboard", "repeat-interval")
}

/// The request that puts the default interval between repeats back.
pub fn reset_keyboard_repeat_interval() -> (request: StoreRequest)
    ensures
        request@ == StoreRequestView::Reset(place("org.gnome.desktop.peripherals.keyboard"@, "repeat-interval"@)),
{
    reset("org.gnome.desktop.peripherals.keyboard", "repeat-interval")
}

/// The request that turns natural scrolling of the mouse on or off.
pub fn set_mouse_natural_scroll(enabled: bool) -> (request: StoreRequest)
    ensures
        request@ == StoreRequestView::Write(
            place("org.gnome.desktop.peripherals.mouse"@, "natural-scroll"@),
            text_of_bool(enabled),
        ),
{
    set_bool("org.gnome.desktop.peripherals.mouse", "natural-scroll", enabled)
}

/// The read of whether the mouse scrolls naturally.
pub fn get_mouse_natural_scroll() -> (query: BoolQuery)
    ensures
        query.at@ == place("org.gnome.desktop.peripherals.mouse"@, "natural-scroll"@),
{
    get_bool("org.gnome.desktop.peripherals.mouse", "natural-scroll")
}

/// The request that puts the default for natural scrolling back.
pub fn reset_mouse_natural_scroll() -> (request: StoreRequest)
    ensures
        request@ == StoreRequestView::Reset(place("org.gnome.desktop.peripherals.mouse"@, "natural-scroll"@)),
{
    reset("org.gnome.desktop.peripherals.mouse", "natural-scroll")
}

/// The request that turns tapping to click on or off.
pub fn set_touchpad_tap_to_click(enabled: bool) -> (request: StoreRequest)
    ensures
        request@ == StoreRequestView::Write(
            place("org.gnome.desktop.peripherals.touchpad"@, "tap-to-click"@),
            text_of_bool(enabled),
        ),
{
    set_bool("org.gnome.desktop.peripherals.touchpad", "tap-to-click", enabled)
}

/// The read of whether a tap on the touchpad clicks.
pub fn get_touchpad_tap_to_click() -> (query: BoolQuery)
    ensures
        query.at@ == place("org.gnome.desktop.peripherals.touchpad"@, "tap-to-click"@),
{
    get_bool("org.gnome.desktop.peripherals.touchpad", "tap-to-click")
}

/// The request that puts the default for tapping to click back.
pub fn reset_touchpad_tap_to_click() -> (request: StoreRequest)
    ensures
        request@ == StoreRequestView::Reset(place("org.gnome.desktop.peripherals.touchpad"@, "tap-to-click"@)),
{
    reset("org.gnome.desktop.peripherals.touchpad", "tap-to-click")
}

/// The request that turns scrolling with two fingers on or off.
pub fn set_two_finger_scroll(enabled: bool) -> (request: StoreRequest)
    ensures
        request@ == StoreRequestView::Write(
            place("org.gnome.desktop.peripherals.touchpad"@, "two-finger-scrolling-enabled"@),
            text_of_bool(enabled),
        ),
{
    set_bool("org.gnome.desktop.peripherals.touchpad", "two-finger-scrolling-enabled", enabled)
}

/// The read of whether two fingers scroll.
pub fn get_two_finger_scroll() -> (query: BoolQuery)
    ensures
        query.at@ == place("org.gnome.desktop.peripherals.touchpad"@, "two-finger-scrolling-enabled"@),
{
    get_bool("org.gnome.desktop.peripherals.touchpad", "two-finger-scrolling-enabled")
}

/// The request that puts the default for scrolling with two fingers back.
pub fn reset_two_finger_scroll() -> (request: StoreRequest)
    ensures
        request@ == StoreRequestView::Reset(place("org.gnome.desktop.peripherals.touchpad"@, "two-finger-scrolling-enabled"@)),
{
    reset("org.gnome.desktop.peripherals.touchpad", "two-finger-scrolling-enabled")
}

} // verus!
